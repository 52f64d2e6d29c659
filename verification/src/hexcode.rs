//! Verified decoding of hexadecimal byte strings, used for literal
//! addresses, literal bytecode, and push operands of the assembler.

use vstd::prelude::*;

verus! {

pub open spec fn is_hex_digit(b: u8) -> bool {
    (0x30 <= b && b <= 0x39) || (0x61 <= b && b <= 0x66) || (0x41 <= b && b <= 0x46)
}

/// The numeric value of one hexadecimal digit.
pub open spec fn hex_digit_value(b: u8) -> u8
    recommends
        is_hex_digit(b),
{
    if 0x30 <= b && b <= 0x39 {
        (b - 0x30) as u8
    } else if 0x61 <= b && b <= 0x66 {
        (b - 0x61 + 10) as u8
    } else {
        (b - 0x41 + 10) as u8
    }
}

/// The byte written as the two hexadecimal digits `hi` `lo`.
pub open spec fn hex_pair_value(hi: u8, lo: u8) -> u8
    recommends
        is_hex_digit(hi),
        is_hex_digit(lo),
{
    (hex_digit_value(hi) * 16 + hex_digit_value(lo)) as u8
}

/// The bytes denoted by a hexadecimal string: two digits per byte, upper or
/// lower case, no prefix. `None` when the length is odd or a character is
/// not a hexadecimal digit. The empty string denotes the empty byte string.
pub open spec fn spec_hex_decode(s: Seq<u8>) -> Option<Seq<u8>>
    decreases s.len(),
{
    if s.len() == 0 {
        Some(Seq::empty())
    } else if s.len() == 1 {
        None
    } else if is_hex_digit(s[0]) && is_hex_digit(s[1]) {
        match spec_hex_decode(s.skip(2)) {
            Some(rest) => Some(seq![hex_pair_value(s[0], s[1])] + rest),
            None => None,
        }
    } else {
        None
    }
}

fn hex_digit(b: u8) -> (r: Option<u8>)
    ensures
        r is Some <==> is_hex_digit(b),
        r matches Some(v) ==> v == hex_digit_value(b),
{
    if 0x30 <= b && b <= 0x39 {
        Some(b - 0x30)
    } else if 0x61 <= b && b <= 0x66 {
        Some(b - 0x61 + 10)
    } else if 0x41 <= b && b <= 0x46 {
        Some(b - 0x41 + 10)
    } else {
        None
    }
}

proof fn lemma_skip_skip(s: Seq<u8>, a: int, b: int)
    requires
        0 <= a,
        0 <= b,
        a + b <= s.len(),
    ensures
        s.skip(a).skip(b) =~= s.skip(a + b),
{
}

/// Decode a hexadecimal byte string.
pub fn hex_decode(s: &[u8]) -> (r: Option<Vec<u8>>)
    ensures
        r matches Some(v) ==> spec_hex_decode(s@) == Some(v@),
        r is None ==> spec_hex_decode(s@) is None,
{
    let n = s.len();
    if n % 2 != 0 {
        proof {
            lemma_hex_decode_odd(s@);
        }
        return None;
    }
    let mut out: Vec<u8> = Vec::new();
    let mut i: usize = 0;
    assert(s@.skip(0) =~= s@);
    while i < n
        invariant
            n == s@.len(),
            n % 2 == 0,
            i % 2 == 0,
            0 <= i <= n,
            spec_hex_decode(s@) matches Some(full) ==> spec_hex_decode(s@.skip(i as int))
                matches Some(rest) && full == out@ + rest,
            spec_hex_decode(s@) is None ==> spec_hex_decode(s@.skip(i as int)) is None,
        decreases n - i,
    {
        let hi = hex_digit(s[i]);
        let lo = hex_digit(s[i + 1]);
        proof {
            lemma_skip_skip(s@, i as int, 2);
        }
        match (hi, lo) {
            (Some(h), Some(l)) => {
                out.push(h * 16 + l);
            },
            _ => {
                assert(spec_hex_decode(s@.skip(i as int)) is None);
                return None;
            },
        }
        i = i + 2;
    }
    assert(s@.skip(n as int) =~= Seq::<u8>::empty());
    assert(spec_hex_decode(s@) matches Some(full) ==> full == out@ + Seq::<u8>::empty() && full
        =~= out@);
    Some(out)
}

/// A string of odd length denotes nothing.
proof fn lemma_hex_decode_odd(s: Seq<u8>)
    requires
        s.len() % 2 == 1,
    ensures
        spec_hex_decode(s) is None,
    decreases s.len(),
{
    if s.len() > 1 {
        lemma_hex_decode_odd(s.skip(2));
    }
}

} // verus!
