//! The bytecode assembler: maps textual opcode mnemonics, one instruction
//! per line, to raw bytecode.
//!
//! The source is treated as bytes. Lines are split on line feeds; within a
//! line, tokens are split on ASCII whitespace; the first token is the
//! opcode (case-insensitive), and a `PUSHn` opcode takes a hexadecimal
//! operand as its second token, left-padded with zeros to `n` bytes.

use vstd::prelude::*;
use vstd::slice::slice_subrange;
use vstd::string::StringSliceAdditionalSpecFns;
use crate::hexcode::{hex_decode, spec_hex_decode};
use crate::nums::bytes_eq;

verus! {

/// The bytes of an ASCII string literal.
pub open spec fn lit(s: &str) -> Seq<u8> {
    s.spec_bytes()
}

/// ASCII whitespace inside a line.
pub open spec fn is_space(b: u8) -> bool {
    b == 0x20 || b == 0x09 || b == 0x0d || b == 0x0b || b == 0x0c
}

/// ASCII upper-casing of one byte.
pub open spec fn to_upper(b: u8) -> u8 {
    if 0x61 <= b && b <= 0x7a {
        (b - 0x20) as u8
    } else {
        b
    }
}

pub open spec fn upper_seq(s: Seq<u8>) -> Seq<u8> {
    s.map_values(|b: u8| to_upper(b))
}

pub open spec fn has_prefix(s: Seq<u8>, p: Seq<u8>) -> bool {
    p.len() <= s.len() && s.take(p.len() as int) == p
}

/// The source split at line feeds, with `cur` the line read so far.
pub open spec fn spec_lines_acc(s: Seq<u8>, cur: Seq<u8>) -> Seq<Seq<u8>>
    decreases s.len(),
{
    if s.len() == 0 {
        seq![cur]
    } else if s[0] == 0x0a {
        seq![cur] + spec_lines_acc(s.skip(1), Seq::empty())
    } else {
        spec_lines_acc(s.skip(1), cur.push(s[0]))
    }
}

pub open spec fn spec_lines(s: Seq<u8>) -> Seq<Seq<u8>> {
    spec_lines_acc(s, Seq::empty())
}

/// The line split at whitespace into non-empty tokens, with `cur` the token
/// read so far.
pub open spec fn spec_tokens_acc(s: Seq<u8>, cur: Seq<u8>) -> Seq<Seq<u8>>
    decreases s.len(),
{
    if s.len() == 0 {
        if cur.len() > 0 {
            seq![cur]
        } else {
            Seq::empty()
        }
    } else if is_space(s[0]) {
        if cur.len() > 0 {
            seq![cur] + spec_tokens_acc(s.skip(1), Seq::empty())
        } else {
            spec_tokens_acc(s.skip(1), Seq::empty())
        }
    } else {
        spec_tokens_acc(s.skip(1), cur.push(s[0]))
    }
}

pub open spec fn spec_tokens(s: Seq<u8>) -> Seq<Seq<u8>> {
    spec_tokens_acc(s, Seq::empty())
}

pub open spec fn is_dec_digit(b: u8) -> bool {
    0x30 <= b && b <= 0x39
}

pub open spec fn all_dec_digits(s: Seq<u8>) -> bool {
    forall|i: int| 0 <= i < s.len() ==> is_dec_digit(#[trigger] s[i])
}

/// The numeric value of a decimal digit string.
pub open spec fn dec_val(s: Seq<u8>) -> nat
    decreases s.len(),
{
    if s.len() == 0 {
        0
    } else {
        (dec_val(s.drop_last()) * 10 + (s.last() - 0x30)) as nat
    }
}

/// The numeric suffix of a prefixed opcode: defined only when non-empty and
/// all decimal digits.
pub open spec fn opcode_number(s: Seq<u8>) -> Option<nat> {
    if s.len() > 0 && all_dec_digits(s) {
        Some(dec_val(s))
    } else {
        None
    }
}

/// The single byte of an opcode without operands, tried before the
/// prefixed families.
pub open spec fn opcode_byte(op: Seq<u8>) -> Option<u8> {
    if op == lit("STOP") { Some(0x00u8) }
    else if op == lit("ADD") { Some(0x01u8) }
    else if op == lit("MUL") { Some(0x02u8) }
    else if op == lit("SUB") { Some(0x03u8) }
    else if op == lit("DIV") { Some(0x04u8) }
    else if op == lit("SDIV") { Some(0x05u8) }
    else if op == lit("MOD") { Some(0x06u8) }
    else if op == lit("SMOD") { Some(0x07u8) }
    else if op == lit("ADDMOD") { Some(0x08u8) }
    else if op == lit("MULMOD") { Some(0x09u8) }
    else if op == lit("EXP") { Some(0x0au8) }
    else if op == lit("SIGNEXTEND") { Some(0x0bu8) }
    else if op == lit("LT") { Some(0x10u8) }
    else if op == lit("GT") { Some(0x11u8) }
    else if op == lit("SLT") { Some(0x12u8) }
    else if op == lit("SGT") { Some(0x13u8) }
    else if op == lit("EQ") { Some(0x14u8) }
    else if op == lit("ISZERO") { Some(0x15u8) }
    else if op == lit("AND") { Some(0x16u8) }
    else if op == lit("OR") { Some(0x17u8) }
    else if op == lit("XOR") { Some(0x18u8) }
    else if op == lit("NOT") { Some(0x19u8) }
    else if op == lit("BYTE") { Some(0x1au8) }
    else if op == lit("SHL") { Some(0x1bu8) }
    else if op == lit("SHR") { Some(0x1cu8) }
    else if op == lit("SAR") { Some(0x1du8) }
    else if op == lit("SHA3") { Some(0x20u8) }
    else if op == lit("ADDRESS") { Some(0x30u8) }
    else if op == lit("BALANCE") { Some(0x31u8) }
    else if op == lit("ORIGIN") { Some(0x32u8) }
    else if op == lit("CALLER") { Some(0x33u8) }
    else if op == lit("CALLVALUE") { Some(0x34u8) }
    else if op == lit("CALLDATALOAD") { Some(0x35u8) }
    else if op == lit("CALLDATASIZE") { Some(0x36u8) }
    else if op == lit("CALLDATACOPY") { Some(0x37u8) }
    else if op == lit("CODESIZE") { Some(0x38u8) }
    else if op == lit("CODECOPY") { Some(0x39u8) }
    else if op == lit("GASPRICE") { Some(0x3au8) }
    else if op == lit("EXTCODESIZE") { Some(0x3bu8) }
    else if op == lit("EXTCODECOPY") { Some(0x3cu8) }
    else if op == lit("RETURNDATASIZE") { Some(0x3du8) }
    else if op == lit("RETURNDATACOPY") { Some(0x3eu8) }
    else if op == lit("EXTCODEHASH") { Some(0x3fu8) }
    else if op == lit("BLOCKHASH") { Some(0x40u8) }
    else if op == lit("COINBASE") { Some(0x41u8) }
    else if op == lit("TIMESTAMP") { Some(0x42u8) }
    else if op == lit("NUMBER") { Some(0x43u8) }
    else if op == lit("DIFFICULTY") { Some(0x44u8) }
    else if op == lit("GASLIMIT") { Some(0x45u8) }
    else if op == lit("CHAINID") { Some(0x46u8) }
    else if op == lit("SELFBALANCE") { Some(0x47u8) }
    else if op == lit("POP") { Some(0x50u8) }
    else if op == lit("MLOAD") { Some(0x51u8) }
    else if op == lit("MSTORE") { Some(0x52u8) }
    else if op == lit("MSTORE8") { Some(0x53u8) }
    else if op == lit("SLOAD") { Some(0x54u8) }
    else if op == lit("SSTORE") { Some(0x55u8) }
    else if op == lit("JUMP") { Some(0x56u8) }
    else if op == lit("JUMPI") { Some(0x57u8) }
    else if op == lit("PC") { Some(0x58u8) }
    else if op == lit("MSIZE") { Some(0x59u8) }
    else if op == lit("GAS") { Some(0x5au8) }
    else if op == lit("JUMPDEST") { Some(0x5bu8) }
    else if op == lit("TLOAD") { Some(0x5cu8) }
    else if op == lit("TSTORE") { Some(0x5du8) }
    else { opcode_byte_late(op) }
}

/// The opcodes matched after the prefixed families.
pub open spec fn opcode_byte_late(op: Seq<u8>) -> Option<u8> {
    if op == lit("CREATE") { Some(0xf0u8) }
    else if op == lit("CALL") { Some(0xf1u8) }
    else if op == lit("CALLCODE") { Some(0xf2u8) }
    else if op == lit("RETURN") { Some(0xf3u8) }
    else if op == lit("DELEGATECALL") { Some(0xf4u8) }
    else if op == lit("CREATE2") { Some(0xf5u8) }
    else if op == lit("STATICCALL") { Some(0xfau8) }
    else if op == lit("REVERT") { Some(0xfdu8) }
    else if op == lit("INVALID") { Some(0xfeu8) }
    else if op == lit("SELFDESTRUCT") { Some(0xffu8) }
    else { None }
}

/// Why a mnemonic source was rejected, with the offending line.
pub ghost enum SpecCompileError {
    InvalidOpcode { opcode: Seq<u8>, line: int },
    MissingValue { opcode: Seq<u8>, line: int },
    InvalidPushValueHex { line: int },
    InvalidPushValueLength { line: int, expected: int, length: int },
}

pub open spec fn zero_seq(n: int) -> Seq<u8> {
    Seq::new(n as nat, |i| 0u8)
}

/// The bytes of one `PUSHn` instruction, or its error.
pub open spec fn spec_push(op: Seq<u8>, toks: Seq<Seq<u8>>, ln: int) -> Result<
    Seq<u8>,
    SpecCompileError,
> {
    match opcode_number(op.skip(lit("PUSH").len() as int)) {
        None => Err(SpecCompileError::InvalidOpcode { opcode: op, line: ln }),
        Some(n) => if n == 0 {
            Ok(seq![0x60u8])
        } else if n > 32 {
            Err(SpecCompileError::InvalidOpcode { opcode: op, line: ln })
        } else if toks.len() < 2 {
            Err(SpecCompileError::MissingValue { opcode: op, line: ln })
        } else {
            let raw = toks[1];
            let digits = if has_prefix(raw, lit("0x")) {
                raw.skip(lit("0x").len() as int)
            } else {
                raw
            };
            match spec_hex_decode(digits) {
                None => Err(SpecCompileError::InvalidPushValueHex { line: ln }),
                Some(v) => if v.len() > n {
                    Err(SpecCompileError::InvalidPushValueLength {
                        line: ln,
                        expected: n as int,
                        length: v.len() as int,
                    })
                } else {
                    Ok(seq![(0x60 + n) as u8] + zero_seq(n - v.len()) + v)
                },
            }
        },
    }
}

/// The byte of a `DUPn` or `SWAPn` instruction: `n` between 1 and 16.
pub open spec fn spec_family16(op: Seq<u8>, base: u8, skip_n: int, ln: int) -> Result<
    Seq<u8>,
    SpecCompileError,
> {
    match opcode_number(op.skip(skip_n)) {
        None => Err(SpecCompileError::InvalidOpcode { opcode: op, line: ln }),
        Some(n) => if n == 0 || n > 16 {
            Err(SpecCompileError::InvalidOpcode { opcode: op, line: ln })
        } else {
            Ok(seq![(base + n) as u8])
        },
    }
}

/// The byte of a `LOGn` instruction: `n` between 0 and 4.
pub open spec fn spec_log(op: Seq<u8>, ln: int) -> Result<Seq<u8>, SpecCompileError> {
    match opcode_number(op.skip(lit("LOG").len() as int)) {
        None => Err(SpecCompileError::InvalidOpcode { opcode: op, line: ln }),
        Some(n) => if n > 4 {
            Err(SpecCompileError::InvalidOpcode { opcode: op, line: ln })
        } else {
            Ok(seq![(0xa0 + n) as u8])
        },
    }
}

/// The bytes that one line assembles to: nothing for a blank line, one
/// instruction otherwise.
pub open spec fn spec_asm_line(toks: Seq<Seq<u8>>, ln: int) -> Result<Seq<u8>, SpecCompileError> {
    if toks.len() == 0 {
        Ok(Seq::empty())
    } else {
        let op = upper_seq(toks[0]);
        match opcode_byte(op) {
            Some(b) => Ok(seq![b]),
            None => if has_prefix(op, lit("PUSH")) {
                spec_push(op, toks, ln)
            } else if has_prefix(op, lit("DUP")) {
                spec_family16(op, 0x7f, lit("DUP").len() as int, ln)
            } else if has_prefix(op, lit("SWAP")) {
                spec_family16(op, 0x8f, lit("SWAP").len() as int, ln)
            } else if has_prefix(op, lit("LOG")) {
                spec_log(op, ln)
            } else {
                Err(SpecCompileError::InvalidOpcode { opcode: op, line: ln })
            },
        }
    }
}

/// The concatenated bytecode of the lines from `i` on.
pub open spec fn spec_asm_lines(lines: Seq<Seq<u8>>, i: int) -> Result<Seq<u8>, SpecCompileError>
    decreases lines.len() - i,
{
    if i < 0 || i >= lines.len() {
        Ok(Seq::empty())
    } else {
        match spec_asm_line(spec_tokens(lines[i]), i) {
            Err(e) => Err(e),
            Ok(bs) => match spec_asm_lines(lines, i + 1) {
                Err(e) => Err(e),
                Ok(rest) => Ok(bs + rest),
            },
        }
    }
}

/// What a whole mnemonic source assembles to.
pub open spec fn spec_compile(src: Seq<u8>) -> Result<Seq<u8>, SpecCompileError> {
    spec_asm_lines(spec_lines(src), 0)
}

/// Why a mnemonic source was rejected, with the offending line.
#[derive(Debug)]
pub enum CompileError {
    InvalidOpcode { opcode: Vec<u8>, line: usize },
    MissingValue { opcode: Vec<u8>, line: usize },
    InvalidPushValueHex { line: usize },
    InvalidPushValueLength { line: usize, expected: usize, length: usize },
}

impl View for CompileError {
    type V = SpecCompileError;

    open spec fn view(&self) -> SpecCompileError {
        match self {
            CompileError::InvalidOpcode { opcode, line } => SpecCompileError::InvalidOpcode {
                opcode: opcode@,
                line: *line as int,
            },
            CompileError::MissingValue { opcode, line } => SpecCompileError::MissingValue {
                opcode: opcode@,
                line: *line as int,
            },
            CompileError::InvalidPushValueHex { line } => SpecCompileError::InvalidPushValueHex {
                line: *line as int,
            },
            CompileError::InvalidPushValueLength { line, expected, length } => (
            SpecCompileError::InvalidPushValueLength {
                line: *line as int,
                expected: *expected as int,
                length: *length as int,
            }),
        }
    }
}

/// Whether a token equals the bytes of an ASCII literal.
fn is_tok(t: &[u8], s: &str) -> (r: bool)
    ensures
        r == (t@ == lit(s)),
{
    bytes_eq(t, s.as_bytes())
}

/// Whether a token starts with the bytes of an ASCII literal.
pub(crate) fn starts_with_lit(t: &[u8], s: &str) -> (r: bool)
    ensures
        r == has_prefix(t@, lit(s)),
{
    let p = s.as_bytes();
    if t.len() < p.len() {
        return false;
    }
    bytes_eq(slice_subrange(t, 0, p.len()), p)
}

fn upper_byte(b: u8) -> (r: u8)
    ensures
        r == to_upper(b),
{
    if 0x61 <= b && b <= 0x7a {
        b - 0x20
    } else {
        b
    }
}

fn to_upper_vec(t: &[u8]) -> (r: Vec<u8>)
    ensures
        r@ == upper_seq(t@),
{
    let n = t.len();
    let mut out: Vec<u8> = Vec::new();
    let mut i: usize = 0;
    while i < n
        invariant
            0 <= i <= n,
            n == t@.len(),
            out@.len() == i,
            forall|j: int| 0 <= j < i ==> out@[j] == to_upper(#[trigger] t@[j]),
        decreases n - i,
    {
        out.push(upper_byte(t[i]));
        i = i + 1;
    }
    assert(out@ =~= upper_seq(t@));
    out
}

/// Split the source at line feeds; `n` line feeds give `n + 1` lines.
fn split_lines(src: &[u8]) -> (r: Vec<Vec<u8>>)
    ensures
        r@.map_values(|l: Vec<u8>| l@) == spec_lines(src@),
{
    let n = src.len();
    let mut out: Vec<Vec<u8>> = Vec::new();
    let mut cur: Vec<u8> = Vec::new();
    let mut i: usize = 0;
    proof {
        assert(src@.skip(0) =~= src@);
        assert(out@.map_values(|l: Vec<u8>| l@) =~= Seq::<Seq<u8>>::empty());
        assert(Seq::<Seq<u8>>::empty() + spec_lines_acc(src@, cur@) =~= spec_lines_acc(
            src@, cur@));
    }
    while i < n
        invariant
            0 <= i <= n,
            n == src@.len(),
            spec_lines(src@) == out@.map_values(|l: Vec<u8>| l@) + spec_lines_acc(
                src@.skip(i as int), cur@),
        decreases n - i,
    {
        let ghost prev_out = out@.map_values(|l: Vec<u8>| l@);
        let ghost prev_cur = cur@;
        proof {
            assert(src@.skip(i as int).skip(1) =~= src@.skip(i + 1));
            assert(src@.skip(i as int)[0] == src@[i as int]);
        }
        let b = src[i];
        if b == 0x0a {
            out.push(cur);
            cur = Vec::new();
            proof {
                assert(out@.map_values(|l: Vec<u8>| l@) =~= prev_out.push(prev_cur));
                assert(prev_out + (seq![prev_cur] + spec_lines_acc(src@.skip(i + 1), cur@))
                    =~= prev_out.push(prev_cur) + spec_lines_acc(src@.skip(i + 1), cur@));
            }
        } else {
            cur.push(b);
        }
        i = i + 1;
    }
    proof {
        assert(src@.skip(n as int) =~= Seq::<u8>::empty());
    }
    let ghost prev_out = out@.map_values(|l: Vec<u8>| l@);
    let ghost prev_cur = cur@;
    out.push(cur);
    proof {
        assert(out@.map_values(|l: Vec<u8>| l@) =~= prev_out.push(prev_cur));
        assert(prev_out + seq![prev_cur] =~= prev_out.push(prev_cur));
    }
    out
}

/// Split a line at whitespace into its non-empty tokens.
fn tokenize(line: &[u8]) -> (r: Vec<Vec<u8>>)
    ensures
        r@.map_values(|t: Vec<u8>| t@) == spec_tokens(line@),
{
    let n = line.len();
    let mut out: Vec<Vec<u8>> = Vec::new();
    let mut cur: Vec<u8> = Vec::new();
    let mut i: usize = 0;
    proof {
        assert(line@.skip(0) =~= line@);
        assert(out@.map_values(|t: Vec<u8>| t@) =~= Seq::<Seq<u8>>::empty());
        assert(Seq::<Seq<u8>>::empty() + spec_tokens_acc(line@, cur@) =~= spec_tokens_acc(
            line@, cur@));
    }
    while i < n
        invariant
            0 <= i <= n,
            n == line@.len(),
            spec_tokens(line@) == out@.map_values(|t: Vec<u8>| t@) + spec_tokens_acc(
                line@.skip(i as int), cur@),
        decreases n - i,
    {
        let ghost prev_out = out@.map_values(|t: Vec<u8>| t@);
        let ghost prev_cur = cur@;
        proof {
            assert(line@.skip(i as int).skip(1) =~= line@.skip(i + 1));
            assert(line@.skip(i as int)[0] == line@[i as int]);
        }
        let b = line[i];
        if b == 0x20 || b == 0x09 || b == 0x0d || b == 0x0b || b == 0x0c {
            if cur.len() > 0 {
                out.push(cur);
                cur = Vec::new();
                proof {
                    assert(out@.map_values(|t: Vec<u8>| t@) =~= prev_out.push(prev_cur));
                    assert(prev_out + (seq![prev_cur] + spec_tokens_acc(line@.skip(i + 1), cur@))
                        =~= prev_out.push(prev_cur) + spec_tokens_acc(line@.skip(i + 1), cur@));
                }
            } else {
                proof {
                    assert(cur@ =~= Seq::<u8>::empty());
                }
            }
        } else {
            cur.push(b);
        }
        i = i + 1;
    }
    proof {
        assert(line@.skip(n as int) =~= Seq::<u8>::empty());
    }
    if cur.len() > 0 {
        let ghost prev_out = out@.map_values(|t: Vec<u8>| t@);
        let ghost prev_cur = cur@;
        out.push(cur);
        proof {
            assert(out@.map_values(|t: Vec<u8>| t@) =~= prev_out.push(prev_cur));
            assert(prev_out + seq![prev_cur] =~= prev_out.push(prev_cur));
        }
    } else {
        proof {
            assert(out@.map_values(|t: Vec<u8>| t@) + Seq::<Seq<u8>>::empty() =~= out@.map_values(
                |t: Vec<u8>| t@));
        }
    }
    out
}

/// Parse the numeric suffix of a prefixed opcode, exactly up to `cap`;
/// values above `cap` all come back as `cap + 1`.
fn parse_opcode_number(digits: &[u8], cap: u64) -> (r: Option<u64>)
    requires
        1 <= cap <= 1000,
    ensures
        r is None <==> opcode_number(digits@) is None,
        opcode_number(digits@) matches Some(v) ==> r matches Some(x) && (v <= cap ==> x == v) && (v
            > cap ==> x == cap + 1),
{
    let n = digits.len();
    if n == 0 {
        return None;
    }
    let mut acc: u64 = 0;
    let mut i: usize = 0;
    proof {
        assert(digits@.take(0) =~= Seq::<u8>::empty());
    }
    while i < n
        invariant
            0 <= i <= n,
            n == digits@.len(),
            1 <= cap <= 1000,
            forall|j: int| 0 <= j < i ==> is_dec_digit(#[trigger] digits@[j]),
            dec_val(digits@.take(i as int)) <= cap ==> acc == dec_val(digits@.take(i as int)),
            dec_val(digits@.take(i as int)) > cap ==> acc == cap + 1,
            acc <= cap + 1,
        decreases n - i,
    {
        let b = digits[i];
        if b < 0x30 || b > 0x39 {
            assert(!all_dec_digits(digits@));
            return None;
        }
        let d = (b - 0x30) as u64;
        proof {
            assert(digits@.take(i + 1).drop_last() =~= digits@.take(i as int));
            assert(digits@.take(i + 1).last() == digits@[i as int]);
            assert(dec_val(digits@.take(i + 1)) == dec_val(digits@.take(i as int)) * 10 + d);
        }
        if acc <= cap {
            let next = acc * 10 + d;
            acc = if next > cap {
                cap + 1
            } else {
                next
            };
        }
        i = i + 1;
    }
    proof {
        assert(digits@.take(n as int) =~= digits@);
        assert(all_dec_digits(digits@));
    }
    Some(acc)
}

/// The exact-name opcodes matched before the prefixed families.
fn opcode_byte_exec(op: &[u8]) -> (r: Option<u8>)
    ensures
        r == opcode_byte(op@),
{
    if is_tok(op, "STOP") { Some(0x00u8) }
    else if is_tok(op, "ADD") { Some(0x01u8) }
    else if is_tok(op, "MUL") { Some(0x02u8) }
    else if is_tok(op, "SUB") { Some(0x03u8) }
    else if is_tok(op, "DIV") { Some(0x04u8) }
    else if is_tok(op, "SDIV") { Some(0x05u8) }
    else if is_tok(op, "MOD") { Some(0x06u8) }
    else if is_tok(op, "SMOD") { Some(0x07u8) }
    else if is_tok(op, "ADDMOD") { Some(0x08u8) }
    else if is_tok(op, "MULMOD") { Some(0x09u8) }
    else if is_tok(op, "EXP") { Some(0x0au8) }
    else if is_tok(op, "SIGNEXTEND") { Some(0x0bu8) }
    else if is_tok(op, "LT") { Some(0x10u8) }
    else if is_tok(op, "GT") { Some(0x11u8) }
    else if is_tok(op, "SLT") { Some(0x12u8) }
    else if is_tok(op, "SGT") { Some(0x13u8) }
    else if is_tok(op, "EQ") { Some(0x14u8) }
    else if is_tok(op, "ISZERO") { Some(0x15u8) }
    else if is_tok(op, "AND") { Some(0x16u8) }
    else if is_tok(op, "OR") { Some(0x17u8) }
    else if is_tok(op, "XOR") { Some(0x18u8) }
    else if is_tok(op, "NOT") { Some(0x19u8) }
    else if is_tok(op, "BYTE") { Some(0x1au8) }
    else if is_tok(op, "SHL") { Some(0x1bu8) }
    else if is_tok(op, "SHR") { Some(0x1cu8) }
    else if is_tok(op, "SAR") { Some(0x1du8) }
    else if is_tok(op, "SHA3") { Some(0x20u8) }
    else if is_tok(op, "ADDRESS") { Some(0x30u8) }
    else if is_tok(op, "BALANCE") { Some(0x31u8) }
    else if is_tok(op, "ORIGIN") { Some(0x32u8) }
    else if is_tok(op, "CALLER") { Some(0x33u8) }
    else if is_tok(op, "CALLVALUE") { Some(0x34u8) }
    else if is_tok(op, "CALLDATALOAD") { Some(0x35u8) }
    else if is_tok(op, "CALLDATASIZE") { Some(0x36u8) }
    else if is_tok(op, "CALLDATACOPY") { Some(0x37u8) }
    else if is_tok(op, "CODESIZE") { Some(0x38u8) }
    else if is_tok(op, "CODECOPY") { Some(0x39u8) }
    else if is_tok(op, "GASPRICE") { Some(0x3au8) }
    else if is_tok(op, "EXTCODESIZE") { Some(0x3bu8) }
    else if is_tok(op, "EXTCODECOPY") { Some(0x3cu8) }
    else if is_tok(op, "RETURNDATASIZE") { Some(0x3du8) }
    else if is_tok(op, "RETURNDATACOPY") { Some(0x3eu8) }
    else if is_tok(op, "EXTCODEHASH") { Some(0x3fu8) }
    else if is_tok(op, "BLOCKHASH") { Some(0x40u8) }
    else if is_tok(op, "COINBASE") { Some(0x41u8) }
    else if is_tok(op, "TIMESTAMP") { Some(0x42u8) }
    else if is_tok(op, "NUMBER") { Some(0x43u8) }
    else if is_tok(op, "DIFFICULTY") { Some(0x44u8) }
    else if is_tok(op, "GASLIMIT") { Some(0x45u8) }
    else if is_tok(op, "CHAINID") { Some(0x46u8) }
    else if is_tok(op, "SELFBALANCE") { Some(0x47u8) }
    else if is_tok(op, "POP") { Some(0x50u8) }
    else if is_tok(op, "MLOAD") { Some(0x51u8) }
    else if is_tok(op, "MSTORE") { Some(0x52u8) }
    else if is_tok(op, "MSTORE8") { Some(0x53u8) }
    else if is_tok(op, "SLOAD") { Some(0x54u8) }
    else if is_tok(op, "SSTORE") { Some(0x55u8) }
    else if is_tok(op, "JUMP") { Some(0x56u8) }
    else if is_tok(op, "JUMPI") { Some(0x57u8) }
    else if is_tok(op, "PC") { Some(0x58u8) }
    else if is_tok(op, "MSIZE") { Some(0x59u8) }
    else if is_tok(op, "GAS") { Some(0x5au8) }
    else if is_tok(op, "JUMPDEST") { Some(0x5bu8) }
    else if is_tok(op, "TLOAD") { Some(0x5cu8) }
    else if is_tok(op, "TSTORE") { Some(0x5du8) }
    else { opcode_byte_late_exec(op) }
}

/// The exact-name opcodes matched after the prefixed families.
fn opcode_byte_late_exec(op: &[u8]) -> (r: Option<u8>)
    ensures
        r == opcode_byte_late(op@),
{
    if is_tok(op, "CREATE") { Some(0xf0u8) }
    else if is_tok(op, "CALL") { Some(0xf1u8) }
    else if is_tok(op, "CALLCODE") { Some(0xf2u8) }
    else if is_tok(op, "RETURN") { Some(0xf3u8) }
    else if is_tok(op, "DELEGATECALL") { Some(0xf4u8) }
    else if is_tok(op, "CREATE2") { Some(0xf5u8) }
    else if is_tok(op, "STATICCALL") { Some(0xfau8) }
    else if is_tok(op, "REVERT") { Some(0xfdu8) }
    else if is_tok(op, "INVALID") { Some(0xfeu8) }
    else if is_tok(op, "SELFDESTRUCT") { Some(0xffu8) }
    else { None }
}

/// Assemble one `PUSHn` instruction from its opcode and operand token.
fn asm_push(op: Vec<u8>, toks: &Vec<Vec<u8>>, ln: usize) -> (r: Result<Vec<u8>, CompileError>)
    requires
        toks@.len() > 0,
        has_prefix(op@, lit("PUSH")),
    ensures
        match r {
            Ok(v) => spec_push(op@, toks@.map_values(|t: Vec<u8>| t@), ln as int) == Ok::<Seq<u8>, SpecCompileError>(v@),
            Err(e) => spec_push(op@, toks@.map_values(|t: Vec<u8>| t@), ln as int) == Err::<Seq<u8>, SpecCompileError>(e@),
        },
{
    let plen = "PUSH".len();
    let digits = slice_subrange(op.as_slice(), plen, op.len());
    assert(digits@ == op@.skip(lit("PUSH").len() as int));
    let parsed = parse_opcode_number(digits, 32);
    match parsed {
        None => Err(CompileError::InvalidOpcode { opcode: op, line: ln }),
        Some(n) => {
            if n == 0 {
                let mut v: Vec<u8> = Vec::new();
                v.push(0x60);
                assert(v@ =~= seq![0x60u8]);
                return Ok(v);
            }
            if n > 32 {
                return Err(CompileError::InvalidOpcode { opcode: op, line: ln });
            }
            if toks.len() < 2 {
                return Err(CompileError::MissingValue { opcode: op, line: ln });
            }
            let raw = &toks[1];
            assert(raw@ == toks@.map_values(|t: Vec<u8>| t@)[1]);
            let xlen = "0x".len();
            let hexpart: &[u8] = if starts_with_lit(raw.as_slice(), "0x") {
                slice_subrange(raw.as_slice(), xlen, raw.len())
            } else {
                raw.as_slice()
            };
            match hex_decode(hexpart) {
                None => Err(CompileError::InvalidPushValueHex { line: ln }),
                Some(v) => {
                    if v.len() > n as usize {
                        return Err(CompileError::InvalidPushValueLength {
                            line: ln,
                            expected: n as usize,
                            length: v.len(),
                        });
                    }
                    let mut bytes: Vec<u8> = Vec::new();
                    bytes.push(0x60 + (n as u8));
                    let pad = (n as usize) - v.len();
                    let mut k: usize = 0;
                    while k < pad
                        invariant
                            0 <= k <= pad,
                            n <= 32,
                            bytes@.len() == 1 + k,
                            bytes@[0] == (0x60 + n) as u8,
                            forall|j: int| 1 <= j < 1 + k ==> bytes@[j] == 0u8,
                        decreases pad - k,
                    {
                        bytes.push(0);
                        k = k + 1;
                    }
                    let mut vv = v;
                    let ghost vview = vv@;
                    bytes.append(&mut vv);
                    assert(bytes@ =~= seq![(0x60 + n) as u8] + zero_seq(pad as int) + vview);
                    Ok(bytes)
                },
            }
        },
    }
}

/// Assemble one line; a blank line assembles to nothing.
fn asm_line(toks: &Vec<Vec<u8>>, ln: usize) -> (r: Result<Vec<u8>, CompileError>)
    ensures
        match r {
            Ok(v) => spec_asm_line(toks@.map_values(|t: Vec<u8>| t@), ln as int) == Ok::<Seq<u8>, SpecCompileError>(v@),
            Err(e) => spec_asm_line(toks@.map_values(|t: Vec<u8>| t@), ln as int) == Err::<Seq<u8>, SpecCompileError>(e@),
        },
{
    let ghost tview = toks@.map_values(|t: Vec<u8>| t@);
    if toks.len() == 0 {
        assert(tview.len() == 0);
        let v: Vec<u8> = Vec::new();
        assert(v@ =~= Seq::<u8>::empty());
        return Ok(v);
    }
    let op = to_upper_vec(toks[0].as_slice());
    assert(op@ == upper_seq(tview[0]));
    match opcode_byte_exec(op.as_slice()) {
        Some(b) => {
            let mut v: Vec<u8> = Vec::new();
            v.push(b);
            assert(v@ =~= seq![b]);
            Ok(v)
        },
        None => {
            if starts_with_lit(op.as_slice(), "PUSH") {
                asm_push(op, toks, ln)
            } else if starts_with_lit(op.as_slice(), "DUP") {
                let dlen = "DUP".len();
                let digits = slice_subrange(op.as_slice(), dlen, op.len());
                match parse_opcode_number(digits, 16) {
                    Some(n) if 1 <= n && n <= 16 => {
                        let mut v: Vec<u8> = Vec::new();
                        v.push(0x7f + (n as u8));
                        assert(v@ =~= seq![(0x7f + n) as u8]);
                        Ok(v)
                    },
                    _ => Err(CompileError::InvalidOpcode { opcode: op, line: ln }),
                }
            } else if starts_with_lit(op.as_slice(), "SWAP") {
                let slen = "SWAP".len();
                let digits = slice_subrange(op.as_slice(), slen, op.len());
                match parse_opcode_number(digits, 16) {
                    Some(n) if 1 <= n && n <= 16 => {
                        let mut v: Vec<u8> = Vec::new();
                        v.push(0x8f + (n as u8));
                        assert(v@ =~= seq![(0x8f + n) as u8]);
                        Ok(v)
                    },
                    _ => Err(CompileError::InvalidOpcode { opcode: op, line: ln }),
                }
            } else if starts_with_lit(op.as_slice(), "LOG") {
                let llen = "LOG".len();
                let digits = slice_subrange(op.as_slice(), llen, op.len());
                match parse_opcode_number(digits, 4) {
                    Some(n) if n <= 4 => {
                        let mut v: Vec<u8> = Vec::new();
                        v.push(0xa0 + (n as u8));
                        assert(v@ =~= seq![(0xa0 + n) as u8]);
                        Ok(v)
                    },
                    _ => Err(CompileError::InvalidOpcode { opcode: op, line: ln }),
                }
            } else {
                Err(CompileError::InvalidOpcode { opcode: op, line: ln })
            }
        },
    }
}

/// Assemble a whole mnemonic source into bytecode, or report the first
/// offending line.
pub fn compile_mnemonic(src: &[u8]) -> (r: Result<Vec<u8>, CompileError>)
    ensures
        match r {
            Ok(v) => spec_compile(src@) == Ok::<Seq<u8>, SpecCompileError>(v@),
            Err(e) => spec_compile(src@) == Err::<Seq<u8>, SpecCompileError>(e@),
        },
{
    let lines = split_lines(src);
    let ghost lview = lines@.map_values(|l: Vec<u8>| l@);
    let mut out: Vec<u8> = Vec::new();
    let mut i: usize = 0;
    proof {
        assert(spec_asm_lines(lview, 0) matches Ok(rest) ==> Seq::<u8>::empty() + rest =~= rest);
    }
    while i < lines.len()
        invariant
            0 <= i <= lines@.len(),
            lview == lines@.map_values(|l: Vec<u8>| l@),
            lview.len() == lines@.len(),
            spec_compile(src@) == spec_asm_lines(lview, 0),
            spec_asm_lines(lview, i as int) matches Ok(rest) ==> spec_asm_lines(lview, 0) == Ok::<Seq<u8>, SpecCompileError>(
                out@ + rest),
            spec_asm_lines(lview, i as int) matches Err(e) ==> spec_asm_lines(lview, 0) == Err::<Seq<u8>, SpecCompileError>(e),
        decreases lines@.len() - i,
    {
        let toks = tokenize(lines[i].as_slice());
        assert(lines@[i as int]@ == lview[i as int]);
        match asm_line(&toks, i) {
            Err(e) => {
                assert(spec_asm_lines(lview, i as int) == Err::<Seq<u8>, SpecCompileError>(e@));
                return Err(e);
            },
            Ok(mut bs) => {
                let ghost bview = bs@;
                let ghost prev = out@;
                out.append(&mut bs);
                proof {
                    match spec_asm_lines(lview, i + 1) {
                        Ok(rest) => {
                            assert(spec_asm_lines(lview, i as int) == Ok::<
                                Seq<u8>,
                                SpecCompileError,
                            >(bview + rest));
                            assert(prev + (bview + rest) =~= (prev + bview) + rest);
                        },
                        Err(_) => {},
                    }
                }
            },
        }
        i = i + 1;
    }
    proof {
        assert(spec_asm_lines(lview, i as int) == Ok::<Seq<u8>, SpecCompileError>(
            Seq::<u8>::empty()));
        assert(out@ + Seq::<u8>::empty() =~= out@);
    }
    Ok(out)
}

} // verus!
