//! Plain value types shared by the whole library: 256-bit quantities,
//! 20-byte account addresses, monetary amounts, and byte-string helpers.

use vstd::prelude::*;

verus! {

/// A 256-bit unsigned integer held as four 64-bit limbs, least significant
/// first (the layout of the execution layer's word type).
#[derive(Clone, Copy, PartialEq, Eq, Structural, Debug)]
pub struct Uint256 {
    pub l0: u64,
    pub l1: u64,
    pub l2: u64,
    pub l3: u64,
}

impl Uint256 {
    /// The numeric value of the four limbs.
    pub open spec fn as_nat(self) -> nat {
        (self.l0 + self.l1 * 0x1_0000_0000_0000_0000
            + self.l2 * 0x1_0000_0000_0000_0000_0000_0000_0000_0000
            + self.l3 * 0x1_0000_0000_0000_0000_0000_0000_0000_0000_0000_0000_0000_0000) as nat
    }

    pub fn zero() -> (r: Uint256)
        ensures
            r == (Uint256 { l0: 0, l1: 0, l2: 0, l3: 0 }),
            r.as_nat() == 0,
    {
        Uint256 { l0: 0, l1: 0, l2: 0, l3: 0 }
    }

    pub fn from_u64(v: u64) -> (r: Uint256)
        ensures
            r == (Uint256 { l0: v, l1: 0, l2: 0, l3: 0 }),
            r.as_nat() == v,
    {
        Uint256 { l0: v, l1: 0, l2: 0, l3: 0 }
    }

    /// Whether the value fits in 128 bits.
    pub fn fits_u128(&self) -> (r: bool)
        ensures
            r == (self.as_nat() < 0x1_0000_0000_0000_0000_0000_0000_0000_0000),
    {
        self.l2 == 0 && self.l3 == 0
    }

    pub fn to_u128(&self) -> (r: u128)
        requires
            self.as_nat() < 0x1_0000_0000_0000_0000_0000_0000_0000_0000,
        ensures
            r == self.as_nat(),
    {
        self.l0 as u128 + ((self.l1 as u128) * 0x1_0000_0000_0000_0000)
    }
}

/// A monetary amount in wei.
#[derive(Clone, Copy, PartialEq, Eq, Structural, Debug)]
pub struct Ether(pub Uint256);

/// A 20-byte account address.
#[derive(Debug)]
pub struct Address {
    pub bytes: Vec<u8>,
}

impl View for Address {
    type V = Seq<u8>;

    open spec fn view(&self) -> Seq<u8> {
        self.bytes@
    }
}

impl Address {
    /// A well-formed address holds exactly 20 bytes.
    pub open spec fn wf(&self) -> bool {
        self@.len() == 20
    }

    pub fn new(bytes: Vec<u8>) -> (r: Address)
        requires
            bytes@.len() == 20,
        ensures
            r@ == bytes@,
            r.wf(),
    {
        Address { bytes }
    }

    pub fn duplicate(&self) -> (r: Address)
        ensures
            r@ == self@,
    {
        Address { bytes: clone_bytes(&self.bytes) }
    }

    pub fn eq_addr(&self, other: &Address) -> (r: bool)
        ensures
            r == (self@ == other@),
    {
        bytes_eq_vec(&self.bytes, &other.bytes)
    }
}

/// Byte-for-byte equality of two byte strings.
pub fn bytes_eq(a: &[u8], b: &[u8]) -> (r: bool)
    ensures
        r == (a@ == b@),
{
    if a.len() != b.len() {
        assert(a@.len() != b@.len());
        return false;
    }
    let n = a.len();
    let mut i: usize = 0;
    while i < n
        invariant
            n == a@.len(),
            n == b@.len(),
            0 <= i <= n,
            forall|j: int| 0 <= j < i ==> a@[j] == b@[j],
        decreases n - i,
    {
        if a[i] != b[i] {
            return false;
        }
        i = i + 1;
    }
    assert(a@ =~= b@);
    true
}

pub fn bytes_eq_vec(a: &Vec<u8>, b: &Vec<u8>) -> (r: bool)
    ensures
        r == (a@ == b@),
{
    bytes_eq(a.as_slice(), b.as_slice())
}

pub fn clone_bytes(a: &Vec<u8>) -> (r: Vec<u8>)
    ensures
        r@ == a@,
{
    let mut out: Vec<u8> = Vec::new();
    let n = a.len();
    let mut i: usize = 0;
    while i < n
        invariant
            n == a@.len(),
            0 <= i <= n,
            out@ == a@.subrange(0, i as int),
        decreases n - i,
    {
        out.push(a[i]);
        assert(out@ =~= a@.subrange(0, i + 1 as int));
        i = i + 1;
    }
    assert(a@.subrange(0, n as int) =~= a@);
    out
}

} // verus!
