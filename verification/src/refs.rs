//! Address-or-alias references and their resolution against the declared
//! wallets: a reference is either a literal 20-byte address written as a
//! `0x`-prefixed hexadecimal string, or the name of a declared wallet.

use vstd::prelude::*;
use vstd::string::StringSliceAdditionalSpecFns;
use crate::hexcode::{hex_decode, spec_hex_decode};
use crate::keys::{key_address_of, key_is_valid};
use crate::nums::{bytes_eq_vec, clone_bytes, Address};

verus! {

/// A reference to an account: a literal address, or a wallet name.
#[derive(Debug)]
pub enum AddressOrAlias {
    Address(Address),
    Alias(Vec<u8>),
}

pub ghost enum SpecAddressOrAlias {
    Address(Seq<u8>),
    Alias(Seq<u8>),
}

impl View for AddressOrAlias {
    type V = SpecAddressOrAlias;

    open spec fn view(&self) -> SpecAddressOrAlias {
        match self {
            AddressOrAlias::Address(a) => SpecAddressOrAlias::Address(a@),
            AddressOrAlias::Alias(n) => SpecAddressOrAlias::Alias(n@),
        }
    }
}

/// What a reference string denotes: a `0x`-prefixed string must hold
/// exactly 40 hexadecimal digits and denotes that address; anything else is
/// an alias.
pub open spec fn spec_parse_ref(s: Seq<u8>) -> Option<SpecAddressOrAlias> {
    if s.len() >= 2 && s[0] == 0x30 && s[1] == 0x78 {
        match spec_hex_decode(s.skip(2)) {
            Some(b) => if b.len() == 20 {
                Some(SpecAddressOrAlias::Address(b))
            } else {
                None
            },
            None => None,
        }
    } else {
        Some(SpecAddressOrAlias::Alias(s))
    }
}

impl AddressOrAlias {
    pub open spec fn wf(&self) -> bool {
        self@ matches SpecAddressOrAlias::Address(a) ==> a.len() == 20
    }

    /// Parse a reference string. `None` when the string announces a literal
    /// address with its `0x` prefix but is not 40 hexadecimal digits.
    pub fn from_bytes(s: Vec<u8>) -> (r: Option<AddressOrAlias>)
        ensures
            r matches Some(a) ==> spec_parse_ref(s@) == Some(a@) && a.wf(),
            r is None ==> spec_parse_ref(s@) is None,
    {
        if s.len() >= 2 && s[0] == 0x30 && s[1] == 0x78 {
            let digits = vstd::slice::slice_subrange(s.as_slice(), 2, s.len());
            assert(digits@ == s@.skip(2));
            match hex_decode(digits) {
                Some(b) => {
                    if b.len() == 20 {
                        Some(AddressOrAlias::Address(Address::new(b)))
                    } else {
                        None
                    }
                },
                None => None,
            }
        } else {
            Some(AddressOrAlias::Alias(s))
        }
    }

    pub fn duplicate(&self) -> (r: AddressOrAlias)
        ensures
            r@ == self@,
    {
        match self {
            AddressOrAlias::Address(a) => AddressOrAlias::Address(a.duplicate()),
            AddressOrAlias::Alias(n) => AddressOrAlias::Alias(clone_bytes(n)),
        }
    }
}

/// A named signing identity: its name, secret key, and derived address.
#[derive(Debug)]
pub struct Wallet {
    pub name: Vec<u8>,
    pub key: Vec<u8>,
    pub address: Address,
}

pub ghost struct SpecWallet {
    pub name: Seq<u8>,
    pub key: Seq<u8>,
    pub address: Seq<u8>,
}

impl View for Wallet {
    type V = SpecWallet;

    open spec fn view(&self) -> SpecWallet {
        SpecWallet { name: self.name@, key: self.key@, address: self.address@ }
    }
}

impl SpecWallet {
    /// The key is a valid 32-byte secret scalar and the address is derived
    /// from it.
    pub open spec fn wf(&self) -> bool {
        &&& self.key.len() == 32
        &&& key_is_valid(self.key)
        &&& self.address == key_address_of(self.key)
        &&& self.address.len() == 20
    }
}

pub open spec fn wallets_view(ws: Seq<Wallet>) -> Seq<SpecWallet> {
    ws.map_values(|w: Wallet| w@)
}

/// The wallet that a name denotes: the most recently declared wallet with
/// that name.
pub open spec fn spec_lookup_by_name(ws: Seq<SpecWallet>, name: Seq<u8>) -> Option<int>
    decreases ws.len(),
{
    if ws.len() == 0 {
        None
    } else if ws.last().name == name {
        Some(ws.len() - 1)
    } else {
        spec_lookup_by_name(ws.drop_last(), name)
    }
}

/// The wallet holding the key of a literal address, if any: the most
/// recently declared one.
pub open spec fn spec_lookup_by_address(ws: Seq<SpecWallet>, a: Seq<u8>) -> Option<int>
    decreases ws.len(),
{
    if ws.len() == 0 {
        None
    } else if ws.last().address == a {
        Some(ws.len() - 1)
    } else {
        spec_lookup_by_address(ws.drop_last(), a)
    }
}

/// The address that a reference denotes: a literal address itself, an alias
/// the address of the wallet it names.
pub open spec fn spec_resolve_ref(ws: Seq<SpecWallet>, r: SpecAddressOrAlias) -> Option<Seq<u8>> {
    match r {
        SpecAddressOrAlias::Address(a) => Some(a),
        SpecAddressOrAlias::Alias(n) => match spec_lookup_by_name(ws, n) {
            Some(i) => Some(ws[i].address),
            None => None,
        },
    }
}

/// The wallet a transaction sender refers to: by name for an alias, by
/// derived address for a literal address.
pub open spec fn spec_resolve_sender(ws: Seq<SpecWallet>, r: SpecAddressOrAlias) -> Option<int> {
    match r {
        SpecAddressOrAlias::Address(a) => spec_lookup_by_address(ws, a),
        SpecAddressOrAlias::Alias(n) => spec_lookup_by_name(ws, n),
    }
}

pub proof fn lemma_lookup_in_range(ws: Seq<SpecWallet>, name: Seq<u8>)
    ensures
        spec_lookup_by_name(ws, name) matches Some(i) ==> 0 <= i < ws.len() && ws[i].name == name,
        spec_lookup_by_address(ws, name) matches Some(i) ==> 0 <= i < ws.len() && ws[i].address
            == name,
    decreases ws.len(),
{
    if ws.len() > 0 {
        lemma_lookup_in_range(ws.drop_last(), name);
    }
}

/// A resolved reference is a literal address or a declared wallet's
/// address; with well-formed wallets it is 20 bytes either way.
pub proof fn lemma_resolve_ref_wf(ws: Seq<SpecWallet>, r: SpecAddressOrAlias)
    requires
        forall|j: int| 0 <= j < ws.len() ==> (#[trigger] ws[j]).wf(),
        r matches SpecAddressOrAlias::Address(a) ==> a.len() == 20,
    ensures
        spec_resolve_ref(ws, r) matches Some(a) ==> a.len() == 20,
{
    match r {
        SpecAddressOrAlias::Address(_) => {},
        SpecAddressOrAlias::Alias(n) => {
            lemma_lookup_in_range(ws, n);
        },
    }
}

/// A resolved sender index lies within the wallet list.
pub proof fn lemma_resolve_sender_range(ws: Seq<SpecWallet>, r: SpecAddressOrAlias)
    ensures
        spec_resolve_sender(ws, r) matches Some(w) ==> 0 <= w < ws.len(),
{
    match r {
        SpecAddressOrAlias::Address(a) => {
            lemma_lookup_in_range(ws, a);
        },
        SpecAddressOrAlias::Alias(n) => {
            lemma_lookup_in_range(ws, n);
        },
    }
}

/// Find the most recently declared wallet with the given name.
pub fn lookup_by_name(ws: &Vec<Wallet>, name: &Vec<u8>) -> (r: Option<usize>)
    ensures
        match r {
            Some(i) => spec_lookup_by_name(wallets_view(ws@), name@) == Some(i as int) && i
                < ws@.len(),
            None => spec_lookup_by_name(wallets_view(ws@), name@) is None,
        },
{
    let ghost full = wallets_view(ws@);
    proof {
        assert(full.take(ws@.len() as int) =~= full);
    }
    let mut j = ws.len();
    while j > 0
        invariant
            0 <= j <= ws@.len(),
            full == wallets_view(ws@),
            spec_lookup_by_name(full, name@) == spec_lookup_by_name(
                full.take(j as int), name@),
        decreases j,
    {
        j = j - 1;
        assert(full.take(j + 1).drop_last() =~= full.take(j as int));
        assert(full.take(j + 1).last() == full[j as int]);
        if bytes_eq_vec(&ws[j].name, name) {
            assert(full[j as int].name == name@);
            return Some(j);
        }
    }
    assert(full.take(0) =~= Seq::<SpecWallet>::empty());
    None
}

/// Find the most recently declared wallet whose derived address is the
/// given one.
pub fn lookup_by_address(ws: &Vec<Wallet>, a: &Address) -> (r: Option<usize>)
    ensures
        match r {
            Some(i) => spec_lookup_by_address(wallets_view(ws@), a@) == Some(i as int) && i
                < ws@.len(),
            None => spec_lookup_by_address(wallets_view(ws@), a@) is None,
        },
{
    let ghost full = wallets_view(ws@);
    proof {
        assert(full.take(ws@.len() as int) =~= full);
    }
    let mut j = ws.len();
    while j > 0
        invariant
            0 <= j <= ws@.len(),
            full == wallets_view(ws@),
            spec_lookup_by_address(full, a@) == spec_lookup_by_address(
                full.take(j as int), a@),
        decreases j,
    {
        j = j - 1;
        assert(full.take(j + 1).drop_last() =~= full.take(j as int));
        assert(full.take(j + 1).last() == full[j as int]);
        if ws[j].address.eq_addr(a) {
            assert(full[j as int].address == a@);
            return Some(j);
        }
    }
    assert(full.take(0) =~= Seq::<SpecWallet>::empty());
    None
}

/// Resolve a reference to an address: a literal address stands for itself;
/// an alias must name a declared wallet.
pub fn resolve_address(ws: &Vec<Wallet>, r: &AddressOrAlias) -> (res: Option<Address>)
    ensures
        match res {
            Some(a) => spec_resolve_ref(wallets_view(ws@), r@) == Some(a@),
            None => spec_resolve_ref(wallets_view(ws@), r@) is None,
        },
{
    match r {
        AddressOrAlias::Address(a) => Some(a.duplicate()),
        AddressOrAlias::Alias(n) => {
            match lookup_by_name(ws, n) {
                Some(i) => {
                    assert(wallets_view(ws@)[i as int] == ws@[i as int]@);
                    Some(ws[i].address.duplicate())
                },
                None => None,
            }
        },
    }
}

/// Resolve a transaction sender to the wallet that signs for it.
pub fn resolve_sender(ws: &Vec<Wallet>, r: &AddressOrAlias) -> (res: Option<usize>)
    ensures
        match res {
            Some(i) => spec_resolve_sender(wallets_view(ws@), r@) == Some(i as int) && i
                < ws@.len(),
            None => spec_resolve_sender(wallets_view(ws@), r@) is None,
        },
{
    match r {
        AddressOrAlias::Address(a) => lookup_by_address(ws, a),
        AddressOrAlias::Alias(n) => lookup_by_name(ws, n),
    }
}

} // verus!
