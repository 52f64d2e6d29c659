//! Wallet key material: deterministic (seeded) or entropy-based generation
//! of secp256k1 secret keys, key validation, and address derivation.
//!
//! The cryptography itself is done by outside code and is named, not
//! restated: `seeded_key`, `key_is_valid` and `key_address_of` stand for
//! what those calls return.

use vstd::prelude::*;
use crate::nums::Address;
use rand::SeedableRng;

verus! {

/// The `idx`-th secret key drawn from the deterministic generator seeded
/// with `seed`. The generator's byte stream, and hence each drawn key, is a
/// pure function of the seed.
pub uninterp spec fn seeded_key(seed: u64, idx: int) -> Seq<u8>;

/// Whether 32 bytes are a valid secp256k1 secret scalar (nonzero and below
/// the group order).
pub uninterp spec fn key_is_valid(key: Seq<u8>) -> bool;

/// The 20-byte account address derived from a valid secret key.
pub uninterp spec fn key_address_of(key: Seq<u8>) -> Seq<u8>;

/// Relies on `rand::rngs::StdRng::seed_from_u64` (a fixed seed gives a
/// reproducible stream, on every machine) and
/// `alloy_signer_local::PrivateKeySigner::random_with` (draws from that
/// stream until it finds a valid secret scalar): the `i`-th key generated
/// for a fixed seed is a function of `(seed, i)` alone, and is valid.
#[verifier::external_body]
pub fn seeded_wallet_keys(seed: u64, count: usize) -> (r: Vec<Vec<u8>>)
    ensures
        r@.len() == count,
        forall|i: int|
            0 <= i < count ==> (#[trigger] r@[i])@ == seeded_key(seed, i) && key_is_valid(r@[i]@)
                && r@[i]@.len() == 32,
{
    let mut rng = rand::rngs::StdRng::seed_from_u64(seed);
    (0..count)
        .map(|_| alloy_signer_local::PrivateKeySigner::random_with(&mut rng).to_bytes().to_vec())
        .collect()
}

/// Relies on `rand::rngs::StdRng::from_entropy` and
/// `alloy_signer_local::PrivateKeySigner::random_with`: each generated key
/// is a valid 32-byte secret scalar; nothing is said of its value.
#[verifier::external_body]
pub fn entropy_wallet_keys(count: usize) -> (r: Vec<Vec<u8>>)
    ensures
        r@.len() == count,
        forall|i: int| 0 <= i < count ==> #[trigger] key_is_valid(r@[i]@) && r@[i]@.len() == 32,
{
    let mut rng = rand::rngs::StdRng::from_entropy();
    (0..count)
        .map(|_| alloy_signer_local::PrivateKeySigner::random_with(&mut rng).to_bytes().to_vec())
        .collect()
}

/// Relies on `alloy_signer_local::PrivateKeySigner::from_slice` (succeeds
/// exactly on valid secret scalars) and `LocalSigner::address` (the address
/// derived from the key): returns the 20-byte address of a valid key, and
/// `None` exactly on invalid ones.
#[verifier::external_body]
pub fn key_address(key: &Vec<u8>) -> (r: Option<Address>)
    requires
        key@.len() == 32,
    ensures
        r is Some <==> key_is_valid(key@),
        r matches Some(a) ==> a@ == key_address_of(key@) && a@.len() == 20,
{
    match alloy_signer_local::PrivateKeySigner::from_slice(key.as_slice()) {
        Ok(signer) => Some(Address { bytes: signer.address().to_vec() }),
        Err(_) => None,
    }
}

} // verus!
