//! Typed transactions: a closed tagged union with one variant per
//! transaction type, each carrying exactly the fields legal for its type,
//! plus deterministic signing through the outside signer.

use vstd::prelude::*;
use crate::nums::{Address, Uint256, clone_bytes};
use crate::keys::key_is_valid;

verus! {

/// The recipient of a transaction: a call to an address, or contract
/// creation when no recipient is given.
#[derive(Debug)]
pub enum TxRecipient {
    Create,
    Call(Address),
}

pub ghost enum SpecTxRecipient {
    Create,
    Call(Seq<u8>),
}

impl View for TxRecipient {
    type V = SpecTxRecipient;

    open spec fn view(&self) -> SpecTxRecipient {
        match self {
            TxRecipient::Create => SpecTxRecipient::Create,
            TxRecipient::Call(a) => SpecTxRecipient::Call(a@),
        }
    }
}

impl TxRecipient {
    pub open spec fn wf(&self) -> bool {
        self@ matches SpecTxRecipient::Call(a) ==> a.len() == 20
    }
}

/// One entry of an access list: an address and the storage keys warmed for
/// it.
#[derive(Debug)]
pub struct AccessEntry {
    pub address: Address,
    pub storage_keys: Vec<Uint256>,
}

pub ghost struct SpecAccessEntry {
    pub address: Seq<u8>,
    pub storage_keys: Seq<Uint256>,
}

impl View for AccessEntry {
    type V = SpecAccessEntry;

    open spec fn view(&self) -> SpecAccessEntry {
        SpecAccessEntry { address: self.address@, storage_keys: self.storage_keys@ }
    }
}

#[derive(Debug)]
pub struct TxAccessList(pub Vec<AccessEntry>);

impl View for TxAccessList {
    type V = Seq<SpecAccessEntry>;

    open spec fn view(&self) -> Seq<SpecAccessEntry> {
        self.0@.map_values(|item: AccessEntry| item@)
    }
}

impl TxAccessList {
    pub open spec fn wf(&self) -> bool {
        forall|i: int| 0 <= i < self@.len() ==> (#[trigger] self@[i]).address.len() == 20
    }
}

#[derive(Debug)]
pub struct TxLegacy {
    pub chain_id: Option<u64>,
    pub nonce: u64,
    pub gas_price: u128,
    pub gas_limit: u64,
    pub to: TxRecipient,
    pub value: Uint256,
    pub input: Vec<u8>,
}

pub ghost struct SpecTxLegacy {
    pub chain_id: Option<u64>,
    pub nonce: u64,
    pub gas_price: u128,
    pub gas_limit: u64,
    pub to: SpecTxRecipient,
    pub value: Uint256,
    pub input: Seq<u8>,
}

impl View for TxLegacy {
    type V = SpecTxLegacy;

    open spec fn view(&self) -> SpecTxLegacy {
        SpecTxLegacy {
            chain_id: self.chain_id,
            nonce: self.nonce,
            gas_price: self.gas_price,
            gas_limit: self.gas_limit,
            to: self.to@,
            value: self.value,
            input: self.input@,
        }
    }
}

#[derive(Debug)]
pub struct TxEip2930 {
    pub chain_id: u64,
    pub nonce: u64,
    pub gas_price: u128,
    pub gas_limit: u64,
    pub to: TxRecipient,
    pub value: Uint256,
    pub access_list: TxAccessList,
    pub input: Vec<u8>,
}

pub ghost struct SpecTxEip2930 {
    pub chain_id: u64,
    pub nonce: u64,
    pub gas_price: u128,
    pub gas_limit: u64,
    pub to: SpecTxRecipient,
    pub value: Uint256,
    pub access_list: Seq<SpecAccessEntry>,
    pub input: Seq<u8>,
}

impl View for TxEip2930 {
    type V = SpecTxEip2930;

    open spec fn view(&self) -> SpecTxEip2930 {
        SpecTxEip2930 {
            chain_id: self.chain_id,
            nonce: self.nonce,
            gas_price: self.gas_price,
            gas_limit: self.gas_limit,
            to: self.to@,
            value: self.value,
            access_list: self.access_list@,
            input: self.input@,
        }
    }
}

#[derive(Debug)]
pub struct TxEip1559 {
    pub chain_id: u64,
    pub nonce: u64,
    pub gas_limit: u64,
    pub max_fee_per_gas: u128,
    pub max_priority_fee_per_gas: u128,
    pub to: TxRecipient,
    pub value: Uint256,
    pub access_list: TxAccessList,
    pub input: Vec<u8>,
}

pub ghost struct SpecTxEip1559 {
    pub chain_id: u64,
    pub nonce: u64,
    pub gas_limit: u64,
    pub max_fee_per_gas: u128,
    pub max_priority_fee_per_gas: u128,
    pub to: SpecTxRecipient,
    pub value: Uint256,
    pub access_list: Seq<SpecAccessEntry>,
    pub input: Seq<u8>,
}

impl View for TxEip1559 {
    type V = SpecTxEip1559;

    open spec fn view(&self) -> SpecTxEip1559 {
        SpecTxEip1559 {
            chain_id: self.chain_id,
            nonce: self.nonce,
            gas_limit: self.gas_limit,
            max_fee_per_gas: self.max_fee_per_gas,
            max_priority_fee_per_gas: self.max_priority_fee_per_gas,
            to: self.to@,
            value: self.value,
            access_list: self.access_list@,
            input: self.input@,
        }
    }
}

/// A transaction with all fields of its type resolved, ready to sign.
#[derive(Debug)]
pub enum TypedTransaction {
    Legacy(TxLegacy),
    Eip2930(TxEip2930),
    Eip1559(TxEip1559),
}

pub ghost enum SpecTypedTransaction {
    Legacy(SpecTxLegacy),
    Eip2930(SpecTxEip2930),
    Eip1559(SpecTxEip1559),
}

impl View for TypedTransaction {
    type V = SpecTypedTransaction;

    open spec fn view(&self) -> SpecTypedTransaction {
        match self {
            TypedTransaction::Legacy(tx) => SpecTypedTransaction::Legacy(tx@),
            TypedTransaction::Eip2930(tx) => SpecTypedTransaction::Eip2930(tx@),
            TypedTransaction::Eip1559(tx) => SpecTypedTransaction::Eip1559(tx@),
        }
    }
}

impl TypedTransaction {
    /// Every address carried by the transaction has 20 bytes.
    pub open spec fn wf(&self) -> bool {
        match self {
            TypedTransaction::Legacy(tx) => tx.to.wf(),
            TypedTransaction::Eip2930(tx) => tx.to.wf() && tx.access_list.wf(),
            TypedTransaction::Eip1559(tx) => tx.to.wf() && tx.access_list.wf(),
        }
    }

    /// The nonce assigned to the transaction.
    pub open spec fn spec_nonce(&self) -> u64 {
        match self {
            TypedTransaction::Legacy(tx) => tx.nonce,
            TypedTransaction::Eip2930(tx) => tx.nonce,
            TypedTransaction::Eip1559(tx) => tx.nonce,
        }
    }
}

impl SpecTypedTransaction {
    /// The nonce assigned to the transaction.
    pub open spec fn nonce(&self) -> u64 {
        match self {
            SpecTypedTransaction::Legacy(tx) => tx.nonce,
            SpecTypedTransaction::Eip2930(tx) => tx.nonce,
            SpecTypedTransaction::Eip1559(tx) => tx.nonce,
        }
    }
}

/// An ECDSA signature in its execution-layer form.
#[derive(Clone, Copy, PartialEq, Eq, Structural, Debug)]
pub struct TxSignature {
    pub odd_y_parity: bool,
    pub r: Uint256,
    pub s: Uint256,
}

/// A signed, nonce-assigned transaction ready for submission.
#[derive(Debug)]
pub struct SignedTransaction {
    pub from: Address,
    pub tx: TypedTransaction,
    pub signature: TxSignature,
}

pub ghost struct SpecSignedTransaction {
    pub from: Seq<u8>,
    pub tx: SpecTypedTransaction,
    pub signature: TxSignature,
}

impl View for SignedTransaction {
    type V = SpecSignedTransaction;

    open spec fn view(&self) -> SpecSignedTransaction {
        SpecSignedTransaction { from: self.from@, tx: self.tx@, signature: self.signature }
    }
}

/// The deterministic ECDSA signature that the outside signer produces for a
/// given secret key and transaction. Signing uses a deterministic nonce, so
/// the result is a function of the key and the transaction alone.
pub uninterp spec fn spec_tx_signature(key: Seq<u8>, tx: SpecTypedTransaction) -> TxSignature;

/// Whether the outside signer succeeds on a given secret key and
/// transaction. The signer draws no entropy and reads no state, so success,
/// like the signature itself, is a function of the key and the transaction
/// alone.
pub uninterp spec fn spec_sig_ok(key: Seq<u8>, tx: SpecTypedTransaction) -> bool;

/// The recipient field built from an optional resolved address.
pub fn tx_kind(to_address: Option<Address>) -> (r: TxRecipient)
    ensures
        r@ == match to_address {
            Some(a) => SpecTxRecipient::Call(a@),
            None => SpecTxRecipient::Create,
        },
{
    match to_address {
        Some(address) => TxRecipient::Call(address),
        None => TxRecipient::Create,
    }
}

/// Sign a resolved transaction with the sender's secret key. Success is
/// owed exactly where the signer succeeds on this key and transaction.
pub fn sign_transaction(key: &Vec<u8>, tx: &TypedTransaction) -> (r: Option<TxSignature>)
    requires
        key@.len() == 32,
        key_is_valid(key@),
        tx.wf(),
    ensures
        r is Some <==> spec_sig_ok(key@, tx@),
        r matches Some(sig) ==> sig == spec_tx_signature(key@, tx@),
{
    match tx {
        TypedTransaction::Legacy(t) => sign_legacy(key, t),
        TypedTransaction::Eip2930(t) => sign_eip2930(key, t),
        TypedTransaction::Eip1559(t) => sign_eip1559(key, t),
    }
}

#[verifier::external_type_specification]
#[verifier::external_body]
pub struct ExUint<const BITS: usize, const LIMBS: usize>(alloy_primitives::Uint<BITS, LIMBS>);

#[verifier::external_type_specification]
#[verifier::external_body]
pub struct ExAccessList(alloy_eips::eip2930::AccessList);

#[verifier::external_type_specification]
#[verifier::external_body]
pub struct ExAccessListItem(alloy_eips::eip2930::AccessListItem);

#[verifier::external_type_specification]
#[verifier::external_body]
pub struct ExSignature(alloy_primitives::Signature);

#[verifier::external_type_specification]
#[verifier::external_body]
pub struct ExTxKind(alloy_primitives::TxKind);

/// Conversion helper for the signing wrappers; no `ensures`. The 20-byte
/// bound keeps the outside `Address::from_slice` from panicking.
#[verifier::external_body]
fn alloy_tx_kind(to: &TxRecipient) -> alloy_primitives::TxKind
    requires
        to.wf(),
{
    match to {
        TxRecipient::Create => alloy_primitives::TxKind::Create,
        TxRecipient::Call(a) => alloy_primitives::TxKind::Call(
            alloy_primitives::Address::from_slice(a.bytes.as_slice()),
        ),
    }
}

/// Conversion helper for the signing wrappers; carries no contract.
#[verifier::external_body]
fn alloy_u256(v: &Uint256) -> alloy_primitives::U256 {
    alloy_primitives::U256::from_limbs([v.l0, v.l1, v.l2, v.l3])
}

/// Conversion helper for the signing wrappers; no `ensures`. The 20-byte
/// bound keeps the outside `Address::from_slice` from panicking.
#[verifier::external_body]
fn alloy_access_list(al: &TxAccessList) -> alloy_eips::eip2930::AccessList
    requires
        al.wf(),
{
    alloy_eips::eip2930::AccessList(
        al.0.iter()
            .map(|item| alloy_eips::eip2930::AccessListItem {
                address: alloy_primitives::Address::from_slice(item.address.bytes.as_slice()),
                storage_keys: item.storage_keys.iter()
                    .map(|k| alloy_primitives::B256::from(alloy_u256(k).to_be_bytes()))
                    .collect(),
            })
            .collect(),
    )
}

/// Conversion helper for the signing wrappers; carries no contract.
#[verifier::external_body]
fn own_signature(sig: alloy_primitives::Signature) -> TxSignature {
    let r = sig.r().into_limbs();
    let s = sig.s().into_limbs();
    TxSignature {
        odd_y_parity: sig.v(),
        r: Uint256 { l0: r[0], l1: r[1], l2: r[2], l3: r[3] },
        s: Uint256 { l0: s[0], l1: s[1], l2: s[2], l3: s[3] },
    }
}

/// Relies on `alloy_signer_local::PrivateKeySigner::from_slice` (succeeds
/// on every valid key) and `TxSignerSync::sign_transaction_sync` on
/// `alloy_consensus::TxLegacy`: deterministic ECDSA over the key and the
/// transaction fields, with no entropy drawn — both the signature and
/// whether signing succeeds are functions of the key and the transaction.
#[verifier::external_body]
fn sign_legacy(key: &Vec<u8>, tx: &TxLegacy) -> (r: Option<TxSignature>)
    requires
        key@.len() == 32,
        key_is_valid(key@),
        tx.to.wf(),
    ensures
        r is Some <==> spec_sig_ok(key@, SpecTypedTransaction::Legacy(tx@)),
        r matches Some(sig) ==> sig == spec_tx_signature(
            key@, SpecTypedTransaction::Legacy(tx@)),
{
    let signer = alloy_signer_local::PrivateKeySigner::from_slice(key.as_slice()).ok()?;
    let mut t = alloy_consensus::TxLegacy {
        chain_id: tx.chain_id,
        nonce: tx.nonce,
        gas_price: tx.gas_price,
        gas_limit: tx.gas_limit,
        to: alloy_tx_kind(&tx.to),
        value: alloy_u256(&tx.value),
        input: alloy_primitives::Bytes::from(clone_bytes(&tx.input)),
    };
    let sig = alloy_network::TxSignerSync::sign_transaction_sync(&signer, &mut t).ok()?;
    Some(own_signature(sig))
}

/// Relies on `alloy_signer_local::PrivateKeySigner::from_slice` (succeeds
/// on every valid key) and `TxSignerSync::sign_transaction_sync` on
/// `alloy_consensus::TxEip2930`: deterministic ECDSA over the key and the
/// transaction fields, with no entropy drawn — both the signature and
/// whether signing succeeds are functions of the key and the transaction.
#[verifier::external_body]
fn sign_eip2930(key: &Vec<u8>, tx: &TxEip2930) -> (r: Option<TxSignature>)
    requires
        key@.len() == 32,
        key_is_valid(key@),
        tx.to.wf(),
        tx.access_list.wf(),
    ensures
        r is Some <==> spec_sig_ok(key@, SpecTypedTransaction::Eip2930(tx@)),
        r matches Some(sig) ==> sig == spec_tx_signature(
            key@, SpecTypedTransaction::Eip2930(tx@)),
{
    let signer = alloy_signer_local::PrivateKeySigner::from_slice(key.as_slice()).ok()?;
    let mut t = alloy_consensus::TxEip2930 {
        chain_id: tx.chain_id,
        nonce: tx.nonce,
        gas_price: tx.gas_price,
        gas_limit: tx.gas_limit,
        to: alloy_tx_kind(&tx.to),
        value: alloy_u256(&tx.value),
        access_list: alloy_access_list(&tx.access_list),
        input: alloy_primitives::Bytes::from(clone_bytes(&tx.input)),
    };
    let sig = alloy_network::TxSignerSync::sign_transaction_sync(&signer, &mut t).ok()?;
    Some(own_signature(sig))
}

/// Relies on `alloy_signer_local::PrivateKeySigner::from_slice` (succeeds
/// on every valid key) and `TxSignerSync::sign_transaction_sync` on
/// `alloy_consensus::TxEip1559`: deterministic ECDSA over the key and the
/// transaction fields, with no entropy drawn — both the signature and
/// whether signing succeeds are functions of the key and the transaction.
#[verifier::external_body]
fn sign_eip1559(key: &Vec<u8>, tx: &TxEip1559) -> (r: Option<TxSignature>)
    requires
        key@.len() == 32,
        key_is_valid(key@),
        tx.to.wf(),
        tx.access_list.wf(),
    ensures
        r is Some <==> spec_sig_ok(key@, SpecTypedTransaction::Eip1559(tx@)),
        r matches Some(sig) ==> sig == spec_tx_signature(
            key@, SpecTypedTransaction::Eip1559(tx@)),
{
    let signer = alloy_signer_local::PrivateKeySigner::from_slice(key.as_slice()).ok()?;
    let mut t = alloy_consensus::TxEip1559 {
        chain_id: tx.chain_id,
        nonce: tx.nonce,
        gas_limit: tx.gas_limit,
        max_fee_per_gas: tx.max_fee_per_gas,
        max_priority_fee_per_gas: tx.max_priority_fee_per_gas,
        to: alloy_tx_kind(&tx.to),
        value: alloy_u256(&tx.value),
        access_list: alloy_access_list(&tx.access_list),
        input: alloy_primitives::Bytes::from(clone_bytes(&tx.input)),
    };
    let sig = alloy_network::TxSignerSync::sign_transaction_sync(&signer, &mut t).ok()?;
    Some(own_signature(sig))
}

} // verus!
