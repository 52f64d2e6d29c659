//! The configuration resolver: turns a declarative, partially specified
//! configuration into a fully resolved world — wallets, genesis allocation,
//! and signed transactions — enforcing cross-reference integrity and
//! default-value fallback, and assigning per-sender nonces.
//!
//! Nonces are computed purely from the genesis state plus the count of
//! prior transactions by the same sender in this run; the network is never
//! consulted.

use vstd::prelude::*;
use crate::assembler::{compile_mnemonic, has_prefix, lit, spec_compile, CompileError,
    SpecCompileError};
use crate::chain::ChainConfigBuilder;
use crate::genesis::{Genesis, GenesisAccount, GenesisBuilder, SpecGenesis, SpecGenesisAccount,
    SpecGenesisDecl};
use crate::hexcode::{hex_decode, spec_hex_decode};
use crate::keys::{entropy_wallet_keys, key_address, key_address_of, key_is_valid, seeded_key,
    seeded_wallet_keys};
use crate::nums::{clone_bytes, Address, Ether, Uint256};
use crate::refs::{resolve_address, resolve_sender, spec_lookup_by_name, spec_resolve_ref,
    spec_resolve_sender, wallets_view, AddressOrAlias, SpecAddressOrAlias, SpecWallet, Wallet};
use crate::tx::{sign_transaction, spec_sig_ok, spec_tx_signature, tx_kind, SignedTransaction, SpecSignedTransaction,
    SpecTxEip1559, SpecTxEip2930, SpecTxRecipient, SpecTxLegacy, SpecTypedTransaction, TxAccessList,
    TxEip1559, TxEip2930, TxLegacy, TxSignature, TypedTransaction};

verus! {

/// Run-level settings: the optional deterministic seed and the path of the
/// node executable.
#[derive(Debug)]
pub struct SystemBuilder {
    pub random_seed: Option<u64>,
    pub geth_path: Option<Vec<u8>>,
}

/// Fallback values applied where a declaration leaves a field out.
#[derive(Clone, Copy, Debug)]
pub struct DefaultsBuilder {
    pub account_balance: Option<Ether>,
    pub tx_gas_price: Option<Ether>,
    pub tx_max_fee_per_gas: Option<Ether>,
    pub tx_max_priority_fee_per_gas: Option<Ether>,
    pub tx_gas_limit: Option<u64>,
}

/// A declared wallet: a name, and either an explicit secret key or none,
/// in which case one is generated.
#[derive(Debug)]
pub struct WalletBuilder {
    pub name: Vec<u8>,
    pub secret: Option<Vec<u8>>,
}

pub ghost struct SpecWalletDecl {
    pub name: Seq<u8>,
    pub secret: Option<Seq<u8>>,
}

impl View for WalletBuilder {
    type V = SpecWalletDecl;

    open spec fn view(&self) -> SpecWalletDecl {
        SpecWalletDecl {
            name: self.name@,
            secret: match &self.secret {
                Some(s) => Some(s@),
                None => None,
            },
        }
    }
}

/// A declared genesis allocation entry.
#[derive(Debug)]
pub struct AllocBuilder {
    pub address: AddressOrAlias,
    pub nonce: Option<u64>,
    pub balance: Option<Ether>,
    pub code: Option<Vec<u8>>,
    pub storage: Vec<(Uint256, Uint256)>,
}

pub ghost struct SpecAllocDecl {
    pub address: SpecAddressOrAlias,
    pub nonce: Option<u64>,
    pub balance: Option<Ether>,
    pub code: Option<Seq<u8>>,
    pub storage: Seq<(Uint256, Uint256)>,
}

impl View for AllocBuilder {
    type V = SpecAllocDecl;

    open spec fn view(&self) -> SpecAllocDecl {
        SpecAllocDecl {
            address: self.address@,
            nonce: self.nonce,
            balance: self.balance,
            code: match &self.code {
                Some(c) => Some(c@),
                None => None,
            },
            storage: self.storage@,
        }
    }
}

/// A declared legacy transaction.
#[derive(Debug)]
pub struct LegacyTransactionBuilder {
    pub from: AddressOrAlias,
    pub to: Option<AddressOrAlias>,
    pub gas_price: Option<Ether>,
    pub gas_limit: Option<u64>,
    pub value: Option<Ether>,
    pub input: Vec<u8>,
}

/// A declared access-list transaction.
#[derive(Debug)]
pub struct Eip2930TransactionBuilder {
    pub from: AddressOrAlias,
    pub to: Option<AddressOrAlias>,
    pub gas_price: Option<Ether>,
    pub gas_limit: Option<u64>,
    pub value: Option<Ether>,
    pub access_list: Option<TxAccessList>,
    pub input: Vec<u8>,
}

/// A declared fee-market transaction.
#[derive(Debug)]
pub struct Eip1559TransactionBuilder {
    pub from: AddressOrAlias,
    pub to: Option<AddressOrAlias>,
    pub max_fee_per_gas: Option<Ether>,
    pub max_priority_fee_per_gas: Option<Ether>,
    pub gas_limit: Option<u64>,
    pub value: Option<Ether>,
    pub access_list: Option<TxAccessList>,
    pub input: Vec<u8>,
}

/// A declared transaction: a closed tagged union, one variant per type.
#[derive(Debug)]
pub enum TransactionBuilder {
    Legacy(LegacyTransactionBuilder),
    Eip2930(Eip2930TransactionBuilder),
    Eip1559(Eip1559TransactionBuilder),
}

pub ghost struct SpecTxDecl {
    pub from: SpecAddressOrAlias,
    pub to: Option<SpecAddressOrAlias>,
    pub gas_price: Option<Ether>,
    pub max_fee_per_gas: Option<Ether>,
    pub max_priority_fee_per_gas: Option<Ether>,
    pub gas_limit: Option<u64>,
    pub value: Option<Ether>,
    pub access_list: Option<Seq<crate::tx::SpecAccessEntry>>,
    pub input: Seq<u8>,
}

pub ghost enum SpecTransactionDecl {
    Legacy(SpecTxDecl),
    Eip2930(SpecTxDecl),
    Eip1559(SpecTxDecl),
}

impl View for TransactionBuilder {
    type V = SpecTransactionDecl;

    open spec fn view(&self) -> SpecTransactionDecl {
        match self {
            TransactionBuilder::Legacy(b) => SpecTransactionDecl::Legacy(SpecTxDecl {
                from: b.from@,
                to: match &b.to {
                    Some(t) => Some(t@),
                    None => None,
                },
                gas_price: b.gas_price,
                max_fee_per_gas: None,
                max_priority_fee_per_gas: None,
                gas_limit: b.gas_limit,
                value: b.value,
                access_list: None,
                input: b.input@,
            }),
            TransactionBuilder::Eip2930(b) => SpecTransactionDecl::Eip2930(SpecTxDecl {
                from: b.from@,
                to: match &b.to {
                    Some(t) => Some(t@),
                    None => None,
                },
                gas_price: b.gas_price,
                max_fee_per_gas: None,
                max_priority_fee_per_gas: None,
                gas_limit: b.gas_limit,
                value: b.value,
                access_list: match &b.access_list {
                    Some(al) => Some(al@),
                    None => None,
                },
                input: b.input@,
            }),
            TransactionBuilder::Eip1559(b) => SpecTransactionDecl::Eip1559(SpecTxDecl {
                from: b.from@,
                to: match &b.to {
                    Some(t) => Some(t@),
                    None => None,
                },
                gas_price: None,
                max_fee_per_gas: b.max_fee_per_gas,
                max_priority_fee_per_gas: b.max_priority_fee_per_gas,
                gas_limit: b.gas_limit,
                value: b.value,
                access_list: match &b.access_list {
                    Some(al) => Some(al@),
                    None => None,
                },
                input: b.input@,
            }),
        }
    }
}

impl SpecTransactionDecl {
    pub open spec fn fields(&self) -> SpecTxDecl {
        match self {
            SpecTransactionDecl::Legacy(d) => *d,
            SpecTransactionDecl::Eip2930(d) => *d,
            SpecTransactionDecl::Eip1559(d) => *d,
        }
    }
}

/// The whole declarative configuration.
#[derive(Debug)]
pub struct SpectreBuilder {
    pub system: SystemBuilder,
    pub defaults: DefaultsBuilder,
    pub genesis: GenesisBuilder,
    pub chain: ChainConfigBuilder,
    pub alloc: Vec<AllocBuilder>,
    pub wallet: Vec<WalletBuilder>,
    pub transactions: Vec<TransactionBuilder>,
}

pub ghost struct SpecConfig {
    pub random_seed: Option<u64>,
    pub geth_path: Option<Seq<u8>>,
    pub defaults: DefaultsBuilder,
    pub genesis: SpecGenesisDecl,
    pub chain: ChainConfigBuilder,
    pub alloc: Seq<SpecAllocDecl>,
    pub wallet: Seq<SpecWalletDecl>,
    pub transactions: Seq<SpecTransactionDecl>,
}

impl View for SpectreBuilder {
    type V = SpecConfig;

    open spec fn view(&self) -> SpecConfig {
        SpecConfig {
            random_seed: self.system.random_seed,
            geth_path: match &self.system.geth_path {
                Some(p) => Some(p@),
                None => None,
            },
            defaults: self.defaults,
            genesis: self.genesis@,
            chain: self.chain,
            alloc: self.alloc@.map_values(|a: AllocBuilder| a@),
            wallet: self.wallet@.map_values(|w: WalletBuilder| w@),
            transactions: self.transactions@.map_values(|t: TransactionBuilder| t@),
        }
    }
}

/// Why resolution failed, with the offending item's index.
#[derive(Debug)]
#[allow(inconsistent_fields)]
pub enum BuilderError {
    InvalidSecret { idx: usize },
    AllocWalletNotFound { idx: usize, name: Vec<u8> },
    BalanceNotSet { idx: usize },
    CompileError { idx: usize, address: Address, error: CompileError },
    AtLeastOneTransaction,
    AccessListNotSet { idx: usize },
    TxAccountNotFound { idx: usize, name: AddressOrAlias },
    GasPriceNotSet { idx: usize },
    MaxFeePerGasNotSet { idx: usize },
    MaxPriorityFeePerGasNotSet { idx: usize },
    GasLimitNotSet { idx: usize },
    SigningFailed { idx: usize },
}

#[allow(inconsistent_fields)]
pub ghost enum SpecBuilderError {
    InvalidSecret { idx: int },
    AllocWalletNotFound { idx: int, name: Seq<u8> },
    BalanceNotSet { idx: int },
    CompileError { idx: int, address: Seq<u8>, error: SpecCompileError },
    AtLeastOneTransaction,
    AccessListNotSet { idx: int },
    TxAccountNotFound { idx: int, name: SpecAddressOrAlias },
    GasPriceNotSet { idx: int },
    MaxFeePerGasNotSet { idx: int },
    MaxPriorityFeePerGasNotSet { idx: int },
    GasLimitNotSet { idx: int },
    SigningFailed { idx: int },
}

impl View for BuilderError {
    type V = SpecBuilderError;

    open spec fn view(&self) -> SpecBuilderError {
        match self {
            BuilderError::InvalidSecret { idx } => SpecBuilderError::InvalidSecret {
                idx: *idx as int,
            },
            BuilderError::AllocWalletNotFound { idx, name } => (
            SpecBuilderError::AllocWalletNotFound { idx: *idx as int, name: name@ }),
            BuilderError::BalanceNotSet { idx } => SpecBuilderError::BalanceNotSet {
                idx: *idx as int,
            },
            BuilderError::CompileError { idx, address, error } => SpecBuilderError::CompileError {
                idx: *idx as int,
                address: address@,
                error: error@,
            },
            BuilderError::AtLeastOneTransaction => SpecBuilderError::AtLeastOneTransaction,
            BuilderError::AccessListNotSet { idx } => SpecBuilderError::AccessListNotSet {
                idx: *idx as int,
            },
            BuilderError::TxAccountNotFound { idx, name } => SpecBuilderError::TxAccountNotFound {
                idx: *idx as int,
                name: name@,
            },
            BuilderError::GasPriceNotSet { idx } => SpecBuilderError::GasPriceNotSet {
                idx: *idx as int,
            },
            BuilderError::MaxFeePerGasNotSet { idx } => SpecBuilderError::MaxFeePerGasNotSet {
                idx: *idx as int,
            },
            BuilderError::MaxPriorityFeePerGasNotSet { idx } => (
            SpecBuilderError::MaxPriorityFeePerGasNotSet { idx: *idx as int }),
            BuilderError::GasLimitNotSet { idx } => SpecBuilderError::GasLimitNotSet {
                idx: *idx as int,
            },
            BuilderError::SigningFailed { idx } => SpecBuilderError::SigningFailed {
                idx: *idx as int,
            },
        }
    }
}

/// The fully resolved world: genesis, wallets, and signed transactions.
#[derive(Debug)]
pub struct Spectre {
    pub geth_path: Option<Vec<u8>>,
    pub genesis: Genesis,
    pub wallets: Vec<Wallet>,
    pub transactions: Vec<SignedTransaction>,
}

pub ghost struct SpecWorld {
    pub geth_path: Option<Seq<u8>>,
    pub genesis: SpecGenesis,
    pub wallets: Seq<SpecWallet>,
    pub transactions: Seq<SpecSignedTransaction>,
}

impl View for Spectre {
    type V = SpecWorld;

    open spec fn view(&self) -> SpecWorld {
        SpecWorld {
            geth_path: match &self.geth_path {
                Some(p) => Some(p@),
                None => None,
            },
            genesis: self.genesis@,
            wallets: wallets_view(self.wallets@),
            transactions: self.transactions@.map_values(|t: SignedTransaction| t@),
        }
    }
}

// ---------------------------------------------------------------------
// Wallet resolution.
// ---------------------------------------------------------------------

/// How many of the first `i` declared wallets have no explicit secret and
/// draw a generated key.
pub open spec fn gen_index(ws: Seq<SpecWalletDecl>, i: int) -> int
    decreases i,
{
    if i <= 0 {
        0
    } else {
        gen_index(ws, i - 1) + if ws[i - 1].secret is None {
            1int
        } else {
            0int
        }
    }
}

/// The secret key of the `i`-th declared wallet: its explicit secret, or
/// the next generated key.
pub open spec fn spec_wallet_key(ws: Seq<SpecWalletDecl>, keys: Seq<Seq<u8>>, i: int) -> Seq<u8> {
    match ws[i].secret {
        Some(s) => s,
        None => keys[gen_index(ws, i)],
    }
}

/// The first declared wallet whose explicit secret is not a valid key.
pub open spec fn first_bad_secret(ws: Seq<SpecWalletDecl>, i: int) -> Option<int>
    decreases ws.len() - i,
{
    if i < 0 || i >= ws.len() {
        None
    } else if ws[i].secret matches Some(s) && !key_is_valid(s) {
        Some(i)
    } else {
        first_bad_secret(ws, i + 1)
    }
}

/// The resolved wallet list, assuming no bad secret.
pub open spec fn spec_wallet_at(ws: Seq<SpecWalletDecl>, keys: Seq<Seq<u8>>, i: int) -> SpecWallet {
    SpecWallet {
        name: ws[i].name,
        key: spec_wallet_key(ws, keys, i),
        address: key_address_of(spec_wallet_key(ws, keys, i)),
    }
}

pub open spec fn spec_wallets(ws: Seq<SpecWalletDecl>, keys: Seq<Seq<u8>>) -> Seq<SpecWallet> {
    Seq::new(ws.len(), |i: int| spec_wallet_at(ws, keys, i))
}

// ---------------------------------------------------------------------
// Allocation resolution.
// ---------------------------------------------------------------------

/// The bytes that an account-code string denotes: a hexadecimal literal
/// (with an optional `0x` prefix), or failing that, assembler source.
pub open spec fn spec_code(text: Seq<u8>) -> Result<Seq<u8>, SpecCompileError> {
    let h = if has_prefix(text, lit("0x")) {
        text.skip(lit("0x").len() as int)
    } else {
        text
    };
    match spec_hex_decode(h) {
        Some(b) => Ok(b),
        None => spec_compile(text),
    }
}

/// One resolved allocation entry, or its error.
#[verifier::opaque]
pub open spec fn spec_alloc_entry(
    cfg: SpecConfig,
    ws: Seq<SpecWallet>,
    i: int,
) -> Result<(Seq<u8>, SpecGenesisAccount), SpecBuilderError> {
    let d = cfg.alloc[i];
    match spec_resolve_ref(ws, d.address) {
        None => Err(SpecBuilderError::AllocWalletNotFound {
            idx: i,
            name: match d.address {
                SpecAddressOrAlias::Alias(n) => n,
                SpecAddressOrAlias::Address(a) => a,
            },
        }),
        Some(addr) => {
            let code = match d.code {
                None => Ok(None),
                Some(text) => match spec_code(text) {
                    Ok(b) => Ok(Some(b)),
                    Err(e) => Err(e),
                },
            };
            match code {
                Err(e) => Err(SpecBuilderError::CompileError { idx: i, address: addr, error: e }),
                Ok(code) => match spec_or_ether(d.balance, cfg.defaults.account_balance) {
                    None => Err(SpecBuilderError::BalanceNotSet { idx: i }),
                    Some(balance) => Ok(
                        (addr, SpecGenesisAccount {
                            nonce: d.nonce,
                            balance: balance.0,
                            code,
                            storage: d.storage,
                        }),
                    ),
                },
            }
        },
    }
}

pub open spec fn spec_or_ether(a: Option<Ether>, b: Option<Ether>) -> Option<Ether> {
    match a {
        Some(e) => Some(e),
        None => b,
    }
}

/// Insert into an allocation map: a later entry for the same address
/// replaces the earlier one in place.
pub open spec fn alloc_insert(
    m: Seq<(Seq<u8>, SpecGenesisAccount)>,
    k: Seq<u8>,
    v: SpecGenesisAccount,
) -> Seq<(Seq<u8>, SpecGenesisAccount)>
    decreases m.len(),
{
    if m.len() == 0 {
        seq![(k, v)]
    } else if m[0].0 == k {
        seq![(k, v)] + m.skip(1)
    } else {
        seq![m[0]] + alloc_insert(m.skip(1), k, v)
    }
}

/// The allocation map after the first `i` entries, or the first error.
pub open spec fn spec_alloc_map(cfg: SpecConfig, ws: Seq<SpecWallet>, i: int) -> Result<
    Seq<(Seq<u8>, SpecGenesisAccount)>,
    SpecBuilderError,
>
    decreases i,
{
    if i <= 0 {
        Ok(Seq::empty())
    } else {
        match spec_alloc_map(cfg, ws, i - 1) {
            Err(e) => Err(e),
            Ok(m) => match spec_alloc_entry(cfg, ws, i - 1) {
                Err(e) => Err(e),
                Ok((k, v)) => Ok(alloc_insert(m, k, v)),
            },
        }
    }
}

/// The account at an address of the allocation map.
pub open spec fn spec_alloc_lookup(m: Seq<(Seq<u8>, SpecGenesisAccount)>, k: Seq<u8>) -> Option<
    SpecGenesisAccount,
>
    decreases m.len(),
{
    if m.len() == 0 {
        None
    } else if m[0].0 == k {
        Some(m[0].1)
    } else {
        spec_alloc_lookup(m.skip(1), k)
    }
}

/// A sender's nonce at genesis: the declared nonce of its allocation entry,
/// or zero.
pub open spec fn spec_genesis_nonce(m: Seq<(Seq<u8>, SpecGenesisAccount)>, a: Seq<u8>) -> u64 {
    match spec_alloc_lookup(m, a) {
        Some(acct) => match acct.nonce {
            Some(n) => n,
            None => 0u64,
        },
        None => 0u64,
    }
}

// ---------------------------------------------------------------------
// Transaction resolution.
// ---------------------------------------------------------------------

/// The wallet signing for the `i`-th transaction, or the unresolved
/// reference error.
pub open spec fn spec_from_wallet(cfg: SpecConfig, ws: Seq<SpecWallet>, i: int) -> Result<
    int,
    SpecBuilderError,
> {
    let d = cfg.transactions[i].fields();
    match spec_resolve_sender(ws, d.from) {
        Some(w) => Ok(w),
        None => Err(SpecBuilderError::TxAccountNotFound { idx: i, name: d.from }),
    }
}

/// The sender address of the `i`-th transaction (meaningful only where the
/// sender resolves).
pub open spec fn spec_sender_addr(cfg: SpecConfig, ws: Seq<SpecWallet>, i: int) -> Seq<u8> {
    let d = cfg.transactions[i].fields();
    match d.from {
        SpecAddressOrAlias::Address(a) => a,
        SpecAddressOrAlias::Alias(n) => match spec_resolve_sender(ws, d.from) {
            Some(w) => ws[w].address,
            None => Seq::empty(),
        },
    }
}

/// The resolved recipient of the `i`-th transaction.
pub open spec fn spec_to_addr(cfg: SpecConfig, ws: Seq<SpecWallet>, i: int) -> Result<
    Option<Seq<u8>>,
    SpecBuilderError,
> {
    let d = cfg.transactions[i].fields();
    match d.to {
        None => Ok(None),
        Some(rf) => match spec_resolve_ref(ws, rf) {
            Some(a) => Ok(Some(a)),
            None => Err(SpecBuilderError::TxAccountNotFound { idx: i, name: rf }),
        },
    }
}

/// How many of the first `i` transactions share the given sender.
pub open spec fn spec_count_before(cfg: SpecConfig, ws: Seq<SpecWallet>, i: int, a: Seq<u8>) -> int
    decreases i,
{
    if i <= 0 {
        0
    } else {
        spec_count_before(cfg, ws, i - 1, a) + if spec_sender_addr(cfg, ws, i - 1) == a {
            1int
        } else {
            0int
        }
    }
}

/// The nonce assigned to the `i`-th transaction: the sender's genesis nonce
/// plus the count of its prior transactions in this run.
pub open spec fn spec_nonce_of(
    cfg: SpecConfig,
    ws: Seq<SpecWallet>,
    m: Seq<(Seq<u8>, SpecGenesisAccount)>,
    i: int,
) -> u64 {
    (spec_genesis_nonce(m, spec_sender_addr(cfg, ws, i)) + spec_count_before(
        cfg,
        ws,
        i,
        spec_sender_addr(cfg, ws, i),
    )) as u64
}

pub open spec fn spec_gas_price(idx: int, o: Option<Ether>, d: DefaultsBuilder) -> Result<
    Ether,
    SpecBuilderError,
> {
    match spec_or_ether(o, d.tx_gas_price) {
        Some(e) => Ok(e),
        None => Err(SpecBuilderError::GasPriceNotSet { idx }),
    }
}

pub open spec fn spec_max_fee_per_gas(idx: int, o: Option<Ether>, d: DefaultsBuilder) -> Result<
    Ether,
    SpecBuilderError,
> {
    match spec_or_ether(o, d.tx_max_fee_per_gas) {
        Some(e) => Ok(e),
        None => Err(SpecBuilderError::MaxFeePerGasNotSet { idx }),
    }
}

pub open spec fn spec_max_priority_fee_per_gas(
    idx: int,
    o: Option<Ether>,
    d: DefaultsBuilder,
) -> Result<Ether, SpecBuilderError> {
    match spec_or_ether(o, d.tx_max_priority_fee_per_gas) {
        Some(e) => Ok(e),
        None => Err(SpecBuilderError::MaxPriorityFeePerGasNotSet { idx }),
    }
}

pub open spec fn spec_gas_limit(idx: int, o: Option<u64>, d: DefaultsBuilder) -> Result<
    u64,
    SpecBuilderError,
> {
    match o {
        Some(g) => Ok(g),
        None => match d.tx_gas_limit {
            Some(g) => Ok(g),
            None => Err(SpecBuilderError::GasLimitNotSet { idx }),
        },
    }
}

/// A wei amount as the 128-bit integer the transaction types carry.
pub open spec fn ether_u128(e: Ether) -> u128 {
    e.0.as_nat() as u128
}

pub open spec fn spec_value(o: Option<Ether>) -> Uint256 {
    match o {
        Some(e) => e.0,
        None => Uint256 { l0: 0u64, l1: 0u64, l2: 0u64, l3: 0u64 },
    }
}

pub open spec fn spec_kind(o: Option<Seq<u8>>) -> SpecTxRecipient {
    match o {
        Some(a) => SpecTxRecipient::Call(a),
        None => SpecTxRecipient::Create,
    }
}

/// The `i`-th transaction with every field of its type resolved, or the
/// first error of its resolution.
#[verifier::opaque]
pub open spec fn spec_typed_tx(
    cfg: SpecConfig,
    ws: Seq<SpecWallet>,
    m: Seq<(Seq<u8>, SpecGenesisAccount)>,
    i: int,
) -> Result<SpecTypedTransaction, SpecBuilderError> {
    match spec_from_wallet(cfg, ws, i) {
        Err(e) => Err(e),
        Ok(_) => match spec_to_addr(cfg, ws, i) {
            Err(e) => Err(e),
            Ok(to) => {
                let d = cfg.transactions[i].fields();
                match cfg.transactions[i] {
                    SpecTransactionDecl::Legacy(_) => match spec_gas_price(i, d.gas_price, cfg.defaults) {
                        Err(e) => Err(e),
                        Ok(gp) => match spec_gas_limit(i, d.gas_limit, cfg.defaults) {
                            Err(e) => Err(e),
                            Ok(gl) => Ok(SpecTypedTransaction::Legacy(SpecTxLegacy {
                                chain_id: Some(cfg.chain.chain_id),
                                nonce: spec_nonce_of(cfg, ws, m, i),
                                gas_price: ether_u128(gp),
                                gas_limit: gl,
                                to: spec_kind(to),
                                value: spec_value(d.value),
                                input: d.input,
                            })),
                        },
                    },
                    SpecTransactionDecl::Eip2930(_) => match spec_gas_price(i, d.gas_price, cfg.defaults) {
                        Err(e) => Err(e),
                        Ok(gp) => match spec_gas_limit(i, d.gas_limit, cfg.defaults) {
                            Err(e) => Err(e),
                            Ok(gl) => match d.access_list {
                                None => Err(SpecBuilderError::AccessListNotSet { idx: i }),
                                Some(al) => Ok(SpecTypedTransaction::Eip2930(SpecTxEip2930 {
                                    chain_id: cfg.chain.chain_id,
                                    nonce: spec_nonce_of(cfg, ws, m, i),
                                    gas_price: ether_u128(gp),
                                    gas_limit: gl,
                                    to: spec_kind(to),
                                    value: spec_value(d.value),
                                    access_list: al,
                                    input: d.input,
                                })),
                            },
                        },
                    },
                    SpecTransactionDecl::Eip1559(_) => match spec_gas_limit(i, d.gas_limit, cfg.defaults) {
                        Err(e) => Err(e),
                        Ok(gl) => match spec_max_fee_per_gas(i, d.max_fee_per_gas, cfg.defaults) {
                            Err(e) => Err(e),
                            Ok(mf) => match spec_max_priority_fee_per_gas(
                                i,
                                d.max_priority_fee_per_gas,
                                cfg.defaults,
                            ) {
                                Err(e) => Err(e),
                                Ok(mp) => match d.access_list {
                                    None => Err(SpecBuilderError::AccessListNotSet { idx: i }),
                                    Some(al) => Ok(SpecTypedTransaction::Eip1559(SpecTxEip1559 {
                                        chain_id: cfg.chain.chain_id,
                                        nonce: spec_nonce_of(cfg, ws, m, i),
                                        gas_limit: gl,
                                        max_fee_per_gas: ether_u128(mf),
                                        max_priority_fee_per_gas: ether_u128(mp),
                                        to: spec_kind(to),
                                        value: spec_value(d.value),
                                        access_list: al,
                                        input: d.input,
                                    })),
                                },
                            },
                        },
                    },
                }
            },
        },
    }
}

/// The `i`-th transaction resolved and signed with its sender's key.
pub open spec fn spec_signed_tx(
    cfg: SpecConfig,
    ws: Seq<SpecWallet>,
    m: Seq<(Seq<u8>, SpecGenesisAccount)>,
    i: int,
) -> Result<SpecSignedTransaction, SpecBuilderError> {
    match spec_typed_tx(cfg, ws, m, i) {
        Err(e) => Err(e),
        Ok(t) => match spec_from_wallet(cfg, ws, i) {
            Err(e) => Err(e),
            Ok(w) => Ok(SpecSignedTransaction {
                from: spec_sender_addr(cfg, ws, i),
                tx: t,
                signature: spec_tx_signature(ws[w].key, t),
            }),
        },
    }
}

/// The first `i` transactions resolved and signed, or the first error.
pub open spec fn spec_txs(
    cfg: SpecConfig,
    ws: Seq<SpecWallet>,
    m: Seq<(Seq<u8>, SpecGenesisAccount)>,
    i: int,
) -> Result<Seq<SpecSignedTransaction>, SpecBuilderError>
    decreases i,
{
    if i <= 0 {
        Ok(Seq::empty())
    } else {
        match spec_txs(cfg, ws, m, i - 1) {
            Err(e) => Err(e),
            Ok(pre) => match spec_signed_tx(cfg, ws, m, i - 1) {
                Err(e) => Err(e),
                Ok(t) => Ok(pre.push(t)),
            },
        }
    }
}

// ---------------------------------------------------------------------
// The whole resolution.
// ---------------------------------------------------------------------

/// The genesis document the configuration denotes, given the resolved
/// allocation map.
pub open spec fn spec_genesis_of(
    cfg: SpecConfig,
    m: Seq<(Seq<u8>, SpecGenesisAccount)>,
) -> SpecGenesis {
    SpecGenesis {
        config: cfg.chain.spec_build(),
        nonce: cfg.genesis.nonce,
        timestamp: cfg.genesis.timestamp,
        extra_data: Seq::empty(),
        gas_limit: cfg.genesis.gas_limit,
        difficulty: cfg.genesis.difficulty,
        mix_hash: cfg.genesis.mix_hash,
        coinbase: cfg.genesis.coinbase,
        alloc: m,
    }
}

/// What the configuration resolves to, given the generated keys: the
/// resolved world, or the first error in declaration order — wallets, then
/// allocations, then the at-least-one-transaction rule, then transactions.
pub open spec fn spec_build_world(cfg: SpecConfig, keys: Seq<Seq<u8>>) -> Result<
    SpecWorld,
    SpecBuilderError,
> {
    match first_bad_secret(cfg.wallet, 0) {
        Some(i) => Err(SpecBuilderError::InvalidSecret { idx: i }),
        None => {
            let ws = spec_wallets(cfg.wallet, keys);
            match spec_alloc_map(cfg, ws, cfg.alloc.len() as int) {
                Err(e) => Err(e),
                Ok(m) => if cfg.transactions.len() == 0 {
                    Err(SpecBuilderError::AtLeastOneTransaction)
                } else {
                    match spec_txs(cfg, ws, m, cfg.transactions.len() as int) {
                        Err(e) => Err(e),
                        Ok(ts) => Ok(SpecWorld {
                            geth_path: cfg.geth_path,
                            genesis: spec_genesis_of(cfg, m),
                            wallets: ws,
                            transactions: ts,
                        }),
                    }
                },
            }
        },
    }
}

/// The keys drawn from the deterministic generator for a seed.
pub open spec fn spec_seeded_keys(seed: u64, n: int) -> Seq<Seq<u8>> {
    Seq::new(n as nat, |i: int| seeded_key(seed, i))
}

impl SpecConfig {
    /// What the resolver requires of a configuration: explicit secrets are
    /// 32 bytes, literal addresses are 20 bytes, declared genesis nonces
    /// leave room for this run's nonce assignment, and every wei amount
    /// used as a gas price or fee cap fits the 128-bit fields.
    pub open spec fn wf(&self) -> bool {
        &&& forall|i: int|
            0 <= i < self.wallet.len() ==> ((#[trigger] self.wallet[i]).secret matches Some(s)
                ==> s.len() == 32)
        &&& self.genesis.coinbase.len() == 20
        &&& forall|i: int|
            0 <= i < self.alloc.len() ==> ((#[trigger] self.alloc[i]).address matches
                SpecAddressOrAlias::Address(a) ==> a.len() == 20)
        &&& forall|i: int|
            0 <= i < self.alloc.len() ==> ((#[trigger] self.alloc[i]).nonce matches Some(n) ==> n
                + self.transactions.len() <= u64::MAX)
        &&& forall|i: int| 0 <= i < self.transactions.len() ==> (#[trigger] self.transactions[i]).wf()
        &&& ether_fits(self.defaults.tx_gas_price)
        &&& ether_fits(self.defaults.tx_max_fee_per_gas)
        &&& ether_fits(self.defaults.tx_max_priority_fee_per_gas)
    }
}

pub open spec fn ether_fits(o: Option<Ether>) -> bool {
    o matches Some(e) ==> e.0.as_nat() < 0x1_0000_0000_0000_0000_0000_0000_0000_0000
}

impl SpecTransactionDecl {
    pub open spec fn wf(&self) -> bool {
        let d = self.fields();
        &&& (d.from matches SpecAddressOrAlias::Address(a) ==> a.len() == 20)
        &&& (d.to matches Some(SpecAddressOrAlias::Address(a)) ==> a.len() == 20)
        &&& (d.access_list matches Some(al) ==> forall|j: int|
            0 <= j < al.len() ==> (#[trigger] al[j]).address.len() == 20)
        &&& ether_fits(d.gas_price)
        &&& ether_fits(d.max_fee_per_gas)
        &&& ether_fits(d.max_priority_fee_per_gas)
    }
}

// ---------------------------------------------------------------------
// Executable resolution.
// ---------------------------------------------------------------------

pub open spec fn keys_deep(keys: Seq<Vec<u8>>) -> Seq<Seq<u8>> {
    keys.map_values(|k: Vec<u8>| k@)
}

pub open spec fn alloc_view(m: Seq<(Address, GenesisAccount)>) -> Seq<(Seq<u8>, SpecGenesisAccount)> {
    m.map_values(|e: (Address, GenesisAccount)| (e.0@, e.1@))
}

/// A gas price: the explicit value, or the configured default.
pub fn gas_price(idx: usize, o: Option<Ether>, defaults: &DefaultsBuilder) -> (r: Result<
    Ether,
    BuilderError,
>)
    ensures
        match r {
            Ok(e) => spec_gas_price(idx as int, o, *defaults) == Ok::<Ether, SpecBuilderError>(e),
            Err(e) => spec_gas_price(idx as int, o, *defaults) == Err::<Ether, SpecBuilderError>(
                e@),
        },
{
    match o {
        Some(e) => Ok(e),
        None => match defaults.tx_gas_price {
            Some(e) => Ok(e),
            None => Err(BuilderError::GasPriceNotSet { idx }),
        },
    }
}

/// A fee cap: the explicit value, or the configured default.
pub fn max_fee_per_gas(idx: usize, o: Option<Ether>, defaults: &DefaultsBuilder) -> (r: Result<
    Ether,
    BuilderError,
>)
    ensures
        match r {
            Ok(e) => spec_max_fee_per_gas(idx as int, o, *defaults) == Ok::<
                Ether,
                SpecBuilderError,
            >(e),
            Err(e) => spec_max_fee_per_gas(idx as int, o, *defaults) == Err::<
                Ether,
                SpecBuilderError,
            >(e@),
        },
{
    match o {
        Some(e) => Ok(e),
        None => match defaults.tx_max_fee_per_gas {
            Some(e) => Ok(e),
            None => Err(BuilderError::MaxFeePerGasNotSet { idx }),
        },
    }
}

/// A priority-fee cap: the explicit value, or the configured default.
pub fn max_priority_fee_per_gas(idx: usize, o: Option<Ether>, defaults: &DefaultsBuilder) -> (r:
    Result<Ether, BuilderError>)
    ensures
        match r {
            Ok(e) => spec_max_priority_fee_per_gas(idx as int, o, *defaults) == Ok::<
                Ether,
                SpecBuilderError,
            >(e),
            Err(e) => spec_max_priority_fee_per_gas(idx as int, o, *defaults) == Err::<
                Ether,
                SpecBuilderError,
            >(e@),
        },
{
    match o {
        Some(e) => Ok(e),
        None => match defaults.tx_max_priority_fee_per_gas {
            Some(e) => Ok(e),
            None => Err(BuilderError::MaxPriorityFeePerGasNotSet { idx }),
        },
    }
}

/// A gas limit: the explicit value, or the configured default.
pub fn gas_limit(idx: usize, o: Option<u64>, defaults: &DefaultsBuilder) -> (r: Result<
    u64,
    BuilderError,
>)
    ensures
        match r {
            Ok(g) => spec_gas_limit(idx as int, o, *defaults) == Ok::<u64, SpecBuilderError>(g),
            Err(e) => spec_gas_limit(idx as int, o, *defaults) == Err::<u64, SpecBuilderError>(e@),
        },
{
    match o {
        Some(g) => Ok(g),
        None => match defaults.tx_gas_limit {
            Some(g) => Ok(g),
            None => Err(BuilderError::GasLimitNotSet { idx }),
        },
    }
}

/// Account code from its declaration text: a hexadecimal literal, else
/// assembler source.
fn code_bytes(text: &Vec<u8>) -> (r: Result<Vec<u8>, CompileError>)
    ensures
        match r {
            Ok(b) => spec_code(text@) == Ok::<Seq<u8>, SpecCompileError>(b@),
            Err(e) => spec_code(text@) == Err::<Seq<u8>, SpecCompileError>(e@),
        },
{
    let xlen = "0x".len();
    let h: &[u8] = if crate::assembler::starts_with_lit(text.as_slice(), "0x") {
        vstd::slice::slice_subrange(text.as_slice(), xlen, text.len())
    } else {
        text.as_slice()
    };
    match hex_decode(h) {
        Some(b) => Ok(b),
        None => match compile_mnemonic(text.as_slice()) {
            Ok(b) => Ok(b),
            Err(e) => Err(e),
        },
    }
}

proof fn lemma_alloc_insert_char(m: Seq<(Seq<u8>, SpecGenesisAccount)>, k: Seq<u8>,
    v: SpecGenesisAccount, j: int)
    requires
        0 <= j <= m.len(),
        forall|t: int| 0 <= t < j ==> (#[trigger] m[t]).0 != k,
        j < m.len() ==> m[j].0 == k,
    ensures
        j == m.len() ==> alloc_insert(m, k, v) == m.push((k, v)),
        j < m.len() ==> alloc_insert(m, k, v) == m.update(j, (k, v)),
    decreases m.len(),
{
    if m.len() == 0 {
        assert(alloc_insert(m, k, v) =~= m.push((k, v)));
    } else if m[0].0 == k {
        assert(j == 0);
        assert(alloc_insert(m, k, v) =~= m.update(0, (k, v)));
    } else {
        assert(forall|t: int| 0 <= t < j - 1 ==> (#[trigger] m.skip(1)[t]).0 == m[t + 1].0);
        lemma_alloc_insert_char(m.skip(1), k, v, j - 1);
        if j == m.len() {
            assert(alloc_insert(m, k, v) =~= m.push((k, v)));
        } else {
            assert(alloc_insert(m, k, v) =~= m.update(j, (k, v)));
        }
    }
}

/// Insert an entry into the allocation map; a later entry for the same
/// address replaces the earlier one in place.
fn alloc_insert_exec(m: &mut Vec<(Address, GenesisAccount)>, k: Address, v: GenesisAccount)
    ensures
        alloc_view(final(m)@) == alloc_insert(alloc_view(old(m)@), k@, v@),
{
    let ghost mv = alloc_view(m@);
    let n = m.len();
    let mut j: usize = 0;
    while j < n
        invariant
            0 <= j <= n,
            n == m@.len(),
            m@ == old(m)@,
            mv == alloc_view(m@),
            forall|t: int| 0 <= t < j ==> (#[trigger] mv[t]).0 != k@,
        decreases n - j,
    {
        if m[j].0.eq_addr(&k) {
            let ghost kk = k@;
            let ghost vv = v@;
            proof {
                assert(mv[j as int].0 == m@[j as int].0@);
                lemma_alloc_insert_char(mv, kk, vv, j as int);
                assert(alloc_insert(mv, kk, vv) == mv.update(j as int, (kk, vv)));
            }
            m[j] = (k, v);
            assert(alloc_view(m@) =~= mv.update(j as int, (kk, vv)));
            return ;
        }
        assert(mv[j as int].0 == m@[j as int].0@);
        j = j + 1;
    }
    proof {
        lemma_alloc_insert_char(mv, k@, v@, n as int);
    }
    m.push((k, v));
    assert(alloc_view(m@) =~= mv.push((k@, v@)));
}

/// The declared nonce of an address of the allocation map, or zero.
fn genesis_nonce_of(m: &Vec<(Address, GenesisAccount)>, a: &Address) -> (r: u64)
    ensures
        r == spec_genesis_nonce(alloc_view(m@), a@),
{
    let ghost mv = alloc_view(m@);
    proof {
        assert(mv.skip(0) =~= mv);
    }
    let n = m.len();
    let mut j: usize = 0;
    while j < n
        invariant
            0 <= j <= n,
            n == m@.len(),
            mv == alloc_view(m@),
            spec_alloc_lookup(mv, a@) == spec_alloc_lookup(mv.skip(j as int), a@),
        decreases n - j,
    {
        proof {
            assert(mv.skip(j as int).skip(1) =~= mv.skip(j + 1));
            assert(mv.skip(j as int)[0] == mv[j as int]);
        }
        if m[j].0.eq_addr(a) {
            match &m[j].1.nonce {
                Some(v) => {
                    return *v;
                },
                None => {
                    return 0;
                },
            }
        }
        j = j + 1;
    }
    proof {
        assert(mv.skip(n as int) =~= Seq::<(Seq<u8>, SpecGenesisAccount)>::empty());
    }
    0
}

proof fn lemma_gen_index_nonneg(ws: Seq<SpecWalletDecl>, i: int)
    requires
        i >= 0,
    ensures
        gen_index(ws, i) >= 0,
    decreases i,
{
    if i > 0 {
        lemma_gen_index_nonneg(ws, i - 1);
    }
}

proof fn lemma_gen_index_mono(ws: Seq<SpecWalletDecl>, i: int, j: int)
    requires
        0 <= i <= j,
    ensures
        gen_index(ws, i) <= gen_index(ws, j),
        gen_index(ws, i) >= 0,
    decreases j - i,
{
    lemma_gen_index_nonneg(ws, i);
    if i < j {
        lemma_gen_index_mono(ws, i, j - 1);
    }
}

proof fn lemma_alloc_map_err(cfg: SpecConfig, ws: Seq<SpecWallet>, i: int, j: int)
    requires
        0 <= i <= j,
        spec_alloc_map(cfg, ws, i) is Err,
    ensures
        spec_alloc_map(cfg, ws, j) == spec_alloc_map(cfg, ws, i),
    decreases j - i,
{
    if i < j {
        lemma_alloc_map_err(cfg, ws, i, j - 1);
    }
}

proof fn lemma_txs_err(cfg: SpecConfig, ws: Seq<SpecWallet>, m: Seq<(Seq<u8>, SpecGenesisAccount)>,
    i: int, j: int)
    requires
        0 <= i <= j,
        spec_txs(cfg, ws, m, i) is Err,
    ensures
        spec_txs(cfg, ws, m, j) == spec_txs(cfg, ws, m, i),
    decreases j - i,
{
    if i < j {
        lemma_txs_err(cfg, ws, m, i, j - 1);
    }
}

/// Every account of the resolved allocation map carries a nonce declared by
/// some allocation entry (or none at all).
proof fn lemma_alloc_map_nonces(cfg: SpecConfig, ws: Seq<SpecWallet>, i: int, bound: nat)
    requires
        0 <= i <= cfg.alloc.len(),
        forall|t: int|
            0 <= t < cfg.alloc.len() ==> ((#[trigger] cfg.alloc[t]).nonce matches Some(n) ==> n
                <= bound),
    ensures
        spec_alloc_map(cfg, ws, i) matches Ok(m) ==> forall|j: int|
            0 <= j < m.len() ==> ((#[trigger] m[j]).1.nonce matches Some(n) ==> n <= bound),
    decreases i,
{
    if i > 0 {
        reveal(spec_alloc_entry);
        lemma_alloc_map_nonces(cfg, ws, i - 1, bound);
        match spec_alloc_map(cfg, ws, i - 1) {
            Ok(m) => {
                match spec_alloc_entry(cfg, ws, i - 1) {
                    Ok(e) => {
                        lemma_alloc_insert_nonces(m, e.0, e.1, bound);
                    },
                    Err(_) => {},
                }
            },
            Err(_) => {},
        }
    }
}

proof fn lemma_alloc_insert_nonces(m: Seq<(Seq<u8>, SpecGenesisAccount)>, k: Seq<u8>,
    v: SpecGenesisAccount, bound: nat)
    requires
        forall|j: int|
            0 <= j < m.len() ==> ((#[trigger] m[j]).1.nonce matches Some(n) ==> n <= bound),
        v.nonce matches Some(n) ==> n <= bound,
    ensures
        forall|j: int|
            0 <= j < alloc_insert(m, k, v).len() ==> ((#[trigger] alloc_insert(m, k, v)[j]).1.nonce
                matches Some(n) ==> n <= bound),
    decreases m.len(),
{
    if m.len() == 0 {
    } else if m[0].0 == k {
    } else {
        assert(forall|j: int| 0 <= j < m.skip(1).len() ==> #[trigger] m.skip(1)[j] == m[j + 1]);
        lemma_alloc_insert_nonces(m.skip(1), k, v, bound);
    }
}

/// The looked-up account is an entry of the map.
proof fn lemma_alloc_lookup_entry(m: Seq<(Seq<u8>, SpecGenesisAccount)>, k: Seq<u8>)
    ensures
        spec_alloc_lookup(m, k) matches Some(acct) ==> exists|j: int|
            0 <= j < m.len() && (#[trigger] m[j]).1 == acct,
    decreases m.len(),
{
    if m.len() > 0 && m[0].0 != k {
        lemma_alloc_lookup_entry(m.skip(1), k);
        match spec_alloc_lookup(m.skip(1), k) {
            Some(acct) => {
                let j = choose|j: int| 0 <= j < m.skip(1).len() && (#[trigger] m.skip(1)[j]).1
                    == acct;
                assert(m[j + 1].1 == acct);
            },
            None => {},
        }
    }
}

/// Every prefix of the resolved transaction list matches the fold that
/// defines it.
proof fn lemma_txs_ok(cfg: SpecConfig, ws: Seq<SpecWallet>, m: Seq<(Seq<u8>, SpecGenesisAccount)>,
    i: int)
    requires
        spec_txs(cfg, ws, m, i) is Ok,
    ensures
        spec_txs(cfg, ws, m, i) matches Ok(pre) && pre.len() == if i <= 0 {
            0int
        } else {
            i
        },
    decreases i,
{
    if i > 0 {
        assert(spec_txs(cfg, ws, m, i - 1) is Ok);
        lemma_txs_ok(cfg, ws, m, i - 1);
    }
}

/// A transaction of one fully resolved type, before signing.
struct ResolvedTx {
    from: Address,
    wallet: usize,
    tx: TypedTransaction,
}

pub open spec fn gen_count(cfg: SpecConfig) -> int {
    gen_index(cfg.wallet, cfg.wallet.len() as int)
}

pub open spec fn valid_keys(keys: Seq<Seq<u8>>, n: int) -> bool {
    &&& keys.len() == n
    &&& forall|i: int| 0 <= i < keys.len() ==> key_is_valid(#[trigger] keys[i]) && keys[i].len()
        == 32
}

/// Whether the outside signer succeeds on the `i`-th transaction of a
/// structurally resolvable configuration: its sender's key against its
/// fully resolved form. Holds vacuously wherever resolution fails earlier.
pub open spec fn spec_signing_ok_at(cfg: SpecConfig, keys: Seq<Seq<u8>>, i: int) -> bool {
    let ws = spec_wallets(cfg.wallet, keys);
    match spec_alloc_map(cfg, ws, cfg.alloc.len() as int) {
        Ok(m) => match spec_typed_tx(cfg, ws, m, i) {
            Ok(t) => match spec_from_wallet(cfg, ws, i) {
                Ok(w) => spec_sig_ok(ws[w].key, t),
                Err(_) => true,
            },
            Err(_) => true,
        },
        Err(_) => true,
    }
}

/// The configuration resolves to the world `w` under the generated keys:
/// resolution succeeds structurally, and the signer succeeds on every
/// transaction.
pub open spec fn resolves_to(cfg: SpecConfig, keys: Seq<Seq<u8>>, w: SpecWorld) -> bool {
    &&& valid_keys(keys, gen_count(cfg))
    &&& spec_build_world(cfg, keys) == Ok::<SpecWorld, SpecBuilderError>(w)
    &&& forall|j: int|
        0 <= j < cfg.transactions.len() ==> #[trigger] spec_signing_ok_at(cfg, keys, j)
}

/// The configuration fails to resolve with the error `e` under the
/// generated keys: `e` is the first structural error in declaration order,
/// or — where resolution succeeds structurally — the signing failure of the
/// first transaction the signer refuses. On every other input the resolver
/// owes success.
pub open spec fn fails_with(cfg: SpecConfig, keys: Seq<Seq<u8>>, e: SpecBuilderError) -> bool {
    &&& valid_keys(keys, gen_count(cfg))
    &&& (spec_build_world(cfg, keys) == Err::<SpecWorld, SpecBuilderError>(e) || {
        &&& e matches SpecBuilderError::SigningFailed { idx }
        &&& 0 <= idx < cfg.transactions.len()
        &&& spec_build_world(cfg, keys) is Ok
        &&& !spec_signing_ok_at(cfg, keys, idx)
        &&& forall|j: int| 0 <= j < idx ==> #[trigger] spec_signing_ok_at(cfg, keys, j)
    })
}

/// One outcome of a resolver run, on the view level: a resolved world or an
/// error, as the resolver's contract permits it.
pub open spec fn spec_outcome(
    cfg: SpecConfig,
    keys: Seq<Seq<u8>>,
    r: Result<SpecWorld, SpecBuilderError>,
) -> bool {
    match r {
        Ok(w) => resolves_to(cfg, keys, w),
        Err(e) => fails_with(cfg, keys, e),
    }
}

proof fn lemma_build_err_at_alloc(cfg: SpecConfig, keys: Seq<Seq<u8>>, ws: Seq<SpecWallet>, i: int,
    e: SpecBuilderError)
    requires
        first_bad_secret(cfg.wallet, 0) is None,
        ws == spec_wallets(cfg.wallet, keys),
        0 <= i < cfg.alloc.len(),
        spec_alloc_map(cfg, ws, i) is Ok,
        spec_alloc_entry(cfg, ws, i) == Err::<(Seq<u8>, SpecGenesisAccount), SpecBuilderError>(e),
    ensures
        spec_build_world(cfg, keys) == Err::<SpecWorld, SpecBuilderError>(e),
{
    assert(spec_alloc_map(cfg, ws, i + 1) == Err::<
        Seq<(Seq<u8>, SpecGenesisAccount)>,
        SpecBuilderError,
    >(e));
    lemma_alloc_map_err(cfg, ws, i + 1, cfg.alloc.len() as int);
}

proof fn lemma_build_err_at_tx(cfg: SpecConfig, keys: Seq<Seq<u8>>, ws: Seq<SpecWallet>,
    m: Seq<(Seq<u8>, SpecGenesisAccount)>, i: int, e: SpecBuilderError)
    requires
        first_bad_secret(cfg.wallet, 0) is None,
        ws == spec_wallets(cfg.wallet, keys),
        spec_alloc_map(cfg, ws, cfg.alloc.len() as int) == Ok::<
            Seq<(Seq<u8>, SpecGenesisAccount)>,
            SpecBuilderError,
        >(m),
        cfg.transactions.len() > 0,
        0 <= i < cfg.transactions.len(),
        spec_txs(cfg, ws, m, i) is Ok,
        spec_signed_tx(cfg, ws, m, i) == Err::<SpecSignedTransaction, SpecBuilderError>(e),
    ensures
        spec_build_world(cfg, keys) == Err::<SpecWorld, SpecBuilderError>(e),
{
    assert(spec_txs(cfg, ws, m, i + 1) == Err::<Seq<SpecSignedTransaction>, SpecBuilderError>(e));
    lemma_txs_err(cfg, ws, m, i + 1, cfg.transactions.len() as int);
}

impl SpectreBuilder {
    /// Resolve the configuration with the given generated wallet keys.
    ///
    /// The outcome is a pure function of the configuration and the keys:
    /// the resolved world exactly matches `spec_build_world`; on failure
    /// the error is the first structural one in declaration order, or the
    /// signing failure of the first transaction the signer refuses; and
    /// success is owed wherever neither occurs.
    #[verifier::rlimit(100)]
    #[verifier::loop_isolation(false)]
    pub fn build_with_keys(self, keys: Vec<Vec<u8>>) -> (r: Result<Spectre, BuilderError>)
        requires
            self@.wf(),
            valid_keys(keys_deep(keys@), gen_count(self@)),
        ensures
            match r {
                Ok(w) => resolves_to(self@, keys_deep(keys@), w@),
                Err(e) => fails_with(self@, keys_deep(keys@), e@),
            },
    {
        let ghost cfg = self@;
        let ghost kv = keys_deep(keys@);
        let SpectreBuilder {
            system,
            defaults,
            genesis,
            chain,
            alloc: mut allocdecls,
            wallet: walletdecls,
            transactions: mut txdecls,
        } = self;
        proof {
            assert(cfg.wallet == walletdecls@.map_values(|w: WalletBuilder| w@));
            assert(cfg.alloc == allocdecls@.map_values(|a: AllocBuilder| a@));
            assert(cfg.transactions == txdecls@.map_values(|t: TransactionBuilder| t@));
        }

        // Wallets: import explicit secrets, draw generated keys in order.
        let mut wallets: Vec<Wallet> = Vec::new();
        let nw = walletdecls.len();
        let mut g: usize = 0;
        let mut i: usize = 0;
        while i < nw
            invariant
                0 <= i <= nw,
                g == gen_index(cfg.wallet, i as int),
                g <= i,
                first_bad_secret(cfg.wallet, 0) == first_bad_secret(cfg.wallet, i as int),
                wallets@.len() == i,
                forall|j: int|
                    0 <= j < i ==> wallets_view(wallets@)[j] == spec_wallet_at(cfg.wallet, kv, j)
                        && (#[trigger] wallets_view(wallets@)[j]).wf(),
            decreases nw - i,
        {
            proof {
                assert(cfg.wallet[i as int] == walletdecls@[i as int]@);
                lemma_gen_index_mono(cfg.wallet, i as int, cfg.wallet.len() as int);
                lemma_gen_index_mono(cfg.wallet, i + 1, cfg.wallet.len() as int);
            }
            let decl = &walletdecls[i];
            let ghost prev = wallets_view(wallets@);
            match &decl.secret {
                Some(s) => {
                    match key_address(s) {
                        None => {
                            assert(first_bad_secret(cfg.wallet, i as int) == Some(i as int));
                            return Err(BuilderError::InvalidSecret { idx: i });
                        },
                        Some(addr) => {
                            wallets.push(
                                Wallet {
                                    name: clone_bytes(&decl.name),
                                    key: clone_bytes(s),
                                    address: addr,
                                },
                            );
                            proof {
                                assert(wallets_view(wallets@) =~= prev.push(wallets@[i as int]@));
                            }
                        },
                    }
                },
                None => {
                    proof {
                        assert(cfg.wallet[i as int].secret is None);
                        assert(gen_index(cfg.wallet, i + 1) == g + 1);
                        assert(g < kv.len());
                        assert(kv[g as int] == keys@[g as int]@);
                    }
                    let k = &keys[g];
                    match key_address(k) {
                        Some(addr) => {
                            wallets.push(
                                Wallet {
                                    name: clone_bytes(&decl.name),
                                    key: clone_bytes(k),
                                    address: addr,
                                },
                            );
                            g = g + 1;
                            proof {
                                assert(wallets_view(wallets@) =~= prev.push(wallets@[i as int]@));
                            }
                        },
                        None => {
                            proof {
                                assert(key_is_valid(kv[g as int]));
                                assert(false);
                            }
                            return Err(BuilderError::InvalidSecret { idx: i });
                        },
                    }
                },
            }
            i = i + 1;
        }
        proof {
            assert(first_bad_secret(cfg.wallet, nw as int) is None);
        }
        let ghost wsv = spec_wallets(cfg.wallet, kv);
        proof {
            assert(wallets_view(wallets@) =~= wsv);
            assert(forall|j: int| 0 <= j < wsv.len() ==> (#[trigger] wsv[j]).wf());
        }

        // Allocations: resolve each address, code and balance; later entries
        // for the same address replace earlier ones.
        let mut alloc: Vec<(Address, GenesisAccount)> = Vec::new();
        let na = allocdecls.len();
        let ghost adecls0 = allocdecls@;
        proof {
            assert(alloc_view(alloc@) =~= Seq::<(Seq<u8>, SpecGenesisAccount)>::empty());
        }
        let mut i: usize = 0;
        while i < na
            invariant
                0 <= i <= na,
                allocdecls@ == adecls0.skip(i as int),
                spec_alloc_map(cfg, wsv, i as int) == Ok::<
                    Seq<(Seq<u8>, SpecGenesisAccount)>,
                    SpecBuilderError,
                >(alloc_view(alloc@)),
            decreases na - i,
        {
            proof {
                assert(adecls0.skip(i as int)[0] == adecls0[i as int]);
                assert(adecls0.skip(i as int).skip(1) =~= adecls0.skip(i + 1));
                assert(cfg.alloc[i as int] == adecls0[i as int]@);
            }
            let d = allocdecls.remove(0);
            let ghost pre = alloc_view(alloc@);
            match build_one_alloc(d, i, &wallets, &defaults, Ghost(cfg), Ghost(wsv)) {
                Ok((addr, acct)) => {
                    let ghost k = addr@;
                    let ghost v = acct@;
                    alloc_insert_exec(&mut alloc, addr, acct);
                    proof {
                        assert(spec_alloc_map(cfg, wsv, i + 1) == Ok::<
                            Seq<(Seq<u8>, SpecGenesisAccount)>,
                            SpecBuilderError,
                        >(alloc_insert(pre, k, v)));
                    }
                },
                Err(e) => {
                    proof {
                        lemma_build_err_at_alloc(cfg, kv, wsv, i as int, e@);
                    }
                    return Err(e);
                },
            }
            i = i + 1;
        }
        let ghost mv = alloc_view(alloc@);

        // The genesis document.
        let chain_id = chain.chain_id;
        let chaincfg = chain.build();
        let gdoc = genesis.build_with(chaincfg, alloc);
        proof {
            assert(gdoc@.alloc =~= mv);
            assert(gdoc@ == spec_genesis_of(cfg, mv));
        }

        // Transactions: resolve, assign nonces, then sign.
        if txdecls.len() == 0 {
            return Err(BuilderError::AtLeastOneTransaction);
        }
        let nt = txdecls.len();
        let ghost tdecls0 = txdecls@;
        let mut utxs: Vec<ResolvedTx> = Vec::new();
        let mut i: usize = 0;
        while i < nt
            invariant
                0 <= i <= nt,
                txdecls@ == tdecls0.skip(i as int),
                utxs@.len() == i,
                spec_txs(cfg, wsv, mv, i as int) is Ok,
                forall|j: int|
                    0 <= j < i ==> {
                        let u = #[trigger] utxs@[j];
                        &&& u.tx.wf()
                        &&& 0 <= u.wallet < wsv.len()
                        &&& u.from@ == spec_sender_addr(cfg, wsv, j)
                        &&& spec_typed_tx(cfg, wsv, mv, j) == Ok::<
                            SpecTypedTransaction,
                            SpecBuilderError,
                        >(u.tx@)
                        &&& spec_from_wallet(cfg, wsv, j) == Ok::<int, SpecBuilderError>(
                            u.wallet as int)
                    },
            decreases nt - i,
        {
            proof {
                assert(tdecls0.skip(i as int)[0] == tdecls0[i as int]);
                assert(tdecls0.skip(i as int).skip(1) =~= tdecls0.skip(i + 1));
                assert(cfg.transactions[i as int] == tdecls0[i as int]@);
            }
            let d = txdecls.remove(0);
            match build_one_tx(
                d,
                i,
                &wallets,
                &gdoc.alloc,
                &utxs,
                &defaults,
                chain_id,
                Ghost(cfg),
                Ghost(wsv),
                Ghost(mv),
            ) {
                Ok(rt) => {
                    proof {
                        assert(spec_signed_tx(cfg, wsv, mv, i as int) is Ok);
                    }
                    utxs.push(rt);
                },
                Err(e) => {
                    proof {
                        lemma_build_err_at_tx(cfg, kv, wsv, mv, i as int, e@);
                    }
                    return Err(e);
                },
            }
            i = i + 1;
        }

        // Sign every resolved transaction with its sender's key.
        proof {
            lemma_txs_ok(cfg, wsv, mv, nt as int);
            lemma_txs_elem(cfg, wsv, mv, nt as int);
        }
        let ghost pre = spec_txs(cfg, wsv, mv, nt as int)->Ok_0;
        let ghost utxs0 = utxs@;
        let mut signed: Vec<SignedTransaction> = Vec::new();
        let mut i: usize = 0;
        while i < nt
            invariant
                0 <= i <= nt,
                utxs@ == utxs0.skip(i as int),
                utxs0.len() == nt,
                pre.len() == nt,
                forall|j: int|
                    0 <= j < nt ==> {
                        let u = #[trigger] utxs0[j];
                        &&& u.tx.wf()
                        &&& 0 <= u.wallet < wsv.len()
                        &&& spec_typed_tx(cfg, wsv, mv, j) == Ok::<
                            SpecTypedTransaction,
                            SpecBuilderError,
                        >(u.tx@)
                        &&& spec_from_wallet(cfg, wsv, j) == Ok::<int, SpecBuilderError>(
                            u.wallet as int)
                        &&& pre[j] == (SpecSignedTransaction {
                            from: u.from@,
                            tx: u.tx@,
                            signature: spec_tx_signature(wsv[u.wallet as int].key, u.tx@),
                        })
                    },
                signed@.len() == i,
                forall|j: int| 0 <= j < i ==> (#[trigger] signed@[j])@ == pre[j],
                forall|j: int| 0 <= j < i ==> #[trigger] spec_signing_ok_at(cfg, kv, j),
            decreases nt - i,
        {
            proof {
                assert(utxs0.skip(i as int)[0] == utxs0[i as int]);
                assert(utxs0.skip(i as int).skip(1) =~= utxs0.skip(i + 1));
            }
            let rt = utxs.remove(0);
            let w = rt.wallet;
            proof {
                assert(wallets_view(wallets@)[w as int] == wallets@[w as int]@);
            }
            match sign_transaction(&wallets[w].key, &rt.tx) {
                None => {
                    proof {
                        assert(spec_build_world(cfg, kv) is Ok);
                        assert(!spec_sig_ok(wsv[w as int].key, utxs0[i as int].tx@));
                        assert(!spec_signing_ok_at(cfg, kv, i as int));
                    }
                    return Err(BuilderError::SigningFailed { idx: i });
                },
                Some(sig) => {
                    proof {
                        assert(spec_sig_ok(wsv[w as int].key, utxs0[i as int].tx@));
                        assert(spec_signing_ok_at(cfg, kv, i as int));
                    }
                    signed.push(SignedTransaction { from: rt.from, tx: rt.tx, signature: sig });
                },
            }
            i = i + 1;
        }

        let world = Spectre {
            geth_path: system.geth_path,
            genesis: gdoc,
            wallets,
            transactions: signed,
        };
        proof {
            assert(world@.transactions =~= pre);
            assert(world@ == (SpecWorld {
                geth_path: cfg.geth_path,
                genesis: spec_genesis_of(cfg, mv),
                wallets: wsv,
                transactions: pre,
            }));
        }
        Ok(world)
    }

    /// Resolve the configuration: generate or import wallets, resolve the
    /// genesis allocation, and produce the signed transaction list. With a
    /// random seed set, the result is a pure function of the configuration.
    #[verifier::loop_isolation(false)]
    pub fn build(self) -> (r: Result<Spectre, BuilderError>)
        requires
            self@.wf(),
        ensures
            match r {
                Ok(w) => {
                    &&& (self@.random_seed matches Some(seed) ==> resolves_to(
                        self@,
                        spec_seeded_keys(seed, gen_count(self@)),
                        w@,
                    ))
                    &&& (self@.random_seed is None ==> exists|keys: Seq<Seq<u8>>|
                        resolves_to(self@, keys, w@))
                },
                Err(e) => {
                    &&& (self@.random_seed matches Some(seed) ==> fails_with(
                        self@,
                        spec_seeded_keys(seed, gen_count(self@)),
                        e@,
                    ))
                    &&& (self@.random_seed is None ==> exists|keys: Seq<Seq<u8>>|
                        fails_with(self@, keys, e@))
                },
            },
    {
        let ghost cfg = self@;
        // Count the wallets that need a generated key.
        let mut n_gen: usize = 0;
        let nw = self.wallet.len();
        let mut i: usize = 0;
        while i < nw
            invariant
                0 <= i <= nw,
                n_gen == gen_index(cfg.wallet, i as int),
                n_gen <= i,
            decreases nw - i,
        {
            proof {
                assert(cfg.wallet[i as int] == self.wallet@[i as int]@);
            }
            if self.wallet[i].secret.is_none() {
                n_gen = n_gen + 1;
            }
            i = i + 1;
        }
        let keys: Vec<Vec<u8>> = match self.system.random_seed {
            Some(seed) => {
                let ks = seeded_wallet_keys(seed, n_gen);
                proof {
                    assert(keys_deep(ks@) =~= spec_seeded_keys(seed, gen_count(cfg)));
                }
                ks
            },
            None => entropy_wallet_keys(n_gen),
        };
        let ghost kv = keys_deep(keys@);
        proof {
            assert(valid_keys(kv, gen_count(cfg)));
        }
        self.build_with_keys(keys)
    }
}

/// Resolve one declared allocation entry against the wallets and defaults.
#[verifier::loop_isolation(false)]
fn build_one_alloc(
    d: AllocBuilder,
    i: usize,
    wallets: &Vec<Wallet>,
    defaults: &DefaultsBuilder,
    Ghost(cfg): Ghost<SpecConfig>,
    Ghost(wsv): Ghost<Seq<SpecWallet>>,
) -> (r: Result<(Address, GenesisAccount), BuilderError>)
    requires
        0 <= i < cfg.alloc.len(),
        d@ == cfg.alloc[i as int],
        defaults == cfg.defaults,
        wallets_view(wallets@) == wsv,
    ensures
        match r {
            Ok(kv) => spec_alloc_entry(cfg, wsv, i as int) == Ok::<
                (Seq<u8>, SpecGenesisAccount),
                SpecBuilderError,
            >((kv.0@, kv.1@)),
            Err(e) => spec_alloc_entry(cfg, wsv, i as int) == Err::<
                (Seq<u8>, SpecGenesisAccount),
                SpecBuilderError,
            >(e@),
        },
{
    proof {
        reveal(spec_alloc_entry);
    }
    match resolve_address(wallets, &d.address) {
        None => {
            let name = match d.address {
                AddressOrAlias::Alias(n) => n,
                AddressOrAlias::Address(a) => a.bytes,
            };
            Err(BuilderError::AllocWalletNotFound { idx: i, name })
        },
        Some(addr) => {
            let code: Option<Vec<u8>> = match d.code {
                None => None,
                Some(text) => {
                    match code_bytes(&text) {
                        Ok(b) => Some(b),
                        Err(err) => {
                            return Err(
                                BuilderError::CompileError { idx: i, address: addr, error: err },
                            );
                        },
                    }
                },
            };
            let balance = match d.balance {
                Some(e) => e,
                None => match defaults.account_balance {
                    Some(e) => e,
                    None => {
                        return Err(BuilderError::BalanceNotSet { idx: i });
                    },
                },
            };
            let acct = GenesisAccount {
                nonce: d.nonce,
                balance: balance.0,
                code,
                storage: d.storage,
            };
            Ok((addr, acct))
        },
    }
}


pub open spec fn alloc_keys_distinct(m: Seq<(Seq<u8>, SpecGenesisAccount)>) -> bool {
    forall|a: int, b: int| 0 <= a < b < m.len() ==> (#[trigger] m[a]).0 != (#[trigger] m[b]).0
}

pub open spec fn alloc_has_key(m: Seq<(Seq<u8>, SpecGenesisAccount)>, key: Seq<u8>) -> bool {
    exists|t: int| 0 <= t < m.len() && (#[trigger] m[t]).0 == key
}

proof fn lemma_alloc_insert_unique(m: Seq<(Seq<u8>, SpecGenesisAccount)>, k: Seq<u8>,
    v: SpecGenesisAccount)
    requires
        alloc_keys_distinct(m),
    ensures
        alloc_keys_distinct(alloc_insert(m, k, v)),
        forall|j: int|
            0 <= j < alloc_insert(m, k, v).len() ==> ((#[trigger] alloc_insert(m, k, v)[j]).0 == k
                || alloc_has_key(m, alloc_insert(m, k, v)[j].0)),
    decreases m.len(),
{
    if m.len() == 0 {
    } else if m[0].0 == k {
        let r = alloc_insert(m, k, v);
        assert(r == seq![(k, v)] + m.skip(1));
        assert forall|a: int, b: int| 0 <= a < b < r.len() implies r[a].0 != r[b].0 by {
            if a == 0 {
                assert(r[b].0 == m[b].0);
            } else {
                assert(r[a].0 == m[a].0 && r[b].0 == m[b].0);
            }
        }
        assert forall|j: int| 0 <= j < r.len() implies (r[j].0 == k || alloc_has_key(m, r[j].0)) by {
            if j > 0 {
                assert(r[j].0 == m[j].0);
            }
        }
    } else {
        assert(forall|t: int| 0 <= t < m.skip(1).len() ==> #[trigger] m.skip(1)[t] == m[t + 1]);
        lemma_alloc_insert_unique(m.skip(1), k, v);
        let rec = alloc_insert(m.skip(1), k, v);
        let r = alloc_insert(m, k, v);
        assert(r == seq![m[0]] + rec);
        assert forall|a: int, b: int| 0 <= a < b < r.len() implies r[a].0 != r[b].0 by {
            if a == 0 {
                assert(r[b].0 == rec[b - 1].0);
                if rec[b - 1].0 != k {
                    assert(alloc_has_key(m.skip(1), rec[b - 1].0));
                    let t = choose|t: int|
                        0 <= t < m.skip(1).len() && (#[trigger] m.skip(1)[t]).0 == rec[b - 1].0;
                    assert(m[t + 1].0 == rec[b - 1].0);
                }
            } else {
                assert(r[a].0 == rec[a - 1].0 && r[b].0 == rec[b - 1].0);
            }
        }
        assert forall|j: int| 0 <= j < r.len() implies (r[j].0 == k || alloc_has_key(m, r[j].0)) by {
            if j == 0 {
                assert(m[0].0 == r[0].0);
            } else {
                assert(r[j].0 == rec[j - 1].0);
                if rec[j - 1].0 != k {
                    let t = choose|t: int|
                        0 <= t < m.skip(1).len() && (#[trigger] m.skip(1)[t]).0 == rec[j - 1].0;
                    assert(m[t + 1].0 == rec[j - 1].0);
                }
            }
        }
    }
}

proof fn lemma_alloc_map_unique(cfg: SpecConfig, ws: Seq<SpecWallet>, i: int)
    ensures
        spec_alloc_map(cfg, ws, i) matches Ok(m) ==> alloc_keys_distinct(m),
    decreases i,
{
    if i > 0 {
        lemma_alloc_map_unique(cfg, ws, i - 1);
        match spec_alloc_map(cfg, ws, i - 1) {
            Ok(m) => {
                match spec_alloc_entry(cfg, ws, i - 1) {
                    Ok(e) => {
                        lemma_alloc_insert_unique(m, e.0, e.1);
                    },
                    Err(_) => {},
                }
            },
            Err(_) => {},
        }
    }
}

/// The allocation map of a resolved genesis holds unique addresses: a later
/// entry for an address replaces the earlier one instead of duplicating it.
pub proof fn lemma_genesis_alloc_unique(cfg: SpecConfig, keys: Seq<Seq<u8>>, w: SpecWorld)
    requires
        spec_build_world(cfg, keys) == Ok::<SpecWorld, SpecBuilderError>(w),
    ensures
        w.genesis.alloc_keys_unique(),
{
    lemma_alloc_map_unique(cfg, spec_wallets(cfg.wallet, keys), cfg.alloc.len() as int);
}

/// Under one key sequence the permitted outcome of a run is unique: two
/// outcomes agree on the result variant, and on every wallet address,
/// nonce, signature and error value.
pub proof fn lemma_outcome_deterministic(
    cfg: SpecConfig,
    keys: Seq<Seq<u8>>,
    r1: Result<SpecWorld, SpecBuilderError>,
    r2: Result<SpecWorld, SpecBuilderError>,
)
    requires
        spec_outcome(cfg, keys, r1),
        spec_outcome(cfg, keys, r2),
    ensures
        r1 == r2,
{
    match (r1, r2) {
        (Ok(_), Ok(_)) => {},
        (Err(e1), Err(e2)) => {
            match (e1, e2) {
                (
                    SpecBuilderError::SigningFailed { idx: i1 },
                    SpecBuilderError::SigningFailed { idx: i2 },
                ) => {
                    if spec_build_world(cfg, keys) is Ok {
                        if i1 < i2 {
                            assert(spec_signing_ok_at(cfg, keys, i1));
                        } else if i2 < i1 {
                            assert(spec_signing_ok_at(cfg, keys, i2));
                        }
                    }
                },
                _ => {},
            }
        },
        (Ok(_), Err(e)) => {
            match e {
                SpecBuilderError::SigningFailed { idx } => {
                    assert(spec_signing_ok_at(cfg, keys, idx));
                },
                _ => {},
            }
        },
        (Err(e), Ok(_)) => {
            match e {
                SpecBuilderError::SigningFailed { idx } => {
                    assert(spec_signing_ok_at(cfg, keys, idx));
                },
                _ => {},
            }
        },
    }
}

/// Determinism: with a fixed random seed, two runs of the resolver over the
/// same configuration have one permitted outcome — they agree on success or
/// failure, and on every wallet address, every assigned nonce, and every
/// signature.
pub proof fn lemma_seeded_resolution_deterministic(
    cfg: SpecConfig,
    seed: u64,
    r1: Result<SpecWorld, SpecBuilderError>,
    r2: Result<SpecWorld, SpecBuilderError>,
)
    requires
        cfg.random_seed == Some(seed),
        spec_outcome(cfg, spec_seeded_keys(seed, gen_count(cfg)), r1),
        spec_outcome(cfg, spec_seeded_keys(seed, gen_count(cfg)), r2),
    ensures
        r1 == r2,
{
    lemma_outcome_deterministic(cfg, spec_seeded_keys(seed, gen_count(cfg)), r1, r2);
}

/// Reference resolution: a transaction reference that is not a literal
/// address must name a previously declared wallet; otherwise the
/// transaction holding it fails with that transaction's index.
pub proof fn lemma_unresolved_alias_fails(
    cfg: SpecConfig,
    ws: Seq<SpecWallet>,
    m: Seq<(Seq<u8>, SpecGenesisAccount)>,
    i: int,
)
    requires
        0 <= i < cfg.transactions.len(),
        cfg.transactions[i].fields().from matches SpecAddressOrAlias::Alias(n)
            && spec_lookup_by_name(ws, n) is None,
    ensures
        spec_signed_tx(cfg, ws, m, i) == Err::<SpecSignedTransaction, SpecBuilderError>(
            SpecBuilderError::TxAccountNotFound { idx: i, name: cfg.transactions[i].fields().from },
        ),
{
    reveal(spec_typed_tx);
}

/// Reference resolution: an allocation reference that is not a literal
/// address must name a previously declared wallet; otherwise the allocation
/// entry fails with its index.
pub proof fn lemma_unresolved_alloc_alias_fails(cfg: SpecConfig, ws: Seq<SpecWallet>, i: int)
    requires
        0 <= i < cfg.alloc.len(),
        cfg.alloc[i].address matches SpecAddressOrAlias::Alias(n) && spec_lookup_by_name(ws, n)
            is None,
    ensures
        spec_alloc_entry(cfg, ws, i) == Err::<(Seq<u8>, SpecGenesisAccount), SpecBuilderError>(
            SpecBuilderError::AllocWalletNotFound {
                idx: i,
                name: cfg.alloc[i].address->Alias_0,
            },
        ),
{
    reveal(spec_alloc_entry);
}

/// Default fallback: an explicit gas field is used as given; an absent one
/// falls back to the configured default; with neither, resolution fails
/// with the corresponding not-set error naming the transaction's index.
pub proof fn lemma_gas_fallback(idx: int, o: Option<Ether>, og: Option<u64>, d: DefaultsBuilder)
    ensures
        o matches Some(e) ==> spec_gas_price(idx, o, d) == Ok::<Ether, SpecBuilderError>(e),
        d.tx_gas_price matches Some(e) ==> (o is None ==> spec_gas_price(idx, o, d) == Ok::<
            Ether,
            SpecBuilderError,
        >(e)),
        o is None && d.tx_gas_price is None ==> spec_gas_price(idx, o, d) == Err::<
            Ether,
            SpecBuilderError,
        >(SpecBuilderError::GasPriceNotSet { idx }),
        og matches Some(g) ==> spec_gas_limit(idx, og, d) == Ok::<u64, SpecBuilderError>(g),
        d.tx_gas_limit matches Some(g) ==> (og is None ==> spec_gas_limit(idx, og, d) == Ok::<
            u64,
            SpecBuilderError,
        >(g)),
        og is None && d.tx_gas_limit is None ==> spec_gas_limit(idx, og, d) == Err::<
            u64,
            SpecBuilderError,
        >(SpecBuilderError::GasLimitNotSet { idx }),
{
}

proof fn lemma_count_before_mono(cfg: SpecConfig, ws: Seq<SpecWallet>, i: int, j: int, a: Seq<u8>)
    requires
        0 <= i <= j,
    ensures
        spec_count_before(cfg, ws, i, a) <= spec_count_before(cfg, ws, j, a),
        i < j && spec_sender_addr(cfg, ws, i) == a ==> spec_count_before(cfg, ws, i, a) + 1
            <= spec_count_before(cfg, ws, j, a),
    decreases j - i,
{
    if i < j {
        lemma_count_before_mono(cfg, ws, i, j - 1, a);
    }
}

proof fn lemma_count_before_nonneg(cfg: SpecConfig, ws: Seq<SpecWallet>, i: int, a: Seq<u8>)
    requires
        0 <= i,
    ensures
        0 <= spec_count_before(cfg, ws, i, a) <= i,
    decreases i,
{
    if i > 0 {
        lemma_count_before_nonneg(cfg, ws, i - 1, a);
    }
}

proof fn lemma_count_before_zero(cfg: SpecConfig, ws: Seq<SpecWallet>, i: int, a: Seq<u8>)
    requires
        0 <= i,
        forall|k: int| 0 <= k < i ==> spec_sender_addr(cfg, ws, k) != a,
    ensures
        spec_count_before(cfg, ws, i, a) == 0,
    decreases i,
{
    if i > 0 {
        lemma_count_before_zero(cfg, ws, i - 1, a);
    }
}

/// The shape of each resolved transaction: its sender and its nonce, with
/// the nonce free of truncation.
proof fn lemma_ts_shape(
    cfg: SpecConfig,
    ws: Seq<SpecWallet>,
    m: Seq<(Seq<u8>, SpecGenesisAccount)>,
    ts: Seq<SpecSignedTransaction>,
    k: int,
)
    requires
        cfg.wf(),
        cfg.transactions.len() <= usize::MAX,
        spec_alloc_map(cfg, ws, cfg.alloc.len() as int) == Ok::<
            Seq<(Seq<u8>, SpecGenesisAccount)>,
            SpecBuilderError,
        >(m),
        spec_txs(cfg, ws, m, cfg.transactions.len() as int) == Ok::<
            Seq<SpecSignedTransaction>,
            SpecBuilderError,
        >(ts),
        0 <= k < ts.len(),
    ensures
        ts.len() == cfg.transactions.len(),
        ts[k].from == spec_sender_addr(cfg, ws, k),
        ts[k].tx.nonce() == spec_genesis_nonce(m, ts[k].from) + spec_count_before(
            cfg,
            ws,
            k,
            ts[k].from,
        ),
{
    lemma_txs_ok(cfg, ws, m, cfg.transactions.len() as int);
    lemma_txs_elem(cfg, ws, m, cfg.transactions.len() as int);
    assert(spec_signed_tx(cfg, ws, m, k) == Ok::<SpecSignedTransaction, SpecBuilderError>(ts[k]));
    reveal(spec_typed_tx);
    assert(ts[k].tx.nonce() == spec_nonce_of(cfg, ws, m, k));
    lemma_count_before_nonneg(cfg, ws, k, ts[k].from);
    lemma_alloc_map_nonces(
        cfg,
        ws,
        cfg.alloc.len() as int,
        (u64::MAX - cfg.transactions.len()) as nat,
    );
    lemma_alloc_lookup_entry(m, ts[k].from);
    assert(spec_genesis_nonce(m, ts[k].from) + spec_count_before(cfg, ws, k, ts[k].from)
        <= u64::MAX) by {
        match spec_alloc_lookup(m, ts[k].from) {
            Some(acct) => {
                let t = choose|t: int| 0 <= t < m.len() && (#[trigger] m[t]).1 == acct;
                match acct.nonce {
                    Some(n) => {
                        assert(n <= u64::MAX - cfg.transactions.len());
                    },
                    None => {},
                }
            },
            None => {},
        }
    };
}

/// Nonce monotonicity: for every sender, the nonces assigned to its
/// transactions across the resolved list are strictly increasing in
/// declaration order.
pub proof fn lemma_nonce_monotonic(
    cfg: SpecConfig,
    ws: Seq<SpecWallet>,
    m: Seq<(Seq<u8>, SpecGenesisAccount)>,
    ts: Seq<SpecSignedTransaction>,
    i: int,
    j: int,
)
    requires
        cfg.wf(),
        cfg.transactions.len() <= usize::MAX,
        spec_alloc_map(cfg, ws, cfg.alloc.len() as int) == Ok::<
            Seq<(Seq<u8>, SpecGenesisAccount)>,
            SpecBuilderError,
        >(m),
        spec_txs(cfg, ws, m, cfg.transactions.len() as int) == Ok::<
            Seq<SpecSignedTransaction>,
            SpecBuilderError,
        >(ts),
        0 <= i < j < ts.len(),
        ts[i].from == ts[j].from,
    ensures
        ts[i].tx.nonce() < ts[j].tx.nonce(),
{
    lemma_ts_shape(cfg, ws, m, ts, i);
    lemma_ts_shape(cfg, ws, m, ts, j);
    lemma_count_before_mono(cfg, ws, i, j, ts[i].from);
}

proof fn lemma_count_before_gap(cfg: SpecConfig, ws: Seq<SpecWallet>, i: int, j: int, a: Seq<u8>)
    requires
        0 <= i < j,
        spec_sender_addr(cfg, ws, i) == a,
        forall|k: int| i < k < j ==> spec_sender_addr(cfg, ws, k) != a,
    ensures
        spec_count_before(cfg, ws, j, a) == spec_count_before(cfg, ws, i, a) + 1,
    decreases j - i,
{
    if j == i + 1 {
    } else {
        lemma_count_before_gap(cfg, ws, i, j - 1, a);
    }
}

/// Nonce succession: two transactions of one sender with none of that
/// sender between them carry consecutive nonces.
pub proof fn lemma_nonce_consecutive(
    cfg: SpecConfig,
    ws: Seq<SpecWallet>,
    m: Seq<(Seq<u8>, SpecGenesisAccount)>,
    ts: Seq<SpecSignedTransaction>,
    i: int,
    j: int,
)
    requires
        cfg.wf(),
        cfg.transactions.len() <= usize::MAX,
        spec_alloc_map(cfg, ws, cfg.alloc.len() as int) == Ok::<
            Seq<(Seq<u8>, SpecGenesisAccount)>,
            SpecBuilderError,
        >(m),
        spec_txs(cfg, ws, m, cfg.transactions.len() as int) == Ok::<
            Seq<SpecSignedTransaction>,
            SpecBuilderError,
        >(ts),
        0 <= i < j < ts.len(),
        ts[i].from == ts[j].from,
        forall|k: int| i < k < j ==> (#[trigger] ts[k]).from != ts[i].from,
    ensures
        ts[j].tx.nonce() == ts[i].tx.nonce() + 1,
{
    lemma_ts_shape(cfg, ws, m, ts, i);
    lemma_ts_shape(cfg, ws, m, ts, j);
    assert(forall|k: int| i < k < j ==> spec_sender_addr(cfg, ws, k) != ts[i].from) by {
        assert forall|k: int| i < k < j implies spec_sender_addr(cfg, ws, k) != ts[i].from by {
            lemma_ts_shape(cfg, ws, m, ts, k);
        }
    };
    lemma_count_before_gap(cfg, ws, i, j, ts[i].from);
}

/// Nonce start: a sender's first transaction carries exactly that sender's
/// genesis nonce.
pub proof fn lemma_first_nonce_is_genesis(
    cfg: SpecConfig,
    ws: Seq<SpecWallet>,
    m: Seq<(Seq<u8>, SpecGenesisAccount)>,
    ts: Seq<SpecSignedTransaction>,
    i: int,
)
    requires
        cfg.wf(),
        cfg.transactions.len() <= usize::MAX,
        spec_alloc_map(cfg, ws, cfg.alloc.len() as int) == Ok::<
            Seq<(Seq<u8>, SpecGenesisAccount)>,
            SpecBuilderError,
        >(m),
        spec_txs(cfg, ws, m, cfg.transactions.len() as int) == Ok::<
            Seq<SpecSignedTransaction>,
            SpecBuilderError,
        >(ts),
        0 <= i < ts.len(),
        forall|k: int| 0 <= k < i ==> (#[trigger] ts[k]).from != ts[i].from,
    ensures
        ts[i].tx.nonce() == spec_genesis_nonce(m, ts[i].from),
{
    lemma_ts_shape(cfg, ws, m, ts, i);
    assert(forall|k: int| 0 <= k < i ==> spec_sender_addr(cfg, ws, k) != ts[i].from) by {
        assert forall|k: int| 0 <= k < i implies spec_sender_addr(cfg, ws, k) != ts[i].from by {
            lemma_ts_shape(cfg, ws, m, ts, k);
        }
    };
    lemma_count_before_zero(cfg, ws, i, ts[i].from);
}

/// Every element of the resolved transaction list is the signed form of its
/// own resolution.
proof fn lemma_txs_elem(cfg: SpecConfig, ws: Seq<SpecWallet>, m: Seq<(Seq<u8>, SpecGenesisAccount)>,
    i: int)
    requires
        spec_txs(cfg, ws, m, i) is Ok,
    ensures
        spec_txs(cfg, ws, m, i) matches Ok(pre) ==> forall|j: int|
            0 <= j < pre.len() ==> spec_signed_tx(cfg, ws, m, j) == Ok::<
                SpecSignedTransaction,
                SpecBuilderError,
            >(#[trigger] pre[j]),
    decreases i,
{
    if i > 0 {
        assert(spec_txs(cfg, ws, m, i - 1) is Ok);
        lemma_txs_ok(cfg, ws, m, i - 1);
        lemma_txs_elem(cfg, ws, m, i - 1);
        lemma_txs_ok(cfg, ws, m, i);
    }
}

/// Resolve one declared transaction against the wallets, the genesis
/// allocation, and the transactions resolved before it.
#[verifier::rlimit(100)]
#[verifier::loop_isolation(false)]
fn build_one_tx(
    d: TransactionBuilder,
    i: usize,
    wallets: &Vec<Wallet>,
    alloc: &Vec<(Address, GenesisAccount)>,
    utxs: &Vec<ResolvedTx>,
    defaults: &DefaultsBuilder,
    chain_id: u64,
    Ghost(cfg): Ghost<SpecConfig>,
    Ghost(wsv): Ghost<Seq<SpecWallet>>,
    Ghost(mv): Ghost<Seq<(Seq<u8>, SpecGenesisAccount)>>,
) -> (r: Result<ResolvedTx, BuilderError>)
    requires
        cfg.wf(),
        0 <= i < cfg.transactions.len(),
        cfg.transactions.len() <= usize::MAX,
        d@ == cfg.transactions[i as int],
        defaults == cfg.defaults,
        chain_id == cfg.chain.chain_id,
        wallets_view(wallets@) == wsv,
        forall|j: int| 0 <= j < wsv.len() ==> (#[trigger] wsv[j]).wf(),
        spec_alloc_map(cfg, wsv, cfg.alloc.len() as int) == Ok::<
            Seq<(Seq<u8>, SpecGenesisAccount)>,
            SpecBuilderError,
        >(mv),
        alloc_view(alloc@) == mv,
        utxs@.len() == i,
        forall|j: int|
            0 <= j < i ==> (#[trigger] utxs@[j]).from@ == spec_sender_addr(cfg, wsv, j),
    ensures
        match r {
            Ok(rt) => {
                &&& spec_typed_tx(cfg, wsv, mv, i as int) == Ok::<
                    SpecTypedTransaction,
                    SpecBuilderError,
                >(rt.tx@)
                &&& spec_from_wallet(cfg, wsv, i as int) == Ok::<int, SpecBuilderError>(
                    rt.wallet as int)
                &&& rt.from@ == spec_sender_addr(cfg, wsv, i as int)
                &&& rt.tx.wf()
                &&& 0 <= rt.wallet < wsv.len()
            },
            Err(e) => spec_signed_tx(cfg, wsv, mv, i as int) == Err::<
                SpecSignedTransaction,
                SpecBuilderError,
            >(e@),
        },
{
    let ghost dv = cfg.transactions[i as int];
    proof {
        reveal(spec_typed_tx);
    }
    let (from_ref, to_ref) = match &d {
        TransactionBuilder::Legacy(b) => {
            proof {
                assert(dv.fields().from == b.from@);
                assert(dv.fields().to == (match &b.to {
                    Some(t) => Some(t@),
                    None => None::<SpecAddressOrAlias>,
                }));
            }
            (&b.from, &b.to)
        },
        TransactionBuilder::Eip2930(b) => {
            proof {
                assert(dv.fields().from == b.from@);
                assert(dv.fields().to == (match &b.to {
                    Some(t) => Some(t@),
                    None => None::<SpecAddressOrAlias>,
                }));
            }
            (&b.from, &b.to)
        },
        TransactionBuilder::Eip1559(b) => {
            proof {
                assert(dv.fields().from == b.from@);
                assert(dv.fields().to == (match &b.to {
                    Some(t) => Some(t@),
                    None => None::<SpecAddressOrAlias>,
                }));
            }
            (&b.from, &b.to)
        },
    };
    let w = match resolve_sender(wallets, from_ref) {
        Some(w) => w,
        None => {
            return Err(BuilderError::TxAccountNotFound { idx: i, name: from_ref.duplicate() });
        },
    };
    let from_addr = match from_ref {
        AddressOrAlias::Address(a) => a.duplicate(),
        AddressOrAlias::Alias(_) => wallets[w].address.duplicate(),
    };
    assert(from_addr@ == spec_sender_addr(cfg, wsv, i as int));
    let to: Option<Address> = match to_ref {
        None => None,
        Some(rf) => {
            proof {
                crate::refs::lemma_resolve_ref_wf(wsv, rf@);
            }
            match resolve_address(wallets, rf) {
                Some(a) => Some(a),
                None => {
                    return Err(
                        BuilderError::TxAccountNotFound { idx: i, name: rf.duplicate() },
                    );
                },
            }
        },
    };
    proof {
        crate::refs::lemma_resolve_sender_range(wsv, dv.fields().from);
    }
    assert(to matches Some(a) ==> a@.len() == 20);

    // The nonce: the sender's genesis nonce plus its prior transactions.
    let gn = genesis_nonce_of(alloc, &from_addr);
    let mut c: u64 = 0;
    let mut j: usize = 0;
    while j < i
        invariant
            0 <= j <= i,
            i == utxs@.len(),
            c == spec_count_before(cfg, wsv, j as int, from_addr@),
            0 <= c <= j,
            forall|t: int|
                0 <= t < i ==> (#[trigger] utxs@[t]).from@ == spec_sender_addr(cfg, wsv, t),
        decreases i - j,
    {
        if utxs[j].from.eq_addr(&from_addr) {
            c = c + 1;
        }
        j = j + 1;
    }
    proof {
        lemma_alloc_map_nonces(
            cfg,
            wsv,
            cfg.alloc.len() as int,
            (u64::MAX - cfg.transactions.len()) as nat,
        );
        lemma_alloc_lookup_entry(mv, from_addr@);
        assert(gn + c <= u64::MAX) by {
            assert(c < cfg.transactions.len());
            match spec_alloc_lookup(mv, from_addr@) {
                Some(acct) => {
                    let t = choose|t: int| 0 <= t < mv.len() && (#[trigger] mv[t]).1 == acct;
                    match acct.nonce {
                        Some(n) => {
                            assert(n <= u64::MAX - cfg.transactions.len());
                        },
                        None => {},
                    }
                },
                None => {},
            }
        };
    }
    let nonce = gn + c;
    assert(nonce == spec_nonce_of(cfg, wsv, mv, i as int));

    // The typed transaction of the declared variant.
    match d {
        TransactionBuilder::Legacy(b) => {
            let gp = match gas_price(i, b.gas_price, defaults) {
                Ok(e) => e,
                Err(e) => {
                    return Err(e);
                },
            };
            let gl = match gas_limit(i, b.gas_limit, defaults) {
                Ok(v) => v,
                Err(e) => {
                    return Err(e);
                },
            };
            let tx = TypedTransaction::Legacy(
                TxLegacy {
                    chain_id: Some(chain_id),
                    nonce,
                    gas_price: gp.0.to_u128(),
                    gas_limit: gl,
                    to: tx_kind(to),
                    value: match b.value {
                        Some(e) => e.0,
                        None => Uint256::zero(),
                    },
                    input: b.input,
                },
            );
            assert(spec_typed_tx(cfg, wsv, mv, i as int) == Ok::<
                SpecTypedTransaction,
                SpecBuilderError,
            >(tx@)) by {
                reveal(spec_typed_tx);
            };
            assert(tx.wf());
            Ok(ResolvedTx { from: from_addr, wallet: w, tx })
        },
        TransactionBuilder::Eip2930(b) => {
            let gp = match gas_price(i, b.gas_price, defaults) {
                Ok(e) => e,
                Err(e) => {
                    return Err(e);
                },
            };
            let gl = match gas_limit(i, b.gas_limit, defaults) {
                Ok(v) => v,
                Err(e) => {
                    return Err(e);
                },
            };
            proof {
                assert(dv.fields().access_list == (match &b.access_list {
                    Some(al) => Some(al@),
                    None => None::<Seq<crate::tx::SpecAccessEntry>>,
                }));
            }
            let al = match b.access_list {
                Some(al) => al,
                None => {
                    return Err(BuilderError::AccessListNotSet { idx: i });
                },
            };
            let tx = TypedTransaction::Eip2930(
                TxEip2930 {
                    chain_id,
                    nonce,
                    gas_price: gp.0.to_u128(),
                    gas_limit: gl,
                    to: tx_kind(to),
                    value: match b.value {
                        Some(e) => e.0,
                        None => Uint256::zero(),
                    },
                    access_list: al,
                    input: b.input,
                },
            );
            assert(spec_typed_tx(cfg, wsv, mv, i as int) == Ok::<
                SpecTypedTransaction,
                SpecBuilderError,
            >(tx@)) by {
                reveal(spec_typed_tx);
            };
            assert(tx.wf());
            Ok(ResolvedTx { from: from_addr, wallet: w, tx })
        },
        TransactionBuilder::Eip1559(b) => {
            let gl = match gas_limit(i, b.gas_limit, defaults) {
                Ok(v) => v,
                Err(e) => {
                    return Err(e);
                },
            };
            let mf = match max_fee_per_gas(i, b.max_fee_per_gas, defaults) {
                Ok(e) => e,
                Err(e) => {
                    return Err(e);
                },
            };
            let mp = match max_priority_fee_per_gas(i, b.max_priority_fee_per_gas, defaults) {
                Ok(e) => e,
                Err(e) => {
                    return Err(e);
                },
            };
            proof {
                assert(dv.fields().access_list == (match &b.access_list {
                    Some(al) => Some(al@),
                    None => None::<Seq<crate::tx::SpecAccessEntry>>,
                }));
            }
            let al = match b.access_list {
                Some(al) => al,
                None => {
                    return Err(BuilderError::AccessListNotSet { idx: i });
                },
            };
            let tx = TypedTransaction::Eip1559(
                TxEip1559 {
                    chain_id,
                    nonce,
                    gas_limit: gl,
                    max_fee_per_gas: mf.0.to_u128(),
                    max_priority_fee_per_gas: mp.0.to_u128(),
                    to: tx_kind(to),
                    value: match b.value {
                        Some(e) => e.0,
                        None => Uint256::zero(),
                    },
                    access_list: al,
                    input: b.input,
                },
            );
            assert(spec_typed_tx(cfg, wsv, mv, i as int) == Ok::<
                SpecTypedTransaction,
                SpecBuilderError,
            >(tx@)) by {
                reveal(spec_typed_tx);
            };
            assert(tx.wf());
            Ok(ResolvedTx { from: from_addr, wallet: w, tx })
        },
    }
}



} // verus!
