//! The genesis document: block constants, the resolved fork schedule, and
//! the allocation map of initial account states.

use vstd::prelude::*;
use crate::chain::ChainConfig;
use crate::nums::{Address, Uint256};

verus! {

/// One genesis-time account entry.
#[derive(Debug)]
pub struct GenesisAccount {
    pub nonce: Option<u64>,
    pub balance: Uint256,
    pub code: Option<Vec<u8>>,
    pub storage: Vec<(Uint256, Uint256)>,
}

pub ghost struct SpecGenesisAccount {
    pub nonce: Option<u64>,
    pub balance: Uint256,
    pub code: Option<Seq<u8>>,
    pub storage: Seq<(Uint256, Uint256)>,
}

impl View for GenesisAccount {
    type V = SpecGenesisAccount;

    open spec fn view(&self) -> SpecGenesisAccount {
        SpecGenesisAccount {
            nonce: self.nonce,
            balance: self.balance,
            code: match &self.code {
                Some(c) => Some(c@),
                None => None,
            },
            storage: self.storage@,
        }
    }
}

/// The full initial chain state handed to the network harness.
#[derive(Debug)]
pub struct Genesis {
    pub config: ChainConfig,
    pub nonce: u64,
    pub timestamp: u64,
    pub extra_data: Vec<u8>,
    pub gas_limit: u64,
    pub difficulty: Uint256,
    pub mix_hash: Uint256,
    pub coinbase: Address,
    pub alloc: Vec<(Address, GenesisAccount)>,
}

pub ghost struct SpecGenesis {
    pub config: ChainConfig,
    pub nonce: u64,
    pub timestamp: u64,
    pub extra_data: Seq<u8>,
    pub gas_limit: u64,
    pub difficulty: Uint256,
    pub mix_hash: Uint256,
    pub coinbase: Seq<u8>,
    pub alloc: Seq<(Seq<u8>, SpecGenesisAccount)>,
}

impl View for Genesis {
    type V = SpecGenesis;

    open spec fn view(&self) -> SpecGenesis {
        SpecGenesis {
            config: self.config,
            nonce: self.nonce,
            timestamp: self.timestamp,
            extra_data: self.extra_data@,
            gas_limit: self.gas_limit,
            difficulty: self.difficulty,
            mix_hash: self.mix_hash,
            coinbase: self.coinbase@,
            alloc: self.alloc@.map_values(|e: (Address, GenesisAccount)| (e.0@, e.1@)),
        }
    }
}

impl SpecGenesis {
    /// The addresses of the allocation map are unique.
    pub open spec fn alloc_keys_unique(&self) -> bool {
        forall|i: int, j: int|
            0 <= i < j < self.alloc.len() ==> (#[trigger] self.alloc[i]).0 != (
            #[trigger] self.alloc[j]).0
    }
}

/// The declared block constants of the genesis document.
#[derive(Debug)]
pub struct GenesisBuilder {
    pub nonce: u64,
    pub timestamp: u64,
    pub gas_limit: u64,
    pub difficulty: Uint256,
    pub mix_hash: Uint256,
    pub coinbase: Address,
}

pub ghost struct SpecGenesisDecl {
    pub nonce: u64,
    pub timestamp: u64,
    pub gas_limit: u64,
    pub difficulty: Uint256,
    pub mix_hash: Uint256,
    pub coinbase: Seq<u8>,
}

impl View for GenesisBuilder {
    type V = SpecGenesisDecl;

    open spec fn view(&self) -> SpecGenesisDecl {
        SpecGenesisDecl {
            nonce: self.nonce,
            timestamp: self.timestamp,
            gas_limit: self.gas_limit,
            difficulty: self.difficulty,
            mix_hash: self.mix_hash,
            coinbase: self.coinbase@,
        }
    }
}

impl GenesisBuilder {
    /// Assemble the genesis document from the block constants, the resolved
    /// fork schedule, and the allocation map. The extra-data field starts
    /// empty; the network harness fills it with the authority's vanity and
    /// seal bytes.
    pub fn build_with(self, chain_config: ChainConfig, alloc: Vec<(Address, GenesisAccount)>) -> (r:
        Genesis)
        ensures
            r.config == chain_config,
            r.nonce == self.nonce,
            r.timestamp == self.timestamp,
            r@.extra_data == Seq::<u8>::empty(),
            r.gas_limit == self.gas_limit,
            r.difficulty == self.difficulty,
            r.mix_hash == self.mix_hash,
            r.coinbase@ == self.coinbase@,
            r.alloc@ == alloc@,
    {
        Genesis {
            config: chain_config,
            nonce: self.nonce,
            timestamp: self.timestamp,
            extra_data: Vec::new(),
            gas_limit: self.gas_limit,
            difficulty: self.difficulty,
            mix_hash: self.mix_hash,
            coinbase: self.coinbase,
            alloc,
        }
    }
}

/// The default per-block gas limit of a generated genesis.
pub fn default_block_gas_limit() -> (r: u64)
    ensures
        r == 30_000_000,
{
    30_000_000
}

/// The default gas budget used where a smaller per-block limit is wanted.
pub fn default_gas() -> (r: u64)
    ensures
        r == 10_000_000,
{
    10_000_000
}

/// The default genesis difficulty.
pub fn default_difficulty() -> (r: Uint256)
    ensures
        r == (Uint256 { l0: 1u64, l1: 0u64, l2: 0u64, l3: 0u64 }),
{
    Uint256 { l0: 1, l1: 0, l2: 0, l3: 0 }
}

/// Relies on `std::time::SystemTime::now`, `duration_since` and
/// `Duration::as_secs`: the wall-clock time in seconds since the epoch, or
/// zero on a clock that predates it. Nothing can be promised of the value.
#[verifier::external_body]
pub fn default_now() -> u64 {
    std::time::SystemTime::now()
        .duration_since(std::time::UNIX_EPOCH)
        .map(|d| d.as_secs())
        .unwrap_or(0)
}

} // verus!
