//! The fork activation schedule: every fork flag resolves independently to
//! disabled, active from genesis, or active from a given block or
//! timestamp.

use vstd::prelude::*;

verus! {

/// One fork activation flag as declared: a plain switch, or an explicit
/// activation point.
#[derive(Clone, Copy, PartialEq, Eq, Structural, Debug)]
pub enum ForkFlag {
    Flag(bool),
    At(u64),
}

impl ForkFlag {
    /// `Flag(false)` is disabled, `Flag(true)` is active from genesis, and
    /// `At(v)` is active from block or timestamp `v`.
    pub open spec fn spec_resolve(&self) -> Option<u64> {
        match self {
            ForkFlag::Flag(false) => None,
            ForkFlag::Flag(true) => Some(0u64),
            ForkFlag::At(v) => Some(*v),
        }
    }

    pub fn resolve(&self) -> (r: Option<u64>)
        ensures
            r == self.spec_resolve(),
    {
        match self {
            ForkFlag::Flag(false) => None,
            ForkFlag::Flag(true) => Some(0u64),
            ForkFlag::At(v) => Some(*v),
        }
    }

    /// The declaration default for most forks: active from genesis.
    pub fn enabled() -> (r: ForkFlag)
        ensures
            r == ForkFlag::At(0u64),
    {
        ForkFlag::At(0)
    }
}

pub fn default_chain_id() -> (r: u64)
    ensures
        r == 1337,
{
    1337
}

pub fn default_true() -> (r: bool)
    ensures
        r == true,
{
    true
}

pub fn default_false() -> (r: bool)
    ensures
        r == false,
{
    false
}

/// The declared fork schedule, before resolution.
#[derive(Clone, Copy, PartialEq, Eq, Structural, Debug)]
pub struct ChainConfigBuilder {
    pub chain_id: u64,
    pub homestead_block: ForkFlag,
    pub dao_fork_block: ForkFlag,
    pub dao_fork_support: bool,
    pub eip150_block: ForkFlag,
    pub eip155_block: ForkFlag,
    pub eip158_block: ForkFlag,
    pub byzantium_block: ForkFlag,
    pub constantinople_block: ForkFlag,
    pub petersburg_block: ForkFlag,
    pub istanbul_block: ForkFlag,
    pub muir_glacier_block: ForkFlag,
    pub berlin_block: ForkFlag,
    pub london_block: ForkFlag,
    pub arrow_glacier_block: ForkFlag,
    pub gray_glacier_block: ForkFlag,
    pub merge_netsplit_block: ForkFlag,
    pub shanghai_time: ForkFlag,
    pub cancun_time: ForkFlag,
    pub prague_time: ForkFlag,
    pub osaka_time: ForkFlag,
}

/// Settings of the proof-of-authority engine, filled in by the harness.
#[derive(Clone, Copy, PartialEq, Eq, Structural, Debug)]
pub struct CliqueSettings {
    pub period: Option<u64>,
    pub epoch: Option<u64>,
}

/// The resolved fork schedule.
#[derive(Clone, Copy, PartialEq, Eq, Structural, Debug)]
pub struct ChainConfig {
    pub chain_id: u64,
    pub homestead_block: Option<u64>,
    pub dao_fork_block: Option<u64>,
    pub dao_fork_support: bool,
    pub eip150_block: Option<u64>,
    pub eip155_block: Option<u64>,
    pub eip158_block: Option<u64>,
    pub byzantium_block: Option<u64>,
    pub constantinople_block: Option<u64>,
    pub petersburg_block: Option<u64>,
    pub istanbul_block: Option<u64>,
    pub muir_glacier_block: Option<u64>,
    pub berlin_block: Option<u64>,
    pub london_block: Option<u64>,
    pub arrow_glacier_block: Option<u64>,
    pub gray_glacier_block: Option<u64>,
    pub merge_netsplit_block: Option<u64>,
    pub shanghai_time: Option<u64>,
    pub cancun_time: Option<u64>,
    pub prague_time: Option<u64>,
    pub osaka_time: Option<u64>,
    pub clique: Option<CliqueSettings>,
}

impl ChainConfigBuilder {
    /// The resolved schedule that a declared one denotes.
    pub open spec fn spec_build(&self) -> ChainConfig {
        ChainConfig {
            chain_id: self.chain_id,
            homestead_block: self.homestead_block.spec_resolve(),
            dao_fork_block: self.dao_fork_block.spec_resolve(),
            dao_fork_support: self.dao_fork_support,
            eip150_block: self.eip150_block.spec_resolve(),
            eip155_block: self.eip155_block.spec_resolve(),
            eip158_block: self.eip158_block.spec_resolve(),
            byzantium_block: self.byzantium_block.spec_resolve(),
            constantinople_block: self.constantinople_block.spec_resolve(),
            petersburg_block: self.petersburg_block.spec_resolve(),
            istanbul_block: self.istanbul_block.spec_resolve(),
            muir_glacier_block: self.muir_glacier_block.spec_resolve(),
            berlin_block: self.berlin_block.spec_resolve(),
            london_block: self.london_block.spec_resolve(),
            arrow_glacier_block: self.arrow_glacier_block.spec_resolve(),
            gray_glacier_block: self.gray_glacier_block.spec_resolve(),
            merge_netsplit_block: self.merge_netsplit_block.spec_resolve(),
            shanghai_time: self.shanghai_time.spec_resolve(),
            cancun_time: self.cancun_time.spec_resolve(),
            prague_time: self.prague_time.spec_resolve(),
            osaka_time: self.osaka_time.spec_resolve(),
            clique: None,
        }
    }

    /// Resolve every fork flag. The proof-of-authority settings are left
    /// unset here; the network harness fills them in.
    pub fn build(self) -> (r: ChainConfig)
        ensures
            r == self.spec_build(),
    {
        ChainConfig {
            chain_id: self.chain_id,
            homestead_block: self.homestead_block.resolve(),
            dao_fork_block: self.dao_fork_block.resolve(),
            dao_fork_support: self.dao_fork_support,
            eip150_block: self.eip150_block.resolve(),
            eip155_block: self.eip155_block.resolve(),
            eip158_block: self.eip158_block.resolve(),
            byzantium_block: self.byzantium_block.resolve(),
            constantinople_block: self.constantinople_block.resolve(),
            petersburg_block: self.petersburg_block.resolve(),
            istanbul_block: self.istanbul_block.resolve(),
            muir_glacier_block: self.muir_glacier_block.resolve(),
            berlin_block: self.berlin_block.resolve(),
            london_block: self.london_block.resolve(),
            arrow_glacier_block: self.arrow_glacier_block.resolve(),
            gray_glacier_block: self.gray_glacier_block.resolve(),
            merge_netsplit_block: self.merge_netsplit_block.resolve(),
            shanghai_time: self.shanghai_time.resolve(),
            cancun_time: self.cancun_time.resolve(),
            prague_time: self.prague_time.resolve(),
            osaka_time: self.osaka_time.resolve(),
            clique: None,
        }
    }
}

impl Default for ChainConfigBuilder {
    /// Every fork active from genesis, with the test chain id.
    fn default() -> (r: ChainConfigBuilder)
        ensures
            r.chain_id == 1337,
            r.dao_fork_support == true,
            r == (ChainConfigBuilder {
                chain_id: 1337u64,
                homestead_block: ForkFlag::At(0u64),
                dao_fork_block: ForkFlag::At(0u64),
                dao_fork_support: true,
                eip150_block: ForkFlag::At(0u64),
                eip155_block: ForkFlag::At(0u64),
                eip158_block: ForkFlag::At(0u64),
                byzantium_block: ForkFlag::At(0u64),
                constantinople_block: ForkFlag::At(0u64),
                petersburg_block: ForkFlag::At(0u64),
                istanbul_block: ForkFlag::At(0u64),
                muir_glacier_block: ForkFlag::At(0u64),
                berlin_block: ForkFlag::At(0u64),
                london_block: ForkFlag::At(0u64),
                arrow_glacier_block: ForkFlag::At(0u64),
                gray_glacier_block: ForkFlag::At(0u64),
                merge_netsplit_block: ForkFlag::At(0u64),
                shanghai_time: ForkFlag::At(0u64),
                cancun_time: ForkFlag::At(0u64),
                prague_time: ForkFlag::At(0u64),
                osaka_time: ForkFlag::At(0u64),
            }),
    {
        ChainConfigBuilder {
            chain_id: default_chain_id(),
            homestead_block: ForkFlag::enabled(),
            dao_fork_block: ForkFlag::enabled(),
            dao_fork_support: default_true(),
            eip150_block: ForkFlag::enabled(),
            eip155_block: ForkFlag::enabled(),
            eip158_block: ForkFlag::enabled(),
            byzantium_block: ForkFlag::enabled(),
            constantinople_block: ForkFlag::enabled(),
            petersburg_block: ForkFlag::enabled(),
            istanbul_block: ForkFlag::enabled(),
            muir_glacier_block: ForkFlag::enabled(),
            berlin_block: ForkFlag::enabled(),
            london_block: ForkFlag::enabled(),
            arrow_glacier_block: ForkFlag::enabled(),
            gray_glacier_block: ForkFlag::enabled(),
            merge_netsplit_block: ForkFlag::enabled(),
            shanghai_time: ForkFlag::enabled(),
            cancun_time: ForkFlag::enabled(),
            prague_time: ForkFlag::enabled(),
            osaka_time: ForkFlag::enabled(),
        }
    }
}

} // verus!
