//! The network harness plan: everything the provisioning of the isolated
//! single-authority node decides — the proof-of-authority genesis fields,
//! the node's command lines, the readiness signal, and the miner-control
//! call sequences. The processes, files and connections themselves are the
//! runner's work.

use vstd::prelude::*;
use vstd::slice::slice_to_vec;
use crate::assembler::lit;
use crate::chain::CliqueSettings;
use crate::genesis::Genesis;
use crate::nums::Address;

verus! {

/// Why provisioning failed.
#[derive(PartialEq, Eq, Structural, Debug)]
pub enum TestNetBuilderError {
    GenesisNotSet,
    GethPathNotSet,
    GethPathDoesNotExist,
    FailedToCreateTempDir,
    FailedToWriteFile,
    FailedToWriteKeystore,
    Serialization,
    FailedInit,
    FailedToConnectToGeth,
}

/// The declarative inputs of a harness instance: the genesis document, and
/// optionally the authority's signing key and the node executable's path.
#[derive(Debug)]
pub struct TestNetBuilder {
    pub genesis: Option<Genesis>,
    pub signing_key: Option<Vec<u8>>,
    pub geth_path: Option<Vec<u8>>,
}

impl TestNetBuilder {
    pub fn new() -> (r: TestNetBuilder)
        ensures
            r.genesis is None,
            r.signing_key is None,
            r.geth_path is None,
    {
        TestNetBuilder { genesis: None, signing_key: None, geth_path: None }
    }

    /// Set the genesis configuration.
    pub fn genesis(self, genesis: Genesis) -> (r: TestNetBuilder)
        ensures
            r.genesis matches Some(gv) && gv@ == genesis@,
            r.signing_key == self.signing_key,
            r.geth_path == self.geth_path,
    {
        TestNetBuilder { genesis: Some(genesis), ..self }
    }

    /// Set the node executable path.
    pub fn geth_path(self, geth_path: Vec<u8>) -> (r: TestNetBuilder)
        ensures
            r.geth_path matches Some(p) && p@ == geth_path@,
            (match (r.genesis, self.genesis) {
                (Some(a), Some(b)) => a@ == b@,
                (None, None) => true,
                _ => false,
            }),
            r.signing_key == self.signing_key,
    {
        TestNetBuilder { geth_path: Some(geth_path), ..self }
    }

    /// Set the signing key of the authority.
    pub fn signing_key(self, signing_key: Vec<u8>) -> (r: TestNetBuilder)
        ensures
            r.signing_key matches Some(k) && k@ == signing_key@,
            (match (r.genesis, self.genesis) {
                (Some(a), Some(b)) => a@ == b@,
                (None, None) => true,
                _ => false,
            }),
            r.geth_path == self.geth_path,
    {
        TestNetBuilder { signing_key: Some(signing_key), ..self }
    }
}

/// The proof-of-authority extra-data field: 32 vanity bytes, the
/// authority's address, and 65 bytes of seal space, all zeroed but the
/// address.
pub open spec fn spec_clique_extra_data(a: Seq<u8>) -> Seq<u8> {
    Seq::new(32, |i: int| 0u8) + a + Seq::new(65, |i: int| 0u8)
}

pub fn clique_extra_data(signer_addr: &Address) -> (r: Vec<u8>)
    requires
        signer_addr.wf(),
    ensures
        r@ == spec_clique_extra_data(signer_addr@),
        r@.len() == 117,
{
    let mut out: Vec<u8> = Vec::new();
    let mut i: usize = 0;
    while i < 32
        invariant
            0 <= i <= 32,
            out@.len() == i,
            forall|j: int| 0 <= j < i ==> out@[j] == 0u8,
        decreases 32 - i,
    {
        out.push(0);
        i = i + 1;
    }
    let mut i: usize = 0;
    while i < signer_addr.bytes.len()
        invariant
            signer_addr.wf(),
            0 <= i <= signer_addr@.len(),
            out@.len() == 32 + i,
            forall|j: int| 0 <= j < 32 ==> out@[j] == 0u8,
            forall|j: int| 0 <= j < i ==> out@[32 + j] == #[trigger] signer_addr@[j],
        decreases signer_addr@.len() - i,
    {
        out.push(signer_addr.bytes[i]);
        i = i + 1;
    }
    let mut i: usize = 0;
    while i < 65
        invariant
            signer_addr.wf(),
            0 <= i <= 65,
            out@.len() == 52 + i,
            forall|j: int| 0 <= j < 32 ==> out@[j] == 0u8,
            forall|j: int| 0 <= j < 20 ==> out@[32 + j] == #[trigger] signer_addr@[j],
            forall|j: int| 0 <= j < i ==> #[trigger] out@[52 + j] == 0u8,
        decreases 65 - i,
    {
        out.push(0);
        i = i + 1;
    }
    proof {
        assert(out@.len() == 117);
        assert forall|j: int| 0 <= j < 117 implies out@[j] == spec_clique_extra_data(
            signer_addr@)[j] by {
            if j < 32 {
            } else if j < 52 {
                assert(out@[32 + (j - 32)] == signer_addr@[j - 32]);
            } else {
                assert(out@[52 + (j - 52)] == 0u8);
            }
        }
        assert(out@ =~= spec_clique_extra_data(signer_addr@));
    }
    out
}

/// Embed the authority into the genesis document: switch the chain to the
/// proof-of-authority engine and write the extra-data field. Everything
/// else is kept.
pub fn prepare_genesis(genesis: Genesis, signer_addr: &Address) -> (r: Genesis)
    requires
        signer_addr.wf(),
    ensures
        r@.config.clique == Some(CliqueSettings { period: None::<u64>, epoch: None::<u64> }),
        r@.extra_data == spec_clique_extra_data(signer_addr@),
        r@.config == (crate::chain::ChainConfig {
            clique: Some(CliqueSettings { period: None::<u64>, epoch: None::<u64> }),
            ..genesis@.config
        }),
        r@.nonce == genesis@.nonce,
        r@.timestamp == genesis@.timestamp,
        r@.gas_limit == genesis@.gas_limit,
        r@.difficulty == genesis@.difficulty,
        r@.mix_hash == genesis@.mix_hash,
        r@.coinbase == genesis@.coinbase,
        r@.alloc == genesis@.alloc,
{
    let mut g = genesis;
    g.config.clique = Some(CliqueSettings { period: None, epoch: None });
    g.extra_data = clique_extra_data(signer_addr);
    g
}

/// Whether a byte string holds another as a contiguous substring.
pub open spec fn spec_contains_subseq(s: Seq<u8>, pat: Seq<u8>) -> bool {
    exists|k: int| 0 <= k <= s.len() - pat.len() && #[trigger] s.subrange(k, k + pat.len()) == pat
}

/// Whether a diagnostic line is the node's readiness signal: it announces
/// the opened local endpoint.
pub fn is_ready_line(line: &[u8]) -> (r: bool)
    ensures
        r == spec_contains_subseq(line@, lit("IPC endpoint opened")),
{
    let pat = "IPC endpoint opened".as_bytes();
    contains_subseq(line, pat)
}

fn contains_subseq(s: &[u8], pat: &[u8]) -> (r: bool)
    ensures
        r == spec_contains_subseq(s@, pat@),
{
    if pat.len() > s.len() {
        assert(!spec_contains_subseq(s@, pat@));
        return false;
    }
    if pat.len() == 0 {
        assert(s@.subrange(0int, 0int + pat@.len() as int) =~= pat@);
        assert(spec_contains_subseq(s@, pat@));
        return true;
    }
    let n = s.len() - pat.len();
    let mut k: usize = 0;
    while k <= n
        invariant
            0 <= k <= n + 1,
            n + pat@.len() == s@.len(),
            s@.len() <= usize::MAX,
            pat@.len() >= 1,
            forall|t: int| 0 <= t < k ==> #[trigger] s@.subrange(t, t + pat@.len()) != pat@,
        decreases n + 1 - k,
    {
        let sub = vstd::slice::slice_subrange(s, k, k + pat.len());
        if crate::nums::bytes_eq(sub, pat) {
            assert(spec_contains_subseq(s@, pat@));
            return true;
        }
        k = k + 1;
    }
    assert(!spec_contains_subseq(s@, pat@));
    false
}

fn lit_bytes(s: &str) -> (r: Vec<u8>)
    ensures
        r@ == lit(s),
{
    slice_to_vec(s.as_bytes())
}

/// The node-initialization command line: write the chain database of the
/// given data directory from the genesis document.
pub fn geth_init_args(data_dir: Vec<u8>, genesis_path: Vec<u8>) -> (r: Vec<Vec<u8>>)
    ensures
        r@.len() == 4,
        r@[0]@ == lit("--datadir"),
        r@[1]@ == data_dir@,
        r@[2]@ == lit("init"),
        r@[3]@ == genesis_path@,
{
    let mut v: Vec<Vec<u8>> = Vec::new();
    v.push(lit_bytes("--datadir"));
    v.push(data_dir);
    v.push(lit_bytes("init"));
    v.push(genesis_path);
    v
}

/// The node's run command line: an isolated, non-discoverable node (no
/// listening port, no discovery, no address translation), a roomy local
/// transaction pool, and no `--mine` flag — block production stays off
/// until the orchestrator starts it.
pub fn geth_run_args(data_dir: Vec<u8>) -> (r: Vec<Vec<u8>>)
    ensures
        r@.len() == 15,
        r@[0]@ == lit("--port=0"),
        r@[1]@ == lit("--nodiscover"),
        r@[2]@ == lit("--nat=none"),
        r@[3]@ == lit("--syncmode=full"),
        r@[4]@ == lit("--verbosity=5"),
        r@[5]@ == lit("--txpool.globalqueue=4096"),
        r@[6]@ == lit("--txpool.globalslots=40960"),
        r@[7]@ == lit("--txpool.pricelimit=48700001"),
        r@[8]@ == lit("--txpool.nolocals"),
        r@[9]@ == lit("--miner.gaslimit=10000000"),
        r@[10]@ == lit("--miner.gasprice=48700001"),
        r@[11]@ == lit("--rpc.gascap=0"),
        r@[12]@ == lit("--gpo.ignoreprice=1"),
        r@[13]@ == lit("--datadir"),
        r@[14]@ == data_dir@,
{
    let mut v: Vec<Vec<u8>> = Vec::new();
    v.push(lit_bytes("--port=0"));
    v.push(lit_bytes("--nodiscover"));
    v.push(lit_bytes("--nat=none"));
    v.push(lit_bytes("--syncmode=full"));
    v.push(lit_bytes("--verbosity=5"));
    v.push(lit_bytes("--txpool.globalqueue=4096"));
    v.push(lit_bytes("--txpool.globalslots=40960"));
    v.push(lit_bytes("--txpool.pricelimit=48700001"));
    v.push(lit_bytes("--txpool.nolocals"));
    v.push(lit_bytes("--miner.gaslimit=10000000"));
    v.push(lit_bytes("--miner.gasprice=48700001"));
    v.push(lit_bytes("--rpc.gascap=0"));
    v.push(lit_bytes("--gpo.ignoreprice=1"));
    v.push(lit_bytes("--datadir"));
    v.push(data_dir);
    v
}

/// One miner-control call of the node's request interface.
#[derive(Debug)]
pub enum MinerCall {
    UnlockAccount { address: Address, password: Vec<u8> },
    StartMining,
    StopMining,
}

pub ghost enum SpecMinerCall {
    UnlockAccount { address: Seq<u8>, password: Seq<u8> },
    StartMining,
    StopMining,
}

impl View for MinerCall {
    type V = SpecMinerCall;

    open spec fn view(&self) -> SpecMinerCall {
        match self {
            MinerCall::UnlockAccount { address, password } => SpecMinerCall::UnlockAccount {
                address: address@,
                password: password@,
            },
            MinerCall::StartMining => SpecMinerCall::StartMining,
            MinerCall::StopMining => SpecMinerCall::StopMining,
        }
    }
}

/// The password protecting the authority's keystore for the life of the
/// ephemeral node.
pub fn miner_password() -> (r: Vec<u8>)
    ensures
        r@ == lit("testnet"),
{
    slice_to_vec("testnet".as_bytes())
}

/// The calls that pause block production: one stop request.
pub fn stop_miner_calls() -> (r: Vec<MinerCall>)
    ensures
        r@.len() == 1,
        r@[0]@ == SpecMinerCall::StopMining,
{
    let mut v: Vec<MinerCall> = Vec::new();
    v.push(MinerCall::StopMining);
    v
}

/// The calls that resume block production: unlock the authority account
/// first, then start the miner — in that order.
pub fn start_miner_calls(authority: Address) -> (r: Vec<MinerCall>)
    ensures
        r@.len() == 2,
        r@[0]@ == (SpecMinerCall::UnlockAccount {
            address: authority@,
            password: lit("testnet"),
        }),
        r@[1]@ == SpecMinerCall::StartMining,
{
    let mut v: Vec<MinerCall> = Vec::new();
    v.push(MinerCall::UnlockAccount { address: authority, password: miner_password() });
    v.push(MinerCall::StartMining);
    v
}

} // verus!
