//! The submission orchestrator: drives signed transactions through a live
//! node with block production paused, resumes mining only once every
//! transaction of the batch is queued, awaits each inclusion receipt, and
//! extracts exactly one execution witness per distinct block produced.
//!
//! The orchestrator is a state machine: `next_action` says what outside
//! work the runner must perform, and each `on_*` method records its
//! outcome. All outside work — the RPC calls themselves — stays with the
//! runner.

use vstd::prelude::*;

verus! {

/// One execution witness: a block and its opaque replay payload.
#[derive(Debug)]
pub struct Witness {
    pub block_number: u64,
    pub payload: Vec<u8>,
}

pub ghost struct SpecWitness {
    pub block_number: u64,
    pub payload: Seq<u8>,
}

impl View for Witness {
    type V = SpecWitness;

    open spec fn view(&self) -> SpecWitness {
        SpecWitness { block_number: self.block_number, payload: self.payload@ }
    }
}

/// What the runner must do next.
#[derive(PartialEq, Eq, Structural, Debug)]
pub enum RunAction {
    StopMiner,
    Submit(usize),
    StartMiner,
    AwaitReceipt(usize),
    DumpWitness(u64),
    Finished,
}

/// The distinct values of a sequence, in order of first observation.
pub open spec fn spec_distinct(s: Seq<u64>) -> Seq<u64>
    decreases s.len(),
{
    if s.len() == 0 {
        Seq::empty()
    } else {
        let pre = spec_distinct(s.drop_last());
        if pre.contains(s.last()) {
            pre
        } else {
            pre.push(s.last())
        }
    }
}

/// The distinct values hold no duplicates, and exactly the values of the
/// sequence they come from.
pub proof fn lemma_spec_distinct(s: Seq<u64>)
    ensures
        forall|i: int, j: int|
            0 <= i < j < spec_distinct(s).len() ==> spec_distinct(s)[i] != spec_distinct(s)[j],
        forall|b: u64| spec_distinct(s).contains(b) <==> s.contains(b),
    decreases s.len(),
{
    if s.len() > 0 {
        lemma_spec_distinct(s.drop_last());
        let pre = spec_distinct(s.drop_last());
        assert forall|b: u64| spec_distinct(s).contains(b) implies s.contains(b) by {
            if pre.contains(b) {
                assert(s.drop_last().contains(b));
                let k = choose|k: int| 0 <= k < s.drop_last().len() && s.drop_last()[k] == b;
                assert(s[k] == b);
            } else {
                assert(b == s.last());
                assert(s[s.len() - 1] == b);
            }
        }
        assert forall|b: u64| s.contains(b) implies spec_distinct(s).contains(b) by {
            let k = choose|k: int| 0 <= k < s.len() && s[k] == b;
            if k < s.len() - 1 {
                assert(s.drop_last()[k] == b);
                assert(s.drop_last().contains(b));
                assert(pre.contains(b));
                if !pre.contains(s.last()) {
                    assert(spec_distinct(s) == pre.push(s.last()));
                    let t = choose|t: int| 0 <= t < pre.len() && pre[t] == b;
                    assert(spec_distinct(s)[t] == b);
                }
            } else {
                if pre.contains(s.last()) {
                } else {
                    assert(spec_distinct(s).last() == b);
                }
            }
        }
        if !pre.contains(s.last()) {
            assert forall|i: int, j: int|
                0 <= i < j < spec_distinct(s).len() implies spec_distinct(s)[i] != spec_distinct(
                s)[j] by {
                if j < spec_distinct(s).len() - 1 {
                } else {
                    assert(spec_distinct(s)[i] == pre[i]);
                    assert(pre.contains(pre[i]));
                }
            }
        }
    }
}

/// One run of the submission orchestrator over a fixed batch of
/// transactions.
#[derive(Debug)]
pub struct TraceRun {
    /// How many transactions the batch holds.
    pub total: usize,
    /// Block production has been paused.
    pub miner_stopped: bool,
    /// Block production has been resumed; never before the whole batch is
    /// submitted.
    pub miner_resumed: bool,
    /// How many transactions have been submitted.
    pub submitted: usize,
    /// How many inclusion receipts have been observed.
    pub awaited: usize,
    /// The block number of each receipt, in receipt order.
    pub receipt_blocks: Vec<u64>,
    /// The distinct blocks seen, in order of first observation.
    pub blocks_done: Vec<u64>,
    /// The block whose witness is being fetched, if any.
    pub pending_block: Option<u64>,
    /// One witness per distinct block, in order of first observation.
    pub witnesses: Vec<Witness>,
}

impl TraceRun {
    /// The state invariant of a run.
    pub open spec fn wf(&self) -> bool {
        &&& self.submitted <= self.total
        // Batch atomicity: mining is never resumed before every
        // transaction has been submitted.
        &&& (self.miner_resumed ==> self.submitted == self.total)
        &&& (self.miner_resumed ==> self.miner_stopped)
        &&& (self.submitted > 0 ==> self.miner_stopped)
        &&& (self.awaited > 0 ==> self.miner_resumed)
        &&& self.awaited <= self.total
        &&& self.receipt_blocks@.len() == self.awaited
        // Witness deduplication: the blocks handled are exactly the
        // distinct receipt blocks, in order of first observation.
        &&& self.blocks_done@ == spec_distinct(self.receipt_blocks@)
        &&& (match self.pending_block {
            Some(b) => self.blocks_done@.len() == self.witnesses@.len() + 1
                && self.blocks_done@.last() == b,
            None => self.blocks_done@.len() == self.witnesses@.len(),
        })
        &&& forall|j: int|
            0 <= j < self.witnesses@.len() ==> (#[trigger] self.witnesses@[j]).block_number
                == self.blocks_done@[j]
    }

    /// The decision function of the orchestrator: pause mining, submit the
    /// whole batch, resume mining, then per receipt fetch the witness of
    /// each block not yet covered.
    pub open spec fn spec_next_action(&self) -> RunAction {
        if !self.miner_stopped {
            RunAction::StopMiner
        } else if self.submitted < self.total {
            RunAction::Submit(self.submitted)
        } else if !self.miner_resumed {
            RunAction::StartMiner
        } else {
            match self.pending_block {
                Some(b) => RunAction::DumpWitness(b),
                None => if self.awaited < self.total {
                    RunAction::AwaitReceipt(self.awaited)
                } else {
                    RunAction::Finished
                },
            }
        }
    }

    /// A fresh run over a batch of `total` transactions.
    pub fn new(total: usize) -> (r: TraceRun)
        ensures
            r.wf(),
            r.total == total,
            r.miner_stopped == false,
            r.miner_resumed == false,
            r.submitted == 0,
            r.awaited == 0,
            r.receipt_blocks@ == Seq::<u64>::empty(),
            r.blocks_done@ == Seq::<u64>::empty(),
            r.pending_block is None,
            r.witnesses@.len() == 0,
    {
        let r = TraceRun {
            total,
            miner_stopped: false,
            miner_resumed: false,
            submitted: 0,
            awaited: 0,
            receipt_blocks: Vec::new(),
            blocks_done: Vec::new(),
            pending_block: None,
            witnesses: Vec::new(),
        };
        proof {
            assert(spec_distinct(r.receipt_blocks@) =~= Seq::<u64>::empty());
        }
        r
    }

    /// What the runner must do next.
    pub fn next_action(&self) -> (a: RunAction)
        ensures
            a == self.spec_next_action(),
    {
        if !self.miner_stopped {
            RunAction::StopMiner
        } else if self.submitted < self.total {
            RunAction::Submit(self.submitted)
        } else if !self.miner_resumed {
            RunAction::StartMiner
        } else if let Some(b) = self.pending_block {
            RunAction::DumpWitness(b)
        } else if self.awaited < self.total {
            RunAction::AwaitReceipt(self.awaited)
        } else {
            RunAction::Finished
        }
    }

    /// Record that block production was paused.
    pub fn on_miner_stopped(&mut self)
        requires
            old(self).wf(),
            old(self).spec_next_action() == RunAction::StopMiner,
        ensures
            final(self).wf(),
            *final(self) == (TraceRun { miner_stopped: true, ..*old(self) }),
    {
        self.miner_stopped = true;
    }

    /// Record that one more transaction was submitted, in batch order.
    pub fn on_submitted(&mut self)
        requires
            old(self).wf(),
            old(self).spec_next_action() matches RunAction::Submit(_),
        ensures
            final(self).wf(),
            *final(self) == (TraceRun { submitted: (old(self).submitted + 1) as usize, ..*old(
                self) }),
    {
        self.submitted = self.submitted + 1;
    }

    /// Record that block production was resumed. This step is only legal
    /// once every transaction of the batch has been submitted.
    pub fn on_miner_started(&mut self)
        requires
            old(self).wf(),
            old(self).spec_next_action() == RunAction::StartMiner,
        ensures
            final(self).wf(),
            final(self).submitted == old(self).total,
            *final(self) == (TraceRun { miner_resumed: true, ..*old(self) }),
    {
        self.miner_resumed = true;
    }

    /// Record the inclusion receipt of the next pending submission: the
    /// block it landed in. A block seen for the first time becomes pending
    /// for a witness dump; a block already handled adds nothing.
    pub fn on_receipt(&mut self, block: u64)
        requires
            old(self).wf(),
            old(self).spec_next_action() matches RunAction::AwaitReceipt(_),
        ensures
            final(self).wf(),
            final(self).total == old(self).total,
            final(self).miner_stopped == old(self).miner_stopped,
            final(self).miner_resumed == old(self).miner_resumed,
            final(self).submitted == old(self).submitted,
            final(self).awaited == old(self).awaited + 1,
            final(self).receipt_blocks@ == old(self).receipt_blocks@.push(block),
            final(self).witnesses@ == old(self).witnesses@,
            old(self).blocks_done@.contains(block) ==> final(self).blocks_done@ == old(
                self).blocks_done@ && final(self).pending_block is None,
            !old(self).blocks_done@.contains(block) ==> final(self).blocks_done@ == old(
                self).blocks_done@.push(block) && final(self).pending_block == Some(block),
    {
        let ghost rb0 = self.receipt_blocks@;
        let ghost bd0 = self.blocks_done@;
        self.awaited = self.awaited + 1;
        self.receipt_blocks.push(block);
        proof {
            assert(self.receipt_blocks@.drop_last() =~= rb0);
            assert(self.receipt_blocks@.last() == block);
        }
        if !contains_block(&self.blocks_done, block) {
            self.blocks_done.push(block);
            self.pending_block = Some(block);
        }
    }

    /// Record the witness fetched for the pending block.
    pub fn on_witness(&mut self, payload: Vec<u8>)
        requires
            old(self).wf(),
            old(self).spec_next_action() matches RunAction::DumpWitness(_),
        ensures
            final(self).wf(),
            final(self).total == old(self).total,
            final(self).miner_stopped == old(self).miner_stopped,
            final(self).miner_resumed == old(self).miner_resumed,
            final(self).submitted == old(self).submitted,
            final(self).awaited == old(self).awaited,
            final(self).receipt_blocks@ == old(self).receipt_blocks@,
            final(self).blocks_done@ == old(self).blocks_done@,
            final(self).pending_block is None,
            final(self).witnesses@.len() == old(self).witnesses@.len() + 1,
            final(self).witnesses@.last()@ == (SpecWitness {
                block_number: old(self).pending_block->0,
                payload: payload@,
            }),
            forall|j: int|
                0 <= j < old(self).witnesses@.len() ==> final(self).witnesses@[j] == old(
                self).witnesses@[j],
    {
        let b = match self.pending_block {
            Some(b) => b,
            None => {
                proof {
                    assert(false);
                }
                0
            },
        };
        self.witnesses.push(Witness { block_number: b, payload });
        self.pending_block = None;
    }

    /// Whether the run is complete.
    pub fn is_finished(&self) -> (r: bool)
        ensures
            r == (self.spec_next_action() == RunAction::Finished),
    {
        self.miner_stopped && self.submitted >= self.total && self.miner_resumed
            && self.pending_block.is_none() && self.awaited >= self.total
    }

    /// Hand out the collected witnesses: one per distinct block, in order
    /// of first observation among the receipts.
    pub fn into_witnesses(self) -> (r: Vec<Witness>)
        requires
            self.wf(),
            self.spec_next_action() == RunAction::Finished,
        ensures
            r@ == self.witnesses@,
            r@.len() == spec_distinct(self.receipt_blocks@).len(),
            forall|j: int|
                0 <= j < r@.len() ==> (#[trigger] r@[j]).block_number == spec_distinct(
                    self.receipt_blocks@)[j],
    {
        self.witnesses
    }
}

/// Whether a block number was already seen.
fn contains_block(v: &Vec<u64>, b: u64) -> (r: bool)
    ensures
        r == v@.contains(b),
{
    let n = v.len();
    let mut i: usize = 0;
    while i < n
        invariant
            0 <= i <= n,
            n == v@.len(),
            forall|k: int| 0 <= k < i ==> v@[k] != b,
        decreases n - i,
    {
        if v[i] == b {
            return true;
        }
        i = i + 1;
    }
    assert(!v@.contains(b));
    false
}

/// Batch atomicity: in every reachable state, mining has been resumed only
/// if the whole batch was submitted first; the resume action itself is
/// offered only once everything is submitted; and no receipt is obtainable
/// before mining has resumed.
pub proof fn lemma_batch_atomicity(tr: TraceRun)
    requires
        tr.wf(),
    ensures
        tr.miner_resumed ==> tr.submitted == tr.total,
        tr.spec_next_action() == RunAction::StartMiner ==> tr.submitted == tr.total,
        tr.awaited > 0 ==> tr.miner_resumed && tr.submitted == tr.total,
        tr.spec_next_action() matches RunAction::AwaitReceipt(_) ==> tr.miner_resumed
            && tr.submitted == tr.total,
{
}

/// Witness deduplication: however many transactions land in one block, the
/// run holds at most one witness per block number, and a witness exists
/// exactly for the blocks the receipts named (once the pending fetch, if
/// any, is done).
pub proof fn lemma_witness_dedup(tr: TraceRun)
    requires
        tr.wf(),
    ensures
        forall|i: int, j: int|
            0 <= i < j < tr.witnesses@.len() ==> (#[trigger] tr.witnesses@[i]).block_number != (
            #[trigger] tr.witnesses@[j]).block_number,
        tr.pending_block is None ==> forall|b: u64|
            tr.receipt_blocks@.contains(b) <==> exists|j: int|
                0 <= j < tr.witnesses@.len() && (#[trigger] tr.witnesses@[j]).block_number == b,
{
    lemma_spec_distinct(tr.receipt_blocks@);
    if tr.pending_block is None {
        assert forall|b: u64| tr.receipt_blocks@.contains(b) implies exists|j: int|
            0 <= j < tr.witnesses@.len() && (#[trigger] tr.witnesses@[j]).block_number == b by {
            assert(tr.blocks_done@.contains(b));
            let j = choose|j: int| 0 <= j < tr.blocks_done@.len() && tr.blocks_done@[j] == b;
            assert(tr.witnesses@[j].block_number == b);
        }
        assert forall|b: u64|
            (exists|j: int|
                0 <= j < tr.witnesses@.len() && (#[trigger] tr.witnesses@[j]).block_number
                    == b) implies tr.receipt_blocks@.contains(b) by {
            let j = choose|j: int|
                0 <= j < tr.witnesses@.len() && (#[trigger] tr.witnesses@[j]).block_number == b;
            assert(tr.blocks_done@[j] == b);
            assert(tr.blocks_done@.contains(b));
        }
    }
}

} // verus!
