use vstd::prelude::*;

use crate::field::ShortCode;
use crate::hitcounter::{step, FlushBatch, MsgView};

verus! {

/// Seconds that one call of a commit may take before it counts as failed.
pub const SINK_TIMEOUT_SECS: u64 = 10;

/// The next call that committing a batch asks of the persistence sink.
pub enum CommitAction {
    BeginTransaction,
    Increment(ShortCode, u64),
    EndTransaction,
    Finished,
}

/// A [`CommitAction`] with the clip's code as text.
pub enum CommitActionView {
    BeginTransaction,
    Increment(Seq<char>, nat),
    EndTransaction,
    Finished,
}

impl View for CommitAction {
    type V = CommitActionView;

    open spec fn view(&self) -> CommitActionView {
        match self {
            CommitAction::BeginTransaction => CommitActionView::BeginTransaction,
            CommitAction::Increment(code, n) => CommitActionView::Increment(code@, *n as nat),
            CommitAction::EndTransaction => CommitActionView::EndTransaction,
            CommitAction::Finished => CommitActionView::Finished,
        }
    }
}

/// Where a commit stands.
#[derive(Clone, Copy, Debug, PartialEq, Eq, Structural)]
pub enum CommitStage {
    /// The transaction is to be opened.
    Opening,
    /// The entry at this index is to be applied next.
    Applying(usize),
    /// Every entry has been tried; the transaction is to be closed.
    Closing,
    /// Nothing more is to be done.
    Done,
}

/// A commit: the entries of one batch and the stage reached.
pub struct CommitRunView {
    pub entries: Seq<(Seq<char>, nat)>,
    pub stage: CommitStage,
}

/// The commit of a drained batch, driven one sink call at a time: the
/// caller performs [`CommitRun::next_action`] and reports with
/// [`CommitRun::record`] whether it succeeded.
pub struct CommitRun {
    entries: Vec<(ShortCode, u64)>,
    stage: CommitStage,
}

/// The commit of a batch with entries `es`, before any call: a batch with
/// no entry needs none.
pub open spec fn start(es: Seq<(Seq<char>, nat)>) -> CommitRunView {
    CommitRunView {
        entries: es,
        stage: if es.len() == 0 {
            CommitStage::Done
        } else {
            CommitStage::Opening
        },
    }
}

/// The call that the commit `r` asks for next.
pub open spec fn action_of(r: CommitRunView) -> CommitActionView {
    match r.stage {
        CommitStage::Opening => CommitActionView::BeginTransaction,
        CommitStage::Applying(i) => if i < r.entries.len() {
            CommitActionView::Increment(r.entries[i as int].0, r.entries[i as int].1)
        } else {
            CommitActionView::Finished
        },
        CommitStage::Closing => CommitActionView::EndTransaction,
        CommitStage::Done => CommitActionView::Finished,
    }
}

/// The commit `r` once its pending call has returned, with success `ok`.
/// A transaction that cannot be opened ends the commit, and the batch is
/// dropped; a failed increment is not retried and the next entry follows.
pub open spec fn advance(r: CommitRunView, ok: bool) -> CommitRunView {
    CommitRunView {
        entries: r.entries,
        stage: match r.stage {
            CommitStage::Opening => if ok {
                CommitStage::Applying(0)
            } else {
                CommitStage::Done
            },
            CommitStage::Applying(i) => if i + 1 < r.entries.len() {
                CommitStage::Applying((i + 1) as usize)
            } else {
                CommitStage::Closing
            },
            CommitStage::Closing => CommitStage::Done,
            CommitStage::Done => CommitStage::Done,
        },
    }
}

/// The calls that the commit `r` asks for when the calls' successes are
/// reported as `outcomes`, up to its end or the end of `outcomes`.
pub open spec fn trace(r: CommitRunView, outcomes: Seq<bool>) -> Seq<CommitActionView>
    decreases outcomes.len(),
{
    if r.stage == CommitStage::Done || outcomes.len() == 0 {
        Seq::empty()
    } else {
        seq![action_of(r)] + trace(advance(r, outcomes[0]), outcomes.drop_first())
    }
}

/// One increment for each entry of `es`, in order.
pub open spec fn increments(es: Seq<(Seq<char>, nat)>) -> Seq<CommitActionView> {
    es.map_values(|e: (Seq<char>, nat)| CommitActionView::Increment(e.0, e.1))
}

impl View for CommitRun {
    type V = CommitRunView;

    closed spec fn view(&self) -> CommitRunView {
        CommitRunView {
            entries: self.entries@.map_values(|e: (ShortCode, u64)| (e.0@, e.1 as nat)),
            stage: self.stage,
        }
    }
}

impl CommitRun {
    /// A commit that is not done has entries, and one that applies an entry
    /// points at one of them.
    pub closed spec fn wf(&self) -> bool {
        &&& self.stage != CommitStage::Done ==> self.entries@.len() > 0
        &&& self.stage matches CommitStage::Applying(i) ==> i < self.entries@.len()
    }

    /// The commit of `batch`, before any call.
    pub fn new(batch: FlushBatch) -> (r: CommitRun)
        requires
            batch.wf(),
        ensures
            r.wf(),
            r@ == start(batch.entries()),
    {
        let entries = batch.into_entries();
        let stage = if entries.len() == 0 {
            CommitStage::Done
        } else {
            CommitStage::Opening
        };
        CommitRun { entries, stage }
    }

    /// The stage reached.
    pub fn stage(&self) -> (r: CommitStage)
        ensures
            r == self@.stage,
    {
        self.stage
    }

    /// Whether the commit has nothing more to do.
    pub fn is_finished(&self) -> (r: bool)
        ensures
            r == (self@.stage == CommitStage::Done),
    {
        self.stage == CommitStage::Done
    }

    /// The call to perform next.
    pub fn next_action(&self) -> (r: CommitAction)
        requires
            self.wf(),
        ensures
            r@ == action_of(self@),
    {
        match self.stage {
            CommitStage::Opening => CommitAction::BeginTransaction,
            CommitStage::Applying(i) => {
                let e = &self.entries[i];
                CommitAction::Increment(e.0.clone(), e.1)
            },
            CommitStage::Closing => CommitAction::EndTransaction,
            CommitStage::Done => CommitAction::Finished,
        }
    }

    /// Takes in whether the call last asked for succeeded.
    pub fn record(&mut self, ok: bool)
        requires
            old(self).wf(),
        ensures
            final(self).wf(),
            final(self)@ == advance(old(self)@, ok),
    {
        let next = match self.stage {
            CommitStage::Opening => if ok {
                CommitStage::Applying(0)
            } else {
                CommitStage::Done
            },
            CommitStage::Applying(i) => if i < self.entries.len() - 1 {
                CommitStage::Applying(i + 1)
            } else {
                CommitStage::Closing
            },
            CommitStage::Closing => CommitStage::Done,
            CommitStage::Done => CommitStage::Done,
        };
        self.stage = next;
    }
}

proof fn lemma_trace_from(r: CommitRunView, outcomes: Seq<bool>)
    requires
        r.stage matches CommitStage::Applying(i) && i < r.entries.len(),
        r.entries.len() <= usize::MAX,
        outcomes.len() >= r.entries.len() - r.stage->Applying_0 + 1,
    ensures
        trace(r, outcomes) == increments(r.entries.subrange(r.stage->Applying_0 as int, r.entries.len() as int)).push(
            CommitActionView::EndTransaction,
        ),
    decreases r.entries.len() - r.stage->Applying_0,
{
    let i = r.stage->Applying_0 as int;
    let n = r.entries.len() as int;
    let next = advance(r, outcomes[0]);
    let rest = outcomes.drop_first();
    if i + 1 < n {
        lemma_trace_from(next, rest);
        assert(r.entries.subrange(i, n) =~= seq![r.entries[i]] + r.entries.subrange(i + 1, n));
        assert(increments(r.entries.subrange(i, n)) =~= seq![action_of(r)] + increments(
            r.entries.subrange(i + 1, n),
        ));
    } else {
        assert(next.stage == CommitStage::Closing);
        let rest2 = rest.drop_first();
        assert(trace(advance(next, rest[0]), rest2) =~= Seq::<CommitActionView>::empty());
        assert(trace(next, rest) =~= seq![CommitActionView::EndTransaction]);
        assert(r.entries.subrange(i, n) =~= seq![r.entries[i]]);
        assert(increments(r.entries.subrange(i, n)) =~= seq![action_of(r)]);
    }
}

/// One failing increment never holds back another: once the transaction is
/// open, the commit of a batch asks for one increment per entry, in the
/// batch's order and with the entry's total, and then closes the
/// transaction, whatever the increments report.
pub proof fn lemma_partial_batch_resilience(es: Seq<(Seq<char>, nat)>, outcomes: Seq<bool>)
    requires
        0 < es.len() <= usize::MAX,
        outcomes.len() >= es.len() + 2,
        outcomes[0],
    ensures
        trace(start(es), outcomes) == seq![CommitActionView::BeginTransaction] + increments(es).push(
            CommitActionView::EndTransaction,
        ),
{
    let r = start(es);
    let next = advance(r, outcomes[0]);
    lemma_trace_from(next, outcomes.drop_first());
    assert(es.subrange(0, es.len() as int) =~= es);
}

/// A transaction that cannot be opened ends the commit before any increment.
pub proof fn lemma_failed_open_drops_batch(es: Seq<(Seq<char>, nat)>, outcomes: Seq<bool>)
    requires
        es.len() > 0,
        outcomes.len() > 0,
        !outcomes[0],
    ensures
        trace(start(es), outcomes) == seq![CommitActionView::BeginTransaction],
{
    let next = advance(start(es), outcomes[0]);
    assert(trace(next, outcomes.drop_first()) =~= Seq::<CommitActionView>::empty());
    assert(trace(start(es), outcomes) =~= seq![CommitActionView::BeginTransaction]);
}

/// A flush with no hit since the last one drains an empty batch, and its
/// commit asks the sink for nothing.
pub proof fn lemma_empty_flush(batch: FlushBatch, outcomes: Seq<bool>)
    requires
        batch.wf(),
        step(Map::empty(), MsgView::Commit).1 == Some(batch@),
    ensures
        batch@ == Map::<Seq<char>, nat>::empty(),
        batch.entries().len() == 0,
        trace(start(batch.entries()), outcomes) == Seq::<CommitActionView>::empty(),
{
    batch.lemma_entries_tally();
}

} // verus!
