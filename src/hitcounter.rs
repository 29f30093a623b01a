use vstd::prelude::*;

use crate::commit::{start, CommitRun};
use crate::field::ShortCode;

verus! {

/// Longest time, in seconds, between two flushes of the aggregator.
pub const FLUSH_INTERVAL_SECS: u64 = 5;

/// The recorded total of `k` in `m`: zero for a key that holds no entry.
pub open spec fn total_of(m: Map<Seq<char>, nat>, k: Seq<char>) -> nat {
    if m.contains_key(k) {
        m[k]
    } else {
        0
    }
}

/// `n`, held at the largest value a `u64` counter can take.
pub open spec fn saturated(n: nat) -> nat {
    if n > u64::MAX {
        u64::MAX as nat
    } else {
        n
    }
}

/// The totals after `d` more hits of `k` have been merged into `m`.
pub open spec fn merged(m: Map<Seq<char>, nat>, k: Seq<char>, d: u32) -> Map<Seq<char>, nat> {
    m.insert(k, saturated((total_of(m, k) + d) as nat))
}

/// `entries` lists the totals `m`: one entry per key, each with its total.
pub open spec fn tallies(entries: Seq<(ShortCode, u64)>, m: Map<Seq<char>, nat>) -> bool {
    &&& forall|i: int|
        0 <= i < entries.len() ==> m.contains_key(#[trigger] entries[i].0@) && m[entries[i].0@]
            == entries[i].1 as nat
    &&& forall|k: Seq<char>| #[trigger]
        m.contains_key(k) ==> exists|i: int| 0 <= i < entries.len() && entries[i].0@ == k
    &&& forall|i: int, j: int|
        0 <= i < j < entries.len() ==> (#[trigger] entries[i]).0@ != (#[trigger] entries[j]).0@
}

/// `es` lists the totals `m`: as many entries as keys, each key once, each
/// with its total.
pub open spec fn lists_totals(es: Seq<(Seq<char>, nat)>, m: Map<Seq<char>, nat>) -> bool {
    &&& es.len() == m.dom().len()
    &&& forall|i: int|
        0 <= i < es.len() ==> m.contains_key(#[trigger] es[i].0) && m[es[i].0] == es[i].1
    &&& forall|i: int, j: int|
        0 <= i < j < es.len() ==> (#[trigger] es[i]).0 != (#[trigger] es[j]).0
}

/// The in-memory totals of hits that have not been persisted yet.
pub struct HitStore {
    entries: Vec<(ShortCode, u64)>,
    totals: Ghost<Map<Seq<char>, nat>>,
}

/// A snapshot of the totals taken by one drain of a [`HitStore`].
pub struct FlushBatch {
    entries: Vec<(ShortCode, u64)>,
    totals: Ghost<Map<Seq<char>, nat>>,
}

impl View for HitStore {
    type V = Map<Seq<char>, nat>;

    closed spec fn view(&self) -> Map<Seq<char>, nat> {
        self.totals@
    }
}

impl View for FlushBatch {
    type V = Map<Seq<char>, nat>;

    closed spec fn view(&self) -> Map<Seq<char>, nat> {
        self.totals@
    }
}

impl HitStore {
    /// Each pending key is listed once, with its total.
    pub closed spec fn wf(&self) -> bool {
        tallies(self.entries@, self.totals@)
    }

    /// An empty store.
    pub fn new() -> (r: HitStore)
        ensures
            r.wf(),
            r@ == Map::<Seq<char>, nat>::empty(),
    {
        HitStore { entries: Vec::new(), totals: Ghost(Map::empty()) }
    }

    /// Number of keys that hold a total.
    pub fn len(&self) -> (r: usize)
        requires
            self.wf(),
        ensures
            r == self@.dom().len(),
    {
        proof {
            lemma_tallies_len(self.entries@, self.totals@);
        }
        self.entries.len()
    }

    /// The total recorded for `key`, zero if it holds none.
    pub fn total(&self, key: &ShortCode) -> (r: u64)
        requires
            self.wf(),
        ensures
            r == total_of(self@, key@),
    {
        let mut i: usize = 0;
        while i < self.entries.len()
            invariant
                self.wf(),
                0 <= i <= self.entries@.len(),
                forall|j: int| 0 <= j < i ==> self.entries@[j].0@ != key@,
            decreases self.entries@.len() - i,
        {
            if self.entries[i].0 == *key {
                return self.entries[i].1;
            }
            i += 1;
        }
        proof {
            if self@.contains_key(key@) {
                let j = choose|j: int| 0 <= j < self.entries@.len() && self.entries@[j].0@ == key@;
                assert(self.entries@[j].0@ != key@);
            }
        }
        0
    }

    /// Adds `delta` hits to the total of `key`, creating the entry on the
    /// key's first hit. A total that would pass `u64::MAX` stays there.
    pub fn merge(&mut self, key: ShortCode, delta: u32)
        requires
            old(self).wf(),
        ensures
            final(self).wf(),
            final(self)@ == merged(old(self)@, key@, delta),
    {
        let mut i: usize = 0;
        while i < self.entries.len()
            invariant
                self.wf(),
                self@ == old(self)@,
                0 <= i <= self.entries@.len(),
                forall|j: int| 0 <= j < i ==> self.entries@[j].0@ != key@,
            decreases self.entries@.len() - i,
        {
            if self.entries[i].0 == key {
                let sum = self.entries[i].1.saturating_add(delta as u64);
                let ghost before = self.entries@;
                self.entries.set(i, (key, sum));
                self.totals = Ghost(self.totals@.insert(before[i as int].0@, sum as nat));
                proof {
                    assert(self.entries@[i as int].0@ == before[i as int].0@);
                    assert forall|k: Seq<char>| #[trigger]
                        self.totals@.contains_key(k) implies exists|j: int|
                        0 <= j < self.entries@.len() && self.entries@[j].0@ == k by {
                        if k != before[i as int].0@ {
                            let j = choose|j: int|
                                0 <= j < before.len() && before[j].0@ == k;
                            assert(self.entries@[j] == before[j]);
                        } else {
                            assert(self.entries@[i as int].0@ == k);
                        }
                    }
                    assert(self.totals@ =~= merged(old(self)@, key@, delta));
                }
                return;
            }
            i += 1;
        }
        let ghost before = self.entries@;
        let ghost k = key@;
        proof {
            assert(!self.totals@.contains_key(k)) by {
                if self.totals@.contains_key(k) {
                    let j = choose|j: int| 0 <= j < before.len() && before[j].0@ == k;
                    assert(before[j].0@ != k);
                }
            }
        }
        self.entries.push((key, delta as u64));
        self.totals = Ghost(self.totals@.insert(k, delta as nat));
        proof {
            let n = before.len() as int;
            assert(self.entries@[n].0@ == k);
            assert forall|j: int| 0 <= j < n implies self.entries@[j] == before[j] by {}
            assert forall|k2: Seq<char>| #[trigger]
                self.totals@.contains_key(k2) implies exists|j: int|
                0 <= j < self.entries@.len() && self.entries@[j].0@ == k2 by {
                if k2 != k {
                    let j = choose|j: int| 0 <= j < before.len() && before[j].0@ == k2;
                    assert(self.entries@[j] == before[j]);
                } else {
                    assert(self.entries@[n].0@ == k2);
                }
            }
            assert(self.totals@ =~= merged(old(self)@, key@, delta));
        }
    }

    /// Takes every total out of the store at once: the store is left empty
    /// and the batch holds exactly what the store held.
    pub fn drain(&mut self) -> (r: FlushBatch)
        requires
            old(self).wf(),
        ensures
            final(self).wf(),
            final(self)@ == Map::<Seq<char>, nat>::empty(),
            r.wf(),
            r@ == old(self)@,
    {
        let mut entries: Vec<(ShortCode, u64)> = Vec::new();
        std::mem::swap(&mut entries, &mut self.entries);
        let totals = self.totals;
        self.totals = Ghost(Map::empty());
        FlushBatch { entries, totals }
    }
}

impl FlushBatch {
    /// Each key of the batch is listed once, with its total.
    pub closed spec fn wf(&self) -> bool {
        tallies(self.entries@, self.totals@)
    }

    /// The entries of the batch, in the order in which they are committed.
    pub closed spec fn entries(&self) -> Seq<(Seq<char>, nat)> {
        self.entries@.map_values(|e: (ShortCode, u64)| (e.0@, e.1 as nat))
    }

    /// Number of keys in the batch.
    pub fn len(&self) -> (r: usize)
        requires
            self.wf(),
        ensures
            r == self@.dom().len(),
            r == self.entries().len(),
    {
        proof {
            lemma_tallies_len(self.entries@, self.totals@);
        }
        self.entries.len()
    }

    /// Whether the batch holds no key.
    pub fn is_empty(&self) -> (r: bool)
        requires
            self.wf(),
        ensures
            r == (self@ == Map::<Seq<char>, nat>::empty()),
            r == (self.entries().len() == 0),
    {
        proof {
            lemma_tallies_len(self.entries@, self.totals@);
            if self@.dom().len() == 0 {
                assert(self@.dom() =~= Set::empty());
                assert(self@ =~= Map::<Seq<char>, nat>::empty());
            }
        }
        self.entries.len() == 0
    }

    /// The entries of a batch list its totals: one entry per key, with the
    /// key's total.
    pub proof fn lemma_entries_tally(&self)
        requires
            self.wf(),
        ensures
            lists_totals(self.entries(), self@),
    {
        lemma_tallies_len(self.entries@, self.totals@);
        assert forall|i: int, j: int| 0 <= i < j < self.entries().len() implies (
        #[trigger] self.entries()[i]).0 != (#[trigger] self.entries()[j]).0 by {
            assert(self.entries@[i].0@ != self.entries@[j].0@);
        }
    }

    /// The entries of the batch, each key with its total.
    pub fn into_entries(self) -> (r: Vec<(ShortCode, u64)>)
        ensures
            r@.map_values(|e: (ShortCode, u64)| (e.0@, e.1 as nat)) == self.entries(),
    {
        self.entries
    }
}

/// A message to the aggregator: persist what has accumulated, or count
/// `delta` more views of a clip.
pub enum HitCountMsg {
    Commit,
    Hit(ShortCode, u32),
}

/// What a [`HitCountMsg`] says, with the clip's code as text.
pub enum MsgView {
    Commit,
    Hit(Seq<char>, u32),
}

impl View for HitCountMsg {
    type V = MsgView;

    open spec fn view(&self) -> MsgView {
        match self {
            HitCountMsg::Commit => MsgView::Commit,
            HitCountMsg::Hit(code, delta) => MsgView::Hit(code@, *delta),
        }
    }
}

/// One message handled against the totals `m`: the totals afterwards, and
/// the batch drained by a commit.
pub open spec fn step(m: Map<Seq<char>, nat>, msg: MsgView) -> (Map<Seq<char>, nat>, Option<
    Map<Seq<char>, nat>,
>) {
    match msg {
        MsgView::Hit(k, d) => (merged(m, k, d), None),
        MsgView::Commit => (Map::empty(), Some(m)),
    }
}

/// The messages `msgs` handled one after the other from the totals `m`: the
/// totals left at the end, and the batches drained, in order.
pub open spec fn run(m: Map<Seq<char>, nat>, msgs: Seq<MsgView>) -> (Map<Seq<char>, nat>, Seq<
    Map<Seq<char>, nat>,
>)
    decreases msgs.len(),
{
    if msgs.len() == 0 {
        (m, Seq::empty())
    } else {
        let (m1, b) = step(m, msgs[0]);
        let (last, batches) = run(m1, msgs.drop_first());
        match b {
            Some(x) => (last, seq![x] + batches),
            None => (last, batches),
        }
    }
}

/// The views of `k` that the hits among `msgs` report.
pub open spec fn hits_of(msgs: Seq<MsgView>, k: Seq<char>) -> nat
    decreases msgs.len(),
{
    if msgs.len() == 0 {
        0
    } else {
        let rest = hits_of(msgs.drop_first(), k);
        match msgs[0] {
            MsgView::Hit(k2, d) => if k2 == k {
                (rest + d) as nat
            } else {
                rest
            },
            MsgView::Commit => rest,
        }
    }
}

/// What the batches `bs` hold for `k`, added up.
pub open spec fn delivered(bs: Seq<Map<Seq<char>, nat>>, k: Seq<char>) -> nat
    decreases bs.len(),
{
    if bs.len() == 0 {
        0
    } else {
        (total_of(bs[0], k) + delivered(bs.drop_first(), k)) as nat
    }
}

/// The single consumer of hit messages: it owns the store, merges each hit
/// into it and drains it on each commit.
pub struct HitAggregator {
    store: HitStore,
}

impl View for HitAggregator {
    type V = Map<Seq<char>, nat>;

    closed spec fn view(&self) -> Map<Seq<char>, nat> {
        self.store@
    }
}

impl HitAggregator {
    /// The store it owns is well formed.
    pub closed spec fn wf(&self) -> bool {
        self.store.wf()
    }

    /// An aggregator with nothing pending.
    pub fn new() -> (r: HitAggregator)
        ensures
            r.wf(),
            r@ == Map::<Seq<char>, nat>::empty(),
    {
        HitAggregator { store: HitStore::new() }
    }

    /// The totals that wait for the next commit.
    pub fn pending(&self) -> (r: &HitStore)
        requires
            self.wf(),
        ensures
            r.wf(),
            r@ == self@,
    {
        &self.store
    }

    /// Handles one message to the end: a hit is merged, a commit drains the
    /// store and hands back the batch to persist.
    pub fn process_msg(&mut self, msg: HitCountMsg) -> (r: Option<FlushBatch>)
        requires
            old(self).wf(),
        ensures
            final(self).wf(),
            final(self)@ == step(old(self)@, msg@).0,
            r.is_some() == step(old(self)@, msg@).1.is_some(),
            r matches Some(b) ==> b.wf() && step(old(self)@, msg@).1 == Some(b@),
    {
        match msg {
            HitCountMsg::Commit => Some(self.store.drain()),
            HitCountMsg::Hit(code, delta) => {
                self.store.merge(code, delta);
                None
            },
        }
    }
}

/// What wakes the aggregator: a message, the flush timer, or the end of
/// the message channel.
pub enum AggregatorEvent {
    Message(HitCountMsg),
    Tick,
    Closed,
}

/// What the aggregator's loop does after an event.
pub enum AggregatorAction {
    /// Wait for the next event.
    Continue,
    /// Drive this commit to its end, then wait for the next event.
    Commit(CommitRun),
    /// Leave the loop.
    Stop,
}

/// The message that an event stands for: a tick of the flush timer is a
/// commit, and the end of the channel none.
pub open spec fn event_msg(e: AggregatorEvent) -> Option<MsgView> {
    match e {
        AggregatorEvent::Message(m) => Some(m@),
        AggregatorEvent::Tick => Some(MsgView::Commit),
        AggregatorEvent::Closed => None,
    }
}

impl HitAggregator {
    /// Decides what one event leads to. Hits and commits are handled as
    /// [`HitAggregator::process_msg`] handles them; a drained batch comes back
    /// as the commit to perform; the end of the channel stops the loop and
    /// leaves the totals as they are.
    pub fn handle(&mut self, event: AggregatorEvent) -> (r: AggregatorAction)
        requires
            old(self).wf(),
        ensures
            final(self).wf(),
            event_msg(event) matches Some(msg) ==> {
                &&& final(self)@ == step(old(self)@, msg).0
                &&& (r is Commit) == step(old(self)@, msg).1.is_some()
                &&& (r is Continue) == step(old(self)@, msg).1.is_none()
            },
            event_msg(event) is None ==> final(self)@ == old(self)@ && r is Stop,
            r matches AggregatorAction::Commit(c) ==> c.wf() && c@ == start(c@.entries)
                && lists_totals(c@.entries, old(self)@),
    {
        let msg = match event {
            AggregatorEvent::Message(m) => m,
            AggregatorEvent::Tick => HitCountMsg::Commit,
            AggregatorEvent::Closed => {
                return AggregatorAction::Stop;
            },
        };
        match self.process_msg(msg) {
            Some(batch) => {
                proof {
                    batch.lemma_entries_tally();
                }
                AggregatorAction::Commit(CommitRun::new(batch))
            },
            None => AggregatorAction::Continue,
        }
    }
}

/// No hit is lost or counted twice: over any run of messages, what the
/// batches hold for a key plus what is still pending for it equals what was
/// pending at the start plus every hit reported for it, as long as no total
/// reaches the counter's limit.
pub proof fn lemma_hits_conserved(m: Map<Seq<char>, nat>, msgs: Seq<MsgView>, k: Seq<char>)
    requires
        total_of(m, k) + hits_of(msgs, k) <= u64::MAX,
    ensures
        delivered(run(m, msgs).1, k) + total_of(run(m, msgs).0, k) == total_of(m, k) + hits_of(
            msgs,
            k,
        ),
    decreases msgs.len(),
{
    if msgs.len() > 0 {
        let (m1, b) = step(m, msgs[0]);
        let rest = msgs.drop_first();
        match msgs[0] {
            MsgView::Hit(k2, d) => {
                assert(total_of(m1, k) + hits_of(rest, k) == total_of(m, k) + hits_of(msgs, k));
                lemma_hits_conserved(m1, rest, k);
            },
            MsgView::Commit => {
                lemma_hits_conserved(m1, rest, k);
                let bs = run(m1, rest).1;
                assert((seq![m] + bs).drop_first() =~= bs);
            },
        }
    }
}

/// Hits of `k`, one message for each delta of `ds`, in order.
pub open spec fn hits_to(k: Seq<char>, ds: Seq<u32>) -> Seq<MsgView> {
    ds.map_values(|d: u32| MsgView::Hit(k, d))
}

/// The deltas `ds` added up.
pub open spec fn sum_of(ds: Seq<u32>) -> nat
    decreases ds.len(),
{
    if ds.len() == 0 {
        0
    } else {
        (ds[0] + sum_of(ds.drop_first())) as nat
    }
}

proof fn lemma_hits_then_commit(m: Map<Seq<char>, nat>, k: Seq<char>, ds: Seq<u32>)
    requires
        forall|k2: Seq<char>| m.contains_key(k2) ==> k2 == k,
        total_of(m, k) + sum_of(ds) <= u64::MAX,
    ensures
        run(m, hits_to(k, ds).push(MsgView::Commit)).0 == Map::<Seq<char>, nat>::empty(),
        run(m, hits_to(k, ds).push(MsgView::Commit)).1.len() == 1,
        total_of(run(m, hits_to(k, ds).push(MsgView::Commit)).1[0], k) == total_of(m, k)
            + sum_of(ds),
        forall|k2: Seq<char>|
            #[trigger] run(m, hits_to(k, ds).push(MsgView::Commit)).1[0].contains_key(k2) ==> k2
                == k,
    decreases ds.len(),
{
    let msgs = hits_to(k, ds).push(MsgView::Commit);
    if ds.len() == 0 {
        assert(msgs.drop_first() =~= Seq::<MsgView>::empty());
        assert(run(Map::empty(), msgs.drop_first()).1 =~= Seq::<Map<Seq<char>, nat>>::empty());
        assert(run(m, msgs).1 =~= seq![m]);
    } else {
        let rest = ds.drop_first();
        assert(msgs.drop_first() =~= hits_to(k, rest).push(MsgView::Commit));
        assert(msgs[0] == MsgView::Hit(k, ds[0]));
        let m1 = merged(m, k, ds[0]);
        assert forall|k2: Seq<char>| m1.contains_key(k2) implies k2 == k by {}
        lemma_hits_then_commit(m1, k, rest);
    }
}

/// Hits of one key, issued after a flush and followed by the next flush,
/// reach that flush's batch as their sum: the batch holds the key with
/// `d1 + ... + dn`, no other key, and the store is left empty.
pub proof fn lemma_merge_correctness(k: Seq<char>, ds: Seq<u32>)
    requires
        sum_of(ds) <= u64::MAX,
    ensures
        ({
            let (last, batches) = run(Map::empty(), hits_to(k, ds).push(MsgView::Commit));
            &&& batches.len() == 1
            &&& total_of(batches[0], k) == sum_of(ds)
            &&& forall|k2: Seq<char>| #[trigger] batches[0].contains_key(k2) ==> k2 == k
            &&& last == Map::<Seq<char>, nat>::empty()
        }),
{
    lemma_hits_then_commit(Map::empty(), k, ds);
}

/// `msgs` without the hits of keys other than `k`.
pub open spec fn only_key(msgs: Seq<MsgView>, k: Seq<char>) -> Seq<MsgView>
    decreases msgs.len(),
{
    if msgs.len() == 0 {
        Seq::empty()
    } else {
        let rest = only_key(msgs.drop_first(), k);
        match msgs[0] {
            MsgView::Hit(k2, d) => if k2 == k {
                seq![msgs[0]] + rest
            } else {
                rest
            },
            MsgView::Commit => seq![msgs[0]] + rest,
        }
    }
}

proof fn lemma_isolated_runs(
    m1: Map<Seq<char>, nat>,
    m2: Map<Seq<char>, nat>,
    msgs: Seq<MsgView>,
    k: Seq<char>,
)
    requires
        total_of(m1, k) == total_of(m2, k),
    ensures
        run(m1, msgs).1.len() == run(m2, only_key(msgs, k)).1.len(),
        forall|i: int|
            0 <= i < run(m1, msgs).1.len() ==> total_of(#[trigger] run(m1, msgs).1[i], k)
                == total_of(run(m2, only_key(msgs, k)).1[i], k),
        total_of(run(m1, msgs).0, k) == total_of(run(m2, only_key(msgs, k)).0, k),
    decreases msgs.len(),
{
    if msgs.len() > 0 {
        let rest = msgs.drop_first();
        let o = only_key(msgs, k);
        let orest = only_key(rest, k);
        match msgs[0] {
            MsgView::Hit(k2, d) => {
                let n1 = merged(m1, k2, d);
                if k2 == k {
                    assert(o.drop_first() =~= orest);
                    assert(o[0] == msgs[0]);
                    lemma_isolated_runs(n1, merged(m2, k2, d), rest, k);
                } else {
                    lemma_isolated_runs(n1, m2, rest, k);
                }
            },
            MsgView::Commit => {
                assert(o.drop_first() =~= orest);
                assert(o[0] == msgs[0]);
                lemma_isolated_runs(Map::empty(), Map::empty(), rest, k);
                let b1 = run(Map::empty(), rest).1;
                let b2 = run(Map::empty(), orest).1;
                assert forall|i: int| 0 <= i < run(m1, msgs).1.len() implies total_of(
                    #[trigger] run(m1, msgs).1[i],
                    k,
                ) == total_of(run(m2, o).1[i], k) by {
                    if i > 0 {
                        assert(run(m1, msgs).1[i] == b1[i - 1]);
                        assert(run(m2, o).1[i] == b2[i - 1]);
                    }
                }
            },
        }
    }
}

/// Hits to other keys never affect what is recorded for `k`: with them
/// taken out of any run of messages, as many batches are drained, each with
/// the same total for `k`, and the same total for `k` is left pending.
pub proof fn lemma_key_isolation(m: Map<Seq<char>, nat>, msgs: Seq<MsgView>, k: Seq<char>)
    ensures
        run(m, msgs).1.len() == run(m, only_key(msgs, k)).1.len(),
        forall|i: int|
            0 <= i < run(m, msgs).1.len() ==> total_of(#[trigger] run(m, msgs).1[i], k)
                == total_of(run(m, only_key(msgs, k)).1[i], k),
        total_of(run(m, msgs).0, k) == total_of(run(m, only_key(msgs, k)).0, k),
{
    lemma_isolated_runs(m, m, msgs, k);
}

/// A hit that races a flush lands whole in exactly one batch: handled
/// before the drain it is all in the drained batch and none of it in the
/// next; handled after, none of it is in the drained batch and all of it in
/// the next.
pub proof fn lemma_drain_atomicity(m: Map<Seq<char>, nat>, k: Seq<char>, d: u32)
    requires
        total_of(m, k) + d <= u64::MAX,
    ensures
        ({
            let before = run(m, seq![MsgView::Hit(k, d), MsgView::Commit, MsgView::Commit]).1;
            &&& before.len() == 2
            &&& total_of(before[0], k) == total_of(m, k) + d
            &&& total_of(before[1], k) == 0
        }),
        ({
            let after = run(m, seq![MsgView::Commit, MsgView::Hit(k, d), MsgView::Commit]).1;
            &&& after.len() == 2
            &&& total_of(after[0], k) == total_of(m, k)
            &&& total_of(after[1], k) == d
        }),
{
    let e = Map::<Seq<char>, nat>::empty();
    let c = seq![MsgView::Commit];
    let hc = seq![MsgView::Hit(k, d), MsgView::Commit];
    let s1 = seq![MsgView::Hit(k, d), MsgView::Commit, MsgView::Commit];
    let s2 = seq![MsgView::Commit, MsgView::Hit(k, d), MsgView::Commit];
    assert(c.drop_first() =~= Seq::<MsgView>::empty());
    assert(hc.drop_first() =~= c);
    assert(s1.drop_first() =~= seq![MsgView::Commit, MsgView::Commit]);
    assert(seq![MsgView::Commit, MsgView::Commit].drop_first() =~= c);
    assert(s2.drop_first() =~= hc);
    let m1 = merged(m, k, d);
    assert(run(e, Seq::<MsgView>::empty()).1 =~= Seq::<Map<Seq<char>, nat>>::empty());
    assert(run(e, c).1 =~= seq![e]);
    assert(run(m1, seq![MsgView::Commit, MsgView::Commit]).1 =~= seq![m1, e]);
    assert(run(m, s1).1 =~= seq![m1, e]);
    let e1 = merged(e, k, d);
    assert(run(e1, c).1 =~= seq![e1]);
    assert(run(e, hc).1 =~= seq![e1]);
    assert(run(m, s2).1 =~= seq![m, e1]);
}

/// The keys listed in `entries` are as many as the keys of the map they tally.
proof fn lemma_tallies_len(entries: Seq<(ShortCode, u64)>, m: Map<Seq<char>, nat>)
    requires
        tallies(entries, m),
    ensures
        m.dom().finite(),
        m.dom().len() == entries.len(),
    decreases entries.len(),
{
    if entries.len() == 0 {
        assert(m.dom() =~= Set::empty());
    } else {
        let n = entries.len() - 1;
        let last = entries[n].0@;
        let rest = entries.take(n);
        let m2 = m.remove(last);
        assert forall|k: Seq<char>| #[trigger] m2.contains_key(k) implies exists|i: int|
            0 <= i < rest.len() && rest[i].0@ == k by {
            let i = choose|i: int| 0 <= i < entries.len() && entries[i].0@ == k;
            assert(i != n);
            assert(rest[i] == entries[i]);
        }
        assert forall|i: int| 0 <= i < rest.len() implies m2.contains_key(#[trigger] rest[i].0@)
            && m2[rest[i].0@] == rest[i].1 as nat by {
            assert(rest[i] == entries[i]);
            assert(entries[i].0@ != entries[n].0@);
        }
        assert forall|i: int, j: int| 0 <= i < j < rest.len() implies (#[trigger] rest[i]).0@
            != (#[trigger] rest[j]).0@ by {
            assert(rest[i] == entries[i]);
            assert(rest[j] == entries[j]);
        }
        lemma_tallies_len(rest, m2);
        assert(m.dom() =~= m2.dom().insert(last));
    }
}

} // verus!
