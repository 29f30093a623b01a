use clipstash::commit::{CommitAction, CommitRun, CommitStage};
use clipstash::field::ShortCode;
use clipstash::hitcounter::{AggregatorAction, AggregatorEvent, HitAggregator, HitCountMsg, HitStore};

fn code(s: &str) -> ShortCode {
    ShortCode::from(s)
}

fn hit(s: &str, n: u32) -> HitCountMsg {
    HitCountMsg::Hit(code(s), n)
}

/// Drives a commit to its end, answering each call with the next outcome,
/// and gives the calls that were asked for.
fn drive(mut run: CommitRun, outcomes: &[bool]) -> Vec<CommitAction> {
    let mut calls = Vec::new();
    let mut i = 0;
    loop {
        let action = run.next_action();
        if let CommitAction::Finished = action {
            break;
        }
        calls.push(action);
        run.record(outcomes[i]);
        i += 1;
    }
    calls
}

fn increments(calls: &[CommitAction]) -> Vec<(String, u64)> {
    calls
        .iter()
        .filter_map(|c| match c {
            CommitAction::Increment(k, n) => Some((k.as_str().to_string(), *n)),
            _ => None,
        })
        .collect()
}

#[test]
fn five_hits_make_one_increment_of_five() {
    let mut agg = HitAggregator::new();
    for _ in 0..5 {
        assert!(agg.process_msg(hit("abcd1234ab", 1)).is_none());
    }
    let batch = agg.process_msg(HitCountMsg::Commit).unwrap();
    assert_eq!(batch.len(), 1);
    let calls = drive(CommitRun::new(batch), &[true, true, true]);
    assert_eq!(increments(&calls), vec![("abcd1234ab".to_string(), 5)]);
    assert_eq!(calls.len(), 3);
    assert!(matches!(calls[0], CommitAction::BeginTransaction));
    assert!(matches!(calls[2], CommitAction::EndTransaction));
    assert_eq!(agg.pending().total(&code("abcd1234ab")), 0);
    assert_eq!(agg.pending().len(), 0);
}

#[test]
fn deltas_of_one_key_add_up() {
    let mut store = HitStore::new();
    store.merge(code("k"), 3);
    store.merge(code("k"), 0);
    store.merge(code("k"), 7);
    assert_eq!(store.total(&code("k")), 10);
    let batch = store.drain();
    let entries = batch.into_entries();
    assert_eq!(entries.len(), 1);
    assert_eq!(entries[0].1, 10);
    assert_eq!(store.len(), 0);
}

#[test]
fn hits_to_one_key_leave_another_alone() {
    let mut store = HitStore::new();
    store.merge(code("b"), 2);
    store.merge(code("a"), 5);
    store.merge(code("a"), 6);
    assert_eq!(store.total(&code("b")), 2);
    assert_eq!(store.total(&code("a")), 11);
    assert_eq!(store.total(&code("c")), 0);
}

#[test]
fn totals_stop_at_the_counter_limit() {
    let mut store = HitStore::new();
    store.merge(code("k"), u32::MAX);
    assert_eq!(store.total(&code("k")), u32::MAX as u64);
}

#[test]
fn a_hit_racing_a_flush_lands_in_one_batch() {
    let mut first = HitAggregator::new();
    first.process_msg(hit("k", 4));
    first.process_msg(hit("k", 2));
    let b1 = first.process_msg(HitCountMsg::Commit).unwrap();
    let b2 = first.process_msg(HitCountMsg::Commit).unwrap();
    assert_eq!(increments(&drive(CommitRun::new(b1), &[true; 3])), vec![("k".to_string(), 6)]);
    assert!(b2.is_empty());

    let mut second = HitAggregator::new();
    second.process_msg(hit("k", 4));
    let b1 = second.process_msg(HitCountMsg::Commit).unwrap();
    second.process_msg(hit("k", 2));
    let b2 = second.process_msg(HitCountMsg::Commit).unwrap();
    assert_eq!(increments(&drive(CommitRun::new(b1), &[true; 3])), vec![("k".to_string(), 4)]);
    assert_eq!(increments(&drive(CommitRun::new(b2), &[true; 3])), vec![("k".to_string(), 2)]);
}

#[test]
fn an_empty_flush_calls_nothing() {
    let mut agg = HitAggregator::new();
    let batch = agg.process_msg(HitCountMsg::Commit).unwrap();
    assert!(batch.is_empty());
    let run = CommitRun::new(batch);
    assert!(run.is_finished());
    assert!(drive(run, &[]).is_empty());
}

#[test]
fn a_failed_increment_does_not_stop_the_others() {
    let mut agg = HitAggregator::new();
    agg.process_msg(hit("a", 1));
    agg.process_msg(hit("b", 2));
    agg.process_msg(hit("c", 3));
    let batch = agg.process_msg(HitCountMsg::Commit).unwrap();
    let calls = drive(CommitRun::new(batch), &[true, false, true, false, true]);
    let mut incs = increments(&calls);
    incs.sort();
    assert_eq!(
        incs,
        vec![("a".to_string(), 1), ("b".to_string(), 2), ("c".to_string(), 3)]
    );
    assert!(matches!(calls.last(), Some(CommitAction::EndTransaction)));
}

#[test]
fn a_transaction_that_cannot_open_drops_the_batch() {
    let mut agg = HitAggregator::new();
    agg.process_msg(hit("a", 1));
    let batch = agg.process_msg(HitCountMsg::Commit).unwrap();
    let calls = drive(CommitRun::new(batch), &[false]);
    assert_eq!(calls.len(), 1);
    assert!(matches!(calls[0], CommitAction::BeginTransaction));
    assert_eq!(agg.pending().len(), 0);
}

#[test]
fn events_drive_the_aggregator() {
    let mut agg = HitAggregator::new();
    assert!(matches!(
        agg.handle(AggregatorEvent::Message(hit("x", 2))),
        AggregatorAction::Continue
    ));
    match agg.handle(AggregatorEvent::Tick) {
        AggregatorAction::Commit(run) => {
            assert_eq!(run.stage(), CommitStage::Opening);
            assert_eq!(increments(&drive(run, &[true; 3])), vec![("x".to_string(), 2)]);
        }
        _ => panic!("a tick commits"),
    }
    agg.handle(AggregatorEvent::Message(hit("y", 1)));
    assert!(matches!(agg.handle(AggregatorEvent::Closed), AggregatorAction::Stop));
    assert_eq!(agg.pending().total(&code("y")), 1);
}
