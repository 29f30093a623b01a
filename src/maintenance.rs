use vstd::prelude::*;

use crate::clip::Clip;
use crate::field::expired_at;
use crate::time::Time;

verus! {

/// Seconds between two sweeps of expired clips.
pub const SWEEP_INTERVAL_SECS: u64 = 10;

/// The periodic sweep that removes expired clips. It keeps no state between
/// ticks: each tick deletes what is expired at that tick's time.
#[derive(Debug)]
pub struct Maintenance;

/// Whether `c` survives a sweep at `now`.
pub open spec fn survives(c: Clip, now: i64) -> bool {
    !expired_at(c.expires@, now)
}

impl Maintenance {
    /// The sweep, before its first tick.
    pub fn new() -> (r: Maintenance) {
        Maintenance
    }

    /// The seconds to wait between two sweeps.
    pub fn interval_secs(&self) -> (r: u64)
        ensures
            r == SWEEP_INTERVAL_SECS,
    {
        SWEEP_INTERVAL_SECS
    }
}

/// One sweep at `now`: deletes from `clips` every clip whose expiry is at or
/// before `now`, keeps the others in their order, and gives the number
/// deleted.
pub fn delete_expired(clips: &mut Vec<Clip>, now: Time) -> (r: u64)
    ensures
        final(clips)@ == old(clips)@.filter(|c: Clip| survives(c, now@)),
        r == old(clips)@.len() - final(clips)@.len(),
{
    let n = clips.len();
    let ghost orig = clips@;
    let ghost keep = |c: Clip| survives(c, now@);
    let mut i: usize = 0;
    let mut removed: u64 = 0;
    let ghost mut j: int = 0;
    while i < clips.len()
        invariant
            0 <= j <= orig.len(),
            clips@ == orig.take(j).filter(keep) + orig.skip(j),
            i == orig.take(j).filter(keep).len(),
            removed == j - i,
            orig.len() == n,
            keep == (|c: Clip| survives(c, now@)),
        decreases orig.len() - j,
    {
        proof {
            reveal(Seq::filter);
            assert(orig.take(j + 1).drop_last() =~= orig.take(j));
            assert(orig.take(j + 1).last() == orig[j]);
            assert(clips@[i as int] == orig[j]);
            assert(orig.skip(j) =~= seq![orig[j]] + orig.skip(j + 1));
            if keep(orig[j]) {
                assert(orig.take(j + 1).filter(keep) == orig.take(j).filter(keep).push(orig[j]));
            } else {
                assert(orig.take(j + 1).filter(keep) == orig.take(j).filter(keep));
            }
        }
        let expired = clips[i].expires.has_expired_at(now);
        proof {
            assert(expired == expired_at(orig[j].expires@, now@));
            assert(keep(orig[j]) == survives(orig[j], now@));
        }
        if expired {
            let ghost before = clips@;
            clips.remove(i);
            removed = removed + 1;
            proof {
                assert(!keep(orig[j]));
                assert(before =~= orig.take(j).filter(keep) + (seq![orig[j]] + orig.skip(j + 1)));
                assert(clips@ =~= orig.take(j + 1).filter(keep) + orig.skip(j + 1));
            }
        } else {
            proof {
                assert(keep(orig[j]));
                assert(clips@ =~= orig.take(j + 1).filter(keep) + orig.skip(j + 1));
            }
            i += 1;
        }
        proof {
            j = j + 1;
        }
    }
    proof {
        assert(orig.take(j) =~= orig);
        assert(orig.skip(j) =~= Seq::<Clip>::empty());
        assert(clips@ =~= orig.filter(keep));
    }
    removed
}

} // verus!
