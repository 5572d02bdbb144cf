//! League-point extraction from the ranked-stats payload.

use vstd::prelude::*;

use crate::text::str_eq;

verus! {

/// One entry of the ranked-stats queue list, reduced to what the
/// library reads.
#[derive(Clone, Debug)]
pub struct RankedQueueEntry {
    pub queue_type: String,
    pub league_points: i64,
}

/// The league points of the first solo-queue entry.
pub open spec fn spec_solo_queue_lp(entries: Seq<RankedQueueEntry>) -> Option<i64>
    decreases entries.len(),
{
    if entries.len() == 0 {
        None
    } else if entries[0].queue_type@ == "RANKED_SOLO_5x5"@ {
        Some(entries[0].league_points)
    } else {
        spec_solo_queue_lp(entries.drop_first())
    }
}

/// Extract the current solo-queue league points from the queue list of
/// the ranked-stats payload; nothing when no solo-queue entry is there.
pub fn solo_queue_lp(entries: &Vec<RankedQueueEntry>) -> (r: Option<i64>)
    ensures
        r == spec_solo_queue_lp(entries@),
{
    let mut i: usize = 0;
    assert(entries@.skip(0) =~= entries@);
    while i < entries.len()
        invariant
            i <= entries@.len(),
            spec_solo_queue_lp(entries@) == spec_solo_queue_lp(entries@.skip(i as int)),
        decreases entries@.len() - i,
    {
        if str_eq(entries[i].queue_type.as_str(), "RANKED_SOLO_5x5") {
            assert(entries@.skip(i as int)[0] == entries@[i as int]);
            return Some(entries[i].league_points);
        }
        proof {
            assert(entries@.skip(i as int).drop_first() =~= entries@.skip(i + 1));
        }
        i += 1;
    }
    proof {
        assert(entries@.skip(entries@.len() as int) =~= Seq::empty());
    }
    None
}

} // verus!
