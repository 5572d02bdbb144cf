//! Normalized game events, live-client events, and the stable
//! timestamp sort used when the two streams are merged.

use vstd::prelude::*;
use vstd::seq_lib::lemma_multiset_commutative;

verus! {

/// A normalized event on the final timeline. Kills, deaths and assists
/// are relative to the recorded player.
#[derive(Clone, Copy, Debug, PartialEq, Eq)]
pub enum Event {
    Kill { victim_id: i64 },
    Death { killer_id: i64 },
    Assist { victim_id: i64 },
    TurretKill { killer_id: i64 },
    Dragon { killer_id: i64 },
    Herald { killer_id: i64 },
    Baron { killer_id: i64 },
    Voidgrub { killer_id: i64 },
    ItemPurchased { participant_id: i64, item_id: i64, slot: Option<i64> },
    ItemSold { participant_id: i64, item_id: i64, slot: Option<i64> },
    ItemUndo { participant_id: i64, before_id: i64, after_id: i64, gold_gain: i64 },
}

/// An entry of the final timeline: milliseconds since game start and
/// the event itself.
#[derive(Clone, Copy, Debug, PartialEq, Eq)]
pub struct GameEvent {
    pub timestamp: i64,
    pub event: Event,
}

/// An item held by a player in a live snapshot.
#[derive(Clone, Copy, Debug, PartialEq, Eq)]
pub struct LiveItem {
    pub item_id: i64,
    pub slot: i64,
}

/// An event captured from the live client while the game runs. Times
/// are milliseconds of game time; synthetic events carry `event_id` 0.
/// The shopper name may carry trailing identity decorations.
#[derive(Clone, Debug, PartialEq)]
pub enum LiveEvent {
    ItemPurchased { event_id: i64, event_time_ms: i64, shopper_name: String, item: LiveItem },
    ItemSold { event_id: i64, event_time_ms: i64, shopper_name: String, item: LiveItem },
    ItemUndo {
        event_id: i64,
        event_time_ms: i64,
        shopper_name: String,
        item_before: LiveItem,
        item_after: LiveItem,
        gold_gain: i64,
    },
    Other { event_id: i64, event_time_ms: i64 },
}

impl LiveEvent {
    /// The id under which the live endpoint reported the event.
    pub open spec fn spec_event_id(&self) -> i64 {
        match *self {
            LiveEvent::ItemPurchased { event_id, .. } => event_id,
            LiveEvent::ItemSold { event_id, .. } => event_id,
            LiveEvent::ItemUndo { event_id, .. } => event_id,
            LiveEvent::Other { event_id, .. } => event_id,
        }
    }

    /// Read the event id.
    pub fn event_id(&self) -> (r: i64)
        ensures
            r == self.spec_event_id(),
    {
        match self {
            LiveEvent::ItemPurchased { event_id, .. } => *event_id,
            LiveEvent::ItemSold { event_id, .. } => *event_id,
            LiveEvent::ItemUndo { event_id, .. } => *event_id,
            LiveEvent::Other { event_id, .. } => *event_id,
        }
    }
}

/// The timeline is non-decreasing by timestamp.
pub open spec fn spec_sorted_by_time(s: Seq<GameEvent>) -> bool {
    forall|i: int, j: int| 0 <= i < j < s.len() ==> s[i].timestamp <= s[j].timestamp
}

/// Insert `e` behind every element whose timestamp is not larger: the
/// insertion step of a stable sort.
pub open spec fn spec_insert_by_time(e: GameEvent, s: Seq<GameEvent>) -> Seq<GameEvent>
    decreases s.len(),
{
    if s.len() == 0 {
        seq![e]
    } else if s[0].timestamp <= e.timestamp {
        seq![s[0]] + spec_insert_by_time(e, s.drop_first())
    } else {
        seq![e] + s
    }
}

/// Stable sort by timestamp: elements with equal timestamps keep their
/// original order.
pub open spec fn spec_stable_sort_by_time(s: Seq<GameEvent>) -> Seq<GameEvent>
    decreases s.len(),
{
    if s.len() == 0 {
        Seq::empty()
    } else {
        spec_insert_by_time(s.last(), spec_stable_sort_by_time(s.drop_last()))
    }
}

/// The insertion step splits the sequence at the first index whose
/// timestamp exceeds the inserted element's.
proof fn lemma_insert_by_time_split(e: GameEvent, s: Seq<GameEvent>, p: int)
    requires
        0 <= p <= s.len(),
        forall|i: int| 0 <= i < p ==> s[i].timestamp <= e.timestamp,
        p < s.len() ==> s[p].timestamp > e.timestamp,
    ensures
        spec_insert_by_time(e, s) =~= s.subrange(0, p) + seq![e] + s.subrange(p, s.len() as int),
    decreases s.len(),
{
    if s.len() == 0 {
    } else if s[0].timestamp <= e.timestamp {
        lemma_insert_by_time_split(e, s.drop_first(), p - 1);
    }
}

/// Inserting into a time-sorted sequence keeps it sorted and adds the
/// element to its contents.
proof fn lemma_insert_by_time_ensures(e: GameEvent, s: Seq<GameEvent>)
    requires
        spec_sorted_by_time(s),
    ensures
        spec_sorted_by_time(spec_insert_by_time(e, s)),
        spec_insert_by_time(e, s).to_multiset() == s.to_multiset().insert(e),
        spec_insert_by_time(e, s).len() == s.len() + 1,
    decreases s.len(),
{
    broadcast use vstd::seq_lib::group_to_multiset_ensures;

    if s.len() == 0 {
        assert(seq![e] =~= Seq::empty().push(e));
        assert(seq![e].to_multiset() == s.to_multiset().insert(e));
    } else if s[0].timestamp <= e.timestamp {
        lemma_insert_by_time_ensures(e, s.drop_first());
        let rest = spec_insert_by_time(e, s.drop_first());
        lemma_multiset_commutative(seq![s[0]], rest);
        lemma_multiset_commutative(seq![s[0]], s.drop_first());
        assert(seq![s[0]] + s.drop_first() =~= s);
        assert(seq![s[0]].to_multiset() == Seq::empty().push(s[0]).to_multiset()) by {
            assert(seq![s[0]] =~= Seq::empty().push(s[0]));
        }
        assert((seq![s[0]] + rest).to_multiset() == s.to_multiset().insert(e));
        // ordering: s[0] precedes everything in rest
        assert forall|j: int| 0 <= j < rest.len() implies s[0].timestamp <= rest[j].timestamp by {
            assert(rest.to_multiset().contains(rest[j]));
        }
    } else {
        lemma_multiset_commutative(seq![e], s);
        assert(seq![e].to_multiset() == Seq::empty().push(e).to_multiset()) by {
            assert(seq![e] =~= Seq::empty().push(e));
        }
        assert((seq![e] + s).to_multiset() == s.to_multiset().insert(e));
    }
}

/// The stable sort produces a time-sorted permutation of its input.
pub proof fn lemma_stable_sort_by_time_ensures(s: Seq<GameEvent>)
    ensures
        spec_sorted_by_time(spec_stable_sort_by_time(s)),
        spec_stable_sort_by_time(s).to_multiset() == s.to_multiset(),
        spec_stable_sort_by_time(s).len() == s.len(),
    decreases s.len(),
{
    broadcast use vstd::seq_lib::group_to_multiset_ensures;

    if s.len() == 0 {
    } else {
        lemma_stable_sort_by_time_ensures(s.drop_last());
        lemma_insert_by_time_ensures(s.last(), spec_stable_sort_by_time(s.drop_last()));
        assert(s.drop_last().push(s.last()) =~= s);
        assert(s.drop_last().to_multiset().insert(s.last()) == s.to_multiset());
    }
}

/// The subsequence of entries with one fixed timestamp, in order.
pub open spec fn spec_at_time(s: Seq<GameEvent>, t: i64) -> Seq<GameEvent>
    decreases s.len(),
{
    if s.len() == 0 {
        Seq::empty()
    } else {
        spec_at_time(s.drop_last(), t) + if s.last().timestamp == t {
            seq![s.last()]
        } else {
            Seq::empty()
        }
    }
}

proof fn lemma_at_time_concat(a: Seq<GameEvent>, b: Seq<GameEvent>, t: i64)
    ensures
        spec_at_time(a + b, t) == spec_at_time(a, t) + spec_at_time(b, t),
    decreases b.len(),
{
    if b.len() == 0 {
        assert(a + b =~= a);
        assert(spec_at_time(a, t) + Seq::<GameEvent>::empty() =~= spec_at_time(a, t));
    } else {
        lemma_at_time_concat(a, b.drop_last(), t);
        assert((a + b).drop_last() =~= a + b.drop_last());
        assert((a + b).last() == b.last());
        assert(spec_at_time(a, t) + spec_at_time(b, t) =~= spec_at_time(a, t) + (spec_at_time(
            b.drop_last(),
            t,
        ) + if b.last().timestamp == t {
            seq![b.last()]
        } else {
            Seq::empty()
        }));
    }
}

proof fn lemma_at_time_all_later(s: Seq<GameEvent>, t: i64)
    requires
        forall|i: int| 0 <= i < s.len() ==> s[i].timestamp > t,
    ensures
        spec_at_time(s, t) == Seq::<GameEvent>::empty(),
    decreases s.len(),
{
    if s.len() > 0 {
        lemma_at_time_all_later(s.drop_last(), t);
        assert(spec_at_time(s.drop_last(), t) + Seq::<GameEvent>::empty() =~= Seq::<
            GameEvent,
        >::empty());
    }
}

proof fn lemma_insert_at_time(e: GameEvent, s: Seq<GameEvent>, t: i64)
    requires
        spec_sorted_by_time(s),
    ensures
        spec_at_time(spec_insert_by_time(e, s), t) == spec_at_time(s, t) + if e.timestamp == t {
            seq![e]
        } else {
            Seq::<GameEvent>::empty()
        },
    decreases s.len(),
{
    let tail = if e.timestamp == t {
        seq![e]
    } else {
        Seq::<GameEvent>::empty()
    };
    if s.len() == 0 {
        assert(seq![e] =~= Seq::<GameEvent>::empty() + seq![e]);
        lemma_at_time_concat(Seq::empty(), seq![e], t);
        assert(seq![e].drop_last() =~= Seq::<GameEvent>::empty());
        assert(seq![e].last() == e);
        assert(spec_at_time(seq![e], t) =~= tail);
        assert(spec_at_time(s, t) + tail =~= tail);
    } else if s[0].timestamp <= e.timestamp {
        lemma_insert_at_time(e, s.drop_first(), t);
        let rest = spec_insert_by_time(e, s.drop_first());
        lemma_at_time_concat(seq![s[0]], rest, t);
        lemma_at_time_concat(seq![s[0]], s.drop_first(), t);
        assert(seq![s[0]] + s.drop_first() =~= s);
        assert(spec_at_time(seq![s[0]], t) + (spec_at_time(s.drop_first(), t) + tail)
            =~= spec_at_time(s, t) + tail);
    } else {
        // everything in s comes strictly later than e
        assert(seq![e] + s =~= seq![e] + s);
        lemma_at_time_concat(seq![e], s, t);
        assert(seq![e].drop_last() =~= Seq::<GameEvent>::empty());
        assert(seq![e].last() == e);
        assert(spec_at_time(seq![e], t) =~= tail) by {
            reveal_with_fuel(spec_at_time, 2);
        }
        if e.timestamp == t {
            lemma_at_time_all_later(s, t);
            assert(tail + spec_at_time(s, t) =~= spec_at_time(s, t) + tail);
        } else {
            assert(tail + spec_at_time(s, t) =~= spec_at_time(s, t) + tail);
        }
    }
}

/// The sort is stable: at every fixed timestamp, the entries keep
/// exactly their original order. Together with sortedness this pins the
/// merged timeline down: live events stay behind authoritative events
/// of the same millisecond.
pub proof fn lemma_stable_sort_preserves_tie_order(s: Seq<GameEvent>, t: i64)
    ensures
        spec_at_time(spec_stable_sort_by_time(s), t) == spec_at_time(s, t),
    decreases s.len(),
{
    if s.len() > 0 {
        lemma_stable_sort_preserves_tie_order(s.drop_last(), t);
        lemma_stable_sort_by_time_ensures(s.drop_last());
        lemma_insert_at_time(s.last(), spec_stable_sort_by_time(s.drop_last()), t);
    }
}

/// Sort the timeline by timestamp; entries with equal timestamps keep
/// their order, so live events stay behind timeline events of the same
/// millisecond.
pub fn stable_sort_by_time(v: Vec<GameEvent>) -> (r: Vec<GameEvent>)
    ensures
        r@ == spec_stable_sort_by_time(v@),
        spec_sorted_by_time(r@),
        r@.to_multiset() == v@.to_multiset(),
{
    let mut out: Vec<GameEvent> = Vec::new();
    let mut i: usize = 0;
    assert(v@.subrange(0, 0) =~= Seq::empty());
    while i < v.len()
        invariant
            i <= v@.len(),
            out@ == spec_stable_sort_by_time(v@.subrange(0, i as int)),
        decreases v@.len() - i,
    {
        let ghost prefix = v@.subrange(0, i as int);
        proof {
            lemma_stable_sort_by_time_ensures(prefix);
        }
        let e = v[i];
        let mut p: usize = 0;
        while p < out.len() && out[p].timestamp <= e.timestamp
            invariant
                p <= out@.len(),
                forall|k: int| 0 <= k < p ==> out@[k].timestamp <= e.timestamp,
            decreases out@.len() - p,
        {
            p += 1;
        }
        let ghost sorted_prefix = out@;
        proof {
            lemma_insert_by_time_split(e, sorted_prefix, p as int);
        }
        out.insert(p, e);
        proof {
            assert(out@ =~= sorted_prefix.subrange(0, p as int) + seq![e]
                + sorted_prefix.subrange(p as int, sorted_prefix.len() as int));
        }
        i += 1;
        proof {
            let prefix2 = v@.subrange(0, i as int);
            assert(prefix2.drop_last() =~= prefix);
            assert(prefix2.last() == e);
        }
    }
    proof {
        assert(v@.subrange(0, v@.len() as int) =~= v@);
        lemma_stable_sort_by_time_ensures(v@);
    }
    out
}

} // verus!
