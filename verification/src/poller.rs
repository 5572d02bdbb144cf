//! The live poller's pure core: the event-id watermark filter and the
//! synthesis of inventory events from two successive snapshots.
//!
//! Slot swaps keep the per-item counts and therefore synthesize
//! nothing; a count that went down by `k` yields `k` sell events, one
//! that went up by `k` yields `k` purchase events.

use vstd::prelude::*;

use crate::events::{LiveEvent, LiveItem};

verus! {

/// How often the item occurs in a snapshot.
pub open spec fn spec_id_count(items: Seq<LiveItem>, id: i64) -> int
    decreases items.len(),
{
    if items.len() == 0 {
        0
    } else {
        spec_id_count(items.drop_last(), id) + if items.last().item_id == id {
            1int
        } else {
            0int
        }
    }
}

/// How many sell events for the item an event list holds.
pub open spec fn spec_sold_count(evs: Seq<LiveEvent>, id: i64) -> int
    decreases evs.len(),
{
    if evs.len() == 0 {
        0
    } else {
        spec_sold_count(evs.drop_last(), id) + match evs.last() {
            LiveEvent::ItemSold { item, .. } => if item.item_id == id {
                1int
            } else {
                0int
            },
            _ => 0int,
        }
    }
}

/// How many purchase events for the item an event list holds.
pub open spec fn spec_purchase_count(evs: Seq<LiveEvent>, id: i64) -> int
    decreases evs.len(),
{
    if evs.len() == 0 {
        0
    } else {
        spec_purchase_count(evs.drop_last(), id) + match evs.last() {
            LiveEvent::ItemPurchased { item, .. } => if item.item_id == id {
                1int
            } else {
                0int
            },
            _ => 0int,
        }
    }
}

/// The sell events owed for an item: how far its count went down.
pub open spec fn spec_due_sold(old: Seq<LiveItem>, new: Seq<LiveItem>, id: i64) -> int {
    if spec_id_count(old, id) > spec_id_count(new, id) {
        spec_id_count(old, id) - spec_id_count(new, id)
    } else {
        0
    }
}

/// The purchase events owed for an item: how far its count went up.
pub open spec fn spec_due_purchased(old: Seq<LiveItem>, new: Seq<LiveItem>, id: i64) -> int {
    if spec_id_count(new, id) > spec_id_count(old, id) {
        spec_id_count(new, id) - spec_id_count(old, id)
    } else {
        0
    }
}

/// The first item record with this id.
pub open spec fn spec_first_item(items: Seq<LiveItem>, id: i64) -> Option<LiveItem>
    decreases items.len(),
{
    if items.len() == 0 {
        None
    } else if items[0].item_id == id {
        Some(items[0])
    } else {
        spec_first_item(items.drop_first(), id)
    }
}

/// The item occurs before position `i`.
pub open spec fn spec_occ_before(items: Seq<LiveItem>, i: int, id: i64) -> bool {
    exists|j: int| 0 <= j < i && items[j].item_id == id
}

/// A synthesized event is well-shaped: a sell or purchase with event id
/// zero, the snapshot's game time, the given shopper name, and the item
/// record taken from the old (sells) or new (purchases) snapshot.
pub open spec fn spec_synth_shape(
    e: LiveEvent,
    old: Seq<LiveItem>,
    new: Seq<LiveItem>,
    shopper: Seq<char>,
    game_time_ms: i64,
) -> bool {
    match e {
        LiveEvent::ItemSold { event_id, event_time_ms, shopper_name, item } => {
            &&& event_id == 0
            &&& event_time_ms == game_time_ms
            &&& shopper_name@ == shopper
            &&& spec_first_item(old, item.item_id) == Some(item)
        },
        LiveEvent::ItemPurchased { event_id, event_time_ms, shopper_name, item } => {
            &&& event_id == 0
            &&& event_time_ms == game_time_ms
            &&& shopper_name@ == shopper
            &&& spec_first_item(new, item.item_id) == Some(item)
        },
        _ => false,
    }
}

/// Counts are never negative.
proof fn lemma_count_nonneg(items: Seq<LiveItem>, id: i64)
    ensures
        spec_id_count(items, id) >= 0,
    decreases items.len(),
{
    if items.len() > 0 {
        lemma_count_nonneg(items.drop_last(), id);
    }
}

/// If the item never occurs, its count is zero.
proof fn lemma_count_zero(items: Seq<LiveItem>, id: i64)
    requires
        forall|j: int| 0 <= j < items.len() ==> items[j].item_id != id,
    ensures
        spec_id_count(items, id) == 0,
    decreases items.len(),
{
    if items.len() > 0 {
        lemma_count_zero(items.drop_last(), id);
    }
}

/// Counting one more event: the count rises only for the pushed kind
/// and item.
proof fn lemma_counts_push(evs: Seq<LiveEvent>, e: LiveEvent)
    ensures
        forall|id: i64|
            #[trigger] spec_sold_count(evs.push(e), id) == spec_sold_count(evs, id) + match e {
                LiveEvent::ItemSold { item, .. } => if item.item_id == id {
                    1int
                } else {
                    0int
                },
                _ => 0int,
            },
        forall|id: i64|
            #[trigger] spec_purchase_count(evs.push(e), id) == spec_purchase_count(evs, id)
                + match e {
                LiveEvent::ItemPurchased { item, .. } => if item.item_id == id {
                    1int
                } else {
                    0int
                },
                _ => 0int,
            },
{
    assert(evs.push(e).drop_last() =~= evs);
    assert(evs.push(e).last() == e);
}

/// The item at a first occurrence is the first record with its id.
proof fn lemma_first_item_at(items: Seq<LiveItem>, i: int)
    requires
        0 <= i < items.len(),
        forall|j: int| 0 <= j < i ==> items[j].item_id != items[i].item_id,
    ensures
        spec_first_item(items, items[i].item_id) == Some(items[i]),
    decreases i,
{
    if i > 0 {
        lemma_first_item_at(items.drop_first(), i - 1);
    }
}

/// Count an item in a snapshot.
fn count_id(items: &Vec<LiveItem>, id: i64) -> (r: usize)
    ensures
        r == spec_id_count(items@, id),
{
    let mut cnt: usize = 0;
    let mut i: usize = 0;
    proof {
        assert(items@.take(0) =~= Seq::empty());
    }
    while i < items.len()
        invariant
            i <= items@.len(),
            cnt <= i,
            cnt == spec_id_count(items@.take(i as int), id),
        decreases items@.len() - i,
    {
        proof {
            assert(items@.take(i + 1).drop_last() =~= items@.take(i as int));
            assert(items@.take(i + 1).last() == items@[i as int]);
        }
        if items[i].item_id == id {
            cnt += 1;
        }
        i += 1;
    }
    proof {
        assert(items@.take(items@.len() as int) =~= items@);
    }
    cnt
}

/// Whether the item occurs before position `i`.
fn occ_before(items: &Vec<LiveItem>, i: usize, id: i64) -> (r: bool)
    requires
        i <= items@.len(),
    ensures
        r == spec_occ_before(items@, i as int, id),
{
    let mut j: usize = 0;
    while j < i
        invariant
            j <= i <= items@.len(),
            forall|k: int| 0 <= k < j ==> items@[k].item_id != id,
        decreases i - j,
    {
        if items[j].item_id == id {
            return true;
        }
        j += 1;
    }
    false
}

/// Synthesize the inventory events between two snapshots of one player:
/// for every item whose count went down, that many sell events; for
/// every item whose count went up, that many purchase events. Slot
/// swaps change no count and synthesize nothing.
pub fn synth_inventory_events(
    old_items: &Vec<LiveItem>,
    new_items: &Vec<LiveItem>,
    shopper_name: &String,
    game_time_ms: i64,
) -> (r: Vec<LiveEvent>)
    ensures
        forall|id: i64|
            #[trigger] spec_sold_count(r@, id) == spec_due_sold(old_items@, new_items@, id),
        forall|id: i64|
            #[trigger] spec_purchase_count(r@, id) == spec_due_purchased(
                old_items@,
                new_items@,
                id,
            ),
        forall|k: int|
            0 <= k < r@.len() ==> spec_synth_shape(
                #[trigger] r@[k],
                old_items@,
                new_items@,
                shopper_name@,
                game_time_ms,
            ),
{
    let mut out: Vec<LiveEvent> = Vec::new();
    let mut i: usize = 0;
    while i < old_items.len()
        invariant
            i <= old_items@.len(),
            forall|id: i64|
                #[trigger] spec_sold_count(out@, id) == if spec_occ_before(
                    old_items@,
                    i as int,
                    id,
                ) {
                    spec_due_sold(old_items@, new_items@, id)
                } else {
                    0int
                },
            forall|id: i64| #[trigger] spec_purchase_count(out@, id) == 0,
            forall|k: int|
                0 <= k < out@.len() ==> spec_synth_shape(
                    #[trigger] out@[k],
                    old_items@,
                    new_items@,
                    shopper_name@,
                    game_time_ms,
                ),
        decreases old_items@.len() - i,
    {
        let id = old_items[i].item_id;
        if !occ_before(old_items, i, id) {
            let oc = count_id(old_items, id);
            let nc = count_id(new_items, id);
            if oc > nc {
                let item = old_items[i];
                proof {
                    lemma_first_item_at(old_items@, i as int);
                }
                let due: usize = oc - nc;
                let mut k: usize = 0;
                while k < due
                    invariant
                        k <= due,
                        due == spec_due_sold(old_items@, new_items@, id),
                        item == old_items@[i as int],
                        item.item_id == id,
                        spec_first_item(old_items@, id) == Some(item),
                        spec_sold_count(out@, id) == k,
                        forall|id2: i64|
                            id2 != id ==> #[trigger] spec_sold_count(out@, id2) == if spec_occ_before(
                                old_items@,
                                i as int,
                                id2,
                            ) {
                                spec_due_sold(old_items@, new_items@, id2)
                            } else {
                                0int
                            },
                        forall|id2: i64| #[trigger] spec_purchase_count(out@, id2) == 0,
                        forall|m: int|
                            0 <= m < out@.len() ==> spec_synth_shape(
                                #[trigger] out@[m],
                                old_items@,
                                new_items@,
                                shopper_name@,
                                game_time_ms,
                            ),
                    decreases due - k,
                {
                    let e = LiveEvent::ItemSold {
                        event_id: 0,
                        event_time_ms: game_time_ms,
                        shopper_name: shopper_name.clone(),
                        item,
                    };
                    proof {
                        lemma_counts_push(out@, e);
                    }
                    out.push(e);
                    k += 1;
                }
            }
        }
        proof {
            // what the next iteration's occurrence predicate adds
            assert forall|id2: i64| #[trigger] spec_occ_before(old_items@, i + 1, id2)
                == (spec_occ_before(old_items@, i as int, id2) || old_items@[i as int].item_id
                == id2) by {
                if spec_occ_before(old_items@, i + 1, id2) {
                    let j = choose|j: int| 0 <= j < i + 1 && old_items@[j].item_id == id2;
                    if j < i {
                        assert(spec_occ_before(old_items@, i as int, id2));
                    }
                }
                if spec_occ_before(old_items@, i as int, id2) {
                    let j = choose|j: int| 0 <= j < i && old_items@[j].item_id == id2;
                    assert(0 <= j < i + 1 && old_items@[j].item_id == id2);
                }
                if old_items@[i as int].item_id == id2 {
                    assert(0 <= i < i + 1 && old_items@[i as int].item_id == id2);
                }
            }
        }
        i += 1;
    }
    proof {
        assert forall|id2: i64| #[trigger] spec_sold_count(out@, id2) == spec_due_sold(
            old_items@,
            new_items@,
            id2,
        ) by {
            lemma_count_nonneg(new_items@, id2);
            if !spec_occ_before(old_items@, old_items@.len() as int, id2) {
                lemma_count_zero(old_items@, id2);
            }
        }
    }
    let ghost after_sold = out@;
    let mut i: usize = 0;
    while i < new_items.len()
        invariant
            i <= new_items@.len(),
            forall|id: i64|
                #[trigger] spec_sold_count(out@, id) == spec_due_sold(old_items@, new_items@, id),
            forall|id: i64|
                #[trigger] spec_purchase_count(out@, id) == if spec_occ_before(
                    new_items@,
                    i as int,
                    id,
                ) {
                    spec_due_purchased(old_items@, new_items@, id)
                } else {
                    0int
                },
            forall|k: int|
                0 <= k < out@.len() ==> spec_synth_shape(
                    #[trigger] out@[k],
                    old_items@,
                    new_items@,
                    shopper_name@,
                    game_time_ms,
                ),
        decreases new_items@.len() - i,
    {
        let id = new_items[i].item_id;
        if !occ_before(new_items, i, id) {
            let oc = count_id(old_items, id);
            let nc = count_id(new_items, id);
            if nc > oc {
                let item = new_items[i];
                proof {
                    lemma_first_item_at(new_items@, i as int);
                }
                let due: usize = nc - oc;
                let mut k: usize = 0;
                while k < due
                    invariant
                        k <= due,
                        due == spec_due_purchased(old_items@, new_items@, id),
                        item == new_items@[i as int],
                        item.item_id == id,
                        spec_first_item(new_items@, id) == Some(item),
                        spec_purchase_count(out@, id) == k,
                        forall|id2: i64|
                            #[trigger] spec_sold_count(out@, id2) == spec_due_sold(
                                old_items@,
                                new_items@,
                                id2,
                            ),
                        forall|id2: i64|
                            id2 != id ==> #[trigger] spec_purchase_count(out@, id2)
                                == if spec_occ_before(new_items@, i as int, id2) {
                                spec_due_purchased(old_items@, new_items@, id2)
                            } else {
                                0int
                            },
                        forall|m: int|
                            0 <= m < out@.len() ==> spec_synth_shape(
                                #[trigger] out@[m],
                                old_items@,
                                new_items@,
                                shopper_name@,
                                game_time_ms,
                            ),
                    decreases due - k,
                {
                    let e = LiveEvent::ItemPurchased {
                        event_id: 0,
                        event_time_ms: game_time_ms,
                        shopper_name: shopper_name.clone(),
                        item,
                    };
                    proof {
                        lemma_counts_push(out@, e);
                    }
                    out.push(e);
                    k += 1;
                }
            }
        }
        proof {
            assert forall|id2: i64| #[trigger] spec_occ_before(new_items@, i + 1, id2)
                == (spec_occ_before(new_items@, i as int, id2) || new_items@[i as int].item_id
                == id2) by {
                if spec_occ_before(new_items@, i + 1, id2) {
                    let j = choose|j: int| 0 <= j < i + 1 && new_items@[j].item_id == id2;
                    if j < i {
                        assert(spec_occ_before(new_items@, i as int, id2));
                    }
                }
                if spec_occ_before(new_items@, i as int, id2) {
                    let j = choose|j: int| 0 <= j < i && new_items@[j].item_id == id2;
                    assert(0 <= j < i + 1 && new_items@[j].item_id == id2);
                }
                if new_items@[i as int].item_id == id2 {
                    assert(0 <= i < i + 1 && new_items@[i as int].item_id == id2);
                }
            }
        }
        i += 1;
    }
    proof {
        assert forall|id2: i64| #[trigger] spec_purchase_count(out@, id2) == spec_due_purchased(
            old_items@,
            new_items@,
            id2,
        ) by {
            lemma_count_nonneg(old_items@, id2);
            if !spec_occ_before(new_items@, new_items@.len() as int, id2) {
                lemma_count_zero(new_items@, id2);
            }
        }
    }
    out
}

/// The owed events summed over a list of item ids: for each id the
/// sells plus the purchases it is owed.
pub open spec fn spec_sum_due(old: Seq<LiveItem>, new: Seq<LiveItem>, ids: Seq<i64>) -> int
    decreases ids.len(),
{
    if ids.len() == 0 {
        0
    } else {
        spec_sum_due(old, new, ids.drop_last()) + spec_due_sold(old, new, ids.last())
            + spec_due_purchased(old, new, ids.last())
    }
}

/// The synthesized events counted over a list of item ids: for each id
/// the sells plus the purchases the list holds.
pub open spec fn spec_sum_counts(evs: Seq<LiveEvent>, ids: Seq<i64>) -> int
    decreases ids.len(),
{
    if ids.len() == 0 {
        0
    } else {
        spec_sum_counts(evs, ids.drop_last()) + spec_sold_count(evs, ids.last())
            + spec_purchase_count(evs, ids.last())
    }
}

/// The item id a shop event names, if it is one.
pub open spec fn spec_shop_item_id(e: LiveEvent) -> Option<i64> {
    match e {
        LiveEvent::ItemSold { item, .. } => Some(item.item_id),
        LiveEvent::ItemPurchased { item, .. } => Some(item.item_id),
        _ => None,
    }
}

/// An item with a first record occurs somewhere.
proof fn lemma_first_item_occurs(items: Seq<LiveItem>, id: i64)
    requires
        spec_first_item(items, id) is Some,
    ensures
        exists|j: int| 0 <= j < items.len() && #[trigger] items[j].item_id == id,
    decreases items.len(),
{
    if items.len() > 0 && items[0].item_id != id {
        lemma_first_item_occurs(items.drop_first(), id);
        let j = choose|j: int|
            0 <= j < items.drop_first().len() && #[trigger] items.drop_first()[j].item_id == id;
        assert(items[j + 1].item_id == id);
    }
}

/// Over a duplicate-free id list, a shop event is counted exactly once
/// when its item is listed, and not at all otherwise.
proof fn lemma_sum_counts_single(e: LiveEvent, ids: Seq<i64>)
    requires
        forall|i: int, j: int| 0 <= i < j < ids.len() ==> ids[i] != ids[j],
    ensures
        spec_sum_counts(seq![e], ids) == match spec_shop_item_id(e) {
            Some(eid) => if ids.contains(eid) {
                1int
            } else {
                0int
            },
            None => 0int,
        },
    decreases ids.len(),
{
    assert(seq![e].drop_last() =~= Seq::<LiveEvent>::empty());
    assert(seq![e].last() == e);
    if ids.len() > 0 {
        let last = ids.last();
        assert(spec_sum_counts(seq![e], ids) == spec_sum_counts(seq![e], ids.drop_last())
            + spec_sold_count(seq![e], last) + spec_purchase_count(seq![e], last));
        assert(spec_sold_count(seq![e], last) == spec_sold_count(Seq::<LiveEvent>::empty(), last)
            + match e {
            LiveEvent::ItemSold { item, .. } => if item.item_id == last {
                1int
            } else {
                0int
            },
            _ => 0int,
        });
        assert(spec_purchase_count(seq![e], last) == spec_purchase_count(
            Seq::<LiveEvent>::empty(),
            last,
        ) + match e {
            LiveEvent::ItemPurchased { item, .. } => if item.item_id == last {
                1int
            } else {
                0int
            },
            _ => 0int,
        });
        assert(spec_sold_count(Seq::<LiveEvent>::empty(), last) == 0);
        assert(spec_purchase_count(Seq::<LiveEvent>::empty(), last) == 0);
        assert(forall|i: int, j: int|
            0 <= i < j < ids.drop_last().len() ==> ids.drop_last()[i] != ids.drop_last()[j]);
        lemma_sum_counts_single(e, ids.drop_last());
        match spec_shop_item_id(e) {
            Some(eid) => {
                if last == eid {
                    // the dropped ids cannot list it again
                    assert(!ids.drop_last().contains(eid)) by {
                        if ids.drop_last().contains(eid) {
                            let i = choose|i: int|
                                0 <= i < ids.drop_last().len() && ids.drop_last()[i] == eid;
                            assert(ids[i] == ids[ids.len() - 1]);
                        }
                    }
                    assert(ids.contains(eid)) by {
                        assert(ids[ids.len() - 1] == eid);
                    }
                } else {
                    assert(ids.contains(eid) <==> ids.drop_last().contains(eid)) by {
                        if ids.contains(eid) {
                            let i = choose|i: int| 0 <= i < ids.len() && ids[i] == eid;
                            assert(i != ids.len() - 1);
                            assert(ids.drop_last()[i] == eid);
                        }
                        if ids.drop_last().contains(eid) {
                            let i = choose|i: int|
                                0 <= i < ids.drop_last().len() && ids.drop_last()[i] == eid;
                            assert(ids[i] == eid);
                        }
                    }
                }
            },
            None => {},
        }
    }
}

/// Counting distributes over appending one event.
proof fn lemma_sum_counts_push(evs: Seq<LiveEvent>, e: LiveEvent, ids: Seq<i64>)
    ensures
        spec_sum_counts(evs.push(e), ids) == spec_sum_counts(evs, ids) + spec_sum_counts(
            seq![e],
            ids,
        ),
    decreases ids.len(),
{
    if ids.len() > 0 {
        lemma_sum_counts_push(evs, e, ids.drop_last());
        lemma_counts_push(evs, e);
        assert(seq![e].drop_last() =~= Seq::<LiveEvent>::empty());
        assert(seq![e].last() == e);
        let id = ids.last();
        assert(spec_sum_counts(evs.push(e), ids) == spec_sum_counts(evs.push(e), ids.drop_last())
            + spec_sold_count(evs.push(e), id) + spec_purchase_count(evs.push(e), id));
        assert(spec_sum_counts(evs, ids) == spec_sum_counts(evs, ids.drop_last())
            + spec_sold_count(evs, id) + spec_purchase_count(evs, id));
        assert(spec_sum_counts(seq![e], ids) == spec_sum_counts(seq![e], ids.drop_last())
            + spec_sold_count(seq![e], id) + spec_purchase_count(seq![e], id));
        assert(spec_sold_count(seq![e], id) == spec_sold_count(Seq::<LiveEvent>::empty(), id)
            + match e {
            LiveEvent::ItemSold { item, .. } => if item.item_id == id {
                1int
            } else {
                0int
            },
            _ => 0int,
        });
        assert(spec_purchase_count(seq![e], id) == spec_purchase_count(
            Seq::<LiveEvent>::empty(),
            id,
        ) + match e {
            LiveEvent::ItemPurchased { item, .. } => if item.item_id == id {
                1int
            } else {
                0int
            },
            _ => 0int,
        });
        assert(spec_sold_count(Seq::<LiveEvent>::empty(), id) == 0);
        assert(spec_purchase_count(Seq::<LiveEvent>::empty(), id) == 0);
    } else {
        assert(spec_sum_counts(evs.push(e), ids) == 0);
        assert(spec_sum_counts(evs, ids) == 0);
        assert(spec_sum_counts(seq![e], ids) == 0);
    }
}

/// An event list of shop events whose item ids are all listed is
/// counted in full.
proof fn lemma_sum_counts_total(evs: Seq<LiveEvent>, ids: Seq<i64>)
    requires
        forall|i: int, j: int| 0 <= i < j < ids.len() ==> ids[i] != ids[j],
        forall|k: int|
            0 <= k < evs.len() ==> match spec_shop_item_id(#[trigger] evs[k]) {
                Some(id) => ids.contains(id),
                None => false,
            },
    ensures
        spec_sum_counts(evs, ids) == evs.len(),
    decreases evs.len(),
{
    if evs.len() == 0 {
        assert(evs =~= Seq::<LiveEvent>::empty());
        lemma_sum_counts_empty(ids);
    } else {
        let e = evs.last();
        let rest = evs.drop_last();
        assert(evs =~= rest.push(e));
        assert(forall|k: int|
            0 <= k < rest.len() ==> match spec_shop_item_id(#[trigger] rest[k]) {
                Some(id) => ids.contains(id),
                None => false,
            }) by {
            assert(forall|k: int| 0 <= k < rest.len() ==> rest[k] == evs[k]);
        }
        lemma_sum_counts_total(rest, ids);
        lemma_sum_counts_push(rest, e, ids);
        lemma_sum_counts_single(e, ids);
        assert(spec_sum_counts(evs, ids) == spec_sum_counts(rest.push(e), ids));
        assert(match spec_shop_item_id(e) {
            Some(id) => ids.contains(id),
            None => false,
        }) by {
            assert(evs[evs.len() - 1] == e);
        }
    }
}

proof fn lemma_sum_counts_empty(ids: Seq<i64>)
    ensures
        spec_sum_counts(Seq::empty(), ids) == 0,
    decreases ids.len(),
{
    if ids.len() > 0 {
        lemma_sum_counts_empty(ids.drop_last());
    }
}

/// The sum over listed ids of per-id counts equals the sum of owed
/// events, once the per-id counts match the dues.
proof fn lemma_sum_counts_vs_due(
    evs: Seq<LiveEvent>,
    old: Seq<LiveItem>,
    new: Seq<LiveItem>,
    ids: Seq<i64>,
)
    requires
        forall|id: i64| #[trigger] spec_sold_count(evs, id) == spec_due_sold(old, new, id),
        forall|id: i64| #[trigger] spec_purchase_count(evs, id) == spec_due_purchased(old, new, id),
    ensures
        spec_sum_counts(evs, ids) == spec_sum_due(old, new, ids),
    decreases ids.len(),
{
    if ids.len() > 0 {
        lemma_sum_counts_vs_due(evs, old, new, ids.drop_last());
    }
}

/// The number of synthesized events equals the summed count
/// differences between the snapshots, split into purchases and sells by
/// sign: summed over any duplicate-free list of item ids that covers
/// both snapshots, the owed sells and purchases add up to exactly the
/// length of what [`synth_inventory_events`] returned.
pub proof fn lemma_synth_event_total(
    evs: Seq<LiveEvent>,
    old: Seq<LiveItem>,
    new: Seq<LiveItem>,
    shopper: Seq<char>,
    game_time_ms: i64,
    ids: Seq<i64>,
)
    requires
        forall|id: i64| #[trigger] spec_sold_count(evs, id) == spec_due_sold(old, new, id),
        forall|id: i64| #[trigger] spec_purchase_count(evs, id) == spec_due_purchased(old, new, id),
        forall|k: int|
            0 <= k < evs.len() ==> spec_synth_shape(
                #[trigger] evs[k],
                old,
                new,
                shopper,
                game_time_ms,
            ),
        forall|i: int, j: int| 0 <= i < j < ids.len() ==> ids[i] != ids[j],
        forall|j: int| 0 <= j < old.len() ==> ids.contains(#[trigger] old[j].item_id),
        forall|j: int| 0 <= j < new.len() ==> ids.contains(#[trigger] new[j].item_id),
    ensures
        evs.len() == spec_sum_due(old, new, ids),
{
    assert forall|k: int| 0 <= k < evs.len() implies match spec_shop_item_id(#[trigger] evs[k]) {
        Some(id) => ids.contains(id),
        None => false,
    } by {
        match evs[k] {
            LiveEvent::ItemSold { item, .. } => {
                lemma_first_item_occurs(old, item.item_id);
                let j = choose|j: int| 0 <= j < old.len() && #[trigger] old[j].item_id
                    == item.item_id;
                assert(ids.contains(old[j].item_id));
            },
            LiveEvent::ItemPurchased { item, .. } => {
                lemma_first_item_occurs(new, item.item_id);
                let j = choose|j: int| 0 <= j < new.len() && #[trigger] new[j].item_id
                    == item.item_id;
                assert(ids.contains(new[j].item_id));
            },
            _ => {},
        }
    }
    lemma_sum_counts_total(evs, ids);
    lemma_sum_counts_vs_due(evs, old, new, ids);
}

/// The single digit standing for a participant index.
pub open spec fn spec_idx_digit(idx: int) -> Seq<char> {
    if idx == 0 {
        "0"@
    } else if idx == 1 {
        "1"@
    } else if idx == 2 {
        "2"@
    } else if idx == 3 {
        "3"@
    } else if idx == 4 {
        "4"@
    } else if idx == 5 {
        "5"@
    } else if idx == 6 {
        "6"@
    } else if idx == 7 {
        "7"@
    } else if idx == 8 {
        "8"@
    } else {
        "9"@
    }
}

/// Decorate a summoner name with the player's index in the live player
/// list, so that attribution does not depend on the name alone.
pub fn decorate_name(name: &str, idx: u64) -> (r: String)
    requires
        idx <= 9,
    ensures
        r@ == name@ + "#IDX:"@ + spec_idx_digit(idx as int),
{
    let mut s = String::from_str(name);
    s.append("#IDX:");
    if idx == 0 {
        s.append("0");
    } else if idx == 1 {
        s.append("1");
    } else if idx == 2 {
        s.append("2");
    } else if idx == 3 {
        s.append("3");
    } else if idx == 4 {
        s.append("4");
    } else if idx == 5 {
        s.append("5");
    } else if idx == 6 {
        s.append("6");
    } else if idx == 7 {
        s.append("7");
    } else if idx == 8 {
        s.append("8");
    } else {
        s.append("9");
    }
    s
}

/// The watermark after a batch of events: the running maximum of the
/// last seen id and every reported id.
pub open spec fn spec_watermark(events: Seq<LiveEvent>, last_seen: i64) -> i64
    decreases events.len(),
{
    if events.len() == 0 {
        last_seen
    } else {
        spec_watermark(
            events.drop_first(),
            if events[0].spec_event_id() > last_seen {
                events[0].spec_event_id()
            } else {
                last_seen
            },
        )
    }
}

/// Keep the events newer than the watermark and advance it.
pub fn filter_new_events(events: Vec<LiveEvent>, last_seen: i64) -> (r: (Vec<LiveEvent>, i64))
    ensures
        r.0@ == events@.filter_map(
            |e: LiveEvent|
                if e.spec_event_id() > last_seen {
                    Some(e)
                } else {
                    None
                },
        ),
        r.1 == spec_watermark(events@, last_seen),
{
    let n: usize = events.len();
    let ghost orig = events@;
    let ghost f = |e: LiveEvent|
        if e.spec_event_id() > last_seen {
            Some(e)
        } else {
            None
        };
    let mut rest = events;
    let mut kept: Vec<LiveEvent> = Vec::new();
    let mut mark: i64 = last_seen;
    let mut i: usize = 0;
    proof {
        assert(orig.take(0).filter_map(f) =~= Seq::empty());
        assert(orig.skip(0) =~= orig);
        assert(rest@ =~= orig.skip(0));
    }
    while rest.len() > 0
        invariant
            n == orig.len(),
            i <= orig.len(),
            rest@ == orig.skip(i as int),
            f == (|e: LiveEvent|
                if e.spec_event_id() > last_seen {
                    Some(e)
                } else {
                    None
                }),
            kept@ == orig.take(i as int).filter_map(f),
            spec_watermark(orig, last_seen) == spec_watermark(orig.skip(i as int), mark),
        decreases rest@.len(),
    {
        proof {
            orig.lemma_filter_map_take_succ(f, i as int);
            assert(orig.skip(i as int)[0] == orig[i as int]);
            assert(orig.skip(i as int).drop_first() =~= orig.skip(i + 1));
        }
        let e = rest.remove(0);
        proof {
            assert(rest@ =~= orig.skip(i + 1));
            assert(e == orig[i as int]);
        }
        let eid = e.event_id();
        if eid > last_seen {
            kept.push(e);
            proof {
                assert(kept@ =~= orig.take(i + 1).filter_map(f));
            }
        } else {
            proof {
                assert(kept@ =~= orig.take(i + 1).filter_map(f));
            }
        }
        if eid > mark {
            mark = eid;
        }
        i += 1;
    }
    proof {
        assert(orig.take(orig.len() as int) =~= orig);
        assert(orig.skip(orig.len() as int) =~= Seq::empty());
    }
    (kept, mark)
}

} // verus!
