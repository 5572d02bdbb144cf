//! The event reconciler: live-captured shop events are attributed to
//! participants and merged with the authoritative timeline into one
//! list, stably sorted by timestamp.

use vstd::prelude::*;

use crate::events::{
    spec_sorted_by_time, spec_stable_sort_by_time, stable_sort_by_time, Event, GameEvent, LiveEvent,
};
use crate::identity::{
    parse_shopper_name, resolve_participant, spec_parse_shopper, spec_resolve,
};
use crate::types::{Champion, Participant, ParticipantIdentity};

verus! {

/// The normalized event a live event turns into once attributed to a
/// participant; dropped events (no attribution, or not a shop event)
/// yield nothing.
pub open spec fn spec_convert_live(
    e: LiveEvent,
    ids: Seq<ParticipantIdentity>,
    parts: Seq<Participant>,
    champs: Seq<(i64, Champion)>,
) -> Option<GameEvent> {
    match e {
        LiveEvent::ItemPurchased { event_time_ms, shopper_name, item, .. } => {
            match spec_resolve(spec_parse_shopper(shopper_name@), ids, parts, champs) {
                Some(pid) => Some(
                    GameEvent {
                        timestamp: event_time_ms,
                        event: Event::ItemPurchased {
                            participant_id: pid,
                            item_id: item.item_id,
                            slot: Some(item.slot),
                        },
                    },
                ),
                None => None,
            }
        },
        LiveEvent::ItemSold { event_time_ms, shopper_name, item, .. } => {
            match spec_resolve(spec_parse_shopper(shopper_name@), ids, parts, champs) {
                Some(pid) => Some(
                    GameEvent {
                        timestamp: event_time_ms,
                        event: Event::ItemSold {
                            participant_id: pid,
                            item_id: item.item_id,
                            slot: Some(item.slot),
                        },
                    },
                ),
                None => None,
            }
        },
        LiveEvent::ItemUndo { event_time_ms, shopper_name, item_before, item_after, gold_gain, .. } => {
            match spec_resolve(spec_parse_shopper(shopper_name@), ids, parts, champs) {
                Some(pid) => Some(
                    GameEvent {
                        timestamp: event_time_ms,
                        event: Event::ItemUndo {
                            participant_id: pid,
                            before_id: item_before.item_id,
                            after_id: item_after.item_id,
                            gold_gain,
                        },
                    },
                ),
                None => None,
            }
        },
        LiveEvent::Other { .. } => None,
    }
}

/// The merged, still unsorted timeline: the authoritative events
/// followed by every live event that could be attributed.
pub open spec fn spec_merged(
    current: Seq<GameEvent>,
    live: Seq<LiveEvent>,
    ids: Seq<ParticipantIdentity>,
    parts: Seq<Participant>,
    champs: Seq<(i64, Champion)>,
) -> Seq<GameEvent> {
    current + live.filter_map(|e: LiveEvent| spec_convert_live(e, ids, parts, champs))
}

/// Attribute one live event to a participant and normalize it.
pub fn convert_live_event(
    e: &LiveEvent,
    ids: &Vec<ParticipantIdentity>,
    parts: &Vec<Participant>,
    champs: &Vec<(i64, Champion)>,
) -> (r: Option<GameEvent>)
    ensures
        r == spec_convert_live(*e, ids@, parts@, champs@),
{
    match e {
        LiveEvent::ItemPurchased { event_time_ms, shopper_name, item, .. } => {
            let tags = parse_shopper_name(shopper_name.as_str());
            match resolve_participant(&tags, ids, parts, champs) {
                Some(pid) => Some(
                    GameEvent {
                        timestamp: *event_time_ms,
                        event: Event::ItemPurchased {
                            participant_id: pid,
                            item_id: item.item_id,
                            slot: Some(item.slot),
                        },
                    },
                ),
                None => None,
            }
        },
        LiveEvent::ItemSold { event_time_ms, shopper_name, item, .. } => {
            let tags = parse_shopper_name(shopper_name.as_str());
            match resolve_participant(&tags, ids, parts, champs) {
                Some(pid) => Some(
                    GameEvent {
                        timestamp: *event_time_ms,
                        event: Event::ItemSold {
                            participant_id: pid,
                            item_id: item.item_id,
                            slot: Some(item.slot),
                        },
                    },
                ),
                None => None,
            }
        },
        LiveEvent::ItemUndo {
            event_time_ms,
            shopper_name,
            item_before,
            item_after,
            gold_gain,
            ..
        } => {
            let tags = parse_shopper_name(shopper_name.as_str());
            match resolve_participant(&tags, ids, parts, champs) {
                Some(pid) => Some(
                    GameEvent {
                        timestamp: *event_time_ms,
                        event: Event::ItemUndo {
                            participant_id: pid,
                            before_id: item_before.item_id,
                            after_id: item_after.item_id,
                            gold_gain: *gold_gain,
                        },
                    },
                ),
                None => None,
            }
        },
        LiveEvent::Other { .. } => None,
    }
}

/// Merge the authoritative timeline with the live-captured events.
///
/// Every attributable live shop event is appended, then the whole list
/// is stably sorted by timestamp: the result is non-decreasing, and
/// ties keep insertion order, so live events stay behind authoritative
/// events of the same millisecond.
pub fn merge_live_events(
    current_events: Vec<GameEvent>,
    live_events: &Vec<LiveEvent>,
    identities: &Vec<ParticipantIdentity>,
    participants: &Vec<Participant>,
    champions: &Vec<(i64, Champion)>,
) -> (r: Vec<GameEvent>)
    ensures
        r@ == spec_stable_sort_by_time(
            spec_merged(current_events@, live_events@, identities@, participants@, champions@),
        ),
        spec_sorted_by_time(r@),
        r@.to_multiset() == spec_merged(
            current_events@,
            live_events@,
            identities@,
            participants@,
            champions@,
        ).to_multiset(),
{
    let ghost f = |e: LiveEvent| spec_convert_live(e, identities@, participants@, champions@);
    let mut acc = current_events;
    let ghost current = acc@;
    let mut i: usize = 0;
    proof {
        assert(live_events@.take(0).filter_map(f) =~= Seq::empty());
        assert(acc@ =~= current + live_events@.take(0).filter_map(f));
    }
    while i < live_events.len()
        invariant
            i <= live_events@.len(),
            f == (|e: LiveEvent| spec_convert_live(e, identities@, participants@, champions@)),
            acc@ == current + live_events@.take(i as int).filter_map(f),
        decreases live_events@.len() - i,
    {
        proof {
            live_events@.lemma_filter_map_take_succ(f, i as int);
        }
        if let Some(g) = convert_live_event(&live_events[i], identities, participants, champions) {
            acc.push(g);
            proof {
                assert(acc@ =~= current + live_events@.take(i + 1).filter_map(f));
            }
        } else {
            proof {
                assert(acc@ =~= current + live_events@.take(i + 1).filter_map(f));
            }
        }
        i += 1;
    }
    proof {
        assert(live_events@.take(live_events@.len() as int) =~= live_events@);
    }
    stable_sort_by_time(acc)
}

} // verus!
