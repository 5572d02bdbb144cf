use league_record::events::{LiveEvent, LiveItem};
use league_record::identity::parse_shopper_name;
use league_record::poller::{decorate_name, filter_new_events, synth_inventory_events};

fn item(id: i64, slot: i64) -> LiveItem {
    LiveItem { item_id: id, slot }
}

fn sold_count(evs: &[LiveEvent], id: i64) -> usize {
    evs.iter()
        .filter(|e| matches!(e, LiveEvent::ItemSold { item, .. } if item.item_id == id))
        .count()
}

fn purchase_count(evs: &[LiveEvent], id: i64) -> usize {
    evs.iter()
        .filter(|e| matches!(e, LiveEvent::ItemPurchased { item, .. } if item.item_id == id))
        .count()
}

#[test]
fn first_purchase_synthesized() {
    let old: Vec<LiveItem> = Vec::new();
    let new = vec![item(3031, 0)];
    let name = String::from("Alice#IDX:0");
    let evs = synth_inventory_events(&old, &new, &name, 120_000);
    assert_eq!(evs.len(), 1);
    match &evs[0] {
        LiveEvent::ItemPurchased { event_id, event_time_ms, shopper_name, item } => {
            assert_eq!(*event_id, 0);
            assert_eq!(*event_time_ms, 120_000);
            assert_eq!(shopper_name, &name);
            assert_eq!(item.item_id, 3031);
        }
        other => panic!("expected a purchase, got {:?}", other),
    }
}

#[test]
fn counts_split_by_sign() {
    // item 1001: two before, none after -> two sells
    // item 3031: none before, one after -> one purchase
    // item 1038: one each -> nothing
    let old = vec![item(1001, 0), item(1001, 1), item(1038, 2)];
    let new = vec![item(3031, 0), item(1038, 5)];
    let name = String::from("Bob");
    let evs = synth_inventory_events(&old, &new, &name, 60_000);
    assert_eq!(sold_count(&evs, 1001), 2);
    assert_eq!(purchase_count(&evs, 3031), 1);
    assert_eq!(sold_count(&evs, 1038), 0);
    assert_eq!(purchase_count(&evs, 1038), 0);
    assert_eq!(evs.len(), 3);
}

#[test]
fn slot_swaps_synthesize_nothing() {
    let old = vec![item(1001, 0), item(3031, 1)];
    let new = vec![item(3031, 0), item(1001, 1)];
    let name = String::from("Bob");
    let evs = synth_inventory_events(&old, &new, &name, 60_000);
    assert!(evs.is_empty());
}

#[test]
fn partial_count_drop() {
    // three potions down to one: two sells
    let old = vec![item(2003, 0), item(2003, 1), item(2003, 2)];
    let new = vec![item(2003, 0)];
    let name = String::from("Bob");
    let evs = synth_inventory_events(&old, &new, &name, 30_000);
    assert_eq!(evs.len(), 2);
    assert_eq!(sold_count(&evs, 2003), 2);
}

#[test]
fn sell_uses_old_item_record() {
    let old = vec![item(1001, 4)];
    let new: Vec<LiveItem> = Vec::new();
    let name = String::from("Bob");
    let evs = synth_inventory_events(&old, &new, &name, 10_000);
    match &evs[0] {
        LiveEvent::ItemSold { item, .. } => assert_eq!(item.slot, 4),
        other => panic!("expected a sell, got {:?}", other),
    }
}

#[test]
fn watermark_filter_keeps_new_events() {
    let evs = vec![
        LiveEvent::Other { event_id: 3, event_time_ms: 100 },
        LiveEvent::Other { event_id: 7, event_time_ms: 200 },
        LiveEvent::Other { event_id: 5, event_time_ms: 300 },
    ];
    let (kept, mark) = filter_new_events(evs, 4);
    assert_eq!(kept.len(), 2);
    assert!(matches!(kept[0], LiveEvent::Other { event_id: 7, .. }));
    assert!(matches!(kept[1], LiveEvent::Other { event_id: 5, .. }));
    assert_eq!(mark, 7);
}

#[test]
fn watermark_keeps_last_seen_when_nothing_new() {
    let evs = vec![LiveEvent::Other { event_id: 2, event_time_ms: 100 }];
    let (kept, mark) = filter_new_events(evs, 10);
    assert!(kept.is_empty());
    assert_eq!(mark, 10);
}

#[test]
fn decorated_name_parses_back() {
    let name = decorate_name("Bot Lux", 3);
    assert_eq!(name, String::from("Bot Lux#IDX:3"));
    let tags = parse_shopper_name(&name);
    assert_eq!(tags.base, String::from("Bot Lux"));
    assert_eq!(tags.idx, Some(3));
}
