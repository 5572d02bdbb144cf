use league_record::events::{Event, GameEvent, LiveEvent, LiveItem};
use league_record::identity::{parse_shopper_name, resolve_participant};
use league_record::reconcile::{convert_live_event, merge_live_events};
use league_record::types::{Champion, Participant, ParticipantIdentity, ParticipantTimeline, Player, Stats};

fn blank_stats() -> Stats {
    Stats {
        kills: 0,
        deaths: 0,
        assists: 0,
        largest_multi_kill: 0,
        neutral_minions_killed: 0,
        neutral_minions_killed_enemy_jungle: 0,
        neutral_minions_killed_team_jungle: 0,
        total_minions_killed: 0,
        vision_score: 0,
        vision_wards_bought_in_game: 0,
        wards_placed: 0,
        wards_killed: 0,
        game_ended_in_early_surrender: false,
        game_ended_in_surrender: false,
        win: false,
        item0: 0,
        item1: 0,
        item2: 0,
        item3: 0,
        item4: 0,
        item5: 0,
        item6: 0,
        perk0: 0,
        perk1: 0,
        perk2: 0,
        perk3: 0,
        perk4: 0,
        perk5: 0,
        perk_primary_style: 0,
        perk_sub_style: 0,
        gold_earned: 0,
    }
}

fn identity(pid: i64, name: &str, tag: &str) -> ParticipantIdentity {
    ParticipantIdentity {
        participant_id: pid,
        player: Player {
            game_name: String::from(name),
            tag_line: String::from(tag),
            summoner_id: None,
        },
    }
}

fn participant(pid: i64, team: i64) -> Participant {
    Participant {
        participant_id: pid,
        team_id: team,
        champion_id: 99,
        spell1_id: 4,
        spell2_id: 14,
        stats: blank_stats(),
        timeline: Some(ParticipantTimeline {
            lane: String::from("MIDDLE"),
            role: String::from("SOLO"),
        }),
    }
}

fn purchase(time_ms: i64, shopper: &str, item_id: i64) -> LiveEvent {
    LiveEvent::ItemPurchased {
        event_id: 0,
        event_time_ms: time_ms,
        shopper_name: String::from(shopper),
        item: LiveItem { item_id, slot: 0 },
    }
}

#[test]
fn cname_tag_attributes_to_champion() {
    let ids = vec![identity(7, "Bot Lux", "BOT")];
    let parts = vec![participant(7, 200)];
    let champs = vec![(
        7i64,
        Champion { alias: String::from("Lux"), name: String::from("Lux") },
    )];
    let ev = purchase(1000, "Bot Lux#TEAM:200#CNAME:Lux", 3031);
    let got = convert_live_event(&ev, &ids, &parts, &champs);
    assert_eq!(
        got,
        Some(GameEvent {
            timestamp: 1000,
            event: Event::ItemPurchased { participant_id: 7, item_id: 3031, slot: Some(0) },
        })
    );
}

#[test]
fn wrong_cname_drops_event() {
    let ids = vec![identity(7, "Bot Lux", "BOT")];
    let parts = vec![participant(7, 200)];
    let champs = vec![(
        7i64,
        Champion { alias: String::from("Lux"), name: String::from("Lux") },
    )];
    let ev = purchase(1000, "Bot Lux#TEAM:200#CNAME:Ahri", 3031);
    assert_eq!(convert_live_event(&ev, &ids, &parts, &champs), None);
}

#[test]
fn cname_with_wrong_team_drops_event() {
    let ids = vec![identity(7, "Bot Lux", "BOT")];
    let parts = vec![participant(7, 100)];
    let champs = vec![(
        7i64,
        Champion { alias: String::from("Lux"), name: String::from("Lux") },
    )];
    let ev = purchase(1000, "Bot Lux#TEAM:200#CNAME:Lux", 3031);
    assert_eq!(convert_live_event(&ev, &ids, &parts, &champs), None);
}

#[test]
fn idx_tag_resolves_directly() {
    let tags = parse_shopper_name("Bot Lux#IDX:3");
    assert_eq!(tags.base, String::from("Bot Lux"));
    assert_eq!(tags.idx, Some(3));
    let r = resolve_participant(&tags, &Vec::new(), &Vec::new(), &Vec::new());
    assert_eq!(r, Some(4));
}

#[test]
fn idx_out_of_range_falls_back() {
    // a two-digit index cannot come from the ten-player list
    let tags = parse_shopper_name("Someone#IDX:12");
    assert_eq!(tags.idx, None);
}

#[test]
fn team_side_words() {
    let tags = parse_shopper_name("A#TEAM:CHAOS");
    assert_eq!(tags.team, Some(200));
    assert_eq!(tags.base, String::from("A"));
    let tags = parse_shopper_name("A#TEAM:Order");
    assert_eq!(tags.team, Some(100));
    let tags = parse_shopper_name("A#TEAM:XYZ");
    // an unknown side is stripped but yields no hint
    assert_eq!(tags.team, None);
    assert_eq!(tags.base, String::from("A"));
}

#[test]
fn plain_name_has_no_tags() {
    let tags = parse_shopper_name("Faker");
    assert_eq!(tags.base, String::from("Faker"));
    assert_eq!(tags.idx, None);
    assert_eq!(tags.team, None);
    assert_eq!(tags.cname, None);
}

#[test]
fn full_riot_id_matches() {
    let ids = vec![identity(2, "Faker", "KR1")];
    let parts = vec![participant(2, 100)];
    let tags = parse_shopper_name("Faker#KR1");
    // the tag line is parsed as part of the base name, and substring
    // containment of the game name still matches
    let r = resolve_participant(&tags, &ids, &parts, &Vec::new());
    assert_eq!(r, Some(2));
}

#[test]
fn substring_matches_bot_names() {
    let ids = vec![identity(9, "Lux", "BOT")];
    let parts = vec![participant(9, 200)];
    let tags = parse_shopper_name("Bot Lux");
    let r = resolve_participant(&tags, &ids, &parts, &Vec::new());
    assert_eq!(r, Some(9));
}

#[test]
fn team_hint_disambiguates_inferred_side() {
    // no team records: sides are inferred from the participant id
    let ids = vec![identity(2, "Lux", "A"), identity(7, "Lux", "B")];
    let parts: Vec<Participant> = Vec::new();
    let tags = parse_shopper_name("Lux#TEAM:200");
    let r = resolve_participant(&tags, &ids, &parts, &Vec::new());
    assert_eq!(r, Some(7));
}

#[test]
fn unmatched_event_dropped() {
    let ids = vec![identity(1, "Alice", "EUW")];
    let parts = vec![participant(1, 100)];
    let ev = purchase(500, "Bogus", 1001);
    assert_eq!(convert_live_event(&ev, &ids, &parts, &Vec::new()), None);
}

#[test]
fn resolved_ids_stay_in_range() {
    let ids: Vec<ParticipantIdentity> =
        (1..=10).map(|i| identity(i, &format!("P{}", i), "T")).collect();
    let parts: Vec<Participant> =
        (1..=10).map(|i| participant(i, if i <= 5 { 100 } else { 200 })).collect();
    for name in ["P3", "P10#IDX:9", "P7#TEAM:200", "nobody#IDX:0"] {
        let tags = parse_shopper_name(name);
        if let Some(pid) = resolve_participant(&tags, &ids, &parts, &Vec::new()) {
            assert!((1..=10).contains(&pid), "{} resolved out of range", name);
        }
    }
}

#[test]
fn merged_events_sorted_by_timestamp() {
    let ids = vec![identity(1, "Alice", "EUW")];
    let parts = vec![participant(1, 100)];
    let current = vec![
        GameEvent { timestamp: 2000, event: Event::Kill { victim_id: 6 } },
        GameEvent { timestamp: 5000, event: Event::Dragon { killer_id: 1 } },
    ];
    let live = vec![
        purchase(4000, "Alice", 1001),
        purchase(1000, "Alice", 1052),
    ];
    let merged = merge_live_events(current, &live, &ids, &parts, &Vec::new());
    assert_eq!(merged.len(), 4);
    for w in merged.windows(2) {
        assert!(w[0].timestamp <= w[1].timestamp);
    }
    assert_eq!(merged[0].timestamp, 1000);
    assert_eq!(merged[3].timestamp, 5000);
}

#[test]
fn ties_keep_timeline_events_first() {
    let ids = vec![identity(1, "Alice", "EUW")];
    let parts = vec![participant(1, 100)];
    let current = vec![GameEvent { timestamp: 1000, event: Event::Kill { victim_id: 6 } }];
    let live = vec![purchase(1000, "Alice", 1001)];
    let merged = merge_live_events(current, &live, &ids, &parts, &Vec::new());
    assert_eq!(merged.len(), 2);
    assert_eq!(merged[0].event, Event::Kill { victim_id: 6 });
    assert_eq!(
        merged[1].event,
        Event::ItemPurchased { participant_id: 1, item_id: 1001, slot: Some(0) }
    );
}

#[test]
fn undo_event_converts_with_gold() {
    let ids = vec![identity(1, "Alice", "EUW")];
    let parts = vec![participant(1, 100)];
    let ev = LiveEvent::ItemUndo {
        event_id: 17,
        event_time_ms: 2500,
        shopper_name: String::from("Alice"),
        item_before: LiveItem { item_id: 3031, slot: 1 },
        item_after: LiveItem { item_id: 1038, slot: 1 },
        gold_gain: 425,
    };
    let got = convert_live_event(&ev, &ids, &parts, &Vec::new());
    assert_eq!(
        got,
        Some(GameEvent {
            timestamp: 2500,
            event: Event::ItemUndo {
                participant_id: 1,
                before_id: 3031,
                after_id: 1038,
                gold_gain: 425,
            },
        })
    );
}

#[test]
fn non_shop_live_events_ignored_by_merge() {
    let ids = vec![identity(1, "Alice", "EUW")];
    let parts = vec![participant(1, 100)];
    let live = vec![LiveEvent::Other { event_id: 4, event_time_ms: 900 }];
    let merged = merge_live_events(Vec::new(), &live, &ids, &parts, &Vec::new());
    assert!(merged.is_empty());
}
