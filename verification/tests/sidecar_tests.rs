use league_record::events::{Event, GameEvent};
use league_record::sidecar::{
    deferred_from_json, deferred_to_json, metadata_file_to_json, metadata_from_json,
    metadata_to_json, obj_get, stats_from_json, stats_to_json, JsonValue,
};
use league_record::types::{
    Ban, DeferredMetadata, GameMetadata, GoldFrame, MatchId, MatchTeam, MetadataFile,
    ParticipantGold, ParticipantSummary, Player, Queue, Stats,
};

fn sample_stats() -> Stats {
    Stats {
        kills: 7,
        deaths: 2,
        assists: 11,
        largest_multi_kill: 2,
        neutral_minions_killed: 12,
        neutral_minions_killed_enemy_jungle: 3,
        neutral_minions_killed_team_jungle: 9,
        total_minions_killed: 188,
        vision_score: 21,
        vision_wards_bought_in_game: 4,
        wards_placed: 9,
        wards_killed: 3,
        game_ended_in_early_surrender: false,
        game_ended_in_surrender: true,
        win: true,
        item0: 3031,
        item1: 1038,
        item2: 0,
        item3: 3006,
        item4: 0,
        item5: 0,
        item6: 3363,
        perk0: 8005,
        perk1: 9111,
        perk2: 9104,
        perk3: 8014,
        perk4: 8009,
        perk5: 8017,
        perk_primary_style: 8000,
        perk_sub_style: 8400,
        gold_earned: 14250,
    }
}

fn sample_metadata() -> GameMetadata {
    GameMetadata {
        favorite: true,
        match_id: MatchId { game_id: 42, platform_id: String::from("EUW1") },
        ingame_time_rec_start_offset_ms: 11_500,
        highlights_ms: vec![90_000, 310_000],
        queue: Queue { id: 420, name: String::from("Ranked Solo/Duo"), is_ranked: true },
        player: Player {
            game_name: String::from("Alice"),
            tag_line: String::from("EUW"),
            summoner_id: Some(12345),
        },
        champion_name: String::from("Lux"),
        stats: sample_stats(),
        participant_id: 3,
        participants: vec![ParticipantSummary {
            participant_id: 3,
            team_id: 100,
            champion_id: 99,
            spell1_id: 4,
            spell2_id: 14,
            stats: sample_stats(),
            lane: String::from("MIDDLE"),
            role: String::from("SOLO"),
            summoner_name: String::from("Alice#EUW"),
        }],
        teams: vec![MatchTeam {
            team_id: 100,
            win: Some(String::from("Win")),
            tower_kills: 9,
            inhibitor_kills: 2,
            baron_kills: 1,
            dragon_kills: 3,
            vilemaw_kills: 0,
            rift_herald_kills: 1,
            dominion_victory_score: 0,
            bans: vec![Ban { champion_id: 157, pick_turn: 1 }],
        }],
        events: vec![
            GameEvent { timestamp: 65_000, event: Event::Kill { victim_id: 6 } },
            GameEvent {
                timestamp: 120_000,
                event: Event::ItemPurchased { participant_id: 3, item_id: 3031, slot: Some(0) },
            },
        ],
        gold_timeline: vec![GoldFrame {
            timestamp: 60_000,
            participants: vec![ParticipantGold { participant_id: 3, total_gold: 512, minions: 18 }],
        }],
        game_version: String::from("14.23.1"),
        lp_diff: Some(18),
    }
}

#[test]
fn metadata_round_trip() {
    let m = sample_metadata();
    let json = metadata_to_json(&m);
    let back = metadata_from_json(&json).expect("round trip must parse");
    assert_eq!(back, m);
    assert_eq!(back.player.summoner_id, m.player.summoner_id);
}

#[test]
fn metadata_round_trip_without_lp() {
    let mut m = sample_metadata();
    m.lp_diff = None;
    m.player.summoner_id = None;
    m.teams[0].win = None;
    let json = metadata_to_json(&m);
    let back = metadata_from_json(&json).expect("round trip must parse");
    assert_eq!(back, m);
    assert_eq!(back.lp_diff, None);
    assert_eq!(back.teams[0].win, None);
}

#[test]
fn metadata_uses_camel_case_keys() {
    let m = sample_metadata();
    let json = metadata_to_json(&m);
    let fields = match &json {
        JsonValue::Obj(fields) => fields,
        other => panic!("expected an object, got {:?}", other),
    };
    for key in [
        "favorite",
        "matchId",
        "ingameTimeRecStartOffset",
        "highlights",
        "queue",
        "player",
        "championName",
        "stats",
        "participantId",
        "participants",
        "teams",
        "events",
        "goldTimeline",
        "gameVersion",
        "lpDiff",
    ] {
        assert!(obj_get(fields, key).is_some(), "missing key {}", key);
    }
    match obj_get(fields, "matchId") {
        Some(JsonValue::Obj(mf)) => {
            assert!(matches!(obj_get(mf, "gameId"), Some(JsonValue::Int(42))));
            assert!(matches!(obj_get(mf, "platformId"), Some(JsonValue::Str(_))));
        }
        other => panic!("matchId should be an object, got {:?}", other),
    }
}

#[test]
fn stats_round_trip() {
    let s = sample_stats();
    let json = stats_to_json(&s);
    assert_eq!(stats_from_json(&json), Some(s));
}

#[test]
fn stats_rejects_missing_field() {
    let s = sample_stats();
    let json = stats_to_json(&s);
    let mut fields = match json {
        JsonValue::Obj(fields) => fields,
        _ => unreachable!(),
    };
    fields.retain(|(k, _)| k != "goldEarned");
    assert_eq!(stats_from_json(&JsonValue::Obj(fields)), None);
}

#[test]
fn metadata_parse_rejects_non_object() {
    assert_eq!(metadata_from_json(&JsonValue::Int(3)), None);
    assert_eq!(metadata_from_json(&JsonValue::Arr(Vec::new())), None);
}

#[test]
fn event_parse_rejects_unknown_type() {
    let m = sample_metadata();
    let json = metadata_to_json(&m);
    let mut fields = match json {
        JsonValue::Obj(fields) => fields,
        _ => unreachable!(),
    };
    for (k, v) in fields.iter_mut() {
        if k == "events" {
            *v = JsonValue::Arr(vec![JsonValue::Obj(vec![
                (String::from("timestamp"), JsonValue::Int(1)),
                (String::from("type"), JsonValue::Str(String::from("Recall"))),
            ])]);
        }
    }
    assert_eq!(metadata_from_json(&JsonValue::Obj(fields)), None);
}

#[test]
fn deferred_round_trip() {
    let d = DeferredMetadata { favorite: true, highlights_ms: vec![5_000, 9_000] };
    let json = deferred_to_json(&d);
    assert_eq!(deferred_from_json(&json), Some(d));
}

#[test]
fn metadata_file_wraps_deferred() {
    let d = DeferredMetadata { favorite: false, highlights_ms: vec![1_000] };
    let json = metadata_file_to_json(&MetadataFile::Deferred(d.clone()));
    let fields = match &json {
        JsonValue::Obj(fields) => fields,
        other => panic!("expected an object, got {:?}", other),
    };
    let inner = obj_get(fields, "deferred").expect("deferred key");
    assert_eq!(deferred_from_json(inner), Some(d));
}

#[test]
fn metadata_file_metadata_has_no_deferred_key() {
    let json = metadata_file_to_json(&MetadataFile::Metadata(sample_metadata()));
    let fields = match &json {
        JsonValue::Obj(fields) => fields,
        other => panic!("expected an object, got {:?}", other),
    };
    assert!(obj_get(fields, "deferred").is_none());
    assert_eq!(metadata_from_json(&json), Some(sample_metadata()));
}
