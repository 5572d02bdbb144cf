use league_record::collector::{
    build_game_metadata, compute_lp_diff, convert_raw_event, fallback_queue, gold_timeline,
    local_queue, retry_step, swarm_champion_name, CollectError, RetryDecision,
    MAX_COLLECT_ATTEMPTS,
};
use league_record::events::{Event, GameEvent, LiveEvent, LiveItem};
use league_record::types::{
    Game, MatchId, MatchTeam, Participant, ParticipantFrame, ParticipantIdentity,
    ParticipantTimeline, Player, Queue, RawTimelineEvent, Stats, Timeline, TimelineFrame,
};

fn zero_stats() -> Stats {
    Stats {
        kills: 0,
        deaths: 0,
        assists: 0,
        largest_multi_kill: 0,
        neutral_minions_killed: 0,
        neutral_minions_killed_enemy_jungle: 0,
        neutral_minions_killed_team_jungle: 0,
        total_minions_killed: 0,
        vision_score: 0,
        vision_wards_bought_in_game: 0,
        wards_placed: 0,
        wards_killed: 0,
        game_ended_in_early_surrender: false,
        game_ended_in_surrender: false,
        win: false,
        item0: 0,
        item1: 0,
        item2: 0,
        item3: 0,
        item4: 0,
        item5: 0,
        item6: 0,
        perk0: 0,
        perk1: 0,
        perk2: 0,
        perk3: 0,
        perk4: 0,
        perk5: 0,
        perk_primary_style: 0,
        perk_sub_style: 0,
        gold_earned: 0,
    }
}

fn raw_event(event_type: &str, timestamp: i64) -> RawTimelineEvent {
    RawTimelineEvent {
        timestamp,
        event_type: String::from(event_type),
        killer_id: None,
        victim_id: None,
        assisting_participant_ids: Vec::new(),
        monster_type: None,
        building_type: None,
    }
}

fn sample_game(early_surrender: bool) -> Game {
    let mut participants = Vec::new();
    let mut identities = Vec::new();
    for pid in 1..=2i64 {
        let mut stats = zero_stats();
        stats.game_ended_in_early_surrender = early_surrender;
        participants.push(Participant {
            participant_id: pid,
            team_id: if pid == 1 { 100 } else { 200 },
            champion_id: if pid == 1 { 99 } else { 103 },
            spell1_id: 4,
            spell2_id: 14,
            stats,
            timeline: if pid == 1 {
                Some(ParticipantTimeline {
                    lane: String::from("MIDDLE"),
                    role: String::from("SOLO"),
                })
            } else {
                None
            },
        });
        identities.push(ParticipantIdentity {
            participant_id: pid,
            player: Player {
                game_name: String::from(if pid == 1 { "Alice" } else { "Bob" }),
                tag_line: String::from("EUW"),
                summoner_id: Some(1000 + pid),
            },
        });
    }
    Game {
        game_version: String::from("14.23.1"),
        game_id: 42,
        map_id: 11,
        queue_id: 420,
        game_duration: 1800,
        participant_identities: identities,
        participants,
        teams: vec![MatchTeam {
            team_id: 100,
            win: Some(String::from("Win")),
            tower_kills: 5,
            inhibitor_kills: 1,
            baron_kills: 0,
            dragon_kills: 2,
            vilemaw_kills: 0,
            rift_herald_kills: 1,
            dominion_victory_score: 0,
            bans: Vec::new(),
        }],
    }
}

fn sample_timeline() -> Timeline {
    let mut kill = raw_event("CHAMPION_KILL", 65_000);
    kill.killer_id = Some(1);
    kill.victim_id = Some(2);
    let mut dragon = raw_event("ELITE_MONSTER_KILL", 600_000);
    dragon.killer_id = Some(2);
    dragon.monster_type = Some(String::from("DRAGON"));
    let unknown = raw_event("WARD_PLACED", 70_000);
    Timeline {
        frames: vec![TimelineFrame {
            timestamp: 60_000,
            events: vec![kill, unknown, dragon],
            participant_frames: vec![ParticipantFrame {
                participant_id: 1,
                total_gold: 512,
                minions_killed: 15,
                jungle_minions_killed: 3,
            }],
        }],
    }
}

fn alice() -> Player {
    Player {
        game_name: String::from("Alice"),
        tag_line: String::from("EUW"),
        // deliberately absent: identity is (game name, tag line) alone
        summoner_id: None,
    }
}

#[test]
fn happy_path_metadata() {
    let game = sample_game(false);
    let timeline = sample_timeline();
    let live = vec![LiveEvent::ItemPurchased {
        event_id: 0,
        event_time_ms: 120_000,
        shopper_name: String::from("Alice#IDX:0"),
        item: LiveItem { item_id: 3031, slot: 0 },
    }];
    let queue = Queue { id: 420, name: String::from("Ranked Solo/Duo"), is_ranked: true };
    let start_lp = Some(37i64);
    let end_lp = Some(55i64);
    let m = build_game_metadata(
        MatchId { game_id: 42, platform_id: String::from("EUW1") },
        11_500,
        game,
        &timeline,
        alice(),
        queue,
        String::from("Lux"),
        &live,
        &Vec::new(),
        compute_lp_diff(start_lp, end_lp),
    )
    .expect("metadata must build");

    assert_eq!(m.match_id.game_id, 42);
    assert_eq!(m.participant_id, 1);
    assert_eq!(m.champion_name, String::from("Lux"));
    assert_eq!(m.lp_diff, Some(18));
    assert!(!m.favorite);
    assert!(m.highlights_ms.is_empty());
    // timeline kill + dragon + the live purchase, sorted by time
    assert_eq!(m.events.len(), 3);
    assert_eq!(m.events[0], GameEvent { timestamp: 65_000, event: Event::Kill { victim_id: 2 } });
    assert_eq!(
        m.events[1],
        GameEvent {
            timestamp: 120_000,
            event: Event::ItemPurchased { participant_id: 1, item_id: 3031, slot: Some(0) },
        }
    );
    assert_eq!(
        m.events[2],
        GameEvent { timestamp: 600_000, event: Event::Dragon { killer_id: 2 } }
    );
    // gold projection adds lane and jungle minions
    assert_eq!(m.gold_timeline.len(), 1);
    assert_eq!(m.gold_timeline[0].participants[0].minions, 18);
    // names come from the identities; a missing timeline yields placeholders
    assert_eq!(m.participants[0].summoner_name, String::from("Alice#EUW"));
    assert_eq!(m.participants[1].lane, String::from("NONE"));
}

#[test]
fn remake_keeps_early_surrender_and_no_lp() {
    let game = sample_game(true);
    let timeline = Timeline { frames: Vec::new() };
    let m = build_game_metadata(
        MatchId { game_id: 7, platform_id: String::from("EUW1") },
        0,
        game,
        &timeline,
        alice(),
        fallback_queue(420),
        String::from("Lux"),
        &Vec::new(),
        &Vec::new(),
        compute_lp_diff(Some(37), None),
    )
    .expect("metadata must build");
    assert!(m.stats.game_ended_in_early_surrender);
    assert_eq!(m.lp_diff, None);
    assert!(m.events.is_empty());
    assert!(m.gold_timeline.is_empty());
}

#[test]
fn unknown_player_fails_collection() {
    let game = sample_game(false);
    let nobody = Player {
        game_name: String::from("Mallory"),
        tag_line: String::from("NA"),
        summoner_id: None,
    };
    let r = build_game_metadata(
        MatchId { game_id: 42, platform_id: String::from("EUW1") },
        0,
        game,
        &Timeline { frames: Vec::new() },
        nobody,
        fallback_queue(420),
        String::from("Lux"),
        &Vec::new(),
        &Vec::new(),
        None,
    );
    assert_eq!(r.err(), Some(CollectError::PlayerNotFound));
}

#[test]
fn missing_participant_record_fails_collection() {
    let mut game = sample_game(false);
    // the identity stays, its participant record is gone
    game.participants.retain(|p| p.participant_id != 1);
    let r = build_game_metadata(
        MatchId { game_id: 42, platform_id: String::from("EUW1") },
        0,
        game,
        &Timeline { frames: Vec::new() },
        alice(),
        fallback_queue(420),
        String::from("Lux"),
        &Vec::new(),
        &Vec::new(),
        None,
    );
    assert_eq!(r.err(), Some(CollectError::ParticipantNotFound));
}

#[test]
fn local_queue_resolution() {
    let q = local_queue(-1).expect("practice tool");
    assert_eq!(q.name, String::from("Practicetool"));
    assert!(!q.is_ranked);
    let q = local_queue(0).expect("custom game");
    assert_eq!(q.name, String::from("Custom Game"));
    assert!(local_queue(420).is_none());
    let q = fallback_queue(420);
    assert_eq!(q.name, String::from("Unknown"));
    assert_eq!(q.id, 420);
}

#[test]
fn swarm_champion_overrides() {
    assert_eq!(swarm_champion_name(3156), Some(String::from("Briar")));
    assert_eq!(swarm_champion_name(3147), Some(String::from("Riven")));
    assert_eq!(swarm_champion_name(99), None);
}

#[test]
fn retry_decisions() {
    assert_eq!(retry_step(0, true, true), RetryDecision::Done);
    assert_eq!(retry_step(0, true, false), RetryDecision::Wait);
    assert_eq!(retry_step(0, false, true), RetryDecision::Wait);
    assert_eq!(retry_step(MAX_COLLECT_ATTEMPTS - 1, false, true), RetryDecision::GiveUp);
    assert_eq!(retry_step(MAX_COLLECT_ATTEMPTS - 1, true, true), RetryDecision::Done);
}

#[test]
fn lp_diff_needs_both_readings() {
    assert_eq!(compute_lp_diff(Some(37), Some(55)), Some(18));
    assert_eq!(compute_lp_diff(Some(55), Some(37)), Some(-18));
    assert_eq!(compute_lp_diff(None, Some(55)), None);
    assert_eq!(compute_lp_diff(Some(37), None), None);
    assert_eq!(compute_lp_diff(None, None), None);
}

#[test]
fn raw_event_conversion_relative_to_player() {
    let mut kill = raw_event("CHAMPION_KILL", 1000);
    kill.killer_id = Some(3);
    kill.victim_id = Some(8);
    kill.assisting_participant_ids = vec![4, 5];
    assert_eq!(
        convert_raw_event(&kill, 3),
        Some(GameEvent { timestamp: 1000, event: Event::Kill { victim_id: 8 } })
    );
    assert_eq!(
        convert_raw_event(&kill, 8),
        Some(GameEvent { timestamp: 1000, event: Event::Death { killer_id: 3 } })
    );
    assert_eq!(
        convert_raw_event(&kill, 5),
        Some(GameEvent { timestamp: 1000, event: Event::Assist { victim_id: 8 } })
    );
    assert_eq!(convert_raw_event(&kill, 7), None);
}

#[test]
fn raw_monster_and_building_conversion() {
    let mut m = raw_event("ELITE_MONSTER_KILL", 2000);
    m.killer_id = Some(2);
    m.monster_type = Some(String::from("HORDE"));
    assert_eq!(
        convert_raw_event(&m, 1),
        Some(GameEvent { timestamp: 2000, event: Event::Voidgrub { killer_id: 2 } })
    );
    m.monster_type = Some(String::from("BARON_NASHOR"));
    assert_eq!(
        convert_raw_event(&m, 1),
        Some(GameEvent { timestamp: 2000, event: Event::Baron { killer_id: 2 } })
    );
    m.monster_type = Some(String::from("RIFTHERALD"));
    assert_eq!(
        convert_raw_event(&m, 1),
        Some(GameEvent { timestamp: 2000, event: Event::Herald { killer_id: 2 } })
    );
    let mut b = raw_event("BUILDING_KILL", 3000);
    b.killer_id = Some(4);
    b.building_type = Some(String::from("TOWER_BUILDING"));
    assert_eq!(
        convert_raw_event(&b, 1),
        Some(GameEvent { timestamp: 3000, event: Event::TurretKill { killer_id: 4 } })
    );
    b.building_type = Some(String::from("INHIBITOR_BUILDING"));
    assert_eq!(convert_raw_event(&b, 1), None);
}

#[test]
fn gold_projection_per_frame() {
    let t = sample_timeline();
    let gold = gold_timeline(&t);
    assert_eq!(gold.len(), 1);
    assert_eq!(gold[0].timestamp, 60_000);
    assert_eq!(gold[0].participants[0].participant_id, 1);
    assert_eq!(gold[0].participants[0].total_gold, 512);
    assert_eq!(gold[0].participants[0].minions, 18);
}
