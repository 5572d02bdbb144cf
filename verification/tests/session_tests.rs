use league_record::session::{GameListener, ListenerState, SessionAction};
use league_record::types::{
    GameData, GamePhase, Queue, SessionEventData, SubscriptionResponse,
};

fn session_event(phase: GamePhase, game_id: i64, queue_id: i64, is_ranked: bool) -> SubscriptionResponse {
    SubscriptionResponse::Session(session_data(phase, game_id, queue_id, is_ranked))
}

fn session_data(phase: GamePhase, game_id: i64, queue_id: i64, is_ranked: bool) -> SessionEventData {
    SessionEventData {
        phase,
        game_data: GameData {
            game_id,
            queue: Queue {
                id: queue_id,
                name: String::from("Ranked Solo/Duo"),
                is_ranked,
            },
            game_mode: None,
        },
    }
}

#[test]
fn happy_path_lifecycle() {
    let mut l = GameListener::new();
    let start = l.handle_event(&session_event(GamePhase::GameStart, 42, 420, true), &None);
    assert_eq!(start, Some(SessionAction::StartRecording { game_id: 42, fetch_lp: true }));
    l.recording_started(Some(37));
    assert_eq!(l.state, ListenerState::Recording { game_id: 42, start_lp: Some(37) });

    // unrelated events while recording are ignored
    let mid = l.handle_event(&session_event(GamePhase::InProgress, 42, 420, true), &None);
    assert_eq!(mid, None);

    let stop = l.handle_event(&session_event(GamePhase::PreEndOfGame, 42, 420, true), &None);
    assert_eq!(stop, Some(SessionAction::StopRecording { was_manual: false }));
    let report = l.recording_stopped(true, false);
    assert!(report.emit_finished);
    assert!(!report.was_manual);
    assert!(!report.raise_window);
    assert_eq!(l.state, ListenerState::EndOfGame { game_id: 42, start_lp: Some(37) });

    let collect = l.handle_event(&SubscriptionResponse::EogStatsBlock, &None);
    assert_eq!(collect, Some(SessionAction::CollectMetadata { game_id: 42, start_lp: Some(37) }));
    assert_eq!(l.state, ListenerState::Idle);
    assert_eq!(l.last_stopped_game_id, Some(42));
}

#[test]
fn non_allowed_mode_stays_idle() {
    let allowed = Some(vec![String::from("RANKED")]);
    let mut l = GameListener::new();
    let r = l.handle_event(&session_event(GamePhase::GameStart, 9, 450, false), &allowed);
    assert_eq!(r, None);
    assert_eq!(l.state, ListenerState::Idle);
}

#[test]
fn allowed_mode_case_insensitive() {
    let allowed = Some(vec![String::from("ranked")]);
    let mut l = GameListener::new();
    let r = l.handle_event(&session_event(GamePhase::GameStart, 9, 420, true), &allowed);
    assert_eq!(r, Some(SessionAction::StartRecording { game_id: 9, fetch_lp: true }));
}

#[test]
fn empty_allow_list_allows_everything() {
    let allowed = Some(Vec::new());
    let mut l = GameListener::new();
    let r = l.handle_event(&session_event(GamePhase::GameStart, 9, 450, false), &allowed);
    assert_eq!(r, Some(SessionAction::StartRecording { game_id: 9, fetch_lp: false }));
}

#[test]
fn manual_stop_mid_game() {
    let mut l = GameListener::new();
    l.handle_event(&session_event(GamePhase::GameStart, 5, 420, false), &None);
    l.recording_started(None);
    let r = l.handle_manual_stop();
    assert_eq!(r, Some(SessionAction::StopRecording { was_manual: true }));
    // auto popup enabled, but a manual stop suppresses it
    let report = l.recording_stopped(true, true);
    assert!(report.emit_finished);
    assert!(report.was_manual);
    assert!(!report.raise_window);
    assert_eq!(l.state, ListenerState::EndOfGame { game_id: 5, start_lp: None });
}

#[test]
fn automatic_stop_raises_window() {
    let mut l = GameListener::new();
    l.handle_event(&session_event(GamePhase::GameStart, 5, 420, false), &None);
    l.recording_started(None);
    l.handle_event(&session_event(GamePhase::WaitingForStats, 5, 420, false), &None);
    let report = l.recording_stopped(true, true);
    assert!(report.raise_window);
}

#[test]
fn failed_stop_returns_to_idle() {
    let mut l = GameListener::new();
    l.handle_event(&session_event(GamePhase::GameStart, 5, 420, false), &None);
    l.recording_started(None);
    l.handle_event(&session_event(GamePhase::FailedToLaunch, 5, 420, false), &None);
    let report = l.recording_stopped(false, true);
    assert!(!report.emit_finished);
    assert!(!report.raise_window);
    assert_eq!(l.state, ListenerState::Idle);
}

#[test]
fn double_record_guard() {
    let mut l = GameListener::new();
    l.handle_event(&session_event(GamePhase::GameStart, 1, 420, false), &None);
    l.recording_started(None);
    l.handle_event(&session_event(GamePhase::PreEndOfGame, 1, 420, false), &None);
    l.recording_stopped(true, false);
    l.handle_event(&SubscriptionResponse::EogStatsBlock, &None);
    assert_eq!(l.state, ListenerState::Idle);
    assert_eq!(l.last_stopped_game_id, Some(1));

    // the client replays the in-progress session of the stopped game
    let r = l.handle_event(&session_event(GamePhase::InProgress, 1, 420, false), &None);
    assert_eq!(r, None);
    assert_eq!(l.state, ListenerState::Idle);
}

#[test]
fn suppression_is_idempotent() {
    let mut l = GameListener::new();
    l.last_stopped_game_id = Some(7);
    for _ in 0..3 {
        let r = l.handle_event(&session_event(GamePhase::InProgress, 7, 420, false), &None);
        assert_eq!(r, None);
        assert_eq!(l.state, ListenerState::Idle);
        assert_eq!(l.last_stopped_game_id, Some(7));
    }
    // a different game still starts
    let r = l.handle_event(&session_event(GamePhase::GameStart, 8, 420, true), &None);
    assert_eq!(r, Some(SessionAction::StartRecording { game_id: 8, fetch_lp: true }));
    assert_eq!(l.last_stopped_game_id, None);
}

#[test]
fn manual_start_from_idle() {
    let mut l = GameListener::new();
    let r = l.handle_manual_start(&session_data(GamePhase::InProgress, 3, 420, true));
    assert_eq!(r, Some(SessionAction::StartRecording { game_id: 3, fetch_lp: false }));
    assert_eq!(l.state, ListenerState::Starting { game_id: 3 });
}

#[test]
fn manual_start_respects_guard_from_idle() {
    let mut l = GameListener::new();
    l.last_stopped_game_id = Some(3);
    let r = l.handle_manual_start(&session_data(GamePhase::InProgress, 3, 420, true));
    assert_eq!(r, None);
    assert_eq!(l.state, ListenerState::Idle);
}

#[test]
fn manual_start_overrides_from_end_of_game() {
    let mut l = GameListener::new();
    l.state = ListenerState::EndOfGame { game_id: 3, start_lp: None };
    l.last_stopped_game_id = Some(3);
    let r = l.handle_manual_start(&session_data(GamePhase::GameStart, 3, 420, true));
    assert_eq!(r, Some(SessionAction::StartRecording { game_id: 3, fetch_lp: false }));
}

#[test]
fn manual_start_ignored_while_recording() {
    let mut l = GameListener::new();
    l.handle_event(&session_event(GamePhase::GameStart, 3, 420, false), &None);
    l.recording_started(None);
    let r = l.handle_manual_start(&session_data(GamePhase::InProgress, 4, 420, true));
    assert_eq!(r, None);
    assert_eq!(l.state, ListenerState::Recording { game_id: 3, start_lp: None });
}

#[test]
fn manual_start_ignored_outside_game() {
    let mut l = GameListener::new();
    let r = l.handle_manual_start(&session_data(GamePhase::Lobby, 3, 420, true));
    assert_eq!(r, None);
}

#[test]
fn manual_stop_ignored_when_idle() {
    let mut l = GameListener::new();
    assert_eq!(l.handle_manual_stop(), None);
    l.state = ListenerState::EndOfGame { game_id: 1, start_lp: None };
    assert_eq!(l.handle_manual_stop(), None);
}
