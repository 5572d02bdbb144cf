//! The game session listener: a state machine that consumes gameflow
//! events and manual start/stop signals and decides when a recording
//! begins, ends, and when post-match metadata collection is launched.
//!
//! The listener is pure: it returns the action the surrounding runtime
//! must perform (start the capture tasks, stop them, spawn the metadata
//! collector), and the runtime reports completions back through
//! [`GameListener::recording_started`] and [`GameListener::recording_stopped`].

use vstd::prelude::*;

use crate::modes::{mode_allowed, spec_mode_allowed};
use crate::types::{GamePhase, SessionEventData, SubscriptionResponse};

verus! {

/// Where the listener currently stands. `Starting` and `Stopping` cover
/// the window in which the runtime is performing the requested effect;
/// the listener consumes no further events until the effect is reported.
#[derive(Clone, Copy, Debug, PartialEq, Eq)]
pub enum ListenerState {
    Idle,
    Starting { game_id: i64 },
    Recording { game_id: i64, start_lp: Option<i64> },
    Stopping { game_id: i64, start_lp: Option<i64>, was_manual: bool },
    EndOfGame { game_id: i64, start_lp: Option<i64> },
}

/// The effect the runtime must perform after a transition.
#[derive(Clone, Copy, Debug, PartialEq, Eq)]
pub enum SessionAction {
    /// Spawn the live poller, the capture task and the highlight task.
    /// When `fetch_lp` is set the game is ranked and the current league
    /// points should be read first (best effort).
    StartRecording { game_id: i64, fetch_lp: bool },
    /// Stop the highlight task, abort the live poller, stop the capture.
    StopRecording { was_manual: bool },
    /// Spawn a detached metadata collection for the finished game.
    CollectMetadata { game_id: i64, start_lp: Option<i64> },
}

/// What the runtime should do once a recording stop was attempted.
#[derive(Clone, Copy, Debug, PartialEq, Eq)]
pub struct StopReport {
    /// Emit the recording-finished notification (stop succeeded).
    pub emit_finished: bool,
    /// The stop was triggered by the user, not by a gameflow phase.
    pub was_manual: bool,
    /// Raise the main window (automatic stop with auto-popup enabled).
    pub raise_window: bool,
}

/// The session listener with its double-record guard.
pub struct GameListener {
    pub state: ListenerState,
    pub last_stopped_game_id: Option<i64>,
}

/// Phases on which an idle listener starts recording.
pub open spec fn spec_starts(phase: GamePhase) -> bool {
    phase == GamePhase::GameStart || phase == GamePhase::InProgress
}

/// Phases on which a recording listener stops.
pub open spec fn spec_stops(phase: GamePhase) -> bool {
    ||| phase == GamePhase::FailedToLaunch
    ||| phase == GamePhase::Reconnect
    ||| phase == GamePhase::WaitingForStats
    ||| phase == GamePhase::PreEndOfGame
}

/// Phases whose session event triggers metadata collection after a game.
pub open spec fn spec_collects(phase: GamePhase) -> bool {
    ||| phase == GamePhase::EndOfGame
    ||| phase == GamePhase::TerminatedInError
    ||| phase == GamePhase::ChampSelect
    ||| phase == GamePhase::GameStart
}

/// The transition relation for a subscription event: the successor
/// listener and the action handed to the runtime.
pub open spec fn spec_step_event(
    pre: GameListener,
    resp: SubscriptionResponse,
    allowed: Option<Vec<String>>,
) -> (GameListener, Option<SessionAction>) {
    match pre.state {
        ListenerState::Idle => match resp {
            SubscriptionResponse::Session(data) => {
                if spec_starts(data.phase) && Some(data.game_data.game_id)
                    != pre.last_stopped_game_id && spec_mode_allowed(
                    data.game_data.queue.id,
                    data.game_data.game_mode,
                    allowed,
                ) {
                    (
                        GameListener {
                            state: ListenerState::Starting { game_id: data.game_data.game_id },
                            last_stopped_game_id: None,
                        },
                        Some(
                            SessionAction::StartRecording {
                                game_id: data.game_data.game_id,
                                fetch_lp: data.game_data.queue.is_ranked,
                            },
                        ),
                    )
                } else {
                    (pre, None)
                }
            },
            _ => (pre, None),
        },
        ListenerState::Recording { game_id, start_lp } => match resp {
            SubscriptionResponse::Session(data) => {
                if spec_stops(data.phase) {
                    (
                        GameListener {
                            state: ListenerState::Stopping { game_id, start_lp, was_manual: false },
                            last_stopped_game_id: Some(game_id),
                        },
                        Some(SessionAction::StopRecording { was_manual: false }),
                    )
                } else {
                    (pre, None)
                }
            },
            _ => (pre, None),
        },
        ListenerState::EndOfGame { game_id, start_lp } => {
            let triggers = match resp {
                SubscriptionResponse::EogStatsBlock => true,
                SubscriptionResponse::Session(data) => spec_collects(data.phase),
            };
            if triggers {
                (
                    GameListener { state: ListenerState::Idle, ..pre },
                    Some(SessionAction::CollectMetadata { game_id, start_lp }),
                )
            } else {
                (pre, None)
            }
        },
        _ => (pre, None),
    }
}

/// The transition relation for a manual start, fed with a fresh poll of
/// the gameflow session. A manual start is honoured from `Idle` (unless
/// the double-record guard names the same game) and from `EndOfGame`
/// (user override: the pending collection is dropped); it never
/// interrupts a running recording. No league points are fetched.
pub open spec fn spec_step_manual_start(pre: GameListener, data: SessionEventData) -> (
    GameListener,
    Option<SessionAction>,
) {
    if !spec_starts(data.phase) {
        (pre, None)
    } else {
        let start = (
            GameListener {
                state: ListenerState::Starting { game_id: data.game_data.game_id },
                ..pre
            },
            Some(
                SessionAction::StartRecording { game_id: data.game_data.game_id, fetch_lp: false },
            ),
        );
        match pre.state {
            ListenerState::Idle => {
                if Some(data.game_data.game_id) == pre.last_stopped_game_id {
                    (pre, None)
                } else {
                    start
                }
            },
            ListenerState::EndOfGame { .. } => start,
            _ => (pre, None),
        }
    }
}

/// The transition relation for a manual stop: only a running recording
/// is stopped; the signal is ignored elsewhere.
pub open spec fn spec_step_manual_stop(pre: GameListener) -> (GameListener, Option<SessionAction>) {
    match pre.state {
        ListenerState::Recording { game_id, start_lp } => (
            GameListener {
                state: ListenerState::Stopping { game_id, start_lp, was_manual: true },
                last_stopped_game_id: Some(game_id),
            },
            Some(SessionAction::StopRecording { was_manual: true }),
        ),
        _ => (pre, None),
    }
}

impl GameListener {
    /// A fresh listener: idle, with no game suppressed.
    pub fn new() -> (r: GameListener)
        ensures
            r.state == ListenerState::Idle,
            r.last_stopped_game_id is None,
    {
        GameListener { state: ListenerState::Idle, last_stopped_game_id: None }
    }

    /// Consume one subscription event; returns the action to perform.
    pub fn handle_event(
        &mut self,
        resp: &SubscriptionResponse,
        allowed_modes: &Option<Vec<String>>,
    ) -> (r: Option<SessionAction>)
        ensures
            (*final(self), r) == spec_step_event(*old(self), *resp, *allowed_modes),
    {
        match self.state {
            ListenerState::Idle => match resp {
                SubscriptionResponse::Session(data) => {
                    let starts = match data.phase {
                        GamePhase::GameStart | GamePhase::InProgress => true,
                        _ => false,
                    };
                    let not_suppressed = match self.last_stopped_game_id {
                        Some(g) => g != data.game_data.game_id,
                        None => true,
                    };
                    if starts && not_suppressed && mode_allowed(
                        data.game_data.queue.id,
                        &data.game_data.game_mode,
                        allowed_modes,
                    ) {
                        self.state = ListenerState::Starting { game_id: data.game_data.game_id };
                        self.last_stopped_game_id = None;
                        Some(
                            SessionAction::StartRecording {
                                game_id: data.game_data.game_id,
                                fetch_lp: data.game_data.queue.is_ranked,
                            },
                        )
                    } else {
                        None
                    }
                },
                _ => None,
            },
            ListenerState::Recording { game_id, start_lp } => match resp {
                SubscriptionResponse::Session(data) => {
                    let stops = match data.phase {
                        GamePhase::FailedToLaunch
                        | GamePhase::Reconnect
                        | GamePhase::WaitingForStats
                        | GamePhase::PreEndOfGame => true,
                        _ => false,
                    };
                    if stops {
                        self.state = ListenerState::Stopping {
                            game_id,
                            start_lp,
                            was_manual: false,
                        };
                        self.last_stopped_game_id = Some(game_id);
                        Some(SessionAction::StopRecording { was_manual: false })
                    } else {
                        None
                    }
                },
                _ => None,
            },
            ListenerState::EndOfGame { game_id, start_lp } => {
                let triggers = match resp {
                    SubscriptionResponse::EogStatsBlock => true,
                    SubscriptionResponse::Session(data) => match data.phase {
                        GamePhase::EndOfGame
                        | GamePhase::TerminatedInError
                        | GamePhase::ChampSelect
                        | GamePhase::GameStart => true,
                        _ => false,
                    },
                };
                if triggers {
                    self.state = ListenerState::Idle;
                    Some(SessionAction::CollectMetadata { game_id, start_lp })
                } else {
                    None
                }
            },
            _ => None,
        }
    }

    /// Consume a manual start signal, fed with the freshly polled session.
    pub fn handle_manual_start(&mut self, data: &SessionEventData) -> (r: Option<SessionAction>)
        ensures
            (*final(self), r) == spec_step_manual_start(*old(self), *data),
    {
        let starts = match data.phase {
            GamePhase::GameStart | GamePhase::InProgress => true,
            _ => false,
        };
        if !starts {
            return None;
        }
        let may_start = match self.state {
            ListenerState::Idle => match self.last_stopped_game_id {
                Some(g) => g != data.game_data.game_id,
                None => true,
            },
            ListenerState::EndOfGame { .. } => true,
            _ => false,
        };
        if may_start {
            self.state = ListenerState::Starting { game_id: data.game_data.game_id };
            Some(SessionAction::StartRecording { game_id: data.game_data.game_id, fetch_lp: false })
        } else {
            None
        }
    }

    /// Consume a manual stop signal.
    pub fn handle_manual_stop(&mut self) -> (r: Option<SessionAction>)
        ensures
            (*final(self), r) == spec_step_manual_stop(*old(self)),
    {
        match self.state {
            ListenerState::Recording { game_id, start_lp } => {
                self.state = ListenerState::Stopping { game_id, start_lp, was_manual: true };
                self.last_stopped_game_id = Some(game_id);
                Some(SessionAction::StopRecording { was_manual: true })
            },
            _ => None,
        }
    }

    /// The runtime reports that the capture tasks are up, together with
    /// the league points read at start (if any were requested).
    pub fn recording_started(&mut self, start_lp: Option<i64>)
        ensures
            final(self).last_stopped_game_id == old(self).last_stopped_game_id,
            match old(self).state {
                ListenerState::Starting { game_id } => final(self).state
                    == (ListenerState::Recording { game_id, start_lp }),
                _ => final(self).state == old(self).state,
            },
    {
        if let ListenerState::Starting { game_id } = self.state {
            self.state = ListenerState::Recording { game_id, start_lp };
        }
    }

    /// The runtime reports the outcome of the capture stop. On success
    /// the listener waits for end-of-game data; on failure it returns to
    /// idle and the sidecar for the game is lost.
    pub fn recording_stopped(&mut self, stop_ok: bool, auto_popup_on_end: bool) -> (r: StopReport)
        ensures
            final(self).last_stopped_game_id == old(self).last_stopped_game_id,
            match old(self).state {
                ListenerState::Stopping { game_id, start_lp, was_manual } => {
                    &&& final(self).state == if stop_ok {
                        ListenerState::EndOfGame { game_id, start_lp }
                    } else {
                        ListenerState::Idle
                    }
                    &&& r.emit_finished == stop_ok
                    &&& r.was_manual == was_manual
                    &&& r.raise_window == (stop_ok && !was_manual && auto_popup_on_end)
                },
                _ => final(self).state == old(self).state && r == (StopReport {
                    emit_finished: false,
                    was_manual: false,
                    raise_window: false,
                }),
            },
    {
        match self.state {
            ListenerState::Stopping { game_id, start_lp, was_manual } => {
                if stop_ok {
                    self.state = ListenerState::EndOfGame { game_id, start_lp };
                } else {
                    self.state = ListenerState::Idle;
                }
                StopReport {
                    emit_finished: stop_ok,
                    was_manual,
                    raise_window: stop_ok && !was_manual && auto_popup_on_end,
                }
            },
            _ => StopReport { emit_finished: false, was_manual: false, raise_window: false },
        }
    }
}

/// The double-record guard is idempotent: an idle listener that last
/// stopped on game `g` never starts on a session event for `g`, and the
/// event leaves it unchanged, so replaying the event any number of times
/// still never starts a recording.
pub proof fn lemma_suppression_idempotent(
    pre: GameListener,
    data: SessionEventData,
    allowed: Option<Vec<String>>,
)
    requires
        pre.state == ListenerState::Idle,
        pre.last_stopped_game_id == Some(data.game_data.game_id),
    ensures
        spec_step_event(pre, SubscriptionResponse::Session(data), allowed) == (
            pre,
            None::<SessionAction>,
        ),
{
}

} // verus!
