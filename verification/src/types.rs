//! Core data model: the gameflow phase, queue descriptions, session event
//! payloads, and player identity.

use vstd::prelude::*;

verus! {

/// Lifecycle phase reported by the client's gameflow session.
#[derive(Clone, Copy, Debug, PartialEq, Eq, Structural)]
pub enum GamePhase {
    NoPhase,
    Lobby,
    Matchmaking,
    ReadyCheck,
    ChampSelect,
    GameStart,
    InProgress,
    Reconnect,
    WaitingForStats,
    PreEndOfGame,
    EndOfGame,
    TerminatedInError,
    FailedToLaunch,
}

/// Queue description attached to a session event or fetched from the queue
/// endpoint.
#[derive(Clone, Debug, PartialEq)]
pub struct Queue {
    pub id: i64,
    pub name: String,
    pub is_ranked: bool,
}

/// Game description inside a session event.
#[derive(Clone, Debug, PartialEq)]
pub struct GameData {
    pub game_id: i64,
    pub queue: Queue,
    pub game_mode: Option<String>,
}

/// Payload of a gameflow session event.
#[derive(Clone, Debug, PartialEq)]
pub struct SessionEventData {
    pub phase: GamePhase,
    pub game_data: GameData,
}

/// An event delivered on one of the two subscribed endpoints.
#[derive(Clone, Debug, PartialEq)]
pub enum SubscriptionResponse {
    Session(SessionEventData),
    EogStatsBlock,
}

/// Player identity. Two players are the same when game name and tag line
/// agree; the summoner id is excluded from equality because some API
/// surfaces omit it.
#[derive(Clone, Debug)]
pub struct Player {
    pub game_name: String,
    pub tag_line: String,
    pub summoner_id: Option<i64>,
}

impl Player {
    /// The identity relation on players: (game name, tag line) agree.
    pub open spec fn same_identity(self, other: Player) -> bool {
        self.game_name@ == other.game_name@ && self.tag_line@ == other.tag_line@
    }
}

impl PartialEq for Player {
    fn eq(&self, other: &Player) -> (r: bool) {
        self.game_name == other.game_name && self.tag_line == other.tag_line
    }
}

impl vstd::std_specs::cmp::PartialEqSpecImpl for Player {
    open spec fn obeys_eq_spec() -> bool {
        true
    }

    open spec fn eq_spec(&self, other: &Player) -> bool {
        self.same_identity(*other)
    }
}

/// Authoritative participant identity from match history.
#[derive(Clone, Debug, PartialEq)]
pub struct ParticipantIdentity {
    pub participant_id: i64,
    pub player: Player,
}

/// Lane and role assignment of a participant.
#[derive(Clone, Debug, PartialEq)]
pub struct ParticipantTimeline {
    pub lane: String,
    pub role: String,
}

/// End-of-game statistics of one participant. Values the client reports
/// fractionally (the vision score) are carried rounded to whole points.
#[derive(Clone, Copy, Debug, PartialEq, Eq)]
pub struct Stats {
    pub kills: i64,
    pub deaths: i64,
    pub assists: i64,
    pub largest_multi_kill: i64,
    pub neutral_minions_killed: i64,
    pub neutral_minions_killed_enemy_jungle: i64,
    pub neutral_minions_killed_team_jungle: i64,
    pub total_minions_killed: i64,
    pub vision_score: i64,
    pub vision_wards_bought_in_game: i64,
    pub wards_placed: i64,
    pub wards_killed: i64,
    /// When true the game was a remake: `win` must be ignored because
    /// the remaking team counts as the loser.
    pub game_ended_in_early_surrender: bool,
    pub game_ended_in_surrender: bool,
    pub win: bool,
    pub item0: i64,
    pub item1: i64,
    pub item2: i64,
    pub item3: i64,
    pub item4: i64,
    pub item5: i64,
    pub item6: i64,
    pub perk0: i64,
    pub perk1: i64,
    pub perk2: i64,
    pub perk3: i64,
    pub perk4: i64,
    pub perk5: i64,
    pub perk_primary_style: i64,
    pub perk_sub_style: i64,
    pub gold_earned: i64,
}

/// Authoritative participant record from match history.
#[derive(Clone, Debug, PartialEq)]
pub struct Participant {
    pub participant_id: i64,
    pub team_id: i64,
    pub champion_id: i64,
    pub spell1_id: i64,
    pub spell2_id: i64,
    pub stats: Stats,
    pub timeline: Option<ParticipantTimeline>,
}

/// A banned champion pick.
#[derive(Clone, Debug, PartialEq)]
pub struct Ban {
    pub champion_id: i64,
    pub pick_turn: i64,
}

/// Team-level result record.
#[derive(Clone, Debug, PartialEq)]
pub struct MatchTeam {
    pub team_id: i64,
    pub win: Option<String>,
    pub tower_kills: i64,
    pub inhibitor_kills: i64,
    pub baron_kills: i64,
    pub dragon_kills: i64,
    pub vilemaw_kills: i64,
    pub rift_herald_kills: i64,
    pub dominion_victory_score: i64,
    pub bans: Vec<Ban>,
}

/// Authoritative game record from match history.
#[derive(Clone, Debug, PartialEq)]
pub struct Game {
    pub game_version: String,
    pub game_id: i64,
    pub map_id: i64,
    pub queue_id: i64,
    pub game_duration: i64,
    pub participant_identities: Vec<ParticipantIdentity>,
    pub participants: Vec<Participant>,
    pub teams: Vec<MatchTeam>,
}

/// Champion record: the internal key (`alias`) and the localized name.
#[derive(Clone, Debug, PartialEq)]
pub struct Champion {
    pub alias: String,
    pub name: String,
}

/// Match identifier: the numeric game id together with the platform
/// (region) the game was played on.
#[derive(Clone, Debug, PartialEq)]
pub struct MatchId {
    pub game_id: i64,
    pub platform_id: String,
}

/// A raw event inside a timeline frame, as match history reports it.
#[derive(Clone, Debug, PartialEq)]
pub struct RawTimelineEvent {
    pub timestamp: i64,
    pub event_type: String,
    pub killer_id: Option<i64>,
    pub victim_id: Option<i64>,
    pub assisting_participant_ids: Vec<i64>,
    pub monster_type: Option<String>,
    pub building_type: Option<String>,
}

/// Per-participant figures inside a timeline frame.
#[derive(Clone, Copy, Debug, PartialEq)]
pub struct ParticipantFrame {
    pub participant_id: i64,
    pub total_gold: i64,
    pub minions_killed: i64,
    pub jungle_minions_killed: i64,
}

/// One frame of the authoritative timeline.
#[derive(Clone, Debug, PartialEq)]
pub struct TimelineFrame {
    pub timestamp: i64,
    pub events: Vec<RawTimelineEvent>,
    pub participant_frames: Vec<ParticipantFrame>,
}

/// The authoritative timeline; may be empty when match history has not
/// caught up yet.
#[derive(Clone, Debug, PartialEq)]
pub struct Timeline {
    pub frames: Vec<TimelineFrame>,
}

/// A participant's gold and minion figures at one timeline frame.
#[derive(Clone, Copy, Debug, PartialEq, Eq)]
pub struct ParticipantGold {
    pub participant_id: i64,
    pub total_gold: i64,
    pub minions: i64,
}

/// The gold curve at one timestamp.
#[derive(Clone, Debug, PartialEq, Eq)]
pub struct GoldFrame {
    pub timestamp: i64,
    pub participants: Vec<ParticipantGold>,
}

/// A participant as the sidecar presents it.
#[derive(Clone, Debug, PartialEq)]
pub struct ParticipantSummary {
    pub participant_id: i64,
    pub team_id: i64,
    pub champion_id: i64,
    pub spell1_id: i64,
    pub spell2_id: i64,
    pub stats: Stats,
    pub lane: String,
    pub role: String,
    pub summoner_name: String,
}

/// The sidecar contents for one recording. Times that the client
/// reports as fractional seconds are carried as whole milliseconds.
#[derive(Clone, Debug, PartialEq)]
pub struct GameMetadata {
    pub favorite: bool,
    pub match_id: MatchId,
    pub ingame_time_rec_start_offset_ms: i64,
    pub highlights_ms: Vec<i64>,
    pub queue: Queue,
    pub player: Player,
    pub champion_name: String,
    pub stats: Stats,
    pub participant_id: i64,
    pub participants: Vec<ParticipantSummary>,
    pub teams: Vec<MatchTeam>,
    pub events: Vec<crate::events::GameEvent>,
    pub gold_timeline: Vec<GoldFrame>,
    pub game_version: String,
    pub lp_diff: Option<i64>,
}

/// The mid-lifecycle sidecar record: what must survive a crash between
/// recording stop and metadata collection.
#[derive(Clone, Debug, PartialEq)]
pub struct DeferredMetadata {
    pub favorite: bool,
    pub highlights_ms: Vec<i64>,
}

/// What the sidecar file holds: a deferred record while the game is
/// still being collected, the full metadata afterwards.
#[derive(Clone, Debug, PartialEq)]
pub enum MetadataFile {
    Deferred(DeferredMetadata),
    Metadata(GameMetadata),
}

/// A recording in the library list: the video id and its sidecar, if
/// one was readable.
#[derive(Clone, Debug)]
pub struct Recording {
    pub video_id: String,
    pub metadata: Option<MetadataFile>,
}

/// An event the library hands to the GUI collaborator.
#[derive(Clone, Debug)]
pub enum AppEvent {
    RecordingsChanged,
    MetadataChanged { payload: Vec<String> },
    MarkerflagsChanged,
    RecordingStarted,
    GameDetected,
    RecordingFinished { video_name: String, was_manual: bool },
}

/// Delivery of [`AppEvent`]s to the GUI; the runtime implements this on
/// its window handle.
pub trait EventManager {
    fn send_event(&self, event: AppEvent) -> Result<(), ()>;
}

} // verus!
