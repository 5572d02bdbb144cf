//! The metadata collector's pure core: once the authoritative game,
//! timeline and player records are fetched, resolve the recorded
//! player, normalize the timeline, merge the live events, project the
//! gold curve, and compose the sidecar metadata.

use vstd::prelude::*;

use crate::events::{spec_stable_sort_by_time, GameEvent, Event, LiveEvent};
use crate::reconcile::{merge_live_events, spec_merged};
use crate::types::{
    Champion, Game, GameMetadata, GoldFrame, MatchId, Participant, ParticipantFrame,
    ParticipantGold, ParticipantIdentity, ParticipantSummary, Player, Queue, RawTimelineEvent,
    Stats, Timeline, TimelineFrame, DeferredMetadata,
};
use crate::text::str_eq;

verus! {

/// How many times the collector polls match history before giving up:
/// one attempt per second for a minute.
pub const MAX_COLLECT_ATTEMPTS: u32 = 60;

/// What the collector's retry loop does after one round of fetches.
#[derive(Clone, Copy, Debug, PartialEq, Eq)]
pub enum RetryDecision {
    /// Everything needed is there; proceed.
    Done,
    /// Something is missing and attempts are left: sleep and poll again.
    Wait,
    /// Attempts exhausted; proceed with what is there.
    GiveUp,
}

/// Decide how the retry loop goes on after the attempt with this number
/// (counted from zero) fetched or missed the player/game pair and the
/// timeline.
pub fn retry_step(attempt: u32, have_pair: bool, have_timeline: bool) -> (r: RetryDecision)
    ensures
        r == (if have_pair && have_timeline {
            RetryDecision::Done
        } else if attempt + 1 < MAX_COLLECT_ATTEMPTS {
            RetryDecision::Wait
        } else {
            RetryDecision::GiveUp
        }),
{
    if have_pair && have_timeline {
        RetryDecision::Done
    } else if attempt < MAX_COLLECT_ATTEMPTS - 1 {
        RetryDecision::Wait
    } else {
        RetryDecision::GiveUp
    }
}

/// The queues the collector resolves without asking the client: the
/// practice tool and custom games.
pub open spec fn spec_local_queue(queue_id: i64) -> Option<(Seq<char>, bool)> {
    if queue_id == -1 {
        Some(("Practicetool"@, false))
    } else if queue_id == 0 {
        Some(("Custom Game"@, false))
    } else {
        None
    }
}

/// Resolve the practice-tool and custom queues locally; any other queue
/// must be fetched from the client.
pub fn local_queue(queue_id: i64) -> (r: Option<Queue>)
    ensures
        match r {
            Some(q) => spec_local_queue(queue_id) == Some((q.name@, q.is_ranked)) && q.id
                == queue_id,
            None => spec_local_queue(queue_id) is None,
        },
{
    if queue_id == -1 {
        Some(Queue { id: -1, name: String::from_str("Practicetool"), is_ranked: false })
    } else if queue_id == 0 {
        Some(Queue { id: 0, name: String::from_str("Custom Game"), is_ranked: false })
    } else {
        None
    }
}

/// The placeholder queue when the client cannot name one.
pub fn fallback_queue(queue_id: i64) -> (r: Queue)
    ensures
        r.id == queue_id,
        r.name@ == "Unknown"@,
        !r.is_ranked,
{
    Queue { id: queue_id, name: String::from_str("Unknown"), is_ranked: false }
}

/// The hardcoded names of the swarm-mode champions, which the client
/// has no records for.
pub open spec fn spec_swarm_name(champion_id: i64) -> Option<Seq<char>> {
    if champion_id == 3147 {
        Some("Riven"@)
    } else if champion_id == 3151 {
        Some("Jinx"@)
    } else if champion_id == 3152 {
        Some("Leona"@)
    } else if champion_id == 3153 {
        Some("Seraphine"@)
    } else if champion_id == 3156 {
        Some("Briar"@)
    } else if champion_id == 3157 {
        Some("Yasuo"@)
    } else if champion_id == 3159 {
        Some("Aurora"@)
    } else if champion_id == 3678 {
        Some("Illaoi"@)
    } else if champion_id == 3947 {
        Some("Xayah"@)
    } else {
        None
    }
}

/// Resolve a swarm-mode champion name locally; any other champion must
/// be fetched from the client.
pub fn swarm_champion_name(champion_id: i64) -> (r: Option<String>)
    ensures
        match r {
            Some(name) => spec_swarm_name(champion_id) == Some(name@),
            None => spec_swarm_name(champion_id) is None,
        },
{
    if champion_id == 3147 {
        Some(String::from_str("Riven"))
    } else if champion_id == 3151 {
        Some(String::from_str("Jinx"))
    } else if champion_id == 3152 {
        Some(String::from_str("Leona"))
    } else if champion_id == 3153 {
        Some(String::from_str("Seraphine"))
    } else if champion_id == 3156 {
        Some(String::from_str("Briar"))
    } else if champion_id == 3157 {
        Some(String::from_str("Yasuo"))
    } else if champion_id == 3159 {
        Some(String::from_str("Aurora"))
    } else if champion_id == 3678 {
        Some(String::from_str("Illaoi"))
    } else if champion_id == 3947 {
        Some(String::from_str("Xayah"))
    } else {
        None
    }
}

/// The participant id of the first identity whose player is the given
/// one, under (game name, tag line) equality.
pub open spec fn spec_find_pid(ids: Seq<ParticipantIdentity>, player: Player) -> Option<i64>
    decreases ids.len(),
{
    if ids.len() == 0 {
        None
    } else if ids[0].player.same_identity(player) {
        Some(ids[0].participant_id)
    } else {
        spec_find_pid(ids.drop_first(), player)
    }
}

/// Resolve the recorded player to a participant id.
pub fn find_participant_id(ids: &Vec<ParticipantIdentity>, player: &Player) -> (r: Option<i64>)
    ensures
        r == spec_find_pid(ids@, *player),
{
    let mut i: usize = 0;
    assert(ids@.skip(0) =~= ids@);
    while i < ids.len()
        invariant
            i <= ids@.len(),
            spec_find_pid(ids@, *player) == spec_find_pid(ids@.skip(i as int), *player),
        decreases ids@.len() - i,
    {
        if ids[i].player.eq(player) {
            assert(ids@.skip(i as int)[0] == ids@[i as int]);
            return Some(ids[i].participant_id);
        }
        proof {
            assert(ids@.skip(i as int).drop_first() =~= ids@.skip(i + 1));
        }
        i += 1;
    }
    proof {
        assert(ids@.skip(ids@.len() as int) =~= Seq::empty());
    }
    None
}

/// The first participant record with this id.
pub open spec fn spec_participant_with(parts: Seq<Participant>, pid: i64) -> Option<Participant>
    decreases parts.len(),
{
    if parts.len() == 0 {
        None
    } else if parts[0].participant_id == pid {
        Some(parts[0])
    } else {
        spec_participant_with(parts.drop_first(), pid)
    }
}

/// Find the index of the first participant record with this id.
pub fn participant_index(parts: &Vec<Participant>, pid: i64) -> (r: Option<usize>)
    ensures
        match r {
            Some(i) => i < parts@.len() && spec_participant_with(parts@, pid) == Some(
                parts@[i as int],
            ),
            None => spec_participant_with(parts@, pid) is None,
        },
{
    let mut i: usize = 0;
    assert(parts@.skip(0) =~= parts@);
    while i < parts.len()
        invariant
            i <= parts@.len(),
            spec_participant_with(parts@, pid) == spec_participant_with(
                parts@.skip(i as int),
                pid,
            ),
        decreases parts@.len() - i,
    {
        if parts[i].participant_id == pid {
            assert(parts@.skip(i as int)[0] == parts@[i as int]);
            return Some(i);
        }
        proof {
            assert(parts@.skip(i as int).drop_first() =~= parts@.skip(i + 1));
        }
        i += 1;
    }
    proof {
        assert(parts@.skip(parts@.len() as int) =~= Seq::empty());
    }
    None
}

/// The first identity record with this participant id.
pub open spec fn spec_identity_with(
    ids: Seq<ParticipantIdentity>,
    pid: i64,
) -> Option<ParticipantIdentity>
    decreases ids.len(),
{
    if ids.len() == 0 {
        None
    } else if ids[0].participant_id == pid {
        Some(ids[0])
    } else {
        spec_identity_with(ids.drop_first(), pid)
    }
}

/// The display name the sidecar gives a participant: the riot id of its
/// identity record, or a placeholder.
pub open spec fn spec_summary_name(ids: Seq<ParticipantIdentity>, pid: i64) -> Seq<char> {
    match spec_identity_with(ids, pid) {
        Some(pi) => pi.player.game_name@ + "#"@ + pi.player.tag_line@,
        None => "Unknown"@,
    }
}

/// The normalized event a raw timeline event turns into, relative to
/// the recorded participant; events that do not map cleanly are
/// dropped.
pub open spec fn spec_convert_raw(e: RawTimelineEvent, pov: i64) -> Option<GameEvent> {
    if e.event_type@ == "CHAMPION_KILL"@ {
        match (e.killer_id, e.victim_id) {
            (Some(k), Some(v)) => {
                if k == pov {
                    Some(GameEvent { timestamp: e.timestamp, event: Event::Kill { victim_id: v } })
                } else if v == pov {
                    Some(GameEvent { timestamp: e.timestamp, event: Event::Death { killer_id: k } })
                } else if e.assisting_participant_ids@.contains(pov) {
                    Some(
                        GameEvent { timestamp: e.timestamp, event: Event::Assist { victim_id: v } },
                    )
                } else {
                    None
                }
            },
            _ => None,
        }
    } else if e.event_type@ == "ELITE_MONSTER_KILL"@ {
        match (e.killer_id, e.monster_type) {
            (Some(k), Some(m)) => {
                if m@ == "DRAGON"@ {
                    Some(
                        GameEvent { timestamp: e.timestamp, event: Event::Dragon { killer_id: k } },
                    )
                } else if m@ == "RIFTHERALD"@ {
                    Some(
                        GameEvent { timestamp: e.timestamp, event: Event::Herald { killer_id: k } },
                    )
                } else if m@ == "BARON_NASHOR"@ {
                    Some(GameEvent { timestamp: e.timestamp, event: Event::Baron { killer_id: k } })
                } else if m@ == "HORDE"@ {
                    Some(
                        GameEvent {
                            timestamp: e.timestamp,
                            event: Event::Voidgrub { killer_id: k },
                        },
                    )
                } else {
                    None
                }
            },
            _ => None,
        }
    } else if e.event_type@ == "BUILDING_KILL"@ {
        match (e.killer_id, e.building_type) {
            (Some(k), Some(b)) => {
                if b@ == "TOWER_BUILDING"@ {
                    Some(
                        GameEvent {
                            timestamp: e.timestamp,
                            event: Event::TurretKill { killer_id: k },
                        },
                    )
                } else {
                    None
                }
            },
            _ => None,
        }
    } else {
        None
    }
}

/// Whether a value occurs in a list of participant ids.
fn contains_pid(v: &Vec<i64>, x: i64) -> (r: bool)
    ensures
        r == v@.contains(x),
{
    let mut i: usize = 0;
    while i < v.len()
        invariant
            i <= v@.len(),
            forall|j: int| 0 <= j < i ==> v@[j] != x,
        decreases v@.len() - i,
    {
        if v[i] == x {
            return true;
        }
        i += 1;
    }
    false
}

/// Normalize one raw timeline event relative to the recorded
/// participant.
pub fn convert_raw_event(e: &RawTimelineEvent, pov: i64) -> (r: Option<GameEvent>)
    ensures
        r == spec_convert_raw(*e, pov),
{
    if str_eq(e.event_type.as_str(), "CHAMPION_KILL") {
        match (e.killer_id, e.victim_id) {
            (Some(k), Some(v)) => {
                if k == pov {
                    Some(GameEvent { timestamp: e.timestamp, event: Event::Kill { victim_id: v } })
                } else if v == pov {
                    Some(GameEvent { timestamp: e.timestamp, event: Event::Death { killer_id: k } })
                } else if contains_pid(&e.assisting_participant_ids, pov) {
                    Some(
                        GameEvent { timestamp: e.timestamp, event: Event::Assist { victim_id: v } },
                    )
                } else {
                    None
                }
            },
            _ => None,
        }
    } else if str_eq(e.event_type.as_str(), "ELITE_MONSTER_KILL") {
        match (e.killer_id, &e.monster_type) {
            (Some(k), Some(m)) => {
                if str_eq(m.as_str(), "DRAGON") {
                    Some(
                        GameEvent { timestamp: e.timestamp, event: Event::Dragon { killer_id: k } },
                    )
                } else if str_eq(m.as_str(), "RIFTHERALD") {
                    Some(
                        GameEvent { timestamp: e.timestamp, event: Event::Herald { killer_id: k } },
                    )
                } else if str_eq(m.as_str(), "BARON_NASHOR") {
                    Some(GameEvent { timestamp: e.timestamp, event: Event::Baron { killer_id: k } })
                } else if str_eq(m.as_str(), "HORDE") {
                    Some(
                        GameEvent {
                            timestamp: e.timestamp,
                            event: Event::Voidgrub { killer_id: k },
                        },
                    )
                } else {
                    None
                }
            },
            _ => None,
        }
    } else if str_eq(e.event_type.as_str(), "BUILDING_KILL") {
        match (e.killer_id, &e.building_type) {
            (Some(k), Some(b)) => {
                if str_eq(b.as_str(), "TOWER_BUILDING") {
                    Some(
                        GameEvent {
                            timestamp: e.timestamp,
                            event: Event::TurretKill { killer_id: k },
                        },
                    )
                } else {
                    None
                }
            },
            _ => None,
        }
    } else {
        None
    }
}

/// All normalized events of a frame sequence, in frame and in-frame
/// order.
pub open spec fn spec_frames_events(frames: Seq<TimelineFrame>, pov: i64) -> Seq<GameEvent>
    decreases frames.len(),
{
    if frames.len() == 0 {
        Seq::empty()
    } else {
        spec_frames_events(frames.drop_last(), pov) + frames.last().events@.filter_map(
            |e: RawTimelineEvent| spec_convert_raw(e, pov),
        )
    }
}

/// Normalize the whole timeline relative to the recorded participant.
pub fn convert_timeline(timeline: &Timeline, pov: i64) -> (r: Vec<GameEvent>)
    ensures
        r@ == spec_frames_events(timeline.frames@, pov),
{
    let ghost f = |e: RawTimelineEvent| spec_convert_raw(e, pov);
    let mut out: Vec<GameEvent> = Vec::new();
    let mut i: usize = 0;
    proof {
        assert(timeline.frames@.take(0) =~= Seq::empty());
    }
    while i < timeline.frames.len()
        invariant
            i <= timeline.frames@.len(),
            f == (|e: RawTimelineEvent| spec_convert_raw(e, pov)),
            out@ == spec_frames_events(timeline.frames@.take(i as int), pov),
        decreases timeline.frames@.len() - i,
    {
        let frame = &timeline.frames[i];
        let ghost before = out@;
        let mut j: usize = 0;
        proof {
            assert(frame.events@.take(0).filter_map(f) =~= Seq::empty());
            assert(out@ =~= before + frame.events@.take(0).filter_map(f));
        }
        while j < frame.events.len()
            invariant
                j <= frame.events@.len(),
                f == (|e: RawTimelineEvent| spec_convert_raw(e, pov)),
                out@ == before + frame.events@.take(j as int).filter_map(f),
            decreases frame.events@.len() - j,
        {
            proof {
                frame.events@.lemma_filter_map_take_succ(f, j as int);
            }
            if let Some(g) = convert_raw_event(&frame.events[j], pov) {
                out.push(g);
                proof {
                    assert(out@ =~= before + frame.events@.take(j + 1).filter_map(f));
                }
            } else {
                proof {
                    assert(out@ =~= before + frame.events@.take(j + 1).filter_map(f));
                }
            }
            j += 1;
        }
        proof {
            assert(frame.events@.take(frame.events@.len() as int) =~= frame.events@);
            assert(timeline.frames@.take(i + 1).drop_last() =~= timeline.frames@.take(i as int));
            assert(timeline.frames@.take(i + 1).last() == timeline.frames@[i as int]);
        }
        i += 1;
    }
    proof {
        assert(timeline.frames@.take(timeline.frames@.len() as int) =~= timeline.frames@);
    }
    out
}

/// The gold projection of one participant frame: total gold, and lane
/// plus jungle minions added up.
pub open spec fn spec_gold_of(pf: ParticipantFrame) -> ParticipantGold {
    ParticipantGold {
        participant_id: pf.participant_id,
        total_gold: pf.total_gold,
        minions: (pf.minions_killed + pf.jungle_minions_killed) as i64,
    }
}

/// The minion sums of every frame stay within the machine's range.
pub open spec fn spec_minion_sums_fit(frames: Seq<TimelineFrame>) -> bool {
    forall|i: int, j: int|
        0 <= i < frames.len() && 0 <= j < frames[i].participant_frames@.len() ==> i64::MIN <= (
        #[trigger] frames[i].participant_frames@[j]).minions_killed + frames[i].participant_frames@[j].jungle_minions_killed
            <= i64::MAX
}

/// Project the gold curve out of the timeline.
pub fn gold_timeline(timeline: &Timeline) -> (r: Vec<GoldFrame>)
    requires
        spec_minion_sums_fit(timeline.frames@),
    ensures
        r@.len() == timeline.frames@.len(),
        forall|i: int|
            0 <= i < r@.len() ==> (#[trigger] r@[i]).timestamp == timeline.frames@[i].timestamp
                && r@[i].participants@ == timeline.frames@[i].participant_frames@.map_values(
                |pf: ParticipantFrame| spec_gold_of(pf),
            ),
{
    let mut out: Vec<GoldFrame> = Vec::new();
    let mut i: usize = 0;
    while i < timeline.frames.len()
        invariant
            i <= timeline.frames@.len(),
            spec_minion_sums_fit(timeline.frames@),
            out@.len() == i,
            forall|k: int|
                0 <= k < i ==> (#[trigger] out@[k]).timestamp == timeline.frames@[k].timestamp
                    && out@[k].participants@ == timeline.frames@[k].participant_frames@.map_values(
                    |pf: ParticipantFrame| spec_gold_of(pf),
                ),
        decreases timeline.frames@.len() - i,
    {
        let frame = &timeline.frames[i];
        let mut golds: Vec<ParticipantGold> = Vec::new();
        let mut j: usize = 0;
        while j < frame.participant_frames.len()
            invariant
                j <= frame.participant_frames@.len(),
                frame == &timeline.frames@[i as int],
                0 <= i < timeline.frames@.len(),
                spec_minion_sums_fit(timeline.frames@),
                golds@.len() == j,
                forall|k: int|
                    0 <= k < j ==> golds@[k] == spec_gold_of(
                        #[trigger] frame.participant_frames@[k],
                    ),
            decreases frame.participant_frames@.len() - j,
        {
            let pf = frame.participant_frames[j];
            golds.push(
                ParticipantGold {
                    participant_id: pf.participant_id,
                    total_gold: pf.total_gold,
                    minions: pf.minions_killed + pf.jungle_minions_killed,
                },
            );
            j += 1;
        }
        proof {
            assert(golds@ =~= frame.participant_frames@.map_values(
                |pf: ParticipantFrame| spec_gold_of(pf),
            ));
        }
        out.push(GoldFrame { timestamp: frame.timestamp, participants: golds });
        i += 1;
    }
    out
}

/// Whether a sidecar participant entry is the faithful summary of an
/// authoritative record.
pub open spec fn spec_summary_matches(
    s: ParticipantSummary,
    p: Participant,
    ids: Seq<ParticipantIdentity>,
) -> bool {
    &&& s.participant_id == p.participant_id
    &&& s.team_id == p.team_id
    &&& s.champion_id == p.champion_id
    &&& s.spell1_id == p.spell1_id
    &&& s.spell2_id == p.spell2_id
    &&& s.stats == p.stats
    &&& s.lane@ == match p.timeline {
        Some(t) => t.lane@,
        None => "NONE"@,
    }
    &&& s.role@ == match p.timeline {
        Some(t) => t.role@,
        None => "NONE"@,
    }
    &&& s.summoner_name@ == spec_summary_name(ids, p.participant_id)
}

/// Find the index of the first identity record with this participant id.
fn identity_index(ids: &Vec<ParticipantIdentity>, pid: i64) -> (r: Option<usize>)
    ensures
        match r {
            Some(i) => i < ids@.len() && spec_identity_with(ids@, pid) == Some(ids@[i as int]),
            None => spec_identity_with(ids@, pid) is None,
        },
{
    let mut i: usize = 0;
    assert(ids@.skip(0) =~= ids@);
    while i < ids.len()
        invariant
            i <= ids@.len(),
            spec_identity_with(ids@, pid) == spec_identity_with(ids@.skip(i as int), pid),
        decreases ids@.len() - i,
    {
        if ids[i].participant_id == pid {
            assert(ids@.skip(i as int)[0] == ids@[i as int]);
            return Some(i);
        }
        proof {
            assert(ids@.skip(i as int).drop_first() =~= ids@.skip(i + 1));
        }
        i += 1;
    }
    proof {
        assert(ids@.skip(ids@.len() as int) =~= Seq::empty());
    }
    None
}

/// Summarize the participants for the sidecar.
pub fn summarize_participants(
    parts: &Vec<Participant>,
    ids: &Vec<ParticipantIdentity>,
) -> (r: Vec<ParticipantSummary>)
    ensures
        r@.len() == parts@.len(),
        forall|i: int|
            0 <= i < r@.len() ==> spec_summary_matches(#[trigger] r@[i], parts@[i], ids@),
{
    let mut out: Vec<ParticipantSummary> = Vec::new();
    let mut i: usize = 0;
    while i < parts.len()
        invariant
            i <= parts@.len(),
            out@.len() == i,
            forall|k: int|
                0 <= k < i ==> spec_summary_matches(#[trigger] out@[k], parts@[k], ids@),
        decreases parts@.len() - i,
    {
        let p = &parts[i];
        let name: String = match identity_index(ids, p.participant_id) {
            Some(idx) => {
                let pi = &ids[idx];
                let mut full = pi.player.game_name.clone();
                full.append("#");
                full.append(pi.player.tag_line.as_str());
                full
            },
            None => String::from_str("Unknown"),
        };
        let (lane, role): (String, String) = match &p.timeline {
            Some(t) => (t.lane.clone(), t.role.clone()),
            None => (String::from_str("NONE"), String::from_str("NONE")),
        };
        out.push(
            ParticipantSummary {
                participant_id: p.participant_id,
                team_id: p.team_id,
                champion_id: p.champion_id,
                spell1_id: p.spell1_id,
                spell2_id: p.spell2_id,
                stats: p.stats,
                lane,
                role,
                summoner_name: name,
            },
        );
        i += 1;
    }
    out
}

/// Why the collector could not compose the sidecar.
#[derive(Clone, Copy, Debug, PartialEq, Eq)]
pub enum CollectError {
    /// The fetched game names no participant identity equal to the
    /// current player.
    PlayerNotFound,
    /// The resolved participant id names no participant record.
    ParticipantNotFound,
}

/// Compose the sidecar metadata from the fetched authoritative records
/// and the live-captured events.
///
/// Fails exactly when the current player matches no participant
/// identity, or the matched id names no participant record. On success
/// the metadata carries: the merged, stably time-sorted event list; the
/// gold curve projected from the timeline; the participant summaries;
/// and the given queue, champion name and league-point difference. The
/// favorite flag and highlights start empty and are filled from a
/// deferred sidecar record afterwards.
pub fn build_game_metadata(
    match_id: MatchId,
    ingame_time_rec_start_offset_ms: i64,
    game: Game,
    timeline: &Timeline,
    player: Player,
    queue: Queue,
    champion_name: String,
    live_events: &Vec<LiveEvent>,
    champions: &Vec<(i64, Champion)>,
    lp_diff: Option<i64>,
) -> (r: Result<GameMetadata, CollectError>)
    requires
        spec_minion_sums_fit(timeline.frames@),
    ensures
        match r {
            Ok(m) => {
                &&& spec_find_pid(game.participant_identities@, player) == Some(m.participant_id)
                &&& spec_participant_with(game.participants@, m.participant_id) matches Some(p)
                    && m.stats == p.stats
                &&& m.favorite == false
                &&& m.match_id == match_id
                &&& m.ingame_time_rec_start_offset_ms == ingame_time_rec_start_offset_ms
                &&& m.highlights_ms@ =~= Seq::<i64>::empty()
                &&& m.queue == queue
                &&& m.player == player
                &&& m.champion_name == champion_name
                &&& m.participants@.len() == game.participants@.len()
                &&& forall|i: int|
                    0 <= i < m.participants@.len() ==> spec_summary_matches(
                        #[trigger] m.participants@[i],
                        game.participants@[i],
                        game.participant_identities@,
                    )
                &&& m.teams == game.teams
                &&& m.events@ == spec_stable_sort_by_time(
                    spec_merged(
                        spec_frames_events(timeline.frames@, m.participant_id),
                        live_events@,
                        game.participant_identities@,
                        game.participants@,
                        champions@,
                    ),
                )
                &&& m.gold_timeline@.len() == timeline.frames@.len()
                &&& forall|i: int|
                    0 <= i < m.gold_timeline@.len() ==> (#[trigger] m.gold_timeline@[i]).timestamp
                        == timeline.frames@[i].timestamp && m.gold_timeline@[i].participants@
                        == timeline.frames@[i].participant_frames@.map_values(
                        |pf: ParticipantFrame| spec_gold_of(pf),
                    )
                &&& m.game_version == game.game_version
                &&& m.lp_diff == lp_diff
            },
            Err(CollectError::PlayerNotFound) => spec_find_pid(game.participant_identities@, player)
                is None,
            Err(CollectError::ParticipantNotFound) => {
                &&& spec_find_pid(game.participant_identities@, player) matches Some(pid)
                &&& spec_participant_with(game.participants@, pid) is None
            },
        },
{
    let participant_id = match find_participant_id(&game.participant_identities, &player) {
        Some(pid) => pid,
        None => {
            return Err(CollectError::PlayerNotFound);
        },
    };
    let stats: Stats = match participant_index(&game.participants, participant_id) {
        Some(idx) => game.participants[idx].stats,
        None => {
            return Err(CollectError::ParticipantNotFound);
        },
    };
    let current_events = convert_timeline(timeline, participant_id);
    let merged = merge_live_events(
        current_events,
        live_events,
        &game.participant_identities,
        &game.participants,
        champions,
    );
    let gold = gold_timeline(timeline);
    let participants = summarize_participants(&game.participants, &game.participant_identities);
    Ok(
        GameMetadata {
            favorite: false,
            match_id,
            ingame_time_rec_start_offset_ms,
            highlights_ms: Vec::new(),
            queue,
            player,
            champion_name,
            stats,
            participant_id,
            participants,
            teams: game.teams,
            events: merged,
            gold_timeline: gold,
            game_version: game.game_version,
            lp_diff,
        },
    )
}

/// Carry a deferred sidecar record's favorite flag and highlights into
/// the collected metadata.
pub fn apply_deferred(metadata: &mut GameMetadata, deferred: DeferredMetadata)
    ensures
        *final(metadata) == (GameMetadata {
            favorite: deferred.favorite,
            highlights_ms: deferred.highlights_ms,
            ..*old(metadata)
        }),
{
    metadata.favorite = deferred.favorite;
    metadata.highlights_ms = deferred.highlights_ms;
}

/// The league-point difference of a game: present exactly when both
/// the reading at game start and the reading after the game succeeded.
pub fn compute_lp_diff(start_lp: Option<i64>, end_lp: Option<i64>) -> (r: Option<i64>)
    requires
        match (start_lp, end_lp) {
            (Some(s), Some(e)) => i64::MIN <= e - s <= i64::MAX,
            _ => true,
        },
    ensures
        r == match (start_lp, end_lp) {
            (Some(s), Some(e)) => Some((e - s) as i64),
            _ => None::<i64>,
        },
{
    match (start_lp, end_lp) {
        (Some(s), Some(e)) => Some(e - s),
        _ => None,
    }
}

} // verus!
