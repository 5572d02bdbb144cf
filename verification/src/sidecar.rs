//! The sidecar file contents as a JSON tree.
//!
//! The library builds and reads the tree itself, with camelCase keys;
//! writing the tree out as text and reading text back in is the
//! runtime's job. Every `..._to_json` function promises that the
//! matching parse function recovers the record exactly.

use vstd::prelude::*;

use crate::types::DeferredMetadata;

verus! {

/// A JSON value. Objects keep their fields in insertion order.
#[derive(Debug)]
pub enum JsonValue {
    Null,
    Bool(bool),
    Int(i64),
    Str(String),
    Arr(Vec<JsonValue>),
    Obj(Vec<(String, JsonValue)>),
}

/// The value of the first field with this key.
pub open spec fn spec_obj_get(fields: Seq<(String, JsonValue)>, key: Seq<char>) -> Option<JsonValue>
    decreases fields.len(),
{
    if fields.len() == 0 {
        None
    } else if fields[0].0@ == key {
        Some(fields[0].1)
    } else {
        spec_obj_get(fields.drop_first(), key)
    }
}

/// Look up a field of a JSON object.
pub fn obj_get<'a>(fields: &'a Vec<(String, JsonValue)>, key: &str) -> (r: Option<&'a JsonValue>)
    ensures
        match r {
            Some(v) => spec_obj_get(fields@, key@) == Some(*v),
            None => spec_obj_get(fields@, key@) is None,
        },
{
    let mut i: usize = 0;
    assert(fields@.skip(0) =~= fields@);
    while i < fields.len()
        invariant
            i <= fields@.len(),
            spec_obj_get(fields@, key@) == spec_obj_get(fields@.skip(i as int), key@),
        decreases fields@.len() - i,
    {
        if crate::text::str_eq(fields[i].0.as_str(), key) {
            assert(fields@.skip(i as int)[0] == fields@[i as int]);
            return Some(&fields[i].1);
        }
        proof {
            assert(fields@.skip(i as int).drop_first() =~= fields@.skip(i + 1));
        }
        i += 1;
    }
    proof {
        assert(fields@.skip(fields@.len() as int) =~= Seq::empty());
    }
    None
}

/// A field whose key differs from every earlier key is found by a
/// lookup with its key.
proof fn lemma_obj_get_at(fields: Seq<(String, JsonValue)>, j: int)
    requires
        0 <= j < fields.len(),
        forall|i: int| 0 <= i < j ==> fields[i].0@ != fields[j].0@,
    ensures
        spec_obj_get(fields, fields[j].0@) == Some(fields[j].1),
    decreases j,
{
    if j > 0 {
        lemma_obj_get_at(fields.drop_first(), j - 1);
    }
}

/// The integer under this key, if the field holds one.
pub open spec fn spec_get_i64(fields: Seq<(String, JsonValue)>, key: Seq<char>) -> Option<i64> {
    match spec_obj_get(fields, key) {
        Some(JsonValue::Int(x)) => Some(x),
        _ => None,
    }
}

/// The boolean under this key, if the field holds one.
pub open spec fn spec_get_bool(fields: Seq<(String, JsonValue)>, key: Seq<char>) -> Option<bool> {
    match spec_obj_get(fields, key) {
        Some(JsonValue::Bool(b)) => Some(b),
        _ => None,
    }
}

/// The string under this key, if the field holds one.
pub open spec fn spec_get_str(fields: Seq<(String, JsonValue)>, key: Seq<char>) -> Option<
    Seq<char>,
> {
    match spec_obj_get(fields, key) {
        Some(JsonValue::Str(s)) => Some(s@),
        _ => None,
    }
}

/// Read an integer field.
fn get_i64(fields: &Vec<(String, JsonValue)>, key: &str) -> (r: Option<i64>)
    ensures
        r == spec_get_i64(fields@, key@),
{
    match obj_get(fields, key) {
        Some(JsonValue::Int(x)) => Some(*x),
        _ => None,
    }
}

/// Read a boolean field.
fn get_bool(fields: &Vec<(String, JsonValue)>, key: &str) -> (r: Option<bool>)
    ensures
        r == spec_get_bool(fields@, key@),
{
    match obj_get(fields, key) {
        Some(JsonValue::Bool(b)) => Some(*b),
        _ => None,
    }
}

/// Read a string field.
fn get_string(fields: &Vec<(String, JsonValue)>, key: &str) -> (r: Option<String>)
    ensures
        match r {
            Some(s) => spec_get_str(fields@, key@) == Some(s@),
            None => spec_get_str(fields@, key@) is None,
        },
{
    match obj_get(fields, key) {
        Some(JsonValue::Str(s)) => Some(s.clone()),
        _ => None,
    }
}

/// Read an array field.
fn get_arr<'a>(fields: &'a Vec<(String, JsonValue)>, key: &str) -> (r: Option<&'a Vec<JsonValue>>)
    ensures
        match r {
            Some(v) => spec_obj_get(fields@, key@) == Some(JsonValue::Arr(*v)),
            None => !(spec_obj_get(fields@, key@) matches Some(JsonValue::Arr(_))),
        },
{
    match obj_get(fields, key) {
        Some(JsonValue::Arr(v)) => Some(v),
        _ => None,
    }
}

/// Read an object field.
fn get_obj<'a>(fields: &'a Vec<(String, JsonValue)>, key: &str) -> (r: Option<
    &'a Vec<(String, JsonValue)>,
>)
    ensures
        match r {
            Some(v) => spec_obj_get(fields@, key@) == Some(JsonValue::Obj(*v)),
            None => !(spec_obj_get(fields@, key@) matches Some(JsonValue::Obj(_))),
        },
{
    match obj_get(fields, key) {
        Some(JsonValue::Obj(v)) => Some(v),
        _ => None,
    }
}

/// The numbers of an all-integer JSON array.
pub open spec fn spec_json_ints(vs: Seq<JsonValue>) -> Option<Seq<i64>>
    decreases vs.len(),
{
    if vs.len() == 0 {
        Some(Seq::empty())
    } else {
        match spec_json_ints(vs.drop_last()) {
            Some(s) => match vs.last() {
                JsonValue::Int(x) => Some(s.push(x)),
                _ => None,
            },
            None => None,
        }
    }
}

/// Turn a number list into a JSON array.
pub fn ints_to_json(xs: &Vec<i64>) -> (r: Vec<JsonValue>)
    ensures
        spec_json_ints(r@) == Some(xs@),
{
    let mut out: Vec<JsonValue> = Vec::new();
    let mut i: usize = 0;
    proof {
        assert(xs@.take(0) =~= Seq::<i64>::empty());
    }
    while i < xs.len()
        invariant
            i <= xs@.len(),
            spec_json_ints(out@) == Some(xs@.take(i as int)),
        decreases xs@.len() - i,
    {
        let ghost before = out@;
        out.push(JsonValue::Int(xs[i]));
        proof {
            assert(out@.drop_last() =~= before);
            assert(xs@.take(i + 1) =~= xs@.take(i as int).push(xs@[i as int]));
        }
        i += 1;
    }
    proof {
        assert(xs@.take(xs@.len() as int) =~= xs@);
    }
    out
}

/// Read a number list back out of a JSON array.
pub fn ints_from_json(vs: &Vec<JsonValue>) -> (r: Option<Vec<i64>>)
    ensures
        match r {
            Some(xs) => spec_json_ints(vs@) == Some(xs@),
            None => spec_json_ints(vs@) is None,
        },
{
    let mut out: Vec<i64> = Vec::new();
    let mut i: usize = 0;
    proof {
        assert(vs@.take(0) =~= Seq::<JsonValue>::empty());
    }
    while i < vs.len()
        invariant
            i <= vs@.len(),
            spec_json_ints(vs@.take(i as int)) == Some(out@),
        decreases vs@.len() - i,
    {
        proof {
            assert(vs@.take(i + 1).drop_last() =~= vs@.take(i as int));
            assert(vs@.take(i + 1).last() == vs@[i as int]);
        }
        match &vs[i] {
            JsonValue::Int(x) => {
                out.push(*x);
            },
            _ => {
                proof {
                    lemma_json_ints_prefix_none(vs@, i + 1);
                }
                return None;
            },
        }
        i += 1;
    }
    proof {
        assert(vs@.take(vs@.len() as int) =~= vs@);
    }
    Some(out)
}

/// Once a prefix fails to be all-integer, the whole array does.
proof fn lemma_json_ints_prefix_none(vs: Seq<JsonValue>, i: int)
    requires
        0 <= i <= vs.len(),
        spec_json_ints(vs.take(i)) is None,
    ensures
        spec_json_ints(vs) is None,
    decreases vs.len() - i,
{
    if i < vs.len() {
        assert(vs.take(i + 1).drop_last() =~= vs.take(i));
        lemma_json_ints_prefix_none(vs, i + 1);
    } else {
        assert(vs.take(i) =~= vs);
    }
}

/// A match id, down to plain values.
pub struct MatchIdView {
    pub game_id: i64,
    pub platform_id: Seq<char>,
}

/// The plain values of a match id.
pub open spec fn spec_match_id_view(m: crate::types::MatchId) -> MatchIdView {
    MatchIdView { game_id: m.game_id, platform_id: m.platform_id@ }
}

/// What a match id object parses back to.
pub open spec fn spec_match_id_from(v: JsonValue) -> Option<MatchIdView> {
    match v {
        JsonValue::Obj(fields) => match (
            spec_get_i64(fields@, "gameId"@),
            spec_get_str(fields@, "platformId"@),
        ) {
            (Some(g), Some(p)) => Some(MatchIdView { game_id: g, platform_id: p }),
            _ => None,
        },
        _ => None,
    }
}

/// Encode a match id.
pub fn match_id_to_json(m: &crate::types::MatchId) -> (r: JsonValue)
    ensures
        spec_match_id_from(r) == Some(spec_match_id_view(*m)),
{
    proof {
        reveal_strlit("gameId");
        reveal_strlit("platformId");
    }
    let mut fields: Vec<(String, JsonValue)> = Vec::new();
    fields.push((String::from_str("gameId"), JsonValue::Int(m.game_id)));
    fields.push((String::from_str("platformId"), JsonValue::Str(m.platform_id.clone())));
    proof {
        assert(fields@[0].0@ == "gameId"@);
        assert(fields@[1].0@ == "platformId"@);
        lemma_obj_get_at(fields@, 0);
        lemma_obj_get_at(fields@, 1);
    }
    JsonValue::Obj(fields)
}

/// Parse a match id.
pub fn match_id_from_json(v: &JsonValue) -> (r: Option<crate::types::MatchId>)
    ensures
        match r {
            Some(m) => spec_match_id_from(*v) == Some(spec_match_id_view(m)),
            None => spec_match_id_from(*v) is None,
        },
{
    match v {
        JsonValue::Obj(fields) => {
            let game_id = match get_i64(fields, "gameId") {
                Some(g) => g,
                None => {
                    return None;
                },
            };
            let platform_id = match get_string(fields, "platformId") {
                Some(p) => p,
                None => {
                    return None;
                },
            };
            Some(crate::types::MatchId { game_id, platform_id })
        },
        _ => None,
    }
}

/// A queue description, down to plain values.
pub struct QueueView {
    pub id: i64,
    pub name: Seq<char>,
    pub is_ranked: bool,
}

/// The plain values of a queue description.
pub open spec fn spec_queue_view(q: crate::types::Queue) -> QueueView {
    QueueView { id: q.id, name: q.name@, is_ranked: q.is_ranked }
}

/// What a queue object parses back to.
pub open spec fn spec_queue_from(v: JsonValue) -> Option<QueueView> {
    match v {
        JsonValue::Obj(fields) => match (
            spec_get_i64(fields@, "id"@),
            spec_get_str(fields@, "name"@),
            spec_get_bool(fields@, "isRanked"@),
        ) {
            (Some(id), Some(name), Some(is_ranked)) => Some(QueueView { id, name, is_ranked }),
            _ => None,
        },
        _ => None,
    }
}

/// Encode a queue description.
pub fn queue_to_json(q: &crate::types::Queue) -> (r: JsonValue)
    ensures
        spec_queue_from(r) == Some(spec_queue_view(*q)),
{
    proof {
        reveal_strlit("id");
        reveal_strlit("name");
        reveal_strlit("isRanked");
    }
    let mut fields: Vec<(String, JsonValue)> = Vec::new();
    fields.push((String::from_str("id"), JsonValue::Int(q.id)));
    fields.push((String::from_str("name"), JsonValue::Str(q.name.clone())));
    fields.push((String::from_str("isRanked"), JsonValue::Bool(q.is_ranked)));
    proof {
        assert(fields@[0].0@ == "id"@);
        assert(fields@[1].0@ == "name"@);
        assert(fields@[2].0@ == "isRanked"@);
        lemma_obj_get_at(fields@, 0);
        lemma_obj_get_at(fields@, 1);
        lemma_obj_get_at(fields@, 2);
    }
    JsonValue::Obj(fields)
}

/// Parse a queue description.
pub fn queue_from_json(v: &JsonValue) -> (r: Option<crate::types::Queue>)
    ensures
        match r {
            Some(q) => spec_queue_from(*v) == Some(spec_queue_view(q)),
            None => spec_queue_from(*v) is None,
        },
{
    match v {
        JsonValue::Obj(fields) => {
            let id = match get_i64(fields, "id") {
                Some(x) => x,
                None => {
                    return None;
                },
            };
            let name = match get_string(fields, "name") {
                Some(x) => x,
                None => {
                    return None;
                },
            };
            let is_ranked = match get_bool(fields, "isRanked") {
                Some(x) => x,
                None => {
                    return None;
                },
            };
            Some(crate::types::Queue { id, name, is_ranked })
        },
        _ => None,
    }
}

/// A player identity, down to plain values.
pub struct PlayerView {
    pub game_name: Seq<char>,
    pub tag_line: Seq<char>,
    pub summoner_id: Option<i64>,
}

/// The plain values of a player identity.
pub open spec fn spec_player_view(p: crate::types::Player) -> PlayerView {
    PlayerView { game_name: p.game_name@, tag_line: p.tag_line@, summoner_id: p.summoner_id }
}

/// What a player object parses back to. A missing summoner id parses
/// as absent, mirroring that it is omitted when unknown.
pub open spec fn spec_player_from(v: JsonValue) -> Option<PlayerView> {
    match v {
        JsonValue::Obj(fields) => match (
            spec_get_str(fields@, "gameName"@),
            spec_get_str(fields@, "tagLine"@),
        ) {
            (Some(game_name), Some(tag_line)) => match spec_obj_get(fields@, "summonerId"@) {
                None => Some(PlayerView { game_name, tag_line, summoner_id: None }),
                Some(JsonValue::Int(x)) => Some(
                    PlayerView { game_name, tag_line, summoner_id: Some(x) },
                ),
                Some(_) => None,
            },
            _ => None,
        },
        _ => None,
    }
}

/// Encode a player identity; an unknown summoner id is omitted.
pub fn player_to_json(p: &crate::types::Player) -> (r: JsonValue)
    ensures
        spec_player_from(r) == Some(spec_player_view(*p)),
{
    proof {
        reveal_strlit("gameName");
        reveal_strlit("tagLine");
        reveal_strlit("summonerId");
    }
    let mut fields: Vec<(String, JsonValue)> = Vec::new();
    fields.push((String::from_str("gameName"), JsonValue::Str(p.game_name.clone())));
    fields.push((String::from_str("tagLine"), JsonValue::Str(p.tag_line.clone())));
    proof {
        assert(fields@[0].0@ == "gameName"@);
        assert(fields@[1].0@ == "tagLine"@);
    }
    if let Some(sid) = p.summoner_id {
        fields.push((String::from_str("summonerId"), JsonValue::Int(sid)));
        proof {
            assert(fields@[2].0@ == "summonerId"@);
            lemma_obj_get_at(fields@, 2);
        }
    } else {
        proof {
            assert(spec_obj_get(fields@, "summonerId"@) is None) by {
                reveal_with_fuel(spec_obj_get, 3);
                assert(fields@.len() == 2);
                assert(fields@[0].0@ != "summonerId"@);
                assert(fields@[1].0@ != "summonerId"@);
                assert(fields@.drop_first()[0] == fields@[1]);
                assert(fields@.drop_first().drop_first() =~= Seq::<(String, JsonValue)>::empty());
            }
        }
    }
    proof {
        lemma_obj_get_at(fields@, 0);
        lemma_obj_get_at(fields@, 1);
    }
    JsonValue::Obj(fields)
}

/// Parse a player identity.
pub fn player_from_json(v: &JsonValue) -> (r: Option<crate::types::Player>)
    ensures
        match r {
            Some(p) => spec_player_from(*v) == Some(spec_player_view(p)),
            None => spec_player_from(*v) is None,
        },
{
    match v {
        JsonValue::Obj(fields) => {
            let game_name = match get_string(fields, "gameName") {
                Some(x) => x,
                None => {
                    return None;
                },
            };
            let tag_line = match get_string(fields, "tagLine") {
                Some(x) => x,
                None => {
                    return None;
                },
            };
            let summoner_id = match obj_get(fields, "summonerId") {
                None => None,
                Some(JsonValue::Int(x)) => Some(*x),
                Some(_) => {
                    return None;
                },
            };
            Some(crate::types::Player { game_name, tag_line, summoner_id })
        },
        _ => None,
    }
}

/// What a statistics object parses back to.
pub open spec fn spec_stats_from(v: JsonValue) -> Option<crate::types::Stats> {
    match v {
        JsonValue::Obj(fields) => {
            let f = fields@;
            match (
                spec_get_i64(f, "kills"@),
                spec_get_i64(f, "deaths"@),
                spec_get_i64(f, "assists"@),
                spec_get_i64(f, "largestMultiKill"@),
                spec_get_i64(f, "neutralMinionsKilled"@),
                spec_get_i64(f, "neutralMinionsKilledEnemyJungle"@),
                spec_get_i64(f, "neutralMinionsKilledTeamJungle"@),
                spec_get_i64(f, "totalMinionsKilled"@),
                spec_get_i64(f, "visionScore"@),
                spec_get_i64(f, "visionWardsBoughtInGame"@),
                spec_get_i64(f, "wardsPlaced"@),
                spec_get_i64(f, "wardsKilled"@),
            ) {
                (
                    Some(kills),
                    Some(deaths),
                    Some(assists),
                    Some(largest_multi_kill),
                    Some(neutral_minions_killed),
                    Some(neutral_minions_killed_enemy_jungle),
                    Some(neutral_minions_killed_team_jungle),
                    Some(total_minions_killed),
                    Some(vision_score),
                    Some(vision_wards_bought_in_game),
                    Some(wards_placed),
                    Some(wards_killed),
                ) => match (
                    spec_get_bool(f, "gameEndedInEarlySurrender"@),
                    spec_get_bool(f, "gameEndedInSurrender"@),
                    spec_get_bool(f, "win"@),
                    spec_get_i64(f, "item0"@),
                    spec_get_i64(f, "item1"@),
                    spec_get_i64(f, "item2"@),
                    spec_get_i64(f, "item3"@),
                    spec_get_i64(f, "item4"@),
                    spec_get_i64(f, "item5"@),
                    spec_get_i64(f, "item6"@),
                ) {
                    (
                        Some(game_ended_in_early_surrender),
                        Some(game_ended_in_surrender),
                        Some(win),
                        Some(item0),
                        Some(item1),
                        Some(item2),
                        Some(item3),
                        Some(item4),
                        Some(item5),
                        Some(item6),
                    ) => match (
                        spec_get_i64(f, "perk0"@),
                        spec_get_i64(f, "perk1"@),
                        spec_get_i64(f, "perk2"@),
                        spec_get_i64(f, "perk3"@),
                        spec_get_i64(f, "perk4"@),
                        spec_get_i64(f, "perk5"@),
                        spec_get_i64(f, "perkPrimaryStyle"@),
                        spec_get_i64(f, "perkSubStyle"@),
                        spec_get_i64(f, "goldEarned"@),
                    ) {
                        (
                            Some(perk0),
                            Some(perk1),
                            Some(perk2),
                            Some(perk3),
                            Some(perk4),
                            Some(perk5),
                            Some(perk_primary_style),
                            Some(perk_sub_style),
                            Some(gold_earned),
                        ) => Some(
                            crate::types::Stats {
                                kills,
                                deaths,
                                assists,
                                largest_multi_kill,
                                neutral_minions_killed,
                                neutral_minions_killed_enemy_jungle,
                                neutral_minions_killed_team_jungle,
                                total_minions_killed,
                                vision_score,
                                vision_wards_bought_in_game,
                                wards_placed,
                                wards_killed,
                                game_ended_in_early_surrender,
                                game_ended_in_surrender,
                                win,
                                item0,
                                item1,
                                item2,
                                item3,
                                item4,
                                item5,
                                item6,
                                perk0,
                                perk1,
                                perk2,
                                perk3,
                                perk4,
                                perk5,
                                perk_primary_style,
                                perk_sub_style,
                                gold_earned,
                            },
                        ),
                        _ => None,
                    },
                    _ => None,
                },
                _ => None,
            }
        },
        _ => None,
    }
}

/// Encode a statistics record.
#[verifier::rlimit(60)]
pub fn stats_to_json(s: &crate::types::Stats) -> (r: JsonValue)
    ensures
        spec_stats_from(r) == Some(*s),
{
    proof {
        reveal_strlit("kills");
        reveal_strlit("deaths");
        reveal_strlit("assists");
        reveal_strlit("largestMultiKill");
        reveal_strlit("neutralMinionsKilled");
        reveal_strlit("neutralMinionsKilledEnemyJungle");
        reveal_strlit("neutralMinionsKilledTeamJungle");
        reveal_strlit("totalMinionsKilled");
        reveal_strlit("visionScore");
        reveal_strlit("visionWardsBoughtInGame");
        reveal_strlit("wardsPlaced");
        reveal_strlit("wardsKilled");
        reveal_strlit("gameEndedInEarlySurrender");
        reveal_strlit("gameEndedInSurrender");
        reveal_strlit("win");
        reveal_strlit("item0");
        reveal_strlit("item1");
        reveal_strlit("item2");
        reveal_strlit("item3");
        reveal_strlit("item4");
        reveal_strlit("item5");
        reveal_strlit("item6");
        reveal_strlit("perk0");
        reveal_strlit("perk1");
        reveal_strlit("perk2");
        reveal_strlit("perk3");
        reveal_strlit("perk4");
        reveal_strlit("perk5");
        reveal_strlit("perkPrimaryStyle");
        reveal_strlit("perkSubStyle");
        reveal_strlit("goldEarned");
    }
    let mut fields: Vec<(String, JsonValue)> = Vec::new();
    fields.push((String::from_str("kills"), JsonValue::Int(s.kills)));
    fields.push((String::from_str("deaths"), JsonValue::Int(s.deaths)));
    fields.push((String::from_str("assists"), JsonValue::Int(s.assists)));
    fields.push((String::from_str("largestMultiKill"), JsonValue::Int(s.largest_multi_kill)));
    fields.push(
        (String::from_str("neutralMinionsKilled"), JsonValue::Int(s.neutral_minions_killed)),
    );
    fields.push(
        (
            String::from_str("neutralMinionsKilledEnemyJungle"),
            JsonValue::Int(s.neutral_minions_killed_enemy_jungle),
        ),
    );
    fields.push(
        (
            String::from_str("neutralMinionsKilledTeamJungle"),
            JsonValue::Int(s.neutral_minions_killed_team_jungle),
        ),
    );
    fields.push((String::from_str("totalMinionsKilled"), JsonValue::Int(s.total_minions_killed)));
    fields.push((String::from_str("visionScore"), JsonValue::Int(s.vision_score)));
    fields.push(
        (
            String::from_str("visionWardsBoughtInGame"),
            JsonValue::Int(s.vision_wards_bought_in_game),
        ),
    );
    fields.push((String::from_str("wardsPlaced"), JsonValue::Int(s.wards_placed)));
    fields.push((String::from_str("wardsKilled"), JsonValue::Int(s.wards_killed)));
    fields.push(
        (
            String::from_str("gameEndedInEarlySurrender"),
            JsonValue::Bool(s.game_ended_in_early_surrender),
        ),
    );
    fields.push(
        (String::from_str("gameEndedInSurrender"), JsonValue::Bool(s.game_ended_in_surrender)),
    );
    fields.push((String::from_str("win"), JsonValue::Bool(s.win)));
    fields.push((String::from_str("item0"), JsonValue::Int(s.item0)));
    fields.push((String::from_str("item1"), JsonValue::Int(s.item1)));
    fields.push((String::from_str("item2"), JsonValue::Int(s.item2)));
    fields.push((String::from_str("item3"), JsonValue::Int(s.item3)));
    fields.push((String::from_str("item4"), JsonValue::Int(s.item4)));
    fields.push((String::from_str("item5"), JsonValue::Int(s.item5)));
    fields.push((String::from_str("item6"), JsonValue::Int(s.item6)));
    fields.push((String::from_str("perk0"), JsonValue::Int(s.perk0)));
    fields.push((String::from_str("perk1"), JsonValue::Int(s.perk1)));
    fields.push((String::from_str("perk2"), JsonValue::Int(s.perk2)));
    fields.push((String::from_str("perk3"), JsonValue::Int(s.perk3)));
    fields.push((String::from_str("perk4"), JsonValue::Int(s.perk4)));
    fields.push((String::from_str("perk5"), JsonValue::Int(s.perk5)));
    fields.push((String::from_str("perkPrimaryStyle"), JsonValue::Int(s.perk_primary_style)));
    fields.push((String::from_str("perkSubStyle"), JsonValue::Int(s.perk_sub_style)));
    fields.push((String::from_str("goldEarned"), JsonValue::Int(s.gold_earned)));
    proof {
        assert(fields@[0].0@ == "kills"@);
        assert(fields@[1].0@ == "deaths"@);
        assert(fields@[2].0@ == "assists"@);
        assert(fields@[3].0@ == "largestMultiKill"@);
        assert(fields@[4].0@ == "neutralMinionsKilled"@);
        assert(fields@[5].0@ == "neutralMinionsKilledEnemyJungle"@);
        assert(fields@[6].0@ == "neutralMinionsKilledTeamJungle"@);
        assert(fields@[7].0@ == "totalMinionsKilled"@);
        assert(fields@[8].0@ == "visionScore"@);
        assert(fields@[9].0@ == "visionWardsBoughtInGame"@);
        assert(fields@[10].0@ == "wardsPlaced"@);
        assert(fields@[11].0@ == "wardsKilled"@);
        assert(fields@[12].0@ == "gameEndedInEarlySurrender"@);
        assert(fields@[13].0@ == "gameEndedInSurrender"@);
        assert(fields@[14].0@ == "win"@);
        assert(fields@[15].0@ == "item0"@);
        assert(fields@[16].0@ == "item1"@);
        assert(fields@[17].0@ == "item2"@);
        assert(fields@[18].0@ == "item3"@);
        assert(fields@[19].0@ == "item4"@);
        assert(fields@[20].0@ == "item5"@);
        assert(fields@[21].0@ == "item6"@);
        assert(fields@[22].0@ == "perk0"@);
        assert(fields@[23].0@ == "perk1"@);
        assert(fields@[24].0@ == "perk2"@);
        assert(fields@[25].0@ == "perk3"@);
        assert(fields@[26].0@ == "perk4"@);
        assert(fields@[27].0@ == "perk5"@);
        assert(fields@[28].0@ == "perkPrimaryStyle"@);
        assert(fields@[29].0@ == "perkSubStyle"@);
        assert(fields@[30].0@ == "goldEarned"@);
        assert("visionScore"@ != "wardsPlaced"@) by {
            assert("visionScore"@[0] != "wardsPlaced"@[0]);
        }
        assert("visionScore"@ != "wardsKilled"@) by {
            assert("visionScore"@[0] != "wardsKilled"@[0]);
        }
        assert("wardsPlaced"@ != "wardsKilled"@) by {
            assert("wardsPlaced"@[5] != "wardsKilled"@[5]);
        }
        assert("neutralMinionsKilled"@ != "gameEndedInSurrender"@) by {
            assert("neutralMinionsKilled"@[0] != "gameEndedInSurrender"@[0]);
        }
        assert("kills"@ != "item0"@) by {
            assert("kills"@[0] != "item0"@[0]);
        }
        assert("kills"@ != "item1"@) by {
            assert("kills"@[0] != "item1"@[0]);
        }
        assert("item0"@ != "item1"@) by {
            assert("item0"@[4] != "item1"@[4]);
        }
        assert("kills"@ != "item2"@) by {
            assert("kills"@[0] != "item2"@[0]);
        }
        assert("item0"@ != "item2"@) by {
            assert("item0"@[4] != "item2"@[4]);
        }
        assert("item1"@ != "item2"@) by {
            assert("item1"@[4] != "item2"@[4]);
        }
        assert("kills"@ != "item3"@) by {
            assert("kills"@[0] != "item3"@[0]);
        }
        assert("item0"@ != "item3"@) by {
            assert("item0"@[4] != "item3"@[4]);
        }
        assert("item1"@ != "item3"@) by {
            assert("item1"@[4] != "item3"@[4]);
        }
        assert("item2"@ != "item3"@) by {
            assert("item2"@[4] != "item3"@[4]);
        }
        assert("kills"@ != "item4"@) by {
            assert("kills"@[0] != "item4"@[0]);
        }
        assert("item0"@ != "item4"@) by {
            assert("item0"@[4] != "item4"@[4]);
        }
        assert("item1"@ != "item4"@) by {
            assert("item1"@[4] != "item4"@[4]);
        }
        assert("item2"@ != "item4"@) by {
            assert("item2"@[4] != "item4"@[4]);
        }
        assert("item3"@ != "item4"@) by {
            assert("item3"@[4] != "item4"@[4]);
        }
        assert("kills"@ != "item5"@) by {
            assert("kills"@[0] != "item5"@[0]);
        }
        assert("item0"@ != "item5"@) by {
            assert("item0"@[4] != "item5"@[4]);
        }
        assert("item1"@ != "item5"@) by {
            assert("item1"@[4] != "item5"@[4]);
        }
        assert("item2"@ != "item5"@) by {
            assert("item2"@[4] != "item5"@[4]);
        }
        assert("item3"@ != "item5"@) by {
            assert("item3"@[4] != "item5"@[4]);
        }
        assert("item4"@ != "item5"@) by {
            assert("item4"@[4] != "item5"@[4]);
        }
        assert("kills"@ != "item6"@) by {
            assert("kills"@[0] != "item6"@[0]);
        }
        assert("item0"@ != "item6"@) by {
            assert("item0"@[4] != "item6"@[4]);
        }
        assert("item1"@ != "item6"@) by {
            assert("item1"@[4] != "item6"@[4]);
        }
        assert("item2"@ != "item6"@) by {
            assert("item2"@[4] != "item6"@[4]);
        }
        assert("item3"@ != "item6"@) by {
            assert("item3"@[4] != "item6"@[4]);
        }
        assert("item4"@ != "item6"@) by {
            assert("item4"@[4] != "item6"@[4]);
        }
        assert("item5"@ != "item6"@) by {
            assert("item5"@[4] != "item6"@[4]);
        }
        assert("kills"@ != "perk0"@) by {
            assert("kills"@[0] != "perk0"@[0]);
        }
        assert("item0"@ != "perk0"@) by {
            assert("item0"@[0] != "perk0"@[0]);
        }
        assert("item1"@ != "perk0"@) by {
            assert("item1"@[0] != "perk0"@[0]);
        }
        assert("item2"@ != "perk0"@) by {
            assert("item2"@[0] != "perk0"@[0]);
        }
        assert("item3"@ != "perk0"@) by {
            assert("item3"@[0] != "perk0"@[0]);
        }
        assert("item4"@ != "perk0"@) by {
            assert("item4"@[0] != "perk0"@[0]);
        }
        assert("item5"@ != "perk0"@) by {
            assert("item5"@[0] != "perk0"@[0]);
        }
        assert("item6"@ != "perk0"@) by {
            assert("item6"@[0] != "perk0"@[0]);
        }
        assert("kills"@ != "perk1"@) by {
            assert("kills"@[0] != "perk1"@[0]);
        }
        assert("item0"@ != "perk1"@) by {
            assert("item0"@[0] != "perk1"@[0]);
        }
        assert("item1"@ != "perk1"@) by {
            assert("item1"@[0] != "perk1"@[0]);
        }
        assert("item2"@ != "perk1"@) by {
            assert("item2"@[0] != "perk1"@[0]);
        }
        assert("item3"@ != "perk1"@) by {
            assert("item3"@[0] != "perk1"@[0]);
        }
        assert("item4"@ != "perk1"@) by {
            assert("item4"@[0] != "perk1"@[0]);
        }
        assert("item5"@ != "perk1"@) by {
            assert("item5"@[0] != "perk1"@[0]);
        }
        assert("item6"@ != "perk1"@) by {
            assert("item6"@[0] != "perk1"@[0]);
        }
        assert("perk0"@ != "perk1"@) by {
            assert("perk0"@[4] != "perk1"@[4]);
        }
        assert("kills"@ != "perk2"@) by {
            assert("kills"@[0] != "perk2"@[0]);
        }
        assert("item0"@ != "perk2"@) by {
            assert("item0"@[0] != "perk2"@[0]);
        }
        assert("item1"@ != "perk2"@) by {
            assert("item1"@[0] != "perk2"@[0]);
        }
        assert("item2"@ != "perk2"@) by {
            assert("item2"@[0] != "perk2"@[0]);
        }
        assert("item3"@ != "perk2"@) by {
            assert("item3"@[0] != "perk2"@[0]);
        }
        assert("item4"@ != "perk2"@) by {
            assert("item4"@[0] != "perk2"@[0]);
        }
        assert("item5"@ != "perk2"@) by {
            assert("item5"@[0] != "perk2"@[0]);
        }
        assert("item6"@ != "perk2"@) by {
            assert("item6"@[0] != "perk2"@[0]);
        }
        assert("perk0"@ != "perk2"@) by {
            assert("perk0"@[4] != "perk2"@[4]);
        }
        assert("perk1"@ != "perk2"@) by {
            assert("perk1"@[4] != "perk2"@[4]);
        }
        assert("kills"@ != "perk3"@) by {
            assert("kills"@[0] != "perk3"@[0]);
        }
        assert("item0"@ != "perk3"@) by {
            assert("item0"@[0] != "perk3"@[0]);
        }
        assert("item1"@ != "perk3"@) by {
            assert("item1"@[0] != "perk3"@[0]);
        }
        assert("item2"@ != "perk3"@) by {
            assert("item2"@[0] != "perk3"@[0]);
        }
        assert("item3"@ != "perk3"@) by {
            assert("item3"@[0] != "perk3"@[0]);
        }
        assert("item4"@ != "perk3"@) by {
            assert("item4"@[0] != "perk3"@[0]);
        }
        assert("item5"@ != "perk3"@) by {
            assert("item5"@[0] != "perk3"@[0]);
        }
        assert("item6"@ != "perk3"@) by {
            assert("item6"@[0] != "perk3"@[0]);
        }
        assert("perk0"@ != "perk3"@) by {
            assert("perk0"@[4] != "perk3"@[4]);
        }
        assert("perk1"@ != "perk3"@) by {
            assert("perk1"@[4] != "perk3"@[4]);
        }
        assert("perk2"@ != "perk3"@) by {
            assert("perk2"@[4] != "perk3"@[4]);
        }
        assert("kills"@ != "perk4"@) by {
            assert("kills"@[0] != "perk4"@[0]);
        }
        assert("item0"@ != "perk4"@) by {
            assert("item0"@[0] != "perk4"@[0]);
        }
        assert("item1"@ != "perk4"@) by {
            assert("item1"@[0] != "perk4"@[0]);
        }
        assert("item2"@ != "perk4"@) by {
            assert("item2"@[0] != "perk4"@[0]);
        }
        assert("item3"@ != "perk4"@) by {
            assert("item3"@[0] != "perk4"@[0]);
        }
        assert("item4"@ != "perk4"@) by {
            assert("item4"@[0] != "perk4"@[0]);
        }
        assert("item5"@ != "perk4"@) by {
            assert("item5"@[0] != "perk4"@[0]);
        }
        assert("item6"@ != "perk4"@) by {
            assert("item6"@[0] != "perk4"@[0]);
        }
        assert("perk0"@ != "perk4"@) by {
            assert("perk0"@[4] != "perk4"@[4]);
        }
        assert("perk1"@ != "perk4"@) by {
            assert("perk1"@[4] != "perk4"@[4]);
        }
        assert("perk2"@ != "perk4"@) by {
            assert("perk2"@[4] != "perk4"@[4]);
        }
        assert("perk3"@ != "perk4"@) by {
            assert("perk3"@[4] != "perk4"@[4]);
        }
        assert("kills"@ != "perk5"@) by {
            assert("kills"@[0] != "perk5"@[0]);
        }
        assert("item0"@ != "perk5"@) by {
            assert("item0"@[0] != "perk5"@[0]);
        }
        assert("item1"@ != "perk5"@) by {
            assert("item1"@[0] != "perk5"@[0]);
        }
        assert("item2"@ != "perk5"@) by {
            assert("item2"@[0] != "perk5"@[0]);
        }
        assert("item3"@ != "perk5"@) by {
            assert("item3"@[0] != "perk5"@[0]);
        }
        assert("item4"@ != "perk5"@) by {
            assert("item4"@[0] != "perk5"@[0]);
        }
        assert("item5"@ != "perk5"@) by {
            assert("item5"@[0] != "perk5"@[0]);
        }
        assert("item6"@ != "perk5"@) by {
            assert("item6"@[0] != "perk5"@[0]);
        }
        assert("perk0"@ != "perk5"@) by {
            assert("perk0"@[4] != "perk5"@[4]);
        }
        assert("perk1"@ != "perk5"@) by {
            assert("perk1"@[4] != "perk5"@[4]);
        }
        assert("perk2"@ != "perk5"@) by {
            assert("perk2"@[4] != "perk5"@[4]);
        }
        assert("perk3"@ != "perk5"@) by {
            assert("perk3"@[4] != "perk5"@[4]);
        }
        assert("perk4"@ != "perk5"@) by {
            assert("perk4"@[4] != "perk5"@[4]);
        }
        assert("largestMultiKill"@ != "perkPrimaryStyle"@) by {
            assert("largestMultiKill"@[0] != "perkPrimaryStyle"@[0]);
        }
        lemma_obj_get_at(fields@, 0);
        lemma_obj_get_at(fields@, 1);
        lemma_obj_get_at(fields@, 2);
        lemma_obj_get_at(fields@, 3);
        lemma_obj_get_at(fields@, 4);
        lemma_obj_get_at(fields@, 5);
        lemma_obj_get_at(fields@, 6);
        lemma_obj_get_at(fields@, 7);
        lemma_obj_get_at(fields@, 8);
        lemma_obj_get_at(fields@, 9);
        lemma_obj_get_at(fields@, 10);
        lemma_obj_get_at(fields@, 11);
        lemma_obj_get_at(fields@, 12);
        lemma_obj_get_at(fields@, 13);
        lemma_obj_get_at(fields@, 14);
        lemma_obj_get_at(fields@, 15);
        lemma_obj_get_at(fields@, 16);
        lemma_obj_get_at(fields@, 17);
        lemma_obj_get_at(fields@, 18);
        lemma_obj_get_at(fields@, 19);
        lemma_obj_get_at(fields@, 20);
        lemma_obj_get_at(fields@, 21);
        lemma_obj_get_at(fields@, 22);
        lemma_obj_get_at(fields@, 23);
        lemma_obj_get_at(fields@, 24);
        lemma_obj_get_at(fields@, 25);
        lemma_obj_get_at(fields@, 26);
        lemma_obj_get_at(fields@, 27);
        lemma_obj_get_at(fields@, 28);
        lemma_obj_get_at(fields@, 29);
        lemma_obj_get_at(fields@, 30);
    }
    JsonValue::Obj(fields)
}

/// Parse a statistics record.
pub fn stats_from_json(v: &JsonValue) -> (r: Option<crate::types::Stats>)
    ensures
        r == spec_stats_from(*v),
{
    let fields = match v {
        JsonValue::Obj(fields) => fields,
        _ => {
            return None;
        },
    };
    let kills = match get_i64(fields, "kills") {
        Some(x) => x,
        None => {
            return None;
        },
    };
    let deaths = match get_i64(fields, "deaths") {
        Some(x) => x,
        None => {
            return None;
        },
    };
    let assists = match get_i64(fields, "assists") {
        Some(x) => x,
        None => {
            return None;
        },
    };
    let largest_multi_kill = match get_i64(fields, "largestMultiKill") {
        Some(x) => x,
        None => {
            return None;
        },
    };
    let neutral_minions_killed = match get_i64(fields, "neutralMinionsKilled") {
        Some(x) => x,
        None => {
            return None;
        },
    };
    let neutral_minions_killed_enemy_jungle = match get_i64(
        fields,
        "neutralMinionsKilledEnemyJungle",
    ) {
        Some(x) => x,
        None => {
            return None;
        },
    };
    let neutral_minions_killed_team_jungle = match get_i64(
        fields,
        "neutralMinionsKilledTeamJungle",
    ) {
        Some(x) => x,
        None => {
            return None;
        },
    };
    let total_minions_killed = match get_i64(fields, "totalMinionsKilled") {
        Some(x) => x,
        None => {
            return None;
        },
    };
    let vision_score = match get_i64(fields, "visionScore") {
        Some(x) => x,
        None => {
            return None;
        },
    };
    let vision_wards_bought_in_game = match get_i64(fields, "visionWardsBoughtInGame") {
        Some(x) => x,
        None => {
            return None;
        },
    };
    let wards_placed = match get_i64(fields, "wardsPlaced") {
        Some(x) => x,
        None => {
            return None;
        },
    };
    let wards_killed = match get_i64(fields, "wardsKilled") {
        Some(x) => x,
        None => {
            return None;
        },
    };
    let game_ended_in_early_surrender = match get_bool(fields, "gameEndedInEarlySurrender") {
        Some(x) => x,
        None => {
            return None;
        },
    };
    let game_ended_in_surrender = match get_bool(fields, "gameEndedInSurrender") {
        Some(x) => x,
        None => {
            return None;
        },
    };
    let win = match get_bool(fields, "win") {
        Some(x) => x,
        None => {
            return None;
        },
    };
    let item0 = match get_i64(fields, "item0") {
        Some(x) => x,
        None => {
            return None;
        },
    };
    let item1 = match get_i64(fields, "item1") {
        Some(x) => x,
        None => {
            return None;
        },
    };
    let item2 = match get_i64(fields, "item2") {
        Some(x) => x,
        None => {
            return None;
        },
    };
    let item3 = match get_i64(fields, "item3") {
        Some(x) => x,
        None => {
            return None;
        },
    };
    let item4 = match get_i64(fields, "item4") {
        Some(x) => x,
        None => {
            return None;
        },
    };
    let item5 = match get_i64(fields, "item5") {
        Some(x) => x,
        None => {
            return None;
        },
    };
    let item6 = match get_i64(fields, "item6") {
        Some(x) => x,
        None => {
            return None;
        },
    };
    let perk0 = match get_i64(fields, "perk0") {
        Some(x) => x,
        None => {
            return None;
        },
    };
    let perk1 = match get_i64(fields, "perk1") {
        Some(x) => x,
        None => {
            return None;
        },
    };
    let perk2 = match get_i64(fields, "perk2") {
        Some(x) => x,
        None => {
            return None;
        },
    };
    let perk3 = match get_i64(fields, "perk3") {
        Some(x) => x,
        None => {
            return None;
        },
    };
    let perk4 = match get_i64(fields, "perk4") {
        Some(x) => x,
        None => {
            return None;
        },
    };
    let perk5 = match get_i64(fields, "perk5") {
        Some(x) => x,
        None => {
            return None;
        },
    };
    let perk_primary_style = match get_i64(fields, "perkPrimaryStyle") {
        Some(x) => x,
        None => {
            return None;
        },
    };
    let perk_sub_style = match get_i64(fields, "perkSubStyle") {
        Some(x) => x,
        None => {
            return None;
        },
    };
    let gold_earned = match get_i64(fields, "goldEarned") {
        Some(x) => x,
        None => {
            return None;
        },
    };
    Some(
        crate::types::Stats {
            kills,
            deaths,
            assists,
            largest_multi_kill,
            neutral_minions_killed,
            neutral_minions_killed_enemy_jungle,
            neutral_minions_killed_team_jungle,
            total_minions_killed,
            vision_score,
            vision_wards_bought_in_game,
            wards_placed,
            wards_killed,
            game_ended_in_early_surrender,
            game_ended_in_surrender,
            win,
            item0,
            item1,
            item2,
            item3,
            item4,
            item5,
            item6,
            perk0,
            perk1,
            perk2,
            perk3,
            perk4,
            perk5,
            perk_primary_style,
            perk_sub_style,
            gold_earned,
        },
    )
}

/// What a ban object parses back to.
pub open spec fn spec_ban_from(v: JsonValue) -> Option<crate::types::Ban> {
    match v {
        JsonValue::Obj(fields) => match (
            spec_get_i64(fields@, "championId"@),
            spec_get_i64(fields@, "pickTurn"@),
        ) {
            (Some(champion_id), Some(pick_turn)) => Some(
                crate::types::Ban { champion_id, pick_turn },
            ),
            _ => None,
        },
        _ => None,
    }
}

/// Encode a ban.
pub fn ban_to_json(b: &crate::types::Ban) -> (r: JsonValue)
    ensures
        spec_ban_from(r) == Some(*b),
{
    proof {
        reveal_strlit("championId");
        reveal_strlit("pickTurn");
    }
    let mut fields: Vec<(String, JsonValue)> = Vec::new();
    fields.push((String::from_str("championId"), JsonValue::Int(b.champion_id)));
    fields.push((String::from_str("pickTurn"), JsonValue::Int(b.pick_turn)));
    proof {
        assert(fields@[0].0@ == "championId"@);
        assert(fields@[1].0@ == "pickTurn"@);
        lemma_obj_get_at(fields@, 0);
        lemma_obj_get_at(fields@, 1);
    }
    JsonValue::Obj(fields)
}

/// Parse a ban.
pub fn ban_from_json(v: &JsonValue) -> (r: Option<crate::types::Ban>)
    ensures
        r == spec_ban_from(*v),
{
    match v {
        JsonValue::Obj(fields) => {
            let champion_id = match get_i64(fields, "championId") {
                Some(x) => x,
                None => {
                    return None;
                },
            };
            let pick_turn = match get_i64(fields, "pickTurn") {
                Some(x) => x,
                None => {
                    return None;
                },
            };
            Some(crate::types::Ban { champion_id, pick_turn })
        },
        _ => None,
    }
}

/// What an array of ban objects parses back to.
pub open spec fn spec_bans_from(vs: Seq<JsonValue>) -> Option<Seq<crate::types::Ban>>
    decreases vs.len(),
{
    if vs.len() == 0 {
        Some(Seq::empty())
    } else {
        match (spec_bans_from(vs.drop_last()), spec_ban_from(vs.last())) {
            (Some(s), Some(b)) => Some(s.push(b)),
            _ => None,
        }
    }
}

proof fn lemma_bans_prefix_none(vs: Seq<JsonValue>, i: int)
    requires
        0 <= i <= vs.len(),
        spec_bans_from(vs.take(i)) is None,
    ensures
        spec_bans_from(vs) is None,
    decreases vs.len() - i,
{
    if i < vs.len() {
        assert(vs.take(i + 1).drop_last() =~= vs.take(i));
        lemma_bans_prefix_none(vs, i + 1);
    } else {
        assert(vs.take(i) =~= vs);
    }
}

/// Encode a ban list.
pub fn bans_to_json(bs: &Vec<crate::types::Ban>) -> (r: Vec<JsonValue>)
    ensures
        spec_bans_from(r@) == Some(bs@),
{
    let mut out: Vec<JsonValue> = Vec::new();
    let mut i: usize = 0;
    proof {
        assert(bs@.take(0) =~= Seq::<crate::types::Ban>::empty());
    }
    while i < bs.len()
        invariant
            i <= bs@.len(),
            spec_bans_from(out@) == Some(bs@.take(i as int)),
        decreases bs@.len() - i,
    {
        let ghost before = out@;
        let j = ban_to_json(&bs[i]);
        out.push(j);
        proof {
            assert(out@.drop_last() =~= before);
            assert(bs@.take(i + 1) =~= bs@.take(i as int).push(bs@[i as int]));
        }
        i += 1;
    }
    proof {
        assert(bs@.take(bs@.len() as int) =~= bs@);
    }
    out
}

/// Parse a ban list.
pub fn bans_from_json(vs: &Vec<JsonValue>) -> (r: Option<Vec<crate::types::Ban>>)
    ensures
        match r {
            Some(xs) => spec_bans_from(vs@) == Some(xs@),
            None => spec_bans_from(vs@) is None,
        },
{
    let mut out: Vec<crate::types::Ban> = Vec::new();
    let mut i: usize = 0;
    proof {
        assert(vs@.take(0) =~= Seq::<JsonValue>::empty());
    }
    while i < vs.len()
        invariant
            i <= vs@.len(),
            spec_bans_from(vs@.take(i as int)) == Some(out@),
        decreases vs@.len() - i,
    {
        proof {
            assert(vs@.take(i + 1).drop_last() =~= vs@.take(i as int));
            assert(vs@.take(i + 1).last() == vs@[i as int]);
        }
        match ban_from_json(&vs[i]) {
            Some(b) => {
                out.push(b);
            },
            None => {
                proof {
                    lemma_bans_prefix_none(vs@, i + 1);
                }
                return None;
            },
        }
        i += 1;
    }
    proof {
        assert(vs@.take(vs@.len() as int) =~= vs@);
    }
    Some(out)
}

/// A team record, down to plain values.
pub struct MatchTeamView {
    pub team_id: i64,
    pub win: Option<Seq<char>>,
    pub tower_kills: i64,
    pub inhibitor_kills: i64,
    pub baron_kills: i64,
    pub dragon_kills: i64,
    pub vilemaw_kills: i64,
    pub rift_herald_kills: i64,
    pub dominion_victory_score: i64,
    pub bans: Seq<crate::types::Ban>,
}

/// The plain values of a team record.
pub open spec fn spec_team_view(t: crate::types::MatchTeam) -> MatchTeamView {
    MatchTeamView {
        team_id: t.team_id,
        win: match t.win {
            Some(w) => Some(w@),
            None => None,
        },
        tower_kills: t.tower_kills,
        inhibitor_kills: t.inhibitor_kills,
        baron_kills: t.baron_kills,
        dragon_kills: t.dragon_kills,
        vilemaw_kills: t.vilemaw_kills,
        rift_herald_kills: t.rift_herald_kills,
        dominion_victory_score: t.dominion_victory_score,
        bans: t.bans@,
    }
}

/// What a team object parses back to. An absent win field parses as
/// unknown, mirroring that it is omitted when unknown.
pub open spec fn spec_team_from(v: JsonValue) -> Option<MatchTeamView> {
    match v {
        JsonValue::Obj(fields) => {
            let f = fields@;
            match (
                spec_get_i64(f, "teamId"@),
                spec_get_i64(f, "towerKills"@),
                spec_get_i64(f, "inhibitorKills"@),
                spec_get_i64(f, "baronKills"@),
                spec_get_i64(f, "dragonKills"@),
                spec_get_i64(f, "vilemawKills"@),
                spec_get_i64(f, "riftHeraldKills"@),
                spec_get_i64(f, "dominionVictoryScore"@),
            ) {
                (
                    Some(team_id),
                    Some(tower_kills),
                    Some(inhibitor_kills),
                    Some(baron_kills),
                    Some(dragon_kills),
                    Some(vilemaw_kills),
                    Some(rift_herald_kills),
                    Some(dominion_victory_score),
                ) => {
                    let bans = match spec_obj_get(f, "bans"@) {
                        Some(JsonValue::Arr(vs)) => spec_bans_from(vs@),
                        _ => None,
                    };
                    let win = match spec_obj_get(f, "win"@) {
                        None => Some(None),
                        Some(JsonValue::Str(w)) => Some(Some(w@)),
                        Some(_) => None,
                    };
                    match (bans, win) {
                        (Some(bans), Some(win)) => Some(
                            MatchTeamView {
                                team_id,
                                win,
                                tower_kills,
                                inhibitor_kills,
                                baron_kills,
                                dragon_kills,
                                vilemaw_kills,
                                rift_herald_kills,
                                dominion_victory_score,
                                bans,
                            },
                        ),
                        _ => None,
                    }
                },
                _ => None,
            }
        },
        _ => None,
    }
}

/// Encode a team record; an unknown win field is omitted.
#[verifier::rlimit(30)]
pub fn team_to_json(t: &crate::types::MatchTeam) -> (r: JsonValue)
    ensures
        spec_team_from(r) == Some(spec_team_view(*t)),
{
    proof {
        reveal_strlit("teamId");
        reveal_strlit("towerKills");
        reveal_strlit("inhibitorKills");
        reveal_strlit("baronKills");
        reveal_strlit("dragonKills");
        reveal_strlit("vilemawKills");
        reveal_strlit("riftHeraldKills");
        reveal_strlit("dominionVictoryScore");
        reveal_strlit("bans");
        reveal_strlit("win");
    }
    let mut fields: Vec<(String, JsonValue)> = Vec::new();
    fields.push((String::from_str("teamId"), JsonValue::Int(t.team_id)));
    fields.push((String::from_str("towerKills"), JsonValue::Int(t.tower_kills)));
    fields.push((String::from_str("inhibitorKills"), JsonValue::Int(t.inhibitor_kills)));
    fields.push((String::from_str("baronKills"), JsonValue::Int(t.baron_kills)));
    fields.push((String::from_str("dragonKills"), JsonValue::Int(t.dragon_kills)));
    fields.push((String::from_str("vilemawKills"), JsonValue::Int(t.vilemaw_kills)));
    fields.push((String::from_str("riftHeraldKills"), JsonValue::Int(t.rift_herald_kills)));
    fields.push(
        (String::from_str("dominionVictoryScore"), JsonValue::Int(t.dominion_victory_score)),
    );
    fields.push((String::from_str("bans"), JsonValue::Arr(bans_to_json(&t.bans))));
    proof {
        assert(fields@[0].0@ == "teamId"@);
        assert(fields@[1].0@ == "towerKills"@);
        assert(fields@[2].0@ == "inhibitorKills"@);
        assert(fields@[3].0@ == "baronKills"@);
        assert(fields@[4].0@ == "dragonKills"@);
        assert(fields@[5].0@ == "vilemawKills"@);
        assert(fields@[6].0@ == "riftHeraldKills"@);
        assert(fields@[7].0@ == "dominionVictoryScore"@);
        assert(fields@[8].0@ == "bans"@);
        assert("towerKills"@ != "baronKills"@) by {
            assert("towerKills"@[0] != "baronKills"@[0]);
        }
    }
    if let Some(w) = &t.win {
        fields.push((String::from_str("win"), JsonValue::Str(w.clone())));
        proof {
            assert(fields@[9].0@ == "win"@);
            lemma_obj_get_at(fields@, 9);
        }
    } else {
        proof {
            assert(spec_obj_get(fields@, "win"@) is None) by {
                reveal_with_fuel(spec_obj_get, 11);
                assert(fields@.len() == 9);
                assert(forall|i: int| 0 <= i < 9 ==> fields@[i].0@ != "win"@);
                assert(fields@.drop_first()[0] == fields@[1]);
                assert(fields@.drop_first().drop_first()[0] == fields@[2]);
                assert(fields@.drop_first().drop_first().drop_first()[0] == fields@[3]);
                assert(fields@.drop_first().drop_first().drop_first().drop_first()[0] == fields@[4]);
                assert(fields@.drop_first().drop_first().drop_first().drop_first().drop_first()[0]
                    == fields@[5]);
                assert(fields@.drop_first().drop_first().drop_first().drop_first().drop_first().drop_first()[0]
                    == fields@[6]);
                assert(fields@.drop_first().drop_first().drop_first().drop_first().drop_first().drop_first().drop_first()[0]
                    == fields@[7]);
                assert(fields@.drop_first().drop_first().drop_first().drop_first().drop_first().drop_first().drop_first().drop_first()[0]
                    == fields@[8]);
                assert(fields@.drop_first().drop_first().drop_first().drop_first().drop_first().drop_first().drop_first().drop_first().drop_first()
                    =~= Seq::<(String, JsonValue)>::empty());
            }
        }
    }
    proof {
        lemma_obj_get_at(fields@, 0);
        lemma_obj_get_at(fields@, 1);
        lemma_obj_get_at(fields@, 2);
        lemma_obj_get_at(fields@, 3);
        lemma_obj_get_at(fields@, 4);
        lemma_obj_get_at(fields@, 5);
        lemma_obj_get_at(fields@, 6);
        lemma_obj_get_at(fields@, 7);
        lemma_obj_get_at(fields@, 8);
    }
    JsonValue::Obj(fields)
}

/// Parse a team record.
pub fn team_from_json(v: &JsonValue) -> (r: Option<crate::types::MatchTeam>)
    ensures
        match r {
            Some(t) => spec_team_from(*v) == Some(spec_team_view(t)),
            None => spec_team_from(*v) is None,
        },
{
    let fields = match v {
        JsonValue::Obj(fields) => fields,
        _ => {
            return None;
        },
    };
    let team_id = match get_i64(fields, "teamId") {
        Some(x) => x,
        None => {
            return None;
        },
    };
    let tower_kills = match get_i64(fields, "towerKills") {
        Some(x) => x,
        None => {
            return None;
        },
    };
    let inhibitor_kills = match get_i64(fields, "inhibitorKills") {
        Some(x) => x,
        None => {
            return None;
        },
    };
    let baron_kills = match get_i64(fields, "baronKills") {
        Some(x) => x,
        None => {
            return None;
        },
    };
    let dragon_kills = match get_i64(fields, "dragonKills") {
        Some(x) => x,
        None => {
            return None;
        },
    };
    let vilemaw_kills = match get_i64(fields, "vilemawKills") {
        Some(x) => x,
        None => {
            return None;
        },
    };
    let rift_herald_kills = match get_i64(fields, "riftHeraldKills") {
        Some(x) => x,
        None => {
            return None;
        },
    };
    let dominion_victory_score = match get_i64(fields, "dominionVictoryScore") {
        Some(x) => x,
        None => {
            return None;
        },
    };
    let bans = match get_arr(fields, "bans") {
        Some(vs) => match bans_from_json(vs) {
            Some(bs) => bs,
            None => {
                return None;
            },
        },
        None => {
            return None;
        },
    };
    let win = match obj_get(fields, "win") {
        None => None,
        Some(JsonValue::Str(w)) => Some(w.clone()),
        Some(_) => {
            return None;
        },
    };
    Some(
        crate::types::MatchTeam {
            team_id,
            win,
            tower_kills,
            inhibitor_kills,
            baron_kills,
            dragon_kills,
            vilemaw_kills,
            rift_herald_kills,
            dominion_victory_score,
            bans,
        },
    )
}

/// A key that no field carries is not found.
proof fn lemma_obj_get_absent(fields: Seq<(String, JsonValue)>, key: Seq<char>)
    requires
        forall|i: int| 0 <= i < fields.len() ==> fields[i].0@ != key,
    ensures
        spec_obj_get(fields, key) is None,
    decreases fields.len(),
{
    if fields.len() > 0 {
        lemma_obj_get_absent(fields.drop_first(), key);
    }
}

/// What a timeline event object parses back to.
pub open spec fn spec_game_event_from(v: JsonValue) -> Option<crate::events::GameEvent> {
    match v {
        JsonValue::Obj(fields) => {
            let f = fields@;
            match (spec_get_i64(f, "timestamp"@), spec_get_str(f, "type"@)) {
                (Some(timestamp), Some(ty)) => {
                    if ty == "Kill"@ {
                        match spec_get_i64(f, "victimId"@) {
                            Some(victim_id) => Some(
                                crate::events::GameEvent {
                                    timestamp,
                                    event: crate::events::Event::Kill { victim_id },
                                },
                            ),
                            None => None,
                        }
                    } else if ty == "Death"@ {
                        match spec_get_i64(f, "killerId"@) {
                            Some(killer_id) => Some(
                                crate::events::GameEvent {
                                    timestamp,
                                    event: crate::events::Event::Death { killer_id },
                                },
                            ),
                            None => None,
                        }
                    } else if ty == "Assist"@ {
                        match spec_get_i64(f, "victimId"@) {
                            Some(victim_id) => Some(
                                crate::events::GameEvent {
                                    timestamp,
                                    event: crate::events::Event::Assist { victim_id },
                                },
                            ),
                            None => None,
                        }
                    } else if ty == "TurretKill"@ {
                        match spec_get_i64(f, "killerId"@) {
                            Some(killer_id) => Some(
                                crate::events::GameEvent {
                                    timestamp,
                                    event: crate::events::Event::TurretKill { killer_id },
                                },
                            ),
                            None => None,
                        }
                    } else if ty == "Dragon"@ {
                        match spec_get_i64(f, "killerId"@) {
                            Some(killer_id) => Some(
                                crate::events::GameEvent {
                                    timestamp,
                                    event: crate::events::Event::Dragon { killer_id },
                                },
                            ),
                            None => None,
                        }
                    } else if ty == "Herald"@ {
                        match spec_get_i64(f, "killerId"@) {
                            Some(killer_id) => Some(
                                crate::events::GameEvent {
                                    timestamp,
                                    event: crate::events::Event::Herald { killer_id },
                                },
                            ),
                            None => None,
                        }
                    } else if ty == "Baron"@ {
                        match spec_get_i64(f, "killerId"@) {
                            Some(killer_id) => Some(
                                crate::events::GameEvent {
                                    timestamp,
                                    event: crate::events::Event::Baron { killer_id },
                                },
                            ),
                            None => None,
                        }
                    } else if ty == "Voidgrub"@ {
                        match spec_get_i64(f, "killerId"@) {
                            Some(killer_id) => Some(
                                crate::events::GameEvent {
                                    timestamp,
                                    event: crate::events::Event::Voidgrub { killer_id },
                                },
                            ),
                            None => None,
                        }
                    } else if ty == "ItemPurchased"@ || ty == "ItemSold"@ {
                        match (spec_get_i64(f, "participantId"@), spec_get_i64(f, "itemId"@)) {
                            (Some(participant_id), Some(item_id)) => {
                                let slot = match spec_obj_get(f, "slot"@) {
                                    None => Some(None),
                                    Some(JsonValue::Int(x)) => Some(Some(x)),
                                    Some(_) => None,
                                };
                                match slot {
                                    Some(slot) => Some(
                                        crate::events::GameEvent {
                                            timestamp,
                                            event: if ty == "ItemPurchased"@ {
                                                crate::events::Event::ItemPurchased {
                                                    participant_id,
                                                    item_id,
                                                    slot,
                                                }
                                            } else {
                                                crate::events::Event::ItemSold {
                                                    participant_id,
                                                    item_id,
                                                    slot,
                                                }
                                            },
                                        },
                                    ),
                                    None => None,
                                }
                            },
                            _ => None,
                        }
                    } else if ty == "ItemUndo"@ {
                        match (
                            spec_get_i64(f, "participantId"@),
                            spec_get_i64(f, "beforeId"@),
                            spec_get_i64(f, "afterId"@),
                            spec_get_i64(f, "goldGain"@),
                        ) {
                            (Some(participant_id), Some(before_id), Some(after_id), Some(
                                gold_gain,
                            )) => Some(
                                crate::events::GameEvent {
                                    timestamp,
                                    event: crate::events::Event::ItemUndo {
                                        participant_id,
                                        before_id,
                                        after_id,
                                        gold_gain,
                                    },
                                },
                            ),
                            _ => None,
                        }
                    } else {
                        None
                    }
                },
                _ => None,
            }
        },
        _ => None,
    }
}

/// Encode a timeline event.
#[verifier::rlimit(60)]
pub fn game_event_to_json(e: &crate::events::GameEvent) -> (r: JsonValue)
    ensures
        spec_game_event_from(r) == Some(*e),
{
    proof {
        reveal_strlit("timestamp");
        reveal_strlit("type");
        reveal_strlit("victimId");
        reveal_strlit("killerId");
        reveal_strlit("participantId");
        reveal_strlit("itemId");
        reveal_strlit("slot");
        reveal_strlit("beforeId");
        reveal_strlit("afterId");
        reveal_strlit("goldGain");
        reveal_strlit("Kill");
        reveal_strlit("Death");
        reveal_strlit("Assist");
        reveal_strlit("TurretKill");
        reveal_strlit("Dragon");
        reveal_strlit("Herald");
        reveal_strlit("Baron");
        reveal_strlit("Voidgrub");
        reveal_strlit("ItemPurchased");
        reveal_strlit("ItemSold");
        reveal_strlit("ItemUndo");
    }
    match &e.event {
        crate::events::Event::Kill { victim_id } => {
            let mut fields: Vec<(String, JsonValue)> = Vec::new();
            fields.push((String::from_str("timestamp"), JsonValue::Int(e.timestamp)));
            fields.push((String::from_str("type"), JsonValue::Str(String::from_str("Kill"))));
            fields.push((String::from_str("victimId"), JsonValue::Int(*victim_id)));
            proof {
                assert(fields@[0].0@ == "timestamp"@);
                assert(fields@[1].0@ == "type"@);
                assert(fields@[2].0@ == "victimId"@);
                lemma_obj_get_at(fields@, 0);
                lemma_obj_get_at(fields@, 1);
                lemma_obj_get_at(fields@, 2);
            }
            JsonValue::Obj(fields)
        },
        crate::events::Event::Death { killer_id } => {
            let mut fields: Vec<(String, JsonValue)> = Vec::new();
            fields.push((String::from_str("timestamp"), JsonValue::Int(e.timestamp)));
            fields.push((String::from_str("type"), JsonValue::Str(String::from_str("Death"))));
            fields.push((String::from_str("killerId"), JsonValue::Int(*killer_id)));
            proof {
                assert("Kill"@ != "Death"@) by {
                    assert("Kill"@.len() != "Death"@.len());
                }
                assert(fields@[0].0@ == "timestamp"@);
                assert(fields@[1].0@ == "type"@);
                assert(fields@[2].0@ == "killerId"@);
                lemma_obj_get_at(fields@, 0);
                lemma_obj_get_at(fields@, 1);
                lemma_obj_get_at(fields@, 2);
            }
            JsonValue::Obj(fields)
        },
        crate::events::Event::Assist { victim_id } => {
            let mut fields: Vec<(String, JsonValue)> = Vec::new();
            fields.push((String::from_str("timestamp"), JsonValue::Int(e.timestamp)));
            fields.push((String::from_str("type"), JsonValue::Str(String::from_str("Assist"))));
            fields.push((String::from_str("victimId"), JsonValue::Int(*victim_id)));
            proof {
                assert("Kill"@ != "Assist"@) by {
                    assert("Kill"@.len() != "Assist"@.len());
                }
                assert("Death"@ != "Assist"@) by {
                    assert("Death"@.len() != "Assist"@.len());
                }
                assert(fields@[0].0@ == "timestamp"@);
                assert(fields@[1].0@ == "type"@);
                assert(fields@[2].0@ == "victimId"@);
                lemma_obj_get_at(fields@, 0);
                lemma_obj_get_at(fields@, 1);
                lemma_obj_get_at(fields@, 2);
            }
            JsonValue::Obj(fields)
        },
        crate::events::Event::TurretKill { killer_id } => {
            let mut fields: Vec<(String, JsonValue)> = Vec::new();
            fields.push((String::from_str("timestamp"), JsonValue::Int(e.timestamp)));
            fields.push((String::from_str("type"), JsonValue::Str(String::from_str("TurretKill"))));
            fields.push((String::from_str("killerId"), JsonValue::Int(*killer_id)));
            proof {
                assert("Kill"@ != "TurretKill"@) by {
                    assert("Kill"@.len() != "TurretKill"@.len());
                }
                assert("Death"@ != "TurretKill"@) by {
                    assert("Death"@.len() != "TurretKill"@.len());
                }
                assert("Assist"@ != "TurretKill"@) by {
                    assert("Assist"@.len() != "TurretKill"@.len());
                }
                assert(fields@[0].0@ == "timestamp"@);
                assert(fields@[1].0@ == "type"@);
                assert(fields@[2].0@ == "killerId"@);
                lemma_obj_get_at(fields@, 0);
                lemma_obj_get_at(fields@, 1);
                lemma_obj_get_at(fields@, 2);
            }
            JsonValue::Obj(fields)
        },
        crate::events::Event::Dragon { killer_id } => {
            let mut fields: Vec<(String, JsonValue)> = Vec::new();
            fields.push((String::from_str("timestamp"), JsonValue::Int(e.timestamp)));
            fields.push((String::from_str("type"), JsonValue::Str(String::from_str("Dragon"))));
            fields.push((String::from_str("killerId"), JsonValue::Int(*killer_id)));
            proof {
                assert("Kill"@ != "Dragon"@) by {
                    assert("Kill"@.len() != "Dragon"@.len());
                }
                assert("Death"@ != "Dragon"@) by {
                    assert("Death"@.len() != "Dragon"@.len());
                }
                assert("TurretKill"@ != "Dragon"@) by {
                    assert("TurretKill"@.len() != "Dragon"@.len());
                }
                assert("Assist"@ != "Dragon"@) by {
                    assert("Assist"@[0] != "Dragon"@[0]);
                }
                assert(fields@[0].0@ == "timestamp"@);
                assert(fields@[1].0@ == "type"@);
                assert(fields@[2].0@ == "killerId"@);
                lemma_obj_get_at(fields@, 0);
                lemma_obj_get_at(fields@, 1);
                lemma_obj_get_at(fields@, 2);
            }
            JsonValue::Obj(fields)
        },
        crate::events::Event::Herald { killer_id } => {
            let mut fields: Vec<(String, JsonValue)> = Vec::new();
            fields.push((String::from_str("timestamp"), JsonValue::Int(e.timestamp)));
            fields.push((String::from_str("type"), JsonValue::Str(String::from_str("Herald"))));
            fields.push((String::from_str("killerId"), JsonValue::Int(*killer_id)));
            proof {
                assert("Kill"@ != "Herald"@) by {
                    assert("Kill"@.len() != "Herald"@.len());
                }
                assert("Death"@ != "Herald"@) by {
                    assert("Death"@.len() != "Herald"@.len());
                }
                assert("TurretKill"@ != "Herald"@) by {
                    assert("TurretKill"@.len() != "Herald"@.len());
                }
                assert("Assist"@ != "Herald"@) by {
                    assert("Assist"@[0] != "Herald"@[0]);
                }
                assert("Dragon"@ != "Herald"@) by {
                    assert("Dragon"@[0] != "Herald"@[0]);
                }
                assert(fields@[0].0@ == "timestamp"@);
                assert(fields@[1].0@ == "type"@);
                assert(fields@[2].0@ == "killerId"@);
                lemma_obj_get_at(fields@, 0);
                lemma_obj_get_at(fields@, 1);
                lemma_obj_get_at(fields@, 2);
            }
            JsonValue::Obj(fields)
        },
        crate::events::Event::Baron { killer_id } => {
            let mut fields: Vec<(String, JsonValue)> = Vec::new();
            fields.push((String::from_str("timestamp"), JsonValue::Int(e.timestamp)));
            fields.push((String::from_str("type"), JsonValue::Str(String::from_str("Baron"))));
            fields.push((String::from_str("killerId"), JsonValue::Int(*killer_id)));
            proof {
                assert("Kill"@ != "Baron"@) by {
                    assert("Kill"@.len() != "Baron"@.len());
                }
                assert("Assist"@ != "Baron"@) by {
                    assert("Assist"@.len() != "Baron"@.len());
                }
                assert("TurretKill"@ != "Baron"@) by {
                    assert("TurretKill"@.len() != "Baron"@.len());
                }
                assert("Dragon"@ != "Baron"@) by {
                    assert("Dragon"@.len() != "Baron"@.len());
                }
                assert("Herald"@ != "Baron"@) by {
                    assert("Herald"@.len() != "Baron"@.len());
                }
                assert("Death"@ != "Baron"@) by {
                    assert("Death"@[0] != "Baron"@[0]);
                }
                assert(fields@[0].0@ == "timestamp"@);
                assert(fields@[1].0@ == "type"@);
                assert(fields@[2].0@ == "killerId"@);
                lemma_obj_get_at(fields@, 0);
                lemma_obj_get_at(fields@, 1);
                lemma_obj_get_at(fields@, 2);
            }
            JsonValue::Obj(fields)
        },
        crate::events::Event::Voidgrub { killer_id } => {
            let mut fields: Vec<(String, JsonValue)> = Vec::new();
            fields.push((String::from_str("timestamp"), JsonValue::Int(e.timestamp)));
            fields.push((String::from_str("type"), JsonValue::Str(String::from_str("Voidgrub"))));
            fields.push((String::from_str("killerId"), JsonValue::Int(*killer_id)));
            proof {
                assert("Kill"@ != "Voidgrub"@) by {
                    assert("Kill"@.len() != "Voidgrub"@.len());
                }
                assert("Death"@ != "Voidgrub"@) by {
                    assert("Death"@.len() != "Voidgrub"@.len());
                }
                assert("Assist"@ != "Voidgrub"@) by {
                    assert("Assist"@.len() != "Voidgrub"@.len());
                }
                assert("TurretKill"@ != "Voidgrub"@) by {
                    assert("TurretKill"@.len() != "Voidgrub"@.len());
                }
                assert("Dragon"@ != "Voidgrub"@) by {
                    assert("Dragon"@.len() != "Voidgrub"@.len());
                }
                assert("Herald"@ != "Voidgrub"@) by {
                    assert("Herald"@.len() != "Voidgrub"@.len());
                }
                assert("Baron"@ != "Voidgrub"@) by {
                    assert("Baron"@.len() != "Voidgrub"@.len());
                }
                assert(fields@[0].0@ == "timestamp"@);
                assert(fields@[1].0@ == "type"@);
                assert(fields@[2].0@ == "killerId"@);
                lemma_obj_get_at(fields@, 0);
                lemma_obj_get_at(fields@, 1);
                lemma_obj_get_at(fields@, 2);
            }
            JsonValue::Obj(fields)
        },
        crate::events::Event::ItemPurchased { participant_id, item_id, slot } => {
            let mut fields: Vec<(String, JsonValue)> = Vec::new();
            fields.push((String::from_str("timestamp"), JsonValue::Int(e.timestamp)));
            fields.push((String::from_str("type"), JsonValue::Str(String::from_str("ItemPurchased"))));
            fields.push((String::from_str("participantId"), JsonValue::Int(*participant_id)));
            fields.push((String::from_str("itemId"), JsonValue::Int(*item_id)));
            proof {
                assert("Kill"@ != "ItemPurchased"@) by {
                    assert("Kill"@.len() != "ItemPurchased"@.len());
                }
                assert("Death"@ != "ItemPurchased"@) by {
                    assert("Death"@.len() != "ItemPurchased"@.len());
                }
                assert("Assist"@ != "ItemPurchased"@) by {
                    assert("Assist"@.len() != "ItemPurchased"@.len());
                }
                assert("TurretKill"@ != "ItemPurchased"@) by {
                    assert("TurretKill"@.len() != "ItemPurchased"@.len());
                }
                assert("Dragon"@ != "ItemPurchased"@) by {
                    assert("Dragon"@.len() != "ItemPurchased"@.len());
                }
                assert("Herald"@ != "ItemPurchased"@) by {
                    assert("Herald"@.len() != "ItemPurchased"@.len());
                }
                assert("Baron"@ != "ItemPurchased"@) by {
                    assert("Baron"@.len() != "ItemPurchased"@.len());
                }
                assert("Voidgrub"@ != "ItemPurchased"@) by {
                    assert("Voidgrub"@.len() != "ItemPurchased"@.len());
                }
                assert(fields@[0].0@ == "timestamp"@);
                assert(fields@[1].0@ == "type"@);
                assert(fields@[2].0@ == "participantId"@);
                assert(fields@[3].0@ == "itemId"@);
                assert("type"@ != "slot"@) by {
                    assert("type"@[0] != "slot"@[0]);
                }
            }
            if let Some(sl) = slot {
                fields.push((String::from_str("slot"), JsonValue::Int(*sl)));
                proof {
                    assert(fields@[4].0@ == "slot"@);
                    lemma_obj_get_at(fields@, 4);
                }
            } else {
                proof {
                    lemma_obj_get_absent(fields@, "slot"@);
                }
            }
            proof {
                lemma_obj_get_at(fields@, 0);
                lemma_obj_get_at(fields@, 1);
                lemma_obj_get_at(fields@, 2);
                lemma_obj_get_at(fields@, 3);
            }
            JsonValue::Obj(fields)
        },
        crate::events::Event::ItemSold { participant_id, item_id, slot } => {
            let mut fields: Vec<(String, JsonValue)> = Vec::new();
            fields.push((String::from_str("timestamp"), JsonValue::Int(e.timestamp)));
            fields.push((String::from_str("type"), JsonValue::Str(String::from_str("ItemSold"))));
            fields.push((String::from_str("participantId"), JsonValue::Int(*participant_id)));
            fields.push((String::from_str("itemId"), JsonValue::Int(*item_id)));
            proof {
                assert("Kill"@ != "ItemSold"@) by {
                    assert("Kill"@.len() != "ItemSold"@.len());
                }
                assert("Death"@ != "ItemSold"@) by {
                    assert("Death"@.len() != "ItemSold"@.len());
                }
                assert("Assist"@ != "ItemSold"@) by {
                    assert("Assist"@.len() != "ItemSold"@.len());
                }
                assert("TurretKill"@ != "ItemSold"@) by {
                    assert("TurretKill"@.len() != "ItemSold"@.len());
                }
                assert("Dragon"@ != "ItemSold"@) by {
                    assert("Dragon"@.len() != "ItemSold"@.len());
                }
                assert("Herald"@ != "ItemSold"@) by {
                    assert("Herald"@.len() != "ItemSold"@.len());
                }
                assert("Baron"@ != "ItemSold"@) by {
                    assert("Baron"@.len() != "ItemSold"@.len());
                }
                assert("ItemPurchased"@ != "ItemSold"@) by {
                    assert("ItemPurchased"@.len() != "ItemSold"@.len());
                }
                assert("Voidgrub"@ != "ItemSold"@) by {
                    assert("Voidgrub"@[0] != "ItemSold"@[0]);
                }
                assert(fields@[0].0@ == "timestamp"@);
                assert(fields@[1].0@ == "type"@);
                assert(fields@[2].0@ == "participantId"@);
                assert(fields@[3].0@ == "itemId"@);
                assert("type"@ != "slot"@) by {
                    assert("type"@[0] != "slot"@[0]);
                }
            }
            if let Some(sl) = slot {
                fields.push((String::from_str("slot"), JsonValue::Int(*sl)));
                proof {
                    assert(fields@[4].0@ == "slot"@);
                    lemma_obj_get_at(fields@, 4);
                }
            } else {
                proof {
                    lemma_obj_get_absent(fields@, "slot"@);
                }
            }
            proof {
                lemma_obj_get_at(fields@, 0);
                lemma_obj_get_at(fields@, 1);
                lemma_obj_get_at(fields@, 2);
                lemma_obj_get_at(fields@, 3);
            }
            JsonValue::Obj(fields)
        },
        crate::events::Event::ItemUndo { participant_id, before_id, after_id, gold_gain } => {
            let mut fields: Vec<(String, JsonValue)> = Vec::new();
            fields.push((String::from_str("timestamp"), JsonValue::Int(e.timestamp)));
            fields.push((String::from_str("type"), JsonValue::Str(String::from_str("ItemUndo"))));
            fields.push((String::from_str("participantId"), JsonValue::Int(*participant_id)));
            fields.push((String::from_str("beforeId"), JsonValue::Int(*before_id)));
            fields.push((String::from_str("afterId"), JsonValue::Int(*after_id)));
            fields.push((String::from_str("goldGain"), JsonValue::Int(*gold_gain)));
            proof {
                assert("Kill"@ != "ItemUndo"@) by {
                    assert("Kill"@.len() != "ItemUndo"@.len());
                }
                assert("Death"@ != "ItemUndo"@) by {
                    assert("Death"@.len() != "ItemUndo"@.len());
                }
                assert("Assist"@ != "ItemUndo"@) by {
                    assert("Assist"@.len() != "ItemUndo"@.len());
                }
                assert("TurretKill"@ != "ItemUndo"@) by {
                    assert("TurretKill"@.len() != "ItemUndo"@.len());
                }
                assert("Dragon"@ != "ItemUndo"@) by {
                    assert("Dragon"@.len() != "ItemUndo"@.len());
                }
                assert("Herald"@ != "ItemUndo"@) by {
                    assert("Herald"@.len() != "ItemUndo"@.len());
                }
                assert("Baron"@ != "ItemUndo"@) by {
                    assert("Baron"@.len() != "ItemUndo"@.len());
                }
                assert("ItemPurchased"@ != "ItemUndo"@) by {
                    assert("ItemPurchased"@.len() != "ItemUndo"@.len());
                }
                assert("Voidgrub"@ != "ItemUndo"@) by {
                    assert("Voidgrub"@[0] != "ItemUndo"@[0]);
                }
                assert("ItemSold"@ != "ItemUndo"@) by {
                    assert("ItemSold"@[4] != "ItemUndo"@[4]);
                }
                assert(fields@[0].0@ == "timestamp"@);
                assert(fields@[1].0@ == "type"@);
                assert(fields@[2].0@ == "participantId"@);
                assert(fields@[3].0@ == "beforeId"@);
                assert(fields@[4].0@ == "afterId"@);
                assert(fields@[5].0@ == "goldGain"@);
                assert("beforeId"@ != "goldGain"@) by {
                    assert("beforeId"@[0] != "goldGain"@[0]);
                }
                lemma_obj_get_at(fields@, 0);
                lemma_obj_get_at(fields@, 1);
                lemma_obj_get_at(fields@, 2);
                lemma_obj_get_at(fields@, 3);
                lemma_obj_get_at(fields@, 4);
                lemma_obj_get_at(fields@, 5);
            }
            JsonValue::Obj(fields)
        },
    }
}

/// Parse a timeline event.
pub fn game_event_from_json(v: &JsonValue) -> (r: Option<crate::events::GameEvent>)
    ensures
        r == spec_game_event_from(*v),
{
    let fields = match v {
        JsonValue::Obj(fields) => fields,
        _ => {
            return None;
        },
    };
    let timestamp = match get_i64(fields, "timestamp") {
        Some(x) => x,
        None => {
            return None;
        },
    };
    let ty = match get_string(fields, "type") {
        Some(x) => x,
        None => {
            return None;
        },
    };
    let event: crate::events::Event = if crate::text::str_eq(ty.as_str(), "Kill") {
        match get_i64(fields, "victimId") {
            Some(victim_id) => crate::events::Event::Kill { victim_id },
            None => {
                return None;
            },
        }
    } else if crate::text::str_eq(ty.as_str(), "Death") {
        match get_i64(fields, "killerId") {
            Some(killer_id) => crate::events::Event::Death { killer_id },
            None => {
                return None;
            },
        }
    } else if crate::text::str_eq(ty.as_str(), "Assist") {
        match get_i64(fields, "victimId") {
            Some(victim_id) => crate::events::Event::Assist { victim_id },
            None => {
                return None;
            },
        }
    } else if crate::text::str_eq(ty.as_str(), "TurretKill") {
        match get_i64(fields, "killerId") {
            Some(killer_id) => crate::events::Event::TurretKill { killer_id },
            None => {
                return None;
            },
        }
    } else if crate::text::str_eq(ty.as_str(), "Dragon") {
        match get_i64(fields, "killerId") {
            Some(killer_id) => crate::events::Event::Dragon { killer_id },
            None => {
                return None;
            },
        }
    } else if crate::text::str_eq(ty.as_str(), "Herald") {
        match get_i64(fields, "killerId") {
            Some(killer_id) => crate::events::Event::Herald { killer_id },
            None => {
                return None;
            },
        }
    } else if crate::text::str_eq(ty.as_str(), "Baron") {
        match get_i64(fields, "killerId") {
            Some(killer_id) => crate::events::Event::Baron { killer_id },
            None => {
                return None;
            },
        }
    } else if crate::text::str_eq(ty.as_str(), "Voidgrub") {
        match get_i64(fields, "killerId") {
            Some(killer_id) => crate::events::Event::Voidgrub { killer_id },
            None => {
                return None;
            },
        }
    } else if crate::text::str_eq(ty.as_str(), "ItemPurchased") || crate::text::str_eq(
        ty.as_str(),
        "ItemSold",
    ) {
        let participant_id = match get_i64(fields, "participantId") {
            Some(x) => x,
            None => {
                return None;
            },
        };
        let item_id = match get_i64(fields, "itemId") {
            Some(x) => x,
            None => {
                return None;
            },
        };
        let slot = match obj_get(fields, "slot") {
            None => None,
            Some(JsonValue::Int(x)) => Some(*x),
            Some(_) => {
                return None;
            },
        };
        if crate::text::str_eq(ty.as_str(), "ItemPurchased") {
            crate::events::Event::ItemPurchased { participant_id, item_id, slot }
        } else {
            crate::events::Event::ItemSold { participant_id, item_id, slot }
        }
    } else if crate::text::str_eq(ty.as_str(), "ItemUndo") {
        let participant_id = match get_i64(fields, "participantId") {
            Some(x) => x,
            None => {
                return None;
            },
        };
        let before_id = match get_i64(fields, "beforeId") {
            Some(x) => x,
            None => {
                return None;
            },
        };
        let after_id = match get_i64(fields, "afterId") {
            Some(x) => x,
            None => {
                return None;
            },
        };
        let gold_gain = match get_i64(fields, "goldGain") {
            Some(x) => x,
            None => {
                return None;
            },
        };
        crate::events::Event::ItemUndo { participant_id, before_id, after_id, gold_gain }
    } else {
        return None;
    };
    Some(crate::events::GameEvent { timestamp, event })
}

/// What an array of timeline event objects parses back to.
pub open spec fn spec_events_from(vs: Seq<JsonValue>) -> Option<Seq<crate::events::GameEvent>>
    decreases vs.len(),
{
    if vs.len() == 0 {
        Some(Seq::empty())
    } else {
        match (spec_events_from(vs.drop_last()), spec_game_event_from(vs.last())) {
            (Some(s), Some(e)) => Some(s.push(e)),
            _ => None,
        }
    }
}

proof fn lemma_events_prefix_none(vs: Seq<JsonValue>, i: int)
    requires
        0 <= i <= vs.len(),
        spec_events_from(vs.take(i)) is None,
    ensures
        spec_events_from(vs) is None,
    decreases vs.len() - i,
{
    if i < vs.len() {
        assert(vs.take(i + 1).drop_last() =~= vs.take(i));
        lemma_events_prefix_none(vs, i + 1);
    } else {
        assert(vs.take(i) =~= vs);
    }
}

/// Encode an event list.
pub fn events_to_json(es: &Vec<crate::events::GameEvent>) -> (r: Vec<JsonValue>)
    ensures
        spec_events_from(r@) == Some(es@),
{
    let mut out: Vec<JsonValue> = Vec::new();
    let mut i: usize = 0;
    proof {
        assert(es@.take(0) =~= Seq::<crate::events::GameEvent>::empty());
    }
    while i < es.len()
        invariant
            i <= es@.len(),
            spec_events_from(out@) == Some(es@.take(i as int)),
        decreases es@.len() - i,
    {
        let ghost before = out@;
        let j = game_event_to_json(&es[i]);
        out.push(j);
        proof {
            assert(out@.drop_last() =~= before);
            assert(es@.take(i + 1) =~= es@.take(i as int).push(es@[i as int]));
        }
        i += 1;
    }
    proof {
        assert(es@.take(es@.len() as int) =~= es@);
    }
    out
}

/// Parse an event list.
pub fn events_from_json(vs: &Vec<JsonValue>) -> (r: Option<Vec<crate::events::GameEvent>>)
    ensures
        match r {
            Some(xs) => spec_events_from(vs@) == Some(xs@),
            None => spec_events_from(vs@) is None,
        },
{
    let mut out: Vec<crate::events::GameEvent> = Vec::new();
    let mut i: usize = 0;
    proof {
        assert(vs@.take(0) =~= Seq::<JsonValue>::empty());
    }
    while i < vs.len()
        invariant
            i <= vs@.len(),
            spec_events_from(vs@.take(i as int)) == Some(out@),
        decreases vs@.len() - i,
    {
        proof {
            assert(vs@.take(i + 1).drop_last() =~= vs@.take(i as int));
            assert(vs@.take(i + 1).last() == vs@[i as int]);
        }
        match game_event_from_json(&vs[i]) {
            Some(e) => {
                out.push(e);
            },
            None => {
                proof {
                    lemma_events_prefix_none(vs@, i + 1);
                }
                return None;
            },
        }
        i += 1;
    }
    proof {
        assert(vs@.take(vs@.len() as int) =~= vs@);
    }
    Some(out)
}

/// What a deferred sidecar record parses back to.
pub open spec fn spec_deferred_from_json(v: JsonValue) -> Option<(bool, Seq<i64>)> {
    match v {
        JsonValue::Obj(fields) => match spec_obj_get(fields@, "favorite"@) {
            Some(JsonValue::Bool(f)) => match spec_obj_get(fields@, "highlights"@) {
                Some(JsonValue::Arr(hs)) => match spec_json_ints(hs@) {
                    Some(h) => Some((f, h)),
                    None => None,
                },
                _ => None,
            },
            _ => None,
        },
        _ => None,
    }
}

/// Encode a deferred sidecar record; parsing the result recovers the
/// record exactly.
pub fn deferred_to_json(d: &DeferredMetadata) -> (r: JsonValue)
    ensures
        spec_deferred_from_json(r) == Some((d.favorite, d.highlights_ms@)),
{
    proof {
        reveal_strlit("favorite");
        reveal_strlit("highlights");
    }
    let mut fields: Vec<(String, JsonValue)> = Vec::new();
    let hs = ints_to_json(&d.highlights_ms);
    fields.push((String::from_str("favorite"), JsonValue::Bool(d.favorite)));
    fields.push((String::from_str("highlights"), JsonValue::Arr(hs)));
    proof {
        assert(fields@[0].0@ == "favorite"@);
        assert(fields@[1].0@ == "highlights"@);
        lemma_obj_get_at(fields@, 0);
        lemma_obj_get_at(fields@, 1);
    }
    JsonValue::Obj(fields)
}

/// Parse a deferred sidecar record.
pub fn deferred_from_json(v: &JsonValue) -> (r: Option<DeferredMetadata>)
    ensures
        match r {
            Some(d) => spec_deferred_from_json(*v) == Some((d.favorite, d.highlights_ms@)),
            None => spec_deferred_from_json(*v) is None,
        },
{
    match v {
        JsonValue::Obj(fields) => {
            let favorite = match obj_get(fields, "favorite") {
                Some(JsonValue::Bool(f)) => *f,
                _ => {
                    return None;
                },
            };
            let highlights_ms = match obj_get(fields, "highlights") {
                Some(JsonValue::Arr(hs)) => match ints_from_json(hs) {
                    Some(xs) => xs,
                    None => {
                        return None;
                    },
                },
                _ => {
                    return None;
                },
            };
            Some(DeferredMetadata { favorite, highlights_ms })
        },
        _ => None,
    }
}

/// What a gold entry object parses back to.
pub open spec fn spec_pgold_from(v: JsonValue) -> Option<crate::types::ParticipantGold> {
    match v {
        JsonValue::Obj(fields) => match (
            spec_get_i64(fields@, "participantId"@),
            spec_get_i64(fields@, "totalGold"@),
            spec_get_i64(fields@, "minions"@),
        ) {
            (Some(participant_id), Some(total_gold), Some(minions)) => Some(
                crate::types::ParticipantGold { participant_id, total_gold, minions },
            ),
            _ => None,
        },
        _ => None,
    }
}

/// Encode a gold entry.
pub fn pgold_to_json(g: &crate::types::ParticipantGold) -> (r: JsonValue)
    ensures
        spec_pgold_from(r) == Some(*g),
{
    proof {
        reveal_strlit("participantId");
        reveal_strlit("totalGold");
        reveal_strlit("minions");
    }
    let mut fields: Vec<(String, JsonValue)> = Vec::new();
    fields.push((String::from_str("participantId"), JsonValue::Int(g.participant_id)));
    fields.push((String::from_str("totalGold"), JsonValue::Int(g.total_gold)));
    fields.push((String::from_str("minions"), JsonValue::Int(g.minions)));
    proof {
        assert(fields@[0].0@ == "participantId"@);
        assert(fields@[1].0@ == "totalGold"@);
        assert(fields@[2].0@ == "minions"@);
        assert("participantId"@ != "totalGold"@) by {
            assert("participantId"@.len() != "totalGold"@.len());
        }
        assert("participantId"@ != "minions"@) by {
            assert("participantId"@.len() != "minions"@.len());
        }
        assert("totalGold"@ != "minions"@) by {
            assert("totalGold"@.len() != "minions"@.len());
        }
        lemma_obj_get_at(fields@, 0);
        lemma_obj_get_at(fields@, 1);
        lemma_obj_get_at(fields@, 2);
    }
    JsonValue::Obj(fields)
}

/// Parse a gold entry.
pub fn pgold_from_json(v: &JsonValue) -> (r: Option<crate::types::ParticipantGold>)
    ensures
        r == spec_pgold_from(*v),
{
    match v {
        JsonValue::Obj(fields) => {
            let participant_id = match get_i64(fields, "participantId") {
                Some(x) => x,
                None => {
                    return None;
                },
            };
            let total_gold = match get_i64(fields, "totalGold") {
                Some(x) => x,
                None => {
                    return None;
                },
            };
            let minions = match get_i64(fields, "minions") {
                Some(x) => x,
                None => {
                    return None;
                },
            };
            Some(crate::types::ParticipantGold { participant_id, total_gold, minions })
        },
        _ => None,
    }
}

/// What an array of gold entries parses back to.
pub open spec fn spec_pgolds_from(vs: Seq<JsonValue>) -> Option<Seq<crate::types::ParticipantGold>>
    decreases vs.len(),
{
    if vs.len() == 0 {
        Some(Seq::empty())
    } else {
        match (spec_pgolds_from(vs.drop_last()), spec_pgold_from(vs.last())) {
            (Some(s), Some(g)) => Some(s.push(g)),
            _ => None,
        }
    }
}

proof fn lemma_pgolds_prefix_none(vs: Seq<JsonValue>, i: int)
    requires
        0 <= i <= vs.len(),
        spec_pgolds_from(vs.take(i)) is None,
    ensures
        spec_pgolds_from(vs) is None,
    decreases vs.len() - i,
{
    if i < vs.len() {
        assert(vs.take(i + 1).drop_last() =~= vs.take(i));
        lemma_pgolds_prefix_none(vs, i + 1);
    } else {
        assert(vs.take(i) =~= vs);
    }
}

/// Encode a gold entry list.
pub fn pgolds_to_json(gs: &Vec<crate::types::ParticipantGold>) -> (r: Vec<JsonValue>)
    ensures
        spec_pgolds_from(r@) == Some(gs@),
{
    let mut out: Vec<JsonValue> = Vec::new();
    let mut i: usize = 0;
    proof {
        assert(gs@.take(0) =~= Seq::<crate::types::ParticipantGold>::empty());
    }
    while i < gs.len()
        invariant
            i <= gs@.len(),
            spec_pgolds_from(out@) == Some(gs@.take(i as int)),
        decreases gs@.len() - i,
    {
        let ghost before = out@;
        let j = pgold_to_json(&gs[i]);
        out.push(j);
        proof {
            assert(out@.drop_last() =~= before);
            assert(gs@.take(i + 1) =~= gs@.take(i as int).push(gs@[i as int]));
        }
        i += 1;
    }
    proof {
        assert(gs@.take(gs@.len() as int) =~= gs@);
    }
    out
}

/// Parse a gold entry list.
pub fn pgolds_from_json(vs: &Vec<JsonValue>) -> (r: Option<Vec<crate::types::ParticipantGold>>)
    ensures
        match r {
            Some(xs) => spec_pgolds_from(vs@) == Some(xs@),
            None => spec_pgolds_from(vs@) is None,
        },
{
    let mut out: Vec<crate::types::ParticipantGold> = Vec::new();
    let mut i: usize = 0;
    proof {
        assert(vs@.take(0) =~= Seq::<JsonValue>::empty());
    }
    while i < vs.len()
        invariant
            i <= vs@.len(),
            spec_pgolds_from(vs@.take(i as int)) == Some(out@),
        decreases vs@.len() - i,
    {
        proof {
            assert(vs@.take(i + 1).drop_last() =~= vs@.take(i as int));
            assert(vs@.take(i + 1).last() == vs@[i as int]);
        }
        match pgold_from_json(&vs[i]) {
            Some(g) => {
                out.push(g);
            },
            None => {
                proof {
                    lemma_pgolds_prefix_none(vs@, i + 1);
                }
                return None;
            },
        }
        i += 1;
    }
    proof {
        assert(vs@.take(vs@.len() as int) =~= vs@);
    }
    Some(out)
}

/// A gold frame, down to plain values.
pub struct GoldFrameView {
    pub timestamp: i64,
    pub participants: Seq<crate::types::ParticipantGold>,
}

/// The plain values of a gold frame.
pub open spec fn spec_gold_frame_view(g: crate::types::GoldFrame) -> GoldFrameView {
    GoldFrameView { timestamp: g.timestamp, participants: g.participants@ }
}

/// What a gold frame object parses back to.
pub open spec fn spec_gold_frame_from(v: JsonValue) -> Option<GoldFrameView> {
    match v {
        JsonValue::Obj(fields) => match spec_get_i64(fields@, "timestamp"@) {
            Some(timestamp) => match spec_obj_get(fields@, "participants"@) {
                Some(JsonValue::Arr(vs)) => match spec_pgolds_from(vs@) {
                    Some(participants) => Some(GoldFrameView { timestamp, participants }),
                    None => None,
                },
                _ => None,
            },
            None => None,
        },
        _ => None,
    }
}

/// Encode a gold frame.
pub fn gold_frame_to_json(g: &crate::types::GoldFrame) -> (r: JsonValue)
    ensures
        spec_gold_frame_from(r) == Some(spec_gold_frame_view(*g)),
{
    proof {
        reveal_strlit("timestamp");
        reveal_strlit("participants");
    }
    let mut fields: Vec<(String, JsonValue)> = Vec::new();
    fields.push((String::from_str("timestamp"), JsonValue::Int(g.timestamp)));
    fields.push((String::from_str("participants"), JsonValue::Arr(pgolds_to_json(&g.participants))));
    proof {
        assert(fields@[0].0@ == "timestamp"@);
        assert(fields@[1].0@ == "participants"@);
        assert("timestamp"@ != "participants"@) by {
            assert("timestamp"@.len() != "participants"@.len());
        }
        lemma_obj_get_at(fields@, 0);
        lemma_obj_get_at(fields@, 1);
    }
    JsonValue::Obj(fields)
}

/// Parse a gold frame.
pub fn gold_frame_from_json(v: &JsonValue) -> (r: Option<crate::types::GoldFrame>)
    ensures
        match r {
            Some(g) => spec_gold_frame_from(*v) == Some(spec_gold_frame_view(g)),
            None => spec_gold_frame_from(*v) is None,
        },
{
    match v {
        JsonValue::Obj(fields) => {
            let timestamp = match get_i64(fields, "timestamp") {
                Some(x) => x,
                None => {
                    return None;
                },
            };
            let participants = match get_arr(fields, "participants") {
                Some(vs) => match pgolds_from_json(vs) {
                    Some(gs) => gs,
                    None => {
                        return None;
                    },
                },
                None => {
                    return None;
                },
            };
            Some(crate::types::GoldFrame { timestamp, participants })
        },
        _ => None,
    }
}

/// What an array of gold frame objects parses back to.
pub open spec fn spec_gold_frames_from(vs: Seq<JsonValue>) -> Option<Seq<GoldFrameView>>
    decreases vs.len(),
{
    if vs.len() == 0 {
        Some(Seq::empty())
    } else {
        match (spec_gold_frames_from(vs.drop_last()), spec_gold_frame_from(vs.last())) {
            (Some(s), Some(g)) => Some(s.push(g)),
            _ => None,
        }
    }
}

proof fn lemma_gold_frames_prefix_none(vs: Seq<JsonValue>, i: int)
    requires
        0 <= i <= vs.len(),
        spec_gold_frames_from(vs.take(i)) is None,
    ensures
        spec_gold_frames_from(vs) is None,
    decreases vs.len() - i,
{
    if i < vs.len() {
        assert(vs.take(i + 1).drop_last() =~= vs.take(i));
        lemma_gold_frames_prefix_none(vs, i + 1);
    } else {
        assert(vs.take(i) =~= vs);
    }
}

/// Encode a gold frame list.
pub fn gold_frames_to_json(gs: &Vec<crate::types::GoldFrame>) -> (r: Vec<JsonValue>)
    ensures
        spec_gold_frames_from(r@) == Some(
            gs@.map_values(|g: crate::types::GoldFrame| spec_gold_frame_view(g)),
        ),
{
    let ghost view_fn = |g: crate::types::GoldFrame| spec_gold_frame_view(g);
    let mut out: Vec<JsonValue> = Vec::new();
    let mut i: usize = 0;
    proof {
        assert(gs@.take(0).map_values(view_fn) =~= Seq::<GoldFrameView>::empty());
    }
    while i < gs.len()
        invariant
            i <= gs@.len(),
            view_fn == (|g: crate::types::GoldFrame| spec_gold_frame_view(g)),
            spec_gold_frames_from(out@) == Some(gs@.take(i as int).map_values(view_fn)),
        decreases gs@.len() - i,
    {
        let ghost before = out@;
        let j = gold_frame_to_json(&gs[i]);
        out.push(j);
        proof {
            assert(out@.drop_last() =~= before);
            assert(gs@.take(i + 1).map_values(view_fn) =~= gs@.take(i as int).map_values(
                view_fn,
            ).push(view_fn(gs@[i as int])));
        }
        i += 1;
    }
    proof {
        assert(gs@.take(gs@.len() as int) =~= gs@);
    }
    out
}

/// Parse a gold frame list.
pub fn gold_frames_from_json(vs: &Vec<JsonValue>) -> (r: Option<Vec<crate::types::GoldFrame>>)
    ensures
        match r {
            Some(xs) => spec_gold_frames_from(vs@) == Some(
                xs@.map_values(|g: crate::types::GoldFrame| spec_gold_frame_view(g)),
            ),
            None => spec_gold_frames_from(vs@) is None,
        },
{
    let ghost view_fn = |g: crate::types::GoldFrame| spec_gold_frame_view(g);
    let mut out: Vec<crate::types::GoldFrame> = Vec::new();
    let mut i: usize = 0;
    proof {
        assert(vs@.take(0) =~= Seq::<JsonValue>::empty());
        assert(out@.map_values(view_fn) =~= Seq::<GoldFrameView>::empty());
    }
    while i < vs.len()
        invariant
            i <= vs@.len(),
            view_fn == (|g: crate::types::GoldFrame| spec_gold_frame_view(g)),
            spec_gold_frames_from(vs@.take(i as int)) == Some(out@.map_values(view_fn)),
        decreases vs@.len() - i,
    {
        proof {
            assert(vs@.take(i + 1).drop_last() =~= vs@.take(i as int));
            assert(vs@.take(i + 1).last() == vs@[i as int]);
        }
        let ghost before = out@;
        match gold_frame_from_json(&vs[i]) {
            Some(g) => {
                out.push(g);
                proof {
                    assert(out@.map_values(view_fn) =~= before.map_values(view_fn).push(
                        view_fn(out@[out@.len() - 1]),
                    ));
                }
            },
            None => {
                proof {
                    lemma_gold_frames_prefix_none(vs@, i + 1);
                }
                return None;
            },
        }
        i += 1;
    }
    proof {
        assert(vs@.take(vs@.len() as int) =~= vs@);
    }
    Some(out)
}

/// A sidecar participant entry, down to plain values.
pub struct ParticipantSummaryView {
    pub participant_id: i64,
    pub team_id: i64,
    pub champion_id: i64,
    pub spell1_id: i64,
    pub spell2_id: i64,
    pub stats: crate::types::Stats,
    pub lane: Seq<char>,
    pub role: Seq<char>,
    pub summoner_name: Seq<char>,
}

/// The plain values of a sidecar participant entry.
pub open spec fn spec_summary_view(p: crate::types::ParticipantSummary) -> ParticipantSummaryView {
    ParticipantSummaryView {
        participant_id: p.participant_id,
        team_id: p.team_id,
        champion_id: p.champion_id,
        spell1_id: p.spell1_id,
        spell2_id: p.spell2_id,
        stats: p.stats,
        lane: p.lane@,
        role: p.role@,
        summoner_name: p.summoner_name@,
    }
}

/// What a participant entry object parses back to.
pub open spec fn spec_summary_from(v: JsonValue) -> Option<ParticipantSummaryView> {
    match v {
        JsonValue::Obj(fields) => {
            let f = fields@;
            match (
                spec_get_i64(f, "participantId"@),
                spec_get_i64(f, "teamId"@),
                spec_get_i64(f, "championId"@),
                spec_get_i64(f, "spell1Id"@),
                spec_get_i64(f, "spell2Id"@),
                spec_get_str(f, "lane"@),
                spec_get_str(f, "role"@),
                spec_get_str(f, "summonerName"@),
            ) {
                (
                    Some(participant_id),
                    Some(team_id),
                    Some(champion_id),
                    Some(spell1_id),
                    Some(spell2_id),
                    Some(lane),
                    Some(role),
                    Some(summoner_name),
                ) => match spec_obj_get(f, "stats"@) {
                    Some(stats_v) => match spec_stats_from(stats_v) {
                        Some(stats) => Some(
                            ParticipantSummaryView {
                                participant_id,
                                team_id,
                                champion_id,
                                spell1_id,
                                spell2_id,
                                stats,
                                lane,
                                role,
                                summoner_name,
                            },
                        ),
                        None => None,
                    },
                    None => None,
                },
                _ => None,
            }
        },
        _ => None,
    }
}

/// Encode a participant entry.
#[verifier::rlimit(30)]
pub fn summary_to_json(p: &crate::types::ParticipantSummary) -> (r: JsonValue)
    ensures
        spec_summary_from(r) == Some(spec_summary_view(*p)),
{
    proof {
        reveal_strlit("participantId");
        reveal_strlit("teamId");
        reveal_strlit("championId");
        reveal_strlit("spell1Id");
        reveal_strlit("spell2Id");
        reveal_strlit("stats");
        reveal_strlit("lane");
        reveal_strlit("role");
        reveal_strlit("summonerName");
    }
    let mut fields: Vec<(String, JsonValue)> = Vec::new();
    fields.push((String::from_str("participantId"), JsonValue::Int(p.participant_id)));
    fields.push((String::from_str("teamId"), JsonValue::Int(p.team_id)));
    fields.push((String::from_str("championId"), JsonValue::Int(p.champion_id)));
    fields.push((String::from_str("spell1Id"), JsonValue::Int(p.spell1_id)));
    fields.push((String::from_str("spell2Id"), JsonValue::Int(p.spell2_id)));
    fields.push((String::from_str("stats"), stats_to_json(&p.stats)));
    fields.push((String::from_str("lane"), JsonValue::Str(p.lane.clone())));
    fields.push((String::from_str("role"), JsonValue::Str(p.role.clone())));
    fields.push((String::from_str("summonerName"), JsonValue::Str(p.summoner_name.clone())));
    proof {
        assert(fields@[0].0@ == "participantId"@);
        assert(fields@[1].0@ == "teamId"@);
        assert(fields@[2].0@ == "championId"@);
        assert(fields@[3].0@ == "spell1Id"@);
        assert(fields@[4].0@ == "spell2Id"@);
        assert(fields@[5].0@ == "stats"@);
        assert(fields@[6].0@ == "lane"@);
        assert(fields@[7].0@ == "role"@);
        assert(fields@[8].0@ == "summonerName"@);
        assert("participantId"@ != "teamId"@) by {
            assert("participantId"@.len() != "teamId"@.len());
        }
        assert("participantId"@ != "championId"@) by {
            assert("participantId"@.len() != "championId"@.len());
        }
        assert("teamId"@ != "championId"@) by {
            assert("teamId"@.len() != "championId"@.len());
        }
        assert("participantId"@ != "spell1Id"@) by {
            assert("participantId"@.len() != "spell1Id"@.len());
        }
        assert("teamId"@ != "spell1Id"@) by {
            assert("teamId"@.len() != "spell1Id"@.len());
        }
        assert("championId"@ != "spell1Id"@) by {
            assert("championId"@.len() != "spell1Id"@.len());
        }
        assert("participantId"@ != "spell2Id"@) by {
            assert("participantId"@.len() != "spell2Id"@.len());
        }
        assert("teamId"@ != "spell2Id"@) by {
            assert("teamId"@.len() != "spell2Id"@.len());
        }
        assert("championId"@ != "spell2Id"@) by {
            assert("championId"@.len() != "spell2Id"@.len());
        }
        assert("spell1Id"@ != "spell2Id"@) by {
            assert("spell1Id"@[5] != "spell2Id"@[5]);
        }
        assert("participantId"@ != "stats"@) by {
            assert("participantId"@.len() != "stats"@.len());
        }
        assert("teamId"@ != "stats"@) by {
            assert("teamId"@.len() != "stats"@.len());
        }
        assert("championId"@ != "stats"@) by {
            assert("championId"@.len() != "stats"@.len());
        }
        assert("spell1Id"@ != "stats"@) by {
            assert("spell1Id"@.len() != "stats"@.len());
        }
        assert("spell2Id"@ != "stats"@) by {
            assert("spell2Id"@.len() != "stats"@.len());
        }
        assert("participantId"@ != "lane"@) by {
            assert("participantId"@.len() != "lane"@.len());
        }
        assert("teamId"@ != "lane"@) by {
            assert("teamId"@.len() != "lane"@.len());
        }
        assert("championId"@ != "lane"@) by {
            assert("championId"@.len() != "lane"@.len());
        }
        assert("spell1Id"@ != "lane"@) by {
            assert("spell1Id"@.len() != "lane"@.len());
        }
        assert("spell2Id"@ != "lane"@) by {
            assert("spell2Id"@.len() != "lane"@.len());
        }
        assert("stats"@ != "lane"@) by {
            assert("stats"@.len() != "lane"@.len());
        }
        assert("participantId"@ != "role"@) by {
            assert("participantId"@.len() != "role"@.len());
        }
        assert("teamId"@ != "role"@) by {
            assert("teamId"@.len() != "role"@.len());
        }
        assert("championId"@ != "role"@) by {
            assert("championId"@.len() != "role"@.len());
        }
        assert("spell1Id"@ != "role"@) by {
            assert("spell1Id"@.len() != "role"@.len());
        }
        assert("spell2Id"@ != "role"@) by {
            assert("spell2Id"@.len() != "role"@.len());
        }
        assert("stats"@ != "role"@) by {
            assert("stats"@.len() != "role"@.len());
        }
        assert("lane"@ != "role"@) by {
            assert("lane"@[0] != "role"@[0]);
        }
        assert("participantId"@ != "summonerName"@) by {
            assert("participantId"@.len() != "summonerName"@.len());
        }
        assert("teamId"@ != "summonerName"@) by {
            assert("teamId"@.len() != "summonerName"@.len());
        }
        assert("championId"@ != "summonerName"@) by {
            assert("championId"@.len() != "summonerName"@.len());
        }
        assert("spell1Id"@ != "summonerName"@) by {
            assert("spell1Id"@.len() != "summonerName"@.len());
        }
        assert("spell2Id"@ != "summonerName"@) by {
            assert("spell2Id"@.len() != "summonerName"@.len());
        }
        assert("stats"@ != "summonerName"@) by {
            assert("stats"@.len() != "summonerName"@.len());
        }
        assert("lane"@ != "summonerName"@) by {
            assert("lane"@.len() != "summonerName"@.len());
        }
        assert("role"@ != "summonerName"@) by {
            assert("role"@.len() != "summonerName"@.len());
        }
        lemma_obj_get_at(fields@, 0);
        lemma_obj_get_at(fields@, 1);
        lemma_obj_get_at(fields@, 2);
        lemma_obj_get_at(fields@, 3);
        lemma_obj_get_at(fields@, 4);
        lemma_obj_get_at(fields@, 5);
        lemma_obj_get_at(fields@, 6);
        lemma_obj_get_at(fields@, 7);
        lemma_obj_get_at(fields@, 8);
    }
    JsonValue::Obj(fields)
}

/// Parse a participant entry.
pub fn summary_from_json(v: &JsonValue) -> (r: Option<crate::types::ParticipantSummary>)
    ensures
        match r {
            Some(p) => spec_summary_from(*v) == Some(spec_summary_view(p)),
            None => spec_summary_from(*v) is None,
        },
{
    let fields = match v {
        JsonValue::Obj(fields) => fields,
        _ => {
            return None;
        },
    };
    let participant_id = match get_i64(fields, "participantId") {
        Some(x) => x,
        None => {
            return None;
        },
    };
    let team_id = match get_i64(fields, "teamId") {
        Some(x) => x,
        None => {
            return None;
        },
    };
    let champion_id = match get_i64(fields, "championId") {
        Some(x) => x,
        None => {
            return None;
        },
    };
    let spell1_id = match get_i64(fields, "spell1Id") {
        Some(x) => x,
        None => {
            return None;
        },
    };
    let spell2_id = match get_i64(fields, "spell2Id") {
        Some(x) => x,
        None => {
            return None;
        },
    };
    let lane = match get_string(fields, "lane") {
        Some(x) => x,
        None => {
            return None;
        },
    };
    let role = match get_string(fields, "role") {
        Some(x) => x,
        None => {
            return None;
        },
    };
    let summoner_name = match get_string(fields, "summonerName") {
        Some(x) => x,
        None => {
            return None;
        },
    };
    let stats = match obj_get(fields, "stats") {
        Some(sv) => match stats_from_json(sv) {
            Some(st) => st,
            None => {
                return None;
            },
        },
        None => {
            return None;
        },
    };
    Some(
        crate::types::ParticipantSummary {
            participant_id,
            team_id,
            champion_id,
            spell1_id,
            spell2_id,
            stats,
            lane,
            role,
            summoner_name,
        },
    )
}

/// What an array of participant entries parses back to.
pub open spec fn spec_summaries_from(vs: Seq<JsonValue>) -> Option<Seq<ParticipantSummaryView>>
    decreases vs.len(),
{
    if vs.len() == 0 {
        Some(Seq::empty())
    } else {
        match (spec_summaries_from(vs.drop_last()), spec_summary_from(vs.last())) {
            (Some(s), Some(p)) => Some(s.push(p)),
            _ => None,
        }
    }
}

proof fn lemma_summaries_prefix_none(vs: Seq<JsonValue>, i: int)
    requires
        0 <= i <= vs.len(),
        spec_summaries_from(vs.take(i)) is None,
    ensures
        spec_summaries_from(vs) is None,
    decreases vs.len() - i,
{
    if i < vs.len() {
        assert(vs.take(i + 1).drop_last() =~= vs.take(i));
        lemma_summaries_prefix_none(vs, i + 1);
    } else {
        assert(vs.take(i) =~= vs);
    }
}

/// Encode a participant entry list.
pub fn summaries_to_json(ps: &Vec<crate::types::ParticipantSummary>) -> (r: Vec<JsonValue>)
    ensures
        spec_summaries_from(r@) == Some(
            ps@.map_values(|p: crate::types::ParticipantSummary| spec_summary_view(p)),
        ),
{
    let ghost view_fn = |p: crate::types::ParticipantSummary| spec_summary_view(p);
    let mut out: Vec<JsonValue> = Vec::new();
    let mut i: usize = 0;
    proof {
        assert(ps@.take(0).map_values(view_fn) =~= Seq::<ParticipantSummaryView>::empty());
    }
    while i < ps.len()
        invariant
            i <= ps@.len(),
            view_fn == (|p: crate::types::ParticipantSummary| spec_summary_view(p)),
            spec_summaries_from(out@) == Some(ps@.take(i as int).map_values(view_fn)),
        decreases ps@.len() - i,
    {
        let ghost before = out@;
        let j = summary_to_json(&ps[i]);
        out.push(j);
        proof {
            assert(out@.drop_last() =~= before);
            assert(ps@.take(i + 1).map_values(view_fn) =~= ps@.take(i as int).map_values(
                view_fn,
            ).push(view_fn(ps@[i as int])));
        }
        i += 1;
    }
    proof {
        assert(ps@.take(ps@.len() as int) =~= ps@);
    }
    out
}

/// Parse a participant entry list.
pub fn summaries_from_json(vs: &Vec<JsonValue>) -> (r: Option<
    Vec<crate::types::ParticipantSummary>,
>)
    ensures
        match r {
            Some(xs) => spec_summaries_from(vs@) == Some(
                xs@.map_values(|p: crate::types::ParticipantSummary| spec_summary_view(p)),
            ),
            None => spec_summaries_from(vs@) is None,
        },
{
    let ghost view_fn = |p: crate::types::ParticipantSummary| spec_summary_view(p);
    let mut out: Vec<crate::types::ParticipantSummary> = Vec::new();
    let mut i: usize = 0;
    proof {
        assert(vs@.take(0) =~= Seq::<JsonValue>::empty());
        assert(out@.map_values(view_fn) =~= Seq::<ParticipantSummaryView>::empty());
    }
    while i < vs.len()
        invariant
            i <= vs@.len(),
            view_fn == (|p: crate::types::ParticipantSummary| spec_summary_view(p)),
            spec_summaries_from(vs@.take(i as int)) == Some(out@.map_values(view_fn)),
        decreases vs@.len() - i,
    {
        proof {
            assert(vs@.take(i + 1).drop_last() =~= vs@.take(i as int));
            assert(vs@.take(i + 1).last() == vs@[i as int]);
        }
        let ghost before = out@;
        match summary_from_json(&vs[i]) {
            Some(p) => {
                out.push(p);
                proof {
                    assert(out@.map_values(view_fn) =~= before.map_values(view_fn).push(
                        view_fn(out@[out@.len() - 1]),
                    ));
                }
            },
            None => {
                proof {
                    lemma_summaries_prefix_none(vs@, i + 1);
                }
                return None;
            },
        }
        i += 1;
    }
    proof {
        assert(vs@.take(vs@.len() as int) =~= vs@);
    }
    Some(out)
}

/// What an array of team objects parses back to.
pub open spec fn spec_teams_from(vs: Seq<JsonValue>) -> Option<Seq<MatchTeamView>>
    decreases vs.len(),
{
    if vs.len() == 0 {
        Some(Seq::empty())
    } else {
        match (spec_teams_from(vs.drop_last()), spec_team_from(vs.last())) {
            (Some(s), Some(t)) => Some(s.push(t)),
            _ => None,
        }
    }
}

proof fn lemma_teams_prefix_none(vs: Seq<JsonValue>, i: int)
    requires
        0 <= i <= vs.len(),
        spec_teams_from(vs.take(i)) is None,
    ensures
        spec_teams_from(vs) is None,
    decreases vs.len() - i,
{
    if i < vs.len() {
        assert(vs.take(i + 1).drop_last() =~= vs.take(i));
        lemma_teams_prefix_none(vs, i + 1);
    } else {
        assert(vs.take(i) =~= vs);
    }
}

/// Encode a team list.
pub fn teams_to_json(ts: &Vec<crate::types::MatchTeam>) -> (r: Vec<JsonValue>)
    ensures
        spec_teams_from(r@) == Some(
            ts@.map_values(|t: crate::types::MatchTeam| spec_team_view(t)),
        ),
{
    let ghost view_fn = |t: crate::types::MatchTeam| spec_team_view(t);
    let mut out: Vec<JsonValue> = Vec::new();
    let mut i: usize = 0;
    proof {
        assert(ts@.take(0).map_values(view_fn) =~= Seq::<MatchTeamView>::empty());
    }
    while i < ts.len()
        invariant
            i <= ts@.len(),
            view_fn == (|t: crate::types::MatchTeam| spec_team_view(t)),
            spec_teams_from(out@) == Some(ts@.take(i as int).map_values(view_fn)),
        decreases ts@.len() - i,
    {
        let ghost before = out@;
        let j = team_to_json(&ts[i]);
        out.push(j);
        proof {
            assert(out@.drop_last() =~= before);
            assert(ts@.take(i + 1).map_values(view_fn) =~= ts@.take(i as int).map_values(
                view_fn,
            ).push(view_fn(ts@[i as int])));
        }
        i += 1;
    }
    proof {
        assert(ts@.take(ts@.len() as int) =~= ts@);
    }
    out
}

/// Parse a team list.
pub fn teams_from_json(vs: &Vec<JsonValue>) -> (r: Option<Vec<crate::types::MatchTeam>>)
    ensures
        match r {
            Some(xs) => spec_teams_from(vs@) == Some(
                xs@.map_values(|t: crate::types::MatchTeam| spec_team_view(t)),
            ),
            None => spec_teams_from(vs@) is None,
        },
{
    let ghost view_fn = |t: crate::types::MatchTeam| spec_team_view(t);
    let mut out: Vec<crate::types::MatchTeam> = Vec::new();
    let mut i: usize = 0;
    proof {
        assert(vs@.take(0) =~= Seq::<JsonValue>::empty());
        assert(out@.map_values(view_fn) =~= Seq::<MatchTeamView>::empty());
    }
    while i < vs.len()
        invariant
            i <= vs@.len(),
            view_fn == (|t: crate::types::MatchTeam| spec_team_view(t)),
            spec_teams_from(vs@.take(i as int)) == Some(out@.map_values(view_fn)),
        decreases vs@.len() - i,
    {
        proof {
            assert(vs@.take(i + 1).drop_last() =~= vs@.take(i as int));
            assert(vs@.take(i + 1).last() == vs@[i as int]);
        }
        let ghost before = out@;
        match team_from_json(&vs[i]) {
            Some(t) => {
                out.push(t);
                proof {
                    assert(out@.map_values(view_fn) =~= before.map_values(view_fn).push(
                        view_fn(out@[out@.len() - 1]),
                    ));
                }
            },
            None => {
                proof {
                    lemma_teams_prefix_none(vs@, i + 1);
                }
                return None;
            },
        }
        i += 1;
    }
    proof {
        assert(vs@.take(vs@.len() as int) =~= vs@);
    }
    Some(out)
}

/// The sidecar metadata, down to plain values.
pub struct GameMetadataView {
    pub favorite: bool,
    pub match_id: MatchIdView,
    pub ingame_time_rec_start_offset_ms: i64,
    pub highlights_ms: Seq<i64>,
    pub queue: QueueView,
    pub player: PlayerView,
    pub champion_name: Seq<char>,
    pub stats: crate::types::Stats,
    pub participant_id: i64,
    pub participants: Seq<ParticipantSummaryView>,
    pub teams: Seq<MatchTeamView>,
    pub events: Seq<crate::events::GameEvent>,
    pub gold_timeline: Seq<GoldFrameView>,
    pub game_version: Seq<char>,
    pub lp_diff: Option<i64>,
}

/// The plain values of the sidecar metadata.
pub open spec fn spec_metadata_view(m: crate::types::GameMetadata) -> GameMetadataView {
    GameMetadataView {
        favorite: m.favorite,
        match_id: spec_match_id_view(m.match_id),
        ingame_time_rec_start_offset_ms: m.ingame_time_rec_start_offset_ms,
        highlights_ms: m.highlights_ms@,
        queue: spec_queue_view(m.queue),
        player: spec_player_view(m.player),
        champion_name: m.champion_name@,
        stats: m.stats,
        participant_id: m.participant_id,
        participants: m.participants@.map_values(
            |p: crate::types::ParticipantSummary| spec_summary_view(p),
        ),
        teams: m.teams@.map_values(|t: crate::types::MatchTeam| spec_team_view(t)),
        events: m.events@,
        gold_timeline: m.gold_timeline@.map_values(
            |g: crate::types::GoldFrame| spec_gold_frame_view(g),
        ),
        game_version: m.game_version@,
        lp_diff: m.lp_diff,
    }
}

/// What a sidecar metadata object parses back to. An absent league
/// point difference parses as absent, mirroring that it is omitted
/// when unknown.
pub open spec fn spec_metadata_from(v: JsonValue) -> Option<GameMetadataView> {
    match v {
        JsonValue::Obj(fields) => {
            let f = fields@;
            let favorite = spec_get_bool(f, "favorite"@);
            let match_id = match spec_obj_get(f, "matchId"@) {
                Some(mv) => spec_match_id_from(mv),
                None => None,
            };
            let offset = spec_get_i64(f, "ingameTimeRecStartOffset"@);
            let highlights = match spec_obj_get(f, "highlights"@) {
                Some(JsonValue::Arr(hs)) => spec_json_ints(hs@),
                _ => None,
            };
            let queue = match spec_obj_get(f, "queue"@) {
                Some(qv) => spec_queue_from(qv),
                None => None,
            };
            let player = match spec_obj_get(f, "player"@) {
                Some(pv) => spec_player_from(pv),
                None => None,
            };
            let champion_name = spec_get_str(f, "championName"@);
            let stats = match spec_obj_get(f, "stats"@) {
                Some(sv) => spec_stats_from(sv),
                None => None,
            };
            let participant_id = spec_get_i64(f, "participantId"@);
            let participants = match spec_obj_get(f, "participants"@) {
                Some(JsonValue::Arr(ps)) => spec_summaries_from(ps@),
                _ => None,
            };
            let teams = match spec_obj_get(f, "teams"@) {
                Some(JsonValue::Arr(ts)) => spec_teams_from(ts@),
                _ => None,
            };
            let events = match spec_obj_get(f, "events"@) {
                Some(JsonValue::Arr(es)) => spec_events_from(es@),
                _ => None,
            };
            let gold = match spec_obj_get(f, "goldTimeline"@) {
                Some(JsonValue::Arr(gs)) => spec_gold_frames_from(gs@),
                _ => None,
            };
            let game_version = spec_get_str(f, "gameVersion"@);
            let lp_diff = match spec_obj_get(f, "lpDiff"@) {
                None => Some(None),
                Some(JsonValue::Int(x)) => Some(Some(x)),
                Some(_) => None,
            };
            match (
                favorite,
                match_id,
                offset,
                highlights,
                queue,
                player,
                champion_name,
                stats,
            ) {
                (
                    Some(favorite),
                    Some(match_id),
                    Some(ingame_time_rec_start_offset_ms),
                    Some(highlights_ms),
                    Some(queue),
                    Some(player),
                    Some(champion_name),
                    Some(stats),
                ) => match (participant_id, participants, teams, events, gold, game_version, lp_diff) {
                    (
                        Some(participant_id),
                        Some(participants),
                        Some(teams),
                        Some(events),
                        Some(gold_timeline),
                        Some(game_version),
                        Some(lp_diff),
                    ) => Some(
                        GameMetadataView {
                            favorite,
                            match_id,
                            ingame_time_rec_start_offset_ms,
                            highlights_ms,
                            queue,
                            player,
                            champion_name,
                            stats,
                            participant_id,
                            participants,
                            teams,
                            events,
                            gold_timeline,
                            game_version,
                            lp_diff,
                        },
                    ),
                    _ => None,
                },
                _ => None,
            }
        },
        _ => None,
    }
}

/// Encode the sidecar metadata; an unknown league point difference is
/// omitted. Parsing the result recovers the metadata exactly: the
/// round trip loses nothing.
#[verifier::rlimit(60)]
pub fn metadata_to_json(m: &crate::types::GameMetadata) -> (r: JsonValue)
    ensures
        spec_metadata_from(r) == Some(spec_metadata_view(*m)),
        r matches JsonValue::Obj(fs) && spec_obj_get(fs@, "deferred"@) is None,
{
    proof {
        reveal_strlit("deferred");
        reveal_strlit("favorite");
        reveal_strlit("matchId");
        reveal_strlit("ingameTimeRecStartOffset");
        reveal_strlit("highlights");
        reveal_strlit("queue");
        reveal_strlit("player");
        reveal_strlit("championName");
        reveal_strlit("stats");
        reveal_strlit("participantId");
        reveal_strlit("participants");
        reveal_strlit("teams");
        reveal_strlit("events");
        reveal_strlit("goldTimeline");
        reveal_strlit("gameVersion");
        reveal_strlit("lpDiff");
    }
    let mut fields: Vec<(String, JsonValue)> = Vec::new();
    fields.push((String::from_str("favorite"), JsonValue::Bool(m.favorite)));
    fields.push((String::from_str("matchId"), match_id_to_json(&m.match_id)));
    fields.push(
        (
            String::from_str("ingameTimeRecStartOffset"),
            JsonValue::Int(m.ingame_time_rec_start_offset_ms),
        ),
    );
    fields.push((String::from_str("highlights"), JsonValue::Arr(ints_to_json(&m.highlights_ms))));
    fields.push((String::from_str("queue"), queue_to_json(&m.queue)));
    fields.push((String::from_str("player"), player_to_json(&m.player)));
    fields.push((String::from_str("championName"), JsonValue::Str(m.champion_name.clone())));
    fields.push((String::from_str("stats"), stats_to_json(&m.stats)));
    fields.push((String::from_str("participantId"), JsonValue::Int(m.participant_id)));
    fields.push((String::from_str("participants"), JsonValue::Arr(summaries_to_json(&m.participants))));
    fields.push((String::from_str("teams"), JsonValue::Arr(teams_to_json(&m.teams))));
    fields.push((String::from_str("events"), JsonValue::Arr(events_to_json(&m.events))));
    fields.push((String::from_str("goldTimeline"), JsonValue::Arr(gold_frames_to_json(&m.gold_timeline))));
    fields.push((String::from_str("gameVersion"), JsonValue::Str(m.game_version.clone())));
    proof {
        assert(fields@[0].0@ == "favorite"@);
        assert(fields@[1].0@ == "matchId"@);
        assert(fields@[2].0@ == "ingameTimeRecStartOffset"@);
        assert(fields@[3].0@ == "highlights"@);
        assert(fields@[4].0@ == "queue"@);
        assert(fields@[5].0@ == "player"@);
        assert(fields@[6].0@ == "championName"@);
        assert(fields@[7].0@ == "stats"@);
        assert(fields@[8].0@ == "participantId"@);
        assert(fields@[9].0@ == "participants"@);
        assert(fields@[10].0@ == "teams"@);
        assert(fields@[11].0@ == "events"@);
        assert(fields@[12].0@ == "goldTimeline"@);
        assert(fields@[13].0@ == "gameVersion"@);
        assert("favorite"@ != "lpDiff"@) by {
            assert("favorite"@.len() != "lpDiff"@.len());
        }
        assert("matchId"@ != "lpDiff"@) by {
            assert("matchId"@.len() != "lpDiff"@.len());
        }
        assert("ingameTimeRecStartOffset"@ != "lpDiff"@) by {
            assert("ingameTimeRecStartOffset"@.len() != "lpDiff"@.len());
        }
        assert("highlights"@ != "lpDiff"@) by {
            assert("highlights"@.len() != "lpDiff"@.len());
        }
        assert("queue"@ != "lpDiff"@) by {
            assert("queue"@.len() != "lpDiff"@.len());
        }
        assert("player"@ != "lpDiff"@) by {
            assert("player"@[0] != "lpDiff"@[0]);
        }
        assert("championName"@ != "lpDiff"@) by {
            assert("championName"@.len() != "lpDiff"@.len());
        }
        assert("stats"@ != "lpDiff"@) by {
            assert("stats"@.len() != "lpDiff"@.len());
        }
        assert("participantId"@ != "lpDiff"@) by {
            assert("participantId"@.len() != "lpDiff"@.len());
        }
        assert("participants"@ != "lpDiff"@) by {
            assert("participants"@.len() != "lpDiff"@.len());
        }
        assert("teams"@ != "lpDiff"@) by {
            assert("teams"@.len() != "lpDiff"@.len());
        }
        assert("events"@ != "lpDiff"@) by {
            assert("events"@[0] != "lpDiff"@[0]);
        }
        assert("goldTimeline"@ != "lpDiff"@) by {
            assert("goldTimeline"@.len() != "lpDiff"@.len());
        }
        assert("gameVersion"@ != "lpDiff"@) by {
            assert("gameVersion"@.len() != "lpDiff"@.len());
        }
        assert("favorite"@ != "deferred"@) by {
            assert("favorite"@[0] != "deferred"@[0]);
        }
        assert("matchId"@ != "deferred"@) by {
            assert("matchId"@.len() != "deferred"@.len());
        }
        assert("ingameTimeRecStartOffset"@ != "deferred"@) by {
            assert("ingameTimeRecStartOffset"@.len() != "deferred"@.len());
        }
        assert("highlights"@ != "deferred"@) by {
            assert("highlights"@.len() != "deferred"@.len());
        }
        assert("queue"@ != "deferred"@) by {
            assert("queue"@.len() != "deferred"@.len());
        }
        assert("player"@ != "deferred"@) by {
            assert("player"@.len() != "deferred"@.len());
        }
        assert("championName"@ != "deferred"@) by {
            assert("championName"@.len() != "deferred"@.len());
        }
        assert("stats"@ != "deferred"@) by {
            assert("stats"@.len() != "deferred"@.len());
        }
        assert("participantId"@ != "deferred"@) by {
            assert("participantId"@.len() != "deferred"@.len());
        }
        assert("participants"@ != "deferred"@) by {
            assert("participants"@.len() != "deferred"@.len());
        }
        assert("teams"@ != "deferred"@) by {
            assert("teams"@.len() != "deferred"@.len());
        }
        assert("events"@ != "deferred"@) by {
            assert("events"@.len() != "deferred"@.len());
        }
        assert("goldTimeline"@ != "deferred"@) by {
            assert("goldTimeline"@.len() != "deferred"@.len());
        }
        assert("gameVersion"@ != "deferred"@) by {
            assert("gameVersion"@.len() != "deferred"@.len());
        }
        assert("favorite"@ != "matchId"@) by {
            assert("favorite"@.len() != "matchId"@.len());
        }
        assert("favorite"@ != "ingameTimeRecStartOffset"@) by {
            assert("favorite"@.len() != "ingameTimeRecStartOffset"@.len());
        }
        assert("matchId"@ != "ingameTimeRecStartOffset"@) by {
            assert("matchId"@.len() != "ingameTimeRecStartOffset"@.len());
        }
        assert("favorite"@ != "highlights"@) by {
            assert("favorite"@.len() != "highlights"@.len());
        }
        assert("matchId"@ != "highlights"@) by {
            assert("matchId"@.len() != "highlights"@.len());
        }
        assert("ingameTimeRecStartOffset"@ != "highlights"@) by {
            assert("ingameTimeRecStartOffset"@.len() != "highlights"@.len());
        }
        assert("favorite"@ != "queue"@) by {
            assert("favorite"@.len() != "queue"@.len());
        }
        assert("matchId"@ != "queue"@) by {
            assert("matchId"@.len() != "queue"@.len());
        }
        assert("ingameTimeRecStartOffset"@ != "queue"@) by {
            assert("ingameTimeRecStartOffset"@.len() != "queue"@.len());
        }
        assert("highlights"@ != "queue"@) by {
            assert("highlights"@.len() != "queue"@.len());
        }
        assert("favorite"@ != "player"@) by {
            assert("favorite"@.len() != "player"@.len());
        }
        assert("matchId"@ != "player"@) by {
            assert("matchId"@.len() != "player"@.len());
        }
        assert("ingameTimeRecStartOffset"@ != "player"@) by {
            assert("ingameTimeRecStartOffset"@.len() != "player"@.len());
        }
        assert("highlights"@ != "player"@) by {
            assert("highlights"@.len() != "player"@.len());
        }
        assert("queue"@ != "player"@) by {
            assert("queue"@.len() != "player"@.len());
        }
        assert("favorite"@ != "championName"@) by {
            assert("favorite"@.len() != "championName"@.len());
        }
        assert("matchId"@ != "championName"@) by {
            assert("matchId"@.len() != "championName"@.len());
        }
        assert("ingameTimeRecStartOffset"@ != "championName"@) by {
            assert("ingameTimeRecStartOffset"@.len() != "championName"@.len());
        }
        assert("highlights"@ != "championName"@) by {
            assert("highlights"@.len() != "championName"@.len());
        }
        assert("queue"@ != "championName"@) by {
            assert("queue"@.len() != "championName"@.len());
        }
        assert("player"@ != "championName"@) by {
            assert("player"@.len() != "championName"@.len());
        }
        assert("favorite"@ != "stats"@) by {
            assert("favorite"@.len() != "stats"@.len());
        }
        assert("matchId"@ != "stats"@) by {
            assert("matchId"@.len() != "stats"@.len());
        }
        assert("ingameTimeRecStartOffset"@ != "stats"@) by {
            assert("ingameTimeRecStartOffset"@.len() != "stats"@.len());
        }
        assert("highlights"@ != "stats"@) by {
            assert("highlights"@.len() != "stats"@.len());
        }
        assert("queue"@ != "stats"@) by {
            assert("queue"@[0] != "stats"@[0]);
        }
        assert("player"@ != "stats"@) by {
            assert("player"@.len() != "stats"@.len());
        }
        assert("championName"@ != "stats"@) by {
            assert("championName"@.len() != "stats"@.len());
        }
        assert("favorite"@ != "participantId"@) by {
            assert("favorite"@.len() != "participantId"@.len());
        }
        assert("matchId"@ != "participantId"@) by {
            assert("matchId"@.len() != "participantId"@.len());
        }
        assert("ingameTimeRecStartOffset"@ != "participantId"@) by {
            assert("ingameTimeRecStartOffset"@.len() != "participantId"@.len());
        }
        assert("highlights"@ != "participantId"@) by {
            assert("highlights"@.len() != "participantId"@.len());
        }
        assert("queue"@ != "participantId"@) by {
            assert("queue"@.len() != "participantId"@.len());
        }
        assert("player"@ != "participantId"@) by {
            assert("player"@.len() != "participantId"@.len());
        }
        assert("championName"@ != "participantId"@) by {
            assert("championName"@.len() != "participantId"@.len());
        }
        assert("stats"@ != "participantId"@) by {
            assert("stats"@.len() != "participantId"@.len());
        }
        assert("favorite"@ != "participants"@) by {
            assert("favorite"@.len() != "participants"@.len());
        }
        assert("matchId"@ != "participants"@) by {
            assert("matchId"@.len() != "participants"@.len());
        }
        assert("ingameTimeRecStartOffset"@ != "participants"@) by {
            assert("ingameTimeRecStartOffset"@.len() != "participants"@.len());
        }
        assert("highlights"@ != "participants"@) by {
            assert("highlights"@.len() != "participants"@.len());
        }
        assert("queue"@ != "participants"@) by {
            assert("queue"@.len() != "participants"@.len());
        }
        assert("player"@ != "participants"@) by {
            assert("player"@.len() != "participants"@.len());
        }
        assert("championName"@ != "participants"@) by {
            assert("championName"@[0] != "participants"@[0]);
        }
        assert("stats"@ != "participants"@) by {
            assert("stats"@.len() != "participants"@.len());
        }
        assert("participantId"@ != "participants"@) by {
            assert("participantId"@.len() != "participants"@.len());
        }
        assert("favorite"@ != "teams"@) by {
            assert("favorite"@.len() != "teams"@.len());
        }
        assert("matchId"@ != "teams"@) by {
            assert("matchId"@.len() != "teams"@.len());
        }
        assert("ingameTimeRecStartOffset"@ != "teams"@) by {
            assert("ingameTimeRecStartOffset"@.len() != "teams"@.len());
        }
        assert("highlights"@ != "teams"@) by {
            assert("highlights"@.len() != "teams"@.len());
        }
        assert("queue"@ != "teams"@) by {
            assert("queue"@[0] != "teams"@[0]);
        }
        assert("player"@ != "teams"@) by {
            assert("player"@.len() != "teams"@.len());
        }
        assert("championName"@ != "teams"@) by {
            assert("championName"@.len() != "teams"@.len());
        }
        assert("stats"@ != "teams"@) by {
            assert("stats"@[0] != "teams"@[0]);
        }
        assert("participantId"@ != "teams"@) by {
            assert("participantId"@.len() != "teams"@.len());
        }
        assert("participants"@ != "teams"@) by {
            assert("participants"@.len() != "teams"@.len());
        }
        assert("favorite"@ != "events"@) by {
            assert("favorite"@.len() != "events"@.len());
        }
        assert("matchId"@ != "events"@) by {
            assert("matchId"@.len() != "events"@.len());
        }
        assert("ingameTimeRecStartOffset"@ != "events"@) by {
            assert("ingameTimeRecStartOffset"@.len() != "events"@.len());
        }
        assert("highlights"@ != "events"@) by {
            assert("highlights"@.len() != "events"@.len());
        }
        assert("queue"@ != "events"@) by {
            assert("queue"@.len() != "events"@.len());
        }
        assert("player"@ != "events"@) by {
            assert("player"@[0] != "events"@[0]);
        }
        assert("championName"@ != "events"@) by {
            assert("championName"@.len() != "events"@.len());
        }
        assert("stats"@ != "events"@) by {
            assert("stats"@.len() != "events"@.len());
        }
        assert("participantId"@ != "events"@) by {
            assert("participantId"@.len() != "events"@.len());
        }
        assert("participants"@ != "events"@) by {
            assert("participants"@.len() != "events"@.len());
        }
        assert("teams"@ != "events"@) by {
            assert("teams"@.len() != "events"@.len());
        }
        assert("favorite"@ != "goldTimeline"@) by {
            assert("favorite"@.len() != "goldTimeline"@.len());
        }
        assert("matchId"@ != "goldTimeline"@) by {
            assert("matchId"@.len() != "goldTimeline"@.len());
        }
        assert("ingameTimeRecStartOffset"@ != "goldTimeline"@) by {
            assert("ingameTimeRecStartOffset"@.len() != "goldTimeline"@.len());
        }
        assert("highlights"@ != "goldTimeline"@) by {
            assert("highlights"@.len() != "goldTimeline"@.len());
        }
        assert("queue"@ != "goldTimeline"@) by {
            assert("queue"@.len() != "goldTimeline"@.len());
        }
        assert("player"@ != "goldTimeline"@) by {
            assert("player"@.len() != "goldTimeline"@.len());
        }
        assert("championName"@ != "goldTimeline"@) by {
            assert("championName"@[0] != "goldTimeline"@[0]);
        }
        assert("stats"@ != "goldTimeline"@) by {
            assert("stats"@.len() != "goldTimeline"@.len());
        }
        assert("participantId"@ != "goldTimeline"@) by {
            assert("participantId"@.len() != "goldTimeline"@.len());
        }
        assert("participants"@ != "goldTimeline"@) by {
            assert("participants"@[0] != "goldTimeline"@[0]);
        }
        assert("teams"@ != "goldTimeline"@) by {
            assert("teams"@.len() != "goldTimeline"@.len());
        }
        assert("events"@ != "goldTimeline"@) by {
            assert("events"@.len() != "goldTimeline"@.len());
        }
        assert("favorite"@ != "gameVersion"@) by {
            assert("favorite"@.len() != "gameVersion"@.len());
        }
        assert("matchId"@ != "gameVersion"@) by {
            assert("matchId"@.len() != "gameVersion"@.len());
        }
        assert("ingameTimeRecStartOffset"@ != "gameVersion"@) by {
            assert("ingameTimeRecStartOffset"@.len() != "gameVersion"@.len());
        }
        assert("highlights"@ != "gameVersion"@) by {
            assert("highlights"@.len() != "gameVersion"@.len());
        }
        assert("queue"@ != "gameVersion"@) by {
            assert("queue"@.len() != "gameVersion"@.len());
        }
        assert("player"@ != "gameVersion"@) by {
            assert("player"@.len() != "gameVersion"@.len());
        }
        assert("championName"@ != "gameVersion"@) by {
            assert("championName"@.len() != "gameVersion"@.len());
        }
        assert("stats"@ != "gameVersion"@) by {
            assert("stats"@.len() != "gameVersion"@.len());
        }
        assert("participantId"@ != "gameVersion"@) by {
            assert("participantId"@.len() != "gameVersion"@.len());
        }
        assert("participants"@ != "gameVersion"@) by {
            assert("participants"@.len() != "gameVersion"@.len());
        }
        assert("teams"@ != "gameVersion"@) by {
            assert("teams"@.len() != "gameVersion"@.len());
        }
        assert("events"@ != "gameVersion"@) by {
            assert("events"@.len() != "gameVersion"@.len());
        }
        assert("goldTimeline"@ != "gameVersion"@) by {
            assert("goldTimeline"@.len() != "gameVersion"@.len());
        }
    }
    if let Some(d) = m.lp_diff {
        fields.push((String::from_str("lpDiff"), JsonValue::Int(d)));
        proof {
            assert(fields@[14].0@ == "lpDiff"@);
            lemma_obj_get_at(fields@, 14);
        }
    } else {
        proof {
            lemma_obj_get_absent(fields@, "lpDiff"@);
        }
    }
    proof {
        lemma_obj_get_at(fields@, 0);
        lemma_obj_get_at(fields@, 1);
        lemma_obj_get_at(fields@, 2);
        lemma_obj_get_at(fields@, 3);
        lemma_obj_get_at(fields@, 4);
        lemma_obj_get_at(fields@, 5);
        lemma_obj_get_at(fields@, 6);
        lemma_obj_get_at(fields@, 7);
        lemma_obj_get_at(fields@, 8);
        lemma_obj_get_at(fields@, 9);
        lemma_obj_get_at(fields@, 10);
        lemma_obj_get_at(fields@, 11);
        lemma_obj_get_at(fields@, 12);
        lemma_obj_get_at(fields@, 13);
        lemma_obj_get_absent(fields@, "deferred"@);
    }
    JsonValue::Obj(fields)
}

/// Parse the sidecar metadata.
pub fn metadata_from_json(v: &JsonValue) -> (r: Option<crate::types::GameMetadata>)
    ensures
        match r {
            Some(m) => spec_metadata_from(*v) == Some(spec_metadata_view(m)),
            None => spec_metadata_from(*v) is None,
        },
{
    let fields = match v {
        JsonValue::Obj(fields) => fields,
        _ => {
            return None;
        },
    };
    let favorite = match get_bool(fields, "favorite") {
        Some(x) => x,
        None => {
            return None;
        },
    };
    let match_id = match obj_get(fields, "matchId") {
        Some(mv) => match match_id_from_json(mv) {
            Some(x) => x,
            None => {
                return None;
            },
        },
        None => {
            return None;
        },
    };
    let ingame_time_rec_start_offset_ms = match get_i64(fields, "ingameTimeRecStartOffset") {
        Some(x) => x,
        None => {
            return None;
        },
    };
    let highlights_ms = match get_arr(fields, "highlights") {
        Some(hs) => match ints_from_json(hs) {
            Some(x) => x,
            None => {
                return None;
            },
        },
        None => {
            return None;
        },
    };
    let queue = match obj_get(fields, "queue") {
        Some(qv) => match queue_from_json(qv) {
            Some(x) => x,
            None => {
                return None;
            },
        },
        None => {
            return None;
        },
    };
    let player = match obj_get(fields, "player") {
        Some(pv) => match player_from_json(pv) {
            Some(x) => x,
            None => {
                return None;
            },
        },
        None => {
            return None;
        },
    };
    let champion_name = match get_string(fields, "championName") {
        Some(x) => x,
        None => {
            return None;
        },
    };
    let stats = match obj_get(fields, "stats") {
        Some(sv) => match stats_from_json(sv) {
            Some(x) => x,
            None => {
                return None;
            },
        },
        None => {
            return None;
        },
    };
    let participant_id = match get_i64(fields, "participantId") {
        Some(x) => x,
        None => {
            return None;
        },
    };
    let participants = match get_arr(fields, "participants") {
        Some(ps) => match summaries_from_json(ps) {
            Some(x) => x,
            None => {
                return None;
            },
        },
        None => {
            return None;
        },
    };
    let teams = match get_arr(fields, "teams") {
        Some(ts) => match teams_from_json(ts) {
            Some(x) => x,
            None => {
                return None;
            },
        },
        None => {
            return None;
        },
    };
    let events = match get_arr(fields, "events") {
        Some(es) => match events_from_json(es) {
            Some(x) => x,
            None => {
                return None;
            },
        },
        None => {
            return None;
        },
    };
    let gold_timeline = match get_arr(fields, "goldTimeline") {
        Some(gs) => match gold_frames_from_json(gs) {
            Some(x) => x,
            None => {
                return None;
            },
        },
        None => {
            return None;
        },
    };
    let game_version = match get_string(fields, "gameVersion") {
        Some(x) => x,
        None => {
            return None;
        },
    };
    let lp_diff = match obj_get(fields, "lpDiff") {
        None => None,
        Some(JsonValue::Int(x)) => Some(*x),
        Some(_) => {
            return None;
        },
    };
    Some(
        crate::types::GameMetadata {
            favorite,
            match_id,
            ingame_time_rec_start_offset_ms,
            highlights_ms,
            queue,
            player,
            champion_name,
            stats,
            participant_id,
            participants,
            teams,
            events,
            gold_timeline,
            game_version,
            lp_diff,
        },
    )
}

/// What a sidecar file parses back to: a deferred record under the
/// `deferred` key, the full metadata otherwise.
pub open spec fn spec_metadata_file_from(v: JsonValue) -> Option<
    Result<(bool, Seq<i64>), GameMetadataView>,
> {
    match v {
        JsonValue::Obj(fields) => match spec_obj_get(fields@, "deferred"@) {
            Some(dv) => match spec_deferred_from_json(dv) {
                Some(d) => Some(Ok(d)),
                None => None,
            },
            None => match spec_metadata_from(v) {
                Some(m) => Some(Err(m)),
                None => None,
            },
        },
        _ => None,
    }
}

/// Encode a sidecar file: a deferred record is wrapped under the
/// `deferred` key; finished metadata stands on its own.
pub fn metadata_file_to_json(f: &crate::types::MetadataFile) -> (r: JsonValue)
    ensures
        match f {
            crate::types::MetadataFile::Deferred(d) => spec_metadata_file_from(r) == Some(
                Ok::<_, GameMetadataView>((d.favorite, d.highlights_ms@)),
            ),
            crate::types::MetadataFile::Metadata(m) => spec_metadata_file_from(r) == Some(
                Err::<(bool, Seq<i64>), _>(spec_metadata_view(*m)),
            ),
        },
{
    proof {
        reveal_strlit("deferred");
        reveal_strlit("favorite");
        reveal_strlit("matchId");
        reveal_strlit("ingameTimeRecStartOffset");
        reveal_strlit("highlights");
        reveal_strlit("queue");
        reveal_strlit("player");
        reveal_strlit("championName");
        reveal_strlit("stats");
        reveal_strlit("participantId");
        reveal_strlit("participants");
        reveal_strlit("teams");
        reveal_strlit("events");
        reveal_strlit("goldTimeline");
        reveal_strlit("gameVersion");
        reveal_strlit("lpDiff");
    }
    match f {
        crate::types::MetadataFile::Deferred(d) => {
            let mut fields: Vec<(String, JsonValue)> = Vec::new();
            fields.push((String::from_str("deferred"), deferred_to_json(d)));
            proof {
                assert(fields@[0].0@ == "deferred"@);
                lemma_obj_get_at(fields@, 0);
            }
            JsonValue::Obj(fields)
        },
        crate::types::MetadataFile::Metadata(m) => {
            metadata_to_json(m)
        },
    }
}

} // verus!
