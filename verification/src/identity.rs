//! Attribution of live-captured shop events to participants.
//!
//! A shopper name may carry trailing decorations: a participant index
//! (`#IDX:<n>`, strongest — the index comes straight from the live
//! player list), or a champion hint (`#CNAME:<name>`) optionally behind
//! a team hint (`#TEAM:<side>`). An undecorated or partially decorated
//! name falls back to riot-id and substring matching against the
//! authoritative identities.

use vstd::prelude::*;

use crate::text::{
    parse_small_index, rfind, spec_contains, spec_rfind, spec_small_index, str_contains, str_eq,
    substr_string,
};
use crate::types::{Champion, Participant, ParticipantIdentity};

verus! {

/// The decorations parsed out of a shopper name (specification level).
pub struct ShopperTags {
    pub base: Seq<char>,
    pub idx: Option<int>,
    pub team: Option<int>,
    pub cname: Option<Seq<char>>,
}

/// The decorations parsed out of a shopper name.
#[derive(Clone, Debug, PartialEq)]
pub struct ParsedShopper {
    pub base: String,
    pub idx: Option<u64>,
    pub team: Option<i64>,
    pub cname: Option<String>,
}

impl ParsedShopper {
    /// The specification-level value of this parse result.
    pub open spec fn spec_tags(self) -> ShopperTags {
        ShopperTags {
            base: self.base@,
            idx: match self.idx {
                Some(v) => Some(v as int),
                None => None,
            },
            team: match self.team {
                Some(v) => Some(v as int),
                None => None,
            },
            cname: match self.cname {
                Some(s) => Some(s@),
                None => None,
            },
        }
    }
}

/// The team side a `#TEAM:` value denotes.
pub open spec fn spec_team_side(s: Seq<char>) -> Option<int> {
    if s == "100"@ || s == "ORDER"@ || s == "Order"@ {
        Some(100)
    } else if s == "200"@ || s == "CHAOS"@ || s == "Chaos"@ {
        Some(200)
    } else {
        None
    }
}

/// Parse of the champion and team decorations, after no usable index
/// decoration was found.
pub open spec fn spec_parse_team_cname(name: Seq<char>) -> ShopperTags {
    let cname_pat = "#CNAME:"@;
    let team_pat = "#TEAM:"@;
    let (rest, cname) = match spec_rfind(name, cname_pat) {
        Some(i) => (
            name.subrange(0, i),
            Some(name.subrange(i + cname_pat.len(), name.len() as int)),
        ),
        None => (name, None),
    };
    let (base, team) = match spec_rfind(rest, team_pat) {
        Some(i) => (
            rest.subrange(0, i),
            spec_team_side(rest.subrange(i + team_pat.len(), rest.len() as int)),
        ),
        None => (rest, None),
    };
    ShopperTags { base, idx: None, team, cname }
}

/// Parse of a decorated shopper name. An index decoration whose value
/// is a small number wins; otherwise the champion hint is split off the
/// end first, then the team hint. An unknown team side is stripped but
/// yields no hint.
pub open spec fn spec_parse_shopper(name: Seq<char>) -> ShopperTags {
    let idx_pat = "#IDX:"@;
    match spec_rfind(name, idx_pat) {
        Some(i) => match spec_small_index(name.subrange(i + idx_pat.len(), name.len() as int)) {
            Some(v) => ShopperTags {
                base: name.subrange(0, i),
                idx: Some(v),
                team: None,
                cname: None,
            },
            None => spec_parse_team_cname(name),
        },
        None => spec_parse_team_cname(name),
    }
}

/// The team of the first participant record with this id.
pub open spec fn spec_team_of(parts: Seq<Participant>, pid: i64) -> Option<i64>
    decreases parts.len(),
{
    if parts.len() == 0 {
        None
    } else if parts[0].participant_id == pid {
        Some(parts[0].team_id)
    } else {
        spec_team_of(parts.drop_first(), pid)
    }
}

/// The champion record of the first pair with this participant id.
pub open spec fn spec_champ_of(champs: Seq<(i64, Champion)>, pid: i64) -> Option<Champion>
    decreases champs.len(),
{
    if champs.len() == 0 {
        None
    } else if champs[0].0 == pid {
        Some(champs[0].1)
    } else {
        spec_champ_of(champs.drop_first(), pid)
    }
}

/// Whether one authoritative identity matches the parsed decorations.
///
/// With a champion hint the hint decides alone: the participant's
/// champion key or localized name must equal it, and a team hint must
/// then agree with the recorded team. Without one, the base name must
/// equal the game name or the full riot id, or contain / be contained
/// in the game name (bot names); a team hint must agree with the
/// recorded team, or with the side inferred from the id when no team is
/// recorded.
pub open spec fn spec_identity_matches(
    pi: ParticipantIdentity,
    tags: ShopperTags,
    parts: Seq<Participant>,
    champs: Seq<(i64, Champion)>,
) -> bool {
    match tags.cname {
        Some(cname) => match spec_champ_of(champs, pi.participant_id) {
            Some(champ) => (champ.alias@ == cname || champ.name@ == cname) && match tags.team {
                Some(t) => spec_team_of(parts, pi.participant_id) == Some(t as i64),
                None => true,
            },
            None => false,
        },
        None => {
            let full = pi.player.game_name@ + "#"@ + pi.player.tag_line@;
            let name_matches = pi.player.game_name@ == tags.base || full == tags.base;
            let partial = tags.base.len() > 0 && (spec_contains(tags.base, pi.player.game_name@)
                || spec_contains(pi.player.game_name@, tags.base));
            (name_matches || partial) && match tags.team {
                Some(t) => match spec_team_of(parts, pi.participant_id) {
                    Some(rt) => rt as int == t,
                    None => (if pi.participant_id <= 5 {
                        100int
                    } else {
                        200int
                    }) == t,
                },
                None => true,
            }
        },
    }
}

/// The participant id of the first matching identity.
pub open spec fn spec_find_match(
    ids: Seq<ParticipantIdentity>,
    tags: ShopperTags,
    parts: Seq<Participant>,
    champs: Seq<(i64, Champion)>,
) -> Option<i64>
    decreases ids.len(),
{
    if ids.len() == 0 {
        None
    } else if spec_identity_matches(ids[0], tags, parts, champs) {
        Some(ids[0].participant_id)
    } else {
        spec_find_match(ids.drop_first(), tags, parts, champs)
    }
}

/// Resolution of the parsed decorations to a participant id: a decorated
/// index resolves directly to index plus one; otherwise the first
/// matching identity wins, and an unmatched event is dropped.
pub open spec fn spec_resolve(
    tags: ShopperTags,
    ids: Seq<ParticipantIdentity>,
    parts: Seq<Participant>,
    champs: Seq<(i64, Champion)>,
) -> Option<i64> {
    match tags.idx {
        Some(n) => Some((n + 1) as i64),
        None => spec_find_match(ids, tags, parts, champs),
    }
}

/// The side a `#TEAM:` value denotes.
fn team_side(s: &str) -> (r: Option<i64>)
    ensures
        match r {
            Some(v) => spec_team_side(s@) == Some(v as int),
            None => spec_team_side(s@) is None,
        },
{
    if str_eq(s, "100") || str_eq(s, "ORDER") || str_eq(s, "Order") {
        Some(100)
    } else if str_eq(s, "200") || str_eq(s, "CHAOS") || str_eq(s, "Chaos") {
        Some(200)
    } else {
        None
    }
}

/// Parse the champion and team decorations off the end of a name.
fn parse_team_cname(name: &str) -> (r: ParsedShopper)
    ensures
        r.spec_tags() == spec_parse_team_cname(name@),
        r.idx is None,
{
    proof {
        reveal_strlit("#CNAME:");
        reveal_strlit("#TEAM:");
    }
    let n = name.unicode_len();
    let (rest, cname): (String, Option<String>) = match rfind(name, "#CNAME:") {
        Some(i) => (substr_string(name, 0, i), Some(substr_string(name, i + 7, n))),
        None => (String::from_str(name), None),
    };
    let rn = rest.unicode_len();
    let (base, team): (String, Option<i64>) = match rfind(rest.as_str(), "#TEAM:") {
        Some(i) => {
            let side = substr_string(rest.as_str(), i + 6, rn);
            (substr_string(rest.as_str(), 0, i), team_side(side.as_str()))
        },
        None => (rest, None),
    };
    ParsedShopper { base, idx: None, team, cname }
}

/// Parse a decorated shopper name.
pub fn parse_shopper_name(name: &str) -> (r: ParsedShopper)
    ensures
        r.spec_tags() == spec_parse_shopper(name@),
{
    proof {
        reveal_strlit("#IDX:");
    }
    let n = name.unicode_len();
    if let Some(i) = rfind(name, "#IDX:") {
        let suffix = substr_string(name, i + 5, n);
        if let Some(v) = parse_small_index(suffix.as_str()) {
            return ParsedShopper {
                base: substr_string(name, 0, i),
                idx: Some(v),
                team: None,
                cname: None,
            };
        }
    }
    parse_team_cname(name)
}

/// Look up the team of a participant id in the authoritative records.
fn team_of(parts: &Vec<Participant>, pid: i64) -> (r: Option<i64>)
    ensures
        r == spec_team_of(parts@, pid),
{
    let mut i: usize = 0;
    assert(parts@.skip(0) =~= parts@);
    while i < parts.len()
        invariant
            i <= parts@.len(),
            forall|j: int| 0 <= j < i ==> parts@[j].participant_id != pid,
            spec_team_of(parts@, pid) == spec_team_of(parts@.skip(i as int), pid),
        decreases parts@.len() - i,
    {
        if parts[i].participant_id == pid {
            assert(parts@.skip(i as int)[0] == parts@[i as int]);
            return Some(parts[i].team_id);
        }
        proof {
            assert(parts@.skip(i as int).drop_first() =~= parts@.skip(i + 1));
        }
        i += 1;
    }
    proof {
        assert(parts@.skip(parts@.len() as int) =~= Seq::empty());
    }
    None
}

/// Look up the champion record of a participant id; returns its index.
fn champ_index_of(champs: &Vec<(i64, Champion)>, pid: i64) -> (r: Option<usize>)
    ensures
        match r {
            Some(i) => i < champs@.len() && spec_champ_of(champs@, pid) == Some(champs@[i as int].1),
            None => spec_champ_of(champs@, pid) is None,
        },
{
    let mut i: usize = 0;
    assert(champs@.skip(0) =~= champs@);
    while i < champs.len()
        invariant
            i <= champs@.len(),
            spec_champ_of(champs@, pid) == spec_champ_of(champs@.skip(i as int), pid),
        decreases champs@.len() - i,
    {
        if champs[i].0 == pid {
            assert(champs@.skip(i as int)[0] == champs@[i as int]);
            return Some(i);
        }
        proof {
            assert(champs@.skip(i as int).drop_first() =~= champs@.skip(i + 1));
        }
        i += 1;
    }
    proof {
        assert(champs@.skip(champs@.len() as int) =~= Seq::empty());
    }
    None
}

/// Decide whether one identity matches the parsed decorations.
fn identity_matches(
    pi: &ParticipantIdentity,
    tags: &ParsedShopper,
    parts: &Vec<Participant>,
    champs: &Vec<(i64, Champion)>,
) -> (r: bool)
    ensures
        r == spec_identity_matches(*pi, tags.spec_tags(), parts@, champs@),
{
    match &tags.cname {
        Some(cname) => match champ_index_of(champs, pi.participant_id) {
            Some(ci) => {
                let champ = &champs[ci].1;
                let cname_match = str_eq(champ.alias.as_str(), cname.as_str()) || str_eq(
                    champ.name.as_str(),
                    cname.as_str(),
                );
                if !cname_match {
                    return false;
                }
                match tags.team {
                    Some(t) => match team_of(parts, pi.participant_id) {
                        Some(rt) => rt == t,
                        None => false,
                    },
                    None => true,
                }
            },
            None => false,
        },
        None => {
            let mut full = pi.player.game_name.clone();
            full.append("#");
            full.append(pi.player.tag_line.as_str());
            let name_matches = str_eq(pi.player.game_name.as_str(), tags.base.as_str()) || str_eq(
                full.as_str(),
                tags.base.as_str(),
            );
            let partial = tags.base.unicode_len() > 0 && (str_contains(
                tags.base.as_str(),
                pi.player.game_name.as_str(),
            ) || str_contains(pi.player.game_name.as_str(), tags.base.as_str()));
            if !name_matches && !partial {
                return false;
            }
            match tags.team {
                Some(t) => match team_of(parts, pi.participant_id) {
                    Some(rt) => rt == t,
                    None => {
                        let inferred: i64 = if pi.participant_id <= 5 {
                            100
                        } else {
                            200
                        };
                        inferred == t
                    },
                },
                None => true,
            }
        },
    }
}

/// Resolve parsed decorations to a participant id, or nothing when the
/// event must be dropped.
pub fn resolve_participant(
    tags: &ParsedShopper,
    ids: &Vec<ParticipantIdentity>,
    parts: &Vec<Participant>,
    champs: &Vec<(i64, Champion)>,
) -> (r: Option<i64>)
    requires
        match tags.idx {
            Some(n) => n <= 9,
            None => true,
        },
    ensures
        r == spec_resolve(tags.spec_tags(), ids@, parts@, champs@),
{
    if let Some(n) = tags.idx {
        return Some((n + 1) as i64);
    }
    let mut i: usize = 0;
    assert(ids@.skip(0) =~= ids@);
    while i < ids.len()
        invariant
            i <= ids@.len(),
            tags.idx is None,
            spec_find_match(ids@, tags.spec_tags(), parts@, champs@) == spec_find_match(
                ids@.skip(i as int),
                tags.spec_tags(),
                parts@,
                champs@,
            ),
        decreases ids@.len() - i,
    {
        if identity_matches(&ids[i], tags, parts, champs) {
            assert(ids@.skip(i as int)[0] == ids@[i as int]);
            return Some(ids[i].participant_id);
        }
        proof {
            assert(ids@.skip(i as int).drop_first() =~= ids@.skip(i + 1));
        }
        i += 1;
    }
    proof {
        assert(ids@.skip(ids@.len() as int) =~= Seq::empty());
    }
    None
}

/// Whatever the first matching identity is, its participant id is one
/// of the listed ids.
proof fn lemma_find_match_member(
    ids: Seq<ParticipantIdentity>,
    tags: ShopperTags,
    parts: Seq<Participant>,
    champs: Seq<(i64, Champion)>,
)
    ensures
        match spec_find_match(ids, tags, parts, champs) {
            Some(pid) => exists|i: int|
                0 <= i < ids.len() && #[trigger] ids[i].participant_id == pid,
            None => true,
        },
    decreases ids.len(),
{
    if ids.len() > 0 && !spec_identity_matches(ids[0], tags, parts, champs) {
        lemma_find_match_member(ids.drop_first(), tags, parts, champs);
        if spec_find_match(ids.drop_first(), tags, parts, champs) is Some {
            let pid = spec_find_match(ids.drop_first(), tags, parts, champs)->0;
            let i = choose|i: int|
                0 <= i < ids.drop_first().len() && #[trigger] ids.drop_first()[i].participant_id
                    == pid;
            assert(ids[i + 1].participant_id == pid);
        }
    }
}

/// Identity resolution of a parsed shopper name only ever returns a
/// participant id between one and ten, provided the authoritative
/// identities carry ids in that range.
pub proof fn lemma_resolved_in_range(
    name: Seq<char>,
    ids: Seq<ParticipantIdentity>,
    parts: Seq<Participant>,
    champs: Seq<(i64, Champion)>,
)
    requires
        forall|i: int| 0 <= i < ids.len() ==> 1 <= #[trigger] ids[i].participant_id <= 10,
    ensures
        match spec_resolve(spec_parse_shopper(name), ids, parts, champs) {
            Some(pid) => 1 <= pid <= 10,
            None => true,
        },
{
    let tags = spec_parse_shopper(name);
    match tags.idx {
        Some(n) => {
            assert(0 <= n <= 9);
        },
        None => {
            lemma_find_match_member(ids, tags, parts, champs);
        },
    }
}

} // verus!
