//! Effective game-mode resolution and the user allow-list filter.
//!
//! Well-known queue ids map to a fixed mode string; unknown queues fall
//! back to the session's `gameMode` field, and to `UNKNOWN` when that is
//! absent. The user's allow-list is compared case-insensitively; an empty
//! or absent list allows every mode.

use vstd::prelude::*;

use crate::text::{eq_ignore_ascii_case, seq_upper};

verus! {

/// The mode string a queue id resolves to, before the fallback.
pub open spec fn spec_queue_mode(queue_id: i64) -> Option<Seq<char>> {
    if queue_id == 420 || queue_id == 440 {
        Some("RANKED"@)
    } else if queue_id == 400 || queue_id == 430 || queue_id == 490 {
        Some("NORMAL"@)
    } else if queue_id == 450 || queue_id == 100 {
        Some("ARAM"@)
    } else if queue_id == 3140 {
        Some("PRACTICE_TOOL"@)
    } else if queue_id == 1700 {
        Some("CHERRY"@)
    } else if queue_id == 830 || queue_id == 840 || queue_id == 850 || queue_id == 890 {
        Some("COOP_VS_AI"@)
    } else if queue_id == 1090 || queue_id == 1100 || queue_id == 1130 || queue_id == 1160 {
        Some("TFT"@)
    } else if queue_id == 0 {
        Some("CUSTOM"@)
    } else {
        None
    }
}

/// The effective mode: the queue-id mapping first, then the session's
/// `gameMode` field, then `UNKNOWN`.
pub open spec fn spec_effective_mode(queue_id: i64, game_mode: Option<String>) -> Seq<char> {
    match spec_queue_mode(queue_id) {
        Some(m) => m,
        None => match game_mode {
            Some(s) => s@,
            None => "UNKNOWN"@,
        },
    }
}

/// Whether a game with this queue id and mode field passes the allow-list.
/// No list, or an empty list, allows everything.
pub open spec fn spec_mode_allowed(
    queue_id: i64,
    game_mode: Option<String>,
    allowed: Option<Vec<String>>,
) -> bool {
    match allowed {
        None => true,
        Some(modes) => modes@.len() == 0 || exists|i: int|
            0 <= i < modes@.len() && #[trigger] seq_upper(modes@[i]@) == seq_upper(
                spec_effective_mode(queue_id, game_mode),
            ),
    }
}

/// Resolve the effective mode string for a queue id and mode field.
pub fn effective_mode(queue_id: i64, game_mode: &Option<String>) -> (r: String)
    ensures
        r@ == spec_effective_mode(queue_id, *game_mode),
{
    if queue_id == 420 || queue_id == 440 {
        String::from_str("RANKED")
    } else if queue_id == 400 || queue_id == 430 || queue_id == 490 {
        String::from_str("NORMAL")
    } else if queue_id == 450 || queue_id == 100 {
        String::from_str("ARAM")
    } else if queue_id == 3140 {
        String::from_str("PRACTICE_TOOL")
    } else if queue_id == 1700 {
        String::from_str("CHERRY")
    } else if queue_id == 830 || queue_id == 840 || queue_id == 850 || queue_id == 890 {
        String::from_str("COOP_VS_AI")
    } else if queue_id == 1090 || queue_id == 1100 || queue_id == 1130 || queue_id == 1160 {
        String::from_str("TFT")
    } else if queue_id == 0 {
        String::from_str("CUSTOM")
    } else {
        match game_mode {
            Some(s) => s.clone(),
            None => String::from_str("UNKNOWN"),
        }
    }
}

/// Decide whether the game's mode passes the user's allow-list.
pub fn mode_allowed(queue_id: i64, game_mode: &Option<String>, allowed: &Option<Vec<String>>) -> (r:
    bool)
    ensures
        r == spec_mode_allowed(queue_id, *game_mode, *allowed),
{
    match allowed {
        None => true,
        Some(modes) => {
            if modes.len() == 0 {
                return true;
            }
            let mode = effective_mode(queue_id, game_mode);
            let mut i: usize = 0;
            while i < modes.len()
                invariant
                    *allowed == Some(*modes),
                    i <= modes@.len(),
                    mode@ == spec_effective_mode(queue_id, *game_mode),
                    forall|j: int|
                        0 <= j < i ==> #[trigger] seq_upper(modes@[j]@) != seq_upper(mode@),
                decreases modes@.len() - i,
            {
                if eq_ignore_ascii_case(modes[i].as_str(), mode.as_str()) {
                    assert(exists|j: int|
                        0 <= j < modes@.len() && #[trigger] seq_upper(modes@[j]@) == seq_upper(
                            spec_effective_mode(queue_id, *game_mode),
                        )) by {
                        assert(seq_upper(modes@[i as int]@) == seq_upper(
                            spec_effective_mode(queue_id, *game_mode),
                        ));
                    }
                    return true;
                }
                i += 1;
            }
            false
        },
    }
}

} // verus!
