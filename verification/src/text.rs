//! Character and string helpers shared by the mode filter and the
//! shopper-name parser.

use vstd::prelude::*;

verus! {

/// ASCII upper-case fold of a single character; other characters are kept.
pub open spec fn spec_upper_char(c: char) -> char {
    if 'a' <= c && c <= 'z' {
        ((c as u32) - 32) as char
    } else {
        c
    }
}

/// ASCII upper-case fold of a character sequence.
pub open spec fn seq_upper(s: Seq<char>) -> Seq<char> {
    s.map_values(|c: char| spec_upper_char(c))
}

/// Whether the two characters agree up to ASCII case.
fn chars_eq_upper(a: char, b: char) -> (r: bool)
    ensures
        r == (spec_upper_char(a) == spec_upper_char(b)),
{
    let va = a as u32;
    let vb = b as u32;
    let fa: u32 = if 97 <= va && va <= 122 {
        va - 32
    } else {
        va
    };
    let fb: u32 = if 97 <= vb && vb <= 122 {
        vb - 32
    } else {
        vb
    };
    fa == fb
}

/// Case-insensitive (ASCII) equality of two strings.
pub fn eq_ignore_ascii_case(a: &str, b: &str) -> (r: bool)
    ensures
        r == (seq_upper(a@) == seq_upper(b@)),
{
    let la = a.unicode_len();
    let lb = b.unicode_len();
    if la != lb {
        assert(seq_upper(a@).len() != seq_upper(b@).len());
        return false;
    }
    let mut i: usize = 0;
    while i < la
        invariant
            la == a@.len(),
            la == b@.len(),
            i <= la,
            forall|j: int| 0 <= j < i ==> spec_upper_char(a@[j]) == spec_upper_char(b@[j]),
        decreases la - i,
    {
        let ca = a.get_char(i);
        let cb = b.get_char(i);
        if !chars_eq_upper(ca, cb) {
            assert(seq_upper(a@)[i as int] != seq_upper(b@)[i as int]);
            return false;
        }
        i += 1;
    }
    assert(seq_upper(a@) =~= seq_upper(b@));
    true
}

/// The pattern occurs in `s` at position `i`.
pub open spec fn occurs_at(s: Seq<char>, pat: Seq<char>, i: int) -> bool {
    0 <= i && i + pat.len() <= s.len() && s.subrange(i, i + pat.len() as int) == pat
}

/// The last occurrence of the pattern at a position below `bound`.
pub open spec fn last_occ_before(s: Seq<char>, pat: Seq<char>, bound: int) -> Option<int>
    decreases bound,
{
    if bound <= 0 {
        None
    } else if occurs_at(s, pat, bound - 1) {
        Some(bound - 1)
    } else {
        last_occ_before(s, pat, bound - 1)
    }
}

/// The position of the last occurrence of the pattern, if any.
pub open spec fn spec_rfind(s: Seq<char>, pat: Seq<char>) -> Option<int> {
    last_occ_before(s, pat, s.len() - pat.len() + 1)
}

/// The pattern occurs somewhere in `s`.
pub open spec fn spec_contains(s: Seq<char>, pat: Seq<char>) -> bool {
    exists|i: int| occurs_at(s, pat, i)
}

proof fn lemma_last_occ_found(s: Seq<char>, pat: Seq<char>, bound: int, pos: int)
    requires
        occurs_at(s, pat, pos),
        pos < bound,
        forall|k: int| pos < k < bound ==> !occurs_at(s, pat, k),
    ensures
        last_occ_before(s, pat, bound) == Some(pos),
    decreases bound,
{
    if bound - 1 > pos {
        lemma_last_occ_found(s, pat, bound - 1, pos);
    }
}

proof fn lemma_last_occ_none(s: Seq<char>, pat: Seq<char>, bound: int)
    requires
        forall|k: int| 0 <= k < bound ==> !occurs_at(s, pat, k),
    ensures
        last_occ_before(s, pat, bound) is None,
    decreases bound,
{
    if bound > 0 {
        lemma_last_occ_none(s, pat, bound - 1);
    }
}

/// Whether the pattern occurs in `s` at position `pos`.
pub fn match_at(s: &str, pat: &str, pos: usize) -> (r: bool)
    requires
        pos + pat@.len() <= s@.len(),
    ensures
        r == occurs_at(s@, pat@, pos as int),
{
    let s_len = s.unicode_len();
    let n = pat.unicode_len();
    let mut j: usize = 0;
    while j < n
        invariant
            n == pat@.len(),
            s_len == s@.len(),
            pos + n <= s@.len(),
            j <= n,
            forall|k: int| 0 <= k < j ==> s@[pos + k] == pat@[k],
        decreases n - j,
    {
        if s.get_char(pos + j) != pat.get_char(j) {
            assert(s@.subrange(pos as int, pos + n) != pat@) by {
                assert(s@.subrange(pos as int, pos + n)[j as int] != pat@[j as int]);
            }
            return false;
        }
        j += 1;
    }
    assert(s@.subrange(pos as int, pos + n) =~= pat@);
    true
}

/// Find the last occurrence of the pattern in `s`.
pub fn rfind(s: &str, pat: &str) -> (r: Option<usize>)
    ensures
        match r {
            Some(i) => spec_rfind(s@, pat@) == Some(i as int) && occurs_at(s@, pat@, i as int),
            None => spec_rfind(s@, pat@) is None,
        },
{
    let n = s.unicode_len();
    let m = pat.unicode_len();
    if m > n {
        proof {
            lemma_last_occ_none(s@, pat@, s@.len() - pat@.len() + 1);
        }
        return None;
    }
    if m == 0 {
        assert(occurs_at(s@, pat@, n as int)) by {
            assert(s@.subrange(n as int, n as int) =~= pat@);
        }
        return Some(n);
    }
    let total: usize = n - m;
    let mut i: usize = 0;
    while i <= total
        invariant
            n == s@.len(),
            m == pat@.len(),
            1 <= m <= n,
            total == n - m,
            i <= total + 1,
            forall|k: int| total - i < k <= total ==> !occurs_at(s@, pat@, k),
        decreases total + 1 - i,
    {
        let pos: usize = total - i;
        if match_at(s, pat, pos) {
            proof {
                lemma_last_occ_found(s@, pat@, s@.len() - pat@.len() + 1, pos as int);
            }
            return Some(pos);
        }
        i += 1;
    }
    proof {
        lemma_last_occ_none(s@, pat@, s@.len() - pat@.len() + 1);
    }
    None
}

/// Whether `s` contains the pattern as a substring.
pub fn str_contains(s: &str, pat: &str) -> (r: bool)
    ensures
        r == spec_contains(s@, pat@),
{
    let n = s.unicode_len();
    let m = pat.unicode_len();
    if m > n {
        assert(forall|i: int| !occurs_at(s@, pat@, i));
        return false;
    }
    if m == 0 {
        assert(occurs_at(s@, pat@, 0)) by {
            assert(s@.subrange(0, 0) =~= pat@);
        }
        return true;
    }
    let total: usize = n - m;
    let mut pos: usize = 0;
    while pos <= total
        invariant
            n == s@.len(),
            m == pat@.len(),
            1 <= m <= n,
            total == n - m,
            pos <= total + 1,
            forall|k: int| 0 <= k < pos ==> !occurs_at(s@, pat@, k),
        decreases total + 1 - pos,
    {
        if match_at(s, pat, pos) {
            return true;
        }
        pos += 1;
    }
    assert(forall|i: int| !occurs_at(s@, pat@, i));
    false
}

/// Copy a character range of `s` into an owned string.
pub fn substr_string(s: &str, from: usize, to: usize) -> (r: String)
    requires
        from <= to <= s@.len(),
    ensures
        r@ == s@.subrange(from as int, to as int),
{
    String::from_str(s.substring_char(from, to))
}

/// Whether the character is a decimal digit.
pub open spec fn spec_is_digit(c: char) -> bool {
    '0' <= c && c <= '9'
}

/// The value of a decimal digit.
pub open spec fn spec_digit_val(c: char) -> int {
    c as int - '0' as int
}

/// Every character of the sequence is a decimal digit.
pub open spec fn spec_all_digits(s: Seq<char>) -> bool {
    forall|i: int| 0 <= i < s.len() ==> spec_is_digit(#[trigger] s[i])
}

/// The number a digit sequence denotes.
pub open spec fn spec_dec_val(s: Seq<char>) -> int
    decreases s.len(),
{
    if s.len() == 0 {
        0
    } else {
        spec_dec_val(s.drop_last()) * 10 + spec_digit_val(s.last())
    }
}

/// A digit prefix never denotes more than the whole digit sequence.
proof fn lemma_dec_val_prefix(s: Seq<char>, i: int)
    requires
        spec_all_digits(s),
        0 <= i <= s.len(),
    ensures
        spec_dec_val(s.subrange(0, i)) <= spec_dec_val(s),
        spec_dec_val(s) >= 0,
    decreases s.len() - i,
{
    if i == s.len() {
        assert(s.subrange(0, i) =~= s);
        lemma_dec_val_nonneg(s);
    } else {
        lemma_dec_val_prefix(s, i + 1);
        let p = s.subrange(0, i + 1);
        assert(p.drop_last() =~= s.subrange(0, i));
        lemma_dec_val_nonneg(s.subrange(0, i));
    }
}

proof fn lemma_dec_val_nonneg(s: Seq<char>)
    requires
        spec_all_digits(s),
    ensures
        spec_dec_val(s) >= 0,
    decreases s.len(),
{
    if s.len() > 0 {
        assert(spec_all_digits(s.drop_last())) by {
            assert(forall|i: int| 0 <= i < s.len() - 1 ==> s.drop_last()[i] == s[i]);
        }
        lemma_dec_val_nonneg(s.drop_last());
    }
}

/// A non-empty all-digit sequence denoting at most 9: a participant
/// index as the live poller decorates it.
pub open spec fn spec_small_index(s: Seq<char>) -> Option<int> {
    if s.len() > 0 && spec_all_digits(s) && 0 <= spec_dec_val(s) <= 9 {
        Some(spec_dec_val(s))
    } else {
        None
    }
}

/// Parse a digit string whose value is at most `max`; anything else —
/// empty, a non-digit, a larger value — is rejected.
pub fn parse_dec_bounded(s: &str, max: u64) -> (r: Option<u64>)
    requires
        max <= 1000000000000000000,
    ensures
        match r {
            Some(v) => s@.len() > 0 && spec_all_digits(s@) && v == spec_dec_val(s@) && v <= max,
            None => s@.len() == 0 || !spec_all_digits(s@) || spec_dec_val(s@) > max,
        },
{
    let n = s.unicode_len();
    if n == 0 {
        return None;
    }
    let mut i: usize = 0;
    while i < n
        invariant
            n == s@.len(),
            i <= n,
            forall|k: int| 0 <= k < i ==> spec_is_digit(#[trigger] s@[k]),
        decreases n - i,
    {
        let c = s.get_char(i);
        if !('0' <= c && c <= '9') {
            return None;
        }
        i += 1;
    }
    assert(spec_all_digits(s@));
    let mut val: u64 = 0;
    let mut i: usize = 0;
    while i < n
        invariant
            n == s@.len(),
            i <= n,
            max <= 1000000000000000000,
            spec_all_digits(s@),
            val <= max,
            val as int == spec_dec_val(s@.subrange(0, i as int)),
        decreases n - i,
    {
        let c = s.get_char(i);
        let d: u64 = (c as u32 - 48) as u64;
        assert(d as int == spec_digit_val(s@[i as int]));
        let next = val * 10 + d;
        proof {
            assert(s@.subrange(0, i + 1).drop_last() =~= s@.subrange(0, i as int));
        }
        if next > max {
            proof {
                lemma_dec_val_prefix(s@, i + 1);
            }
            return None;
        }
        val = next;
        i += 1;
    }
    proof {
        assert(s@.subrange(0, n as int) =~= s@);
    }
    Some(val)
}

/// Parse a decorated participant index: a digit string denoting at most
/// nine.
pub fn parse_small_index(s: &str) -> (r: Option<u64>)
    ensures
        match r {
            Some(v) => spec_small_index(s@) == Some(v as int),
            None => spec_small_index(s@) is None,
        },
{
    parse_dec_bounded(s, 9)
}

/// Plain equality of two string slices, stated over their views.
pub fn str_eq(a: &str, b: &str) -> (r: bool)
    ensures
        r == (a@ == b@),
{
    let la = a.unicode_len();
    let lb = b.unicode_len();
    if la != lb {
        return false;
    }
    let mut i: usize = 0;
    while i < la
        invariant
            la == a@.len(),
            la == b@.len(),
            i <= la,
            forall|j: int| 0 <= j < i ==> a@[j] == b@[j],
        decreases la - i,
    {
        if a.get_char(i) != b.get_char(i) {
            return false;
        }
        i += 1;
    }
    assert(a@ =~= b@);
    true
}

} // verus!
