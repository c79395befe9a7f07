//! Filename codec for the two conventions the sync daemon uses to mark
//! special files:
//!
//! * conflict copies carry a `.sync-conflict-<token>` marker inside the name;
//! * historical versions carry a `~YYYYMMDD-HHMMSS` stamp before the
//!   extension.
//!
//! Both decoders are total: every string has a defined decomposition, and a
//! malformed suffix decodes to the name unchanged.

use vstd::prelude::*;

verus! {

// ---------------------------------------------------------------------------
// Character and substring searching
// ---------------------------------------------------------------------------

/// The character `c` occurs somewhere in `s`.
pub open spec fn contains_char(s: Seq<char>, c: char) -> bool {
    exists|i: int| 0 <= i < s.len() && s[i] == c
}

/// Index of the first occurrence of `c` in `s`; `s.len()` when `c` is absent.
pub open spec fn first_char_pos(s: Seq<char>, c: char) -> int
    decreases s.len(),
{
    if s.len() == 0 {
        0
    } else if s[0] == c {
        0
    } else {
        1 + first_char_pos(s.subrange(1, s.len() as int), c)
    }
}

/// Index of the last occurrence of `c` in `s`; `-1` when `c` is absent.
pub open spec fn last_char_pos(s: Seq<char>, c: char) -> int
    decreases s.len(),
{
    if s.len() == 0 {
        -1
    } else if s[s.len() - 1] == c {
        s.len() - 1
    } else {
        last_char_pos(s.drop_last(), c)
    }
}

/// The pattern `pat` occurs in `s` starting at index `i`.
pub open spec fn occurs_at(s: Seq<char>, pat: Seq<char>, i: int) -> bool {
    0 <= i && i + pat.len() <= s.len() && s.subrange(i, i + pat.len() as int) == pat
}

/// The pattern `pat` occurs somewhere in `s`.
pub open spec fn contains_pat(s: Seq<char>, pat: Seq<char>) -> bool {
    exists|i: int| occurs_at(s, pat, i)
}

/// Index of the first occurrence of `pat` in `s`; meaningful only when
/// `contains_pat(s, pat)` holds.
pub open spec fn first_pat_pos(s: Seq<char>, pat: Seq<char>) -> int
    decreases s.len(),
{
    if occurs_at(s, pat, 0) {
        0
    } else if s.len() == 0 {
        0
    } else {
        1 + first_pat_pos(s.subrange(1, s.len() as int), pat)
    }
}

pub proof fn lemma_first_char_pos(s: Seq<char>, c: char)
    ensures
        contains_char(s, c) ==> {
            let p = first_char_pos(s, c);
            &&& 0 <= p < s.len()
            &&& s[p] == c
            &&& forall|j: int| 0 <= j < p ==> s[j] != c
        },
        !contains_char(s, c) ==> first_char_pos(s, c) == s.len(),
    decreases s.len(),
{
    if s.len() > 0 && s[0] != c {
        let t = s.subrange(1, s.len() as int);
        lemma_first_char_pos(t, c);
        assert(forall|j: int| 0 <= j < t.len() ==> t[j] == s[j + 1]);
        if contains_char(s, c) {
            let w = choose|i: int| 0 <= i < s.len() && s[i] == c;
            assert(t[w - 1] == c);
            assert(contains_char(t, c));
            let p = first_char_pos(t, c);
            assert(t[p] == c);
            assert(s[p + 1] == c);
            assert forall|j: int| 0 <= j < 1 + p implies s[j] != c by {
                if j >= 1 {
                    assert(t[j - 1] == s[j]);
                }
            }
        } else {
            if contains_char(t, c) {
                let w = choose|i: int| 0 <= i < t.len() && t[i] == c;
                assert(s[w + 1] == c);
            }
        }
    }
}

pub proof fn lemma_last_char_pos(s: Seq<char>, c: char)
    ensures
        contains_char(s, c) ==> {
            let p = last_char_pos(s, c);
            &&& 0 <= p < s.len()
            &&& s[p] == c
            &&& forall|j: int| p < j < s.len() ==> s[j] != c
        },
        !contains_char(s, c) ==> last_char_pos(s, c) == -1,
    decreases s.len(),
{
    if s.len() > 0 && s[s.len() - 1] != c {
        let t = s.drop_last();
        lemma_last_char_pos(t, c);
        assert(forall|j: int| 0 <= j < s.len() - 1 ==> t[j] == s[j]);
        if contains_char(s, c) {
            let w = choose|i: int| 0 <= i < s.len() && s[i] == c;
            assert(t[w] == c);
            assert(contains_char(t, c));
        } else {
            if contains_char(t, c) {
                let w = choose|i: int| 0 <= i < t.len() && t[i] == c;
                assert(s[w] == c);
            }
        }
    }
}

/// Occurrences in the tail of a sequence are occurrences in the whole,
/// shifted by one.
proof fn lemma_occurs_shift(s: Seq<char>, pat: Seq<char>, j: int)
    requires
        s.len() > 0,
        0 <= j,
    ensures
        occurs_at(s.subrange(1, s.len() as int), pat, j) <==> occurs_at(s, pat, j + 1),
{
    let t = s.subrange(1, s.len() as int);
    if 0 <= j && j + pat.len() <= t.len() {
        assert(t.subrange(j, j + pat.len() as int) =~= s.subrange(j + 1, j + 1 + pat.len() as int));
    }
}

pub proof fn lemma_first_pat_pos(s: Seq<char>, pat: Seq<char>)
    ensures
        contains_pat(s, pat) ==> {
            let p = first_pat_pos(s, pat);
            &&& occurs_at(s, pat, p)
            &&& forall|j: int| 0 <= j < p ==> !occurs_at(s, pat, j)
        },
    decreases s.len(),
{
    if contains_pat(s, pat) && !occurs_at(s, pat, 0) {
        let w = choose|i: int| occurs_at(s, pat, i);
        assert(w > 0);
        let t = s.subrange(1, s.len() as int);
        lemma_occurs_shift(s, pat, w - 1);
        assert(occurs_at(t, pat, w - 1));
        assert(contains_pat(t, pat));
        lemma_first_pat_pos(t, pat);
        let q = first_pat_pos(t, pat);
        lemma_occurs_shift(s, pat, q);
        assert(occurs_at(s, pat, q + 1));
        assert forall|j: int| 0 <= j < q + 1 implies !occurs_at(s, pat, j) by {
            if j > 0 {
                lemma_occurs_shift(s, pat, j - 1);
            }
        }
    }
}

/// Whether `pat` occurs in `s` starting at character index `i`.
#[verifier::loop_isolation(false)]
fn pat_matches_at(s: &str, pat: &str, i: usize, m: usize) -> (b: bool)
    requires
        m == pat@.len(),
        i + m <= s@.len(),
        s@.len() <= usize::MAX,
    ensures
        b == occurs_at(s@, pat@, i as int),
{
    let mut j: usize = 0;
    while j < m
        invariant
            0 <= j <= m,
            m == pat@.len(),
            i + m <= s@.len(),
            forall|k: int| 0 <= k < j ==> s@[i + k] == pat@[k],
        decreases m - j,
    {
        if s.get_char(i + j) != pat.get_char(j) {
            proof {
                assert(s@.subrange(i as int, i + m as int)[j as int] == s@[i + j]);
            }
            return false;
        }
        j = j + 1;
    }
    proof {
        assert(s@.subrange(i as int, i + m as int) =~= pat@);
    }
    true
}

/// First occurrence of the pattern `pat` in `s`, by character index.
#[verifier::loop_isolation(false)]
pub fn find_pat(s: &str, pat: &str) -> (r: Option<usize>)
    ensures
        match r {
            Some(p) => contains_pat(s@, pat@) && p == first_pat_pos(s@, pat@),
            None => !contains_pat(s@, pat@),
        },
{
    let n = s.unicode_len();
    let m = pat.unicode_len();
    if m > n {
        return None;
    }
    if m == 0 {
        proof {
            assert(s@.subrange(0, 0) =~= pat@);
            assert(occurs_at(s@, pat@, 0));
        }
        return Some(0);
    }
    let mut i: usize = 0;
    while i <= n - m
        invariant
            i <= n - m + 1,
            forall|j: int| 0 <= j < i ==> !occurs_at(s@, pat@, j),
        decreases n + 1 - i,
    {
        if pat_matches_at(s, pat, i, m) {
            proof {
                lemma_first_pat_pos(s@, pat@);
            }
            return Some(i);
        }
        i = i + 1;
    }
    None
}

/// Last occurrence of the character `c` in `s`, by character index.
#[verifier::loop_isolation(false)]
pub fn rfind_char(s: &str, c: char) -> (r: Option<usize>)
    ensures
        match r {
            Some(p) => contains_char(s@, c) && p == last_char_pos(s@, c),
            None => !contains_char(s@, c),
        },
{
    let n = s.unicode_len();
    let mut i: usize = n;
    while i > 0
        invariant
            0 <= i <= n,
            forall|j: int| i <= j < n ==> s@[j] != c,
        decreases i,
    {
        let k = i - 1;
        if s.get_char(k) == c {
            proof {
                lemma_last_char_pos(s@, c);
            }
            return Some(k);
        }
        i = k;
    }
    None
}

/// First occurrence of the character `c` in `s`, by character index.
#[verifier::loop_isolation(false)]
pub fn ffind_char(s: &str, c: char) -> (r: Option<usize>)
    ensures
        match r {
            Some(p) => contains_char(s@, c) && p == first_char_pos(s@, c),
            None => !contains_char(s@, c),
        },
{
    let n = s.unicode_len();
    let mut i: usize = 0;
    while i < n
        invariant
            0 <= i <= n,
            forall|j: int| 0 <= j < i ==> s@[j] != c,
        decreases n - i,
    {
        if s.get_char(i) == c {
            proof {
                lemma_first_char_pos(s@, c);
            }
            return Some(i);
        }
        i = i + 1;
    }
    None
}

/// Character-wise string equality.
pub fn str_eq(a: &str, b: &str) -> (r: bool)
    ensures
        r == (a@ == b@),
{
    let n = a.unicode_len();
    let m = b.unicode_len();
    if n != m {
        return false;
    }
    let matches = pat_matches_at(a, b, 0, m);
    proof {
        if matches {
            assert(a@.subrange(0, m as int) =~= a@);
        } else {
            if a@ == b@ {
                assert(a@.subrange(0, m as int) =~= b@);
            }
        }
    }
    matches
}

// ---------------------------------------------------------------------------
// Conflict filenames
// ---------------------------------------------------------------------------

/// The literal marker the daemon embeds in the name of a conflict copy.
pub open spec fn conflict_marker() -> Seq<char> {
    ".sync-conflict-"@
}

/// The original filename inferred from a conflict filename: everything before
/// the first marker, with the extension (the part of the remainder from its
/// last dot on) preserved. A name without the marker decodes to itself.
pub open spec fn decoded_conflict_name(s: Seq<char>) -> Seq<char> {
    if !contains_pat(s, conflict_marker()) {
        s
    } else {
        let p = first_pat_pos(s, conflict_marker());
        let after = s.subrange(p, s.len() as int);
        if contains_char(after, '.') {
            s.subrange(0, p) + after.subrange(last_char_pos(after, '.'), after.len() as int)
        } else {
            s.subrange(0, p)
        }
    }
}

/// Whether a filename carries the conflict marker.
pub fn has_conflict_marker(name: &str) -> (b: bool)
    ensures
        b == contains_pat(name@, conflict_marker()),
{
    find_pat(name, ".sync-conflict-").is_some()
}

/// Strip the conflict marker and its token from a conflict filename,
/// preserving the extension.
pub fn extract_original_filename(conflict_name: &str) -> (r: String)
    ensures
        r@ == decoded_conflict_name(conflict_name@),
{
    match find_pat(conflict_name, ".sync-conflict-") {
        None => conflict_name.to_owned(),
        Some(pos) => {
            proof {
                lemma_first_pat_pos(conflict_name@, conflict_marker());
            }
            let n = conflict_name.unicode_len();
            let before = conflict_name.substring_char(0, pos);
            let after = conflict_name.substring_char(pos, n);
            match rfind_char(after, '.') {
                Some(dot) => {
                    proof {
                        lemma_last_char_pos(after@, '.');
                    }
                    let after_n = after.unicode_len();
                    let ext = after.substring_char(dot, after_n);
                    let mut r = before.to_owned();
                    r.append(ext);
                    r
                },
                None => before.to_owned(),
            }
        },
    }
}

// ---------------------------------------------------------------------------
// Version filenames
// ---------------------------------------------------------------------------

/// A well-formed version stamp: exactly 15 characters shaped
/// `YYYYMMDD-HHMMSS` (only the length and the dash position are checked).
pub open spec fn version_stamp_valid(vp: Seq<char>) -> bool {
    vp.len() == 15 && vp[8] == '-'
}

/// Human-readable form `YYYY-MM-DD HH:MM:SS` of a valid version stamp.
pub open spec fn version_formatted(vp: Seq<char>) -> Seq<char> {
    vp.subrange(0, 4) + seq!['-'] + vp.subrange(4, 6) + seq!['-'] + vp.subrange(6, 8)
        + seq![' '] + vp.subrange(9, 11) + seq![':'] + vp.subrange(11, 13) + seq![':']
        + vp.subrange(13, 15)
}

/// Decomposition of a version filename into the original name and the
/// formatted stamp. The name splits at its last `~`; the stamp candidate runs
/// to the first dot of the remainder, the extension from that dot on. A name
/// without `~`, or with a malformed stamp, decodes to itself with no stamp.
pub open spec fn decoded_version(s: Seq<char>) -> (Seq<char>, Option<Seq<char>>) {
    if !contains_char(s, '~') {
        (s, None)
    } else {
        let t = last_char_pos(s, '~');
        let before = s.subrange(0, t);
        let after = s.subrange(t + 1, s.len() as int);
        let d = first_char_pos(after, '.');
        let vp = after.subrange(0, d);
        let ext = after.subrange(d, after.len() as int);
        if version_stamp_valid(vp) {
            (before + ext, Some(version_formatted(vp)))
        } else {
            (s, None)
        }
    }
}

/// Split a versioned filename into the original name and, when the stamp is
/// well formed, its human-readable timestamp.
pub fn parse_version_filename(name: &str) -> (r: (String, Option<String>))
    ensures
        r.0@ == decoded_version(name@).0,
        r.1 is Some <==> decoded_version(name@).1 is Some,
        r.1 is Some ==> r.1->0@ == decoded_version(name@).1->0,
{
    match rfind_char(name, '~') {
        None => (name.to_owned(), None),
        Some(t) => {
            proof {
                lemma_last_char_pos(name@, '~');
            }
            let n = name.unicode_len();
            let before = name.substring_char(0, t);
            let after = name.substring_char(t + 1, n);
            let after_n = after.unicode_len();
            let dot = ffind_char(after, '.');
            proof {
                lemma_first_char_pos(after@, '.');
            }
            let (vp, ext): (&str, &str) = match dot {
                Some(d) => (after.substring_char(0, d), after.substring_char(d, after_n)),
                None => (after.substring_char(0, after_n), after.substring_char(after_n, after_n)),
            };
            proof {
                assert(after@.subrange(0, after@.len() as int) =~= after@);
                assert(after@.subrange(after@.len() as int, after@.len() as int)
                    =~= Seq::<char>::empty());
            }
            let vp_n = vp.unicode_len();
            if vp_n == 15 && vp.get_char(8) == '-' {
                let mut original = before.to_owned();
                original.append(ext);
                let mut stamp = vp.substring_char(0, 4).to_owned();
                stamp.append("-");
                stamp.append(vp.substring_char(4, 6));
                stamp.append("-");
                stamp.append(vp.substring_char(6, 8));
                stamp.append(" ");
                stamp.append(vp.substring_char(9, 11));
                stamp.append(":");
                stamp.append(vp.substring_char(11, 13));
                stamp.append(":");
                stamp.append(vp.substring_char(13, 15));
                proof {
                    reveal_strlit("-");
                    reveal_strlit(" ");
                    reveal_strlit(":");
                    assert("-"@ =~= seq!['-']);
                    assert(" "@ =~= seq![' ']);
                    assert(":"@ =~= seq![':']);
                    assert(stamp@ =~= version_formatted(vp@));
                }
                (original, Some(stamp))
            } else {
                (name.to_owned(), None)
            }
        },
    }
}

// ---------------------------------------------------------------------------
// Decode laws
// ---------------------------------------------------------------------------

/// A name without the conflict marker decodes to itself.
pub proof fn lemma_conflict_decode_without_marker(s: Seq<char>)
    requires
        !contains_pat(s, conflict_marker()),
    ensures
        decoded_conflict_name(s) == s,
{
}

/// A name without a tilde decodes to itself, with no version stamp.
pub proof fn lemma_version_decode_without_tilde(s: Seq<char>)
    requires
        !contains_char(s, '~'),
    ensures
        decoded_version(s) == (s, None::<Seq<char>>),
{
}

/// The plain round trip: a name assembled from a stem, the marker, a
/// dot-free token and a single-dot extension decodes back to `stem + ext`.
pub proof fn lemma_conflict_decode_round_trip(stem: Seq<char>, token: Seq<char>, ext: Seq<char>)
    requires
        forall|j: int| 0 <= j < stem.len()
            ==> !occurs_at(stem + conflict_marker() + token + ext, conflict_marker(), j),
        !contains_char(token, '.'),
        ext.len() > 0,
        ext[0] == '.',
        forall|j: int| 1 <= j < ext.len() ==> ext[j] != '.',
    ensures
        decoded_conflict_name(stem + conflict_marker() + token + ext) == stem + ext,
{
    lemma_conflict_decode_assembled(stem, token, ext);
    assert(contains_char(ext, '.'));
    lemma_last_char_pos(ext, '.');
    assert(last_char_pos(ext, '.') == 0);
    assert(ext.subrange(0, ext.len() as int) =~= ext);
}

/// A name assembled in the daemon's version convention — the raw stem, a
/// tilde, a well-formed stamp, then the raw extension (empty, or dot-led) —
/// decodes back to exactly the stem with its extension, and to the stamp.
pub proof fn lemma_version_decode_assembled(stem: Seq<char>, vp: Seq<char>, ext: Seq<char>)
    requires
        version_stamp_valid(vp),
        !contains_char(vp, '~'),
        !contains_char(vp, '.'),
        !contains_char(ext, '~'),
        ext.len() > 0 ==> ext[0] == '.',
    ensures
        decoded_version(stem + seq!['~'] + vp + ext) == (
            stem + ext,
            Some(version_formatted(vp)),
        ),
{
    let name = stem + seq!['~'] + vp + ext;
    let p = stem.len() as int;
    assert(name[p] == '~');
    assert(contains_char(name, '~'));
    lemma_last_char_pos(name, '~');
    assert(forall|j: int| p < j < p + 1 + vp.len() ==> name[j] == vp[j - p - 1]);
    assert(forall|j: int| p + 1 + vp.len() <= j < name.len()
        ==> name[j] == ext[j - p - 1 - vp.len()]);
    assert(forall|j: int| p < j < name.len() ==> name[j] != '~');
    let t = last_char_pos(name, '~');
    assert(t == p);
    let after = name.subrange(p + 1, name.len() as int);
    assert(after =~= vp + ext);
    lemma_first_char_pos(after, '.');
    let vl = vp.len() as int;
    assert(forall|j: int| 0 <= j < vl ==> after[j] == vp[j]);
    assert(forall|j: int| vl <= j < after.len() ==> after[j] == ext[j - vl]);
    if ext.len() > 0 {
        assert(after[vl] == '.');
        assert(contains_char(after, '.'));
        let d = first_char_pos(after, '.');
        assert(forall|j: int| 0 <= j < vl ==> after[j] != '.');
        assert(d == vl);
    } else {
        assert(after.len() == vl);
        if contains_char(after, '.') {
            let w = choose|i: int| 0 <= i < after.len() && after[i] == '.';
            assert(vp[w] == '.');
            assert(false);
        }
        assert(first_char_pos(after, '.') == vl);
    }
    let d = first_char_pos(after, '.');
    assert(after.subrange(0, d) =~= vp);
    assert(after.subrange(d, after.len() as int) =~= ext);
    assert(name.subrange(0, p) =~= stem);
    assert(decoded_version(name).0 == stem + ext);
    assert(decoded_version(name).1 == Some(version_formatted(vp)));
}

/// Helper facts about the marker's own characters: it starts with a dot and
/// contains no other dot.
proof fn lemma_marker_chars()
    ensures
        conflict_marker().len() == 15,
        conflict_marker()[0] == '.',
        forall|j: int| 1 <= j < 15 ==> conflict_marker()[j] != '.',
{
    reveal_strlit(".sync-conflict-");
    assert forall|j: int| 1 <= j < 15 implies conflict_marker()[j] != '.' by {
        if j == 1 { assert(conflict_marker()[1] == 's'); }
        if j == 2 { assert(conflict_marker()[2] == 'y'); }
        if j == 3 { assert(conflict_marker()[3] == 'n'); }
        if j == 4 { assert(conflict_marker()[4] == 'c'); }
        if j == 5 { assert(conflict_marker()[5] == '-'); }
        if j == 6 { assert(conflict_marker()[6] == 'c'); }
        if j == 7 { assert(conflict_marker()[7] == 'o'); }
        if j == 8 { assert(conflict_marker()[8] == 'n'); }
        if j == 9 { assert(conflict_marker()[9] == 'f'); }
        if j == 10 { assert(conflict_marker()[10] == 'l'); }
        if j == 11 { assert(conflict_marker()[11] == 'i'); }
        if j == 12 { assert(conflict_marker()[12] == 'c'); }
        if j == 13 { assert(conflict_marker()[13] == 't'); }
        if j == 14 { assert(conflict_marker()[14] == '-'); }
    }
}

/// Decoding a name assembled as `stem + marker + token + ext`, where the
/// marker occurs no earlier than the stem's end and the token has no dot,
/// keeps the stem and the part of `ext` from its last dot on; when `ext` has
/// no dot at all, the name decodes to itself (the marker's own leading dot is
/// then the last dot of the remainder).
pub proof fn lemma_conflict_decode_assembled(stem: Seq<char>, token: Seq<char>, ext: Seq<char>)
    requires
        forall|j: int| 0 <= j < stem.len()
            ==> !occurs_at(stem + conflict_marker() + token + ext, conflict_marker(), j),
        !contains_char(token, '.'),
    ensures
        contains_char(ext, '.') ==> decoded_conflict_name(stem + conflict_marker() + token + ext)
            == stem + ext.subrange(last_char_pos(ext, '.'), ext.len() as int),
        !contains_char(ext, '.') ==> decoded_conflict_name(stem + conflict_marker() + token + ext)
            == stem + conflict_marker() + token + ext,
{
    lemma_marker_chars();
    let name = stem + conflict_marker() + token + ext;
    let p = stem.len() as int;
    let mk = conflict_marker();
    assert(name.subrange(p, p + 15) =~= mk);
    assert(occurs_at(name, mk, p));
    assert(contains_pat(name, mk));
    lemma_first_pat_pos(name, mk);
    let f = first_pat_pos(name, mk);
    assert(f == p);
    let after = name.subrange(p, name.len() as int);
    assert(after =~= mk + token + ext);
    assert(after[0] == '.');
    assert(contains_char(after, '.'));
    lemma_last_char_pos(after, '.');
    let tl = token.len() as int;
    let el = ext.len() as int;
    assert(forall|j: int| 1 <= j < 15 ==> after[j] != '.');
    assert(forall|j: int| 15 <= j < 15 + tl ==> after[j] == token[j - 15]);
    assert(forall|j: int| 15 + tl <= j < after.len() ==> after[j] == ext[j - 15 - tl]);
    assert(forall|j: int| 15 <= j < 15 + tl ==> after[j] != '.');
    if contains_char(ext, '.') {
        lemma_last_char_pos(ext, '.');
        let le = last_char_pos(ext, '.');
        let q = 15 + tl + le;
        assert(after[q] == '.');
        assert(forall|j: int| q < j < after.len() ==> after[j] != '.');
        let l = last_char_pos(after, '.');
        assert(l == q);
        assert(name.subrange(0, p) =~= stem);
        assert(after.subrange(q, after.len() as int) =~= ext.subrange(le, el));
        assert(decoded_conflict_name(name)
            == stem + ext.subrange(last_char_pos(ext, '.'), ext.len() as int));
    } else {
        assert(forall|j: int| 15 + tl <= j < after.len() ==> after[j] != '.');
        let l = last_char_pos(after, '.');
        assert(l == 0);
        assert(name.subrange(0, p) =~= stem);
        assert(after.subrange(0, after.len() as int) =~= after);
        assert(stem + after =~= name);
        assert(decoded_conflict_name(name) == name);
    }
}

} // verus!
