//! Leftmost searches over character sequences: the first occurrence of a
//! character or a substring from a position on, word boundaries, runs of
//! whitespace, literal replacement and joining. The markup scanners of the
//! library are built from these.

use vstd::prelude::*;

use crate::text::{is_ws, occurs_at, chars_occur_at, char_is_ws};

verus! {

/// ASCII letters, digits and `_`: the characters that `\w` matches in the
/// patterns the library scans for.
pub open spec fn is_word_char(c: char) -> bool {
    ('a' <= c && c <= 'z') || ('A' <= c && c <= 'Z') || ('0' <= c && c <= '9') || c == '_'
}

/// Position `k` of `s` holds a word character.
pub open spec fn word_at(s: Seq<char>, k: int) -> bool {
    0 <= k < s.len() && is_word_char(s[k])
}

/// A word boundary (`\b`) lies between positions `k - 1` and `k` of `s`.
pub open spec fn boundary(s: Seq<char>, k: int) -> bool {
    word_at(s, k - 1) != word_at(s, k)
}

/// The first position at or after `p` that holds `c`.
pub open spec fn first_char_from(s: Seq<char>, c: char, p: int) -> Option<int>
    decreases s.len() - p,
{
    if p < 0 || p >= s.len() {
        None
    } else if s[p] == c {
        Some(p)
    } else {
        first_char_from(s, c, p + 1)
    }
}

/// The first position at or after `p` at which `needle` occurs.
pub open spec fn first_occ_from(s: Seq<char>, needle: Seq<char>, p: int) -> Option<int>
    decreases s.len() + 1 - p,
{
    if p < 0 || p > s.len() {
        None
    } else if occurs_at(s, needle, p) {
        Some(p)
    } else {
        first_occ_from(s, needle, p + 1)
    }
}

/// The first position at or after `p` that holds no whitespace, or the
/// length of `s` when there is none.
pub open spec fn skip_ws_from(s: Seq<char>, p: int) -> int
    decreases s.len() - p,
{
    if p < s.len() && is_ws(s[p]) {
        skip_ws_from(s, p + 1)
    } else {
        p
    }
}

/// `s` with every occurrence of `pat` replaced by `rep`, scanning from the
/// left and never reusing a replaced character (`str::replace`).
pub open spec fn replace_all(s: Seq<char>, pat: Seq<char>, rep: Seq<char>) -> Seq<char>
    decreases s.len(),
{
    if pat.len() == 0 || s.len() < pat.len() {
        s
    } else if s.take(pat.len() as int) == pat {
        rep + replace_all(s.skip(pat.len() as int), pat, rep)
    } else {
        seq![s[0]] + replace_all(s.skip(1), pat, rep)
    }
}

/// The pieces laid end to end with `sep` between neighbours (`slice::join`).
pub open spec fn join_with(parts: Seq<Seq<char>>, sep: Seq<char>) -> Seq<char>
    decreases parts.len(),
{
    if parts.len() == 0 {
        Seq::empty()
    } else if parts.len() == 1 {
        parts[0]
    } else {
        join_with(parts.drop_last(), sep) + sep + parts.last()
    }
}

/// The views of a sequence of strings.
pub open spec fn views(v: Seq<String>) -> Seq<Seq<char>> {
    v.map_values(|s: String| s@)
}

/// A found character lies in the searched range and holds that character.
pub proof fn lemma_first_char_from(s: Seq<char>, c: char, p: int)
    ensures
        match first_char_from(s, c, p) {
            Some(j) => p <= j < s.len() && s[j] == c,
            None => true,
        },
    decreases s.len() - p,
{
    if 0 <= p < s.len() && s[p] != c {
        lemma_first_char_from(s, c, p + 1);
    }
}

/// A found occurrence lies at or after the start of the search.
pub proof fn lemma_first_occ_from(s: Seq<char>, needle: Seq<char>, p: int)
    ensures
        match first_occ_from(s, needle, p) {
            Some(j) => p <= j && occurs_at(s, needle, j),
            None => true,
        },
    decreases s.len() + 1 - p,
{
    if 0 <= p <= s.len() && !occurs_at(s, needle, p) {
        lemma_first_occ_from(s, needle, p + 1);
    }
}

/// Skipping whitespace never moves backwards.
pub proof fn lemma_skip_ws_from(s: Seq<char>, p: int)
    ensures
        skip_ws_from(s, p) >= p,
        p <= s.len() ==> skip_ws_from(s, p) <= s.len(),
    decreases s.len() - p,
{
    if p < s.len() && is_ws(s[p]) {
        lemma_skip_ws_from(s, p + 1);
    }
}

/// Decides [`word_at`] on a slice.
pub fn is_word_at(v: &[char], k: usize) -> (b: bool)
    ensures
        b == word_at(v@, k as int),
{
    if k < v.len() {
        let c = v[k];
        ('a' <= c && c <= 'z') || ('A' <= c && c <= 'Z') || ('0' <= c && c <= '9') || c == '_'
    } else {
        false
    }
}

/// Decides [`boundary`] on a slice.
pub fn is_boundary(v: &[char], k: usize) -> (b: bool)
    ensures
        b == boundary(v@, k as int),
{
    let before = if k > 0 {
        is_word_at(v, k - 1)
    } else {
        false
    };
    before != is_word_at(v, k)
}

/// Finds [`first_char_from`].
pub fn find_char_from(v: &[char], c: char, p: usize) -> (r: Option<usize>)
    ensures
        match r {
            Some(j) => first_char_from(v@, c, p as int) == Some(j as int),
            None => first_char_from(v@, c, p as int) is None,
        },
{
    let mut i = p;
    while i < v.len()
        invariant
            p <= i,
            first_char_from(v@, c, p as int) == first_char_from(v@, c, i as int),
        decreases v.len() - i,
    {
        if v[i] == c {
            return Some(i);
        }
        i = i + 1;
    }
    None
}

/// Finds [`first_occ_from`].
pub fn find_seq_from(v: &[char], needle: &[char], p: usize) -> (r: Option<usize>)
    ensures
        match r {
            Some(j) => first_occ_from(v@, needle@, p as int) == Some(j as int),
            None => first_occ_from(v@, needle@, p as int) is None,
        },
{
    if p > v.len() {
        return None;
    }
    let mut i = p;
    while i <= v.len()
        invariant
            p <= i <= v@.len() + 1,
            first_occ_from(v@, needle@, p as int) == first_occ_from(v@, needle@, i as int),
        decreases v.len() + 1 - i,
    {
        if chars_occur_at(v, needle, i) {
            return Some(i);
        }
        if i == v.len() {
            assert(first_occ_from(v@, needle@, i + 1) is None);
            return None;
        }
        i = i + 1;
    }
    None
}

/// Computes [`skip_ws_from`].
pub fn skip_ws(v: &[char], p: usize) -> (r: usize)
    ensures
        r as int == skip_ws_from(v@, p as int),
{
    let mut i = p;
    while i < v.len() && char_is_ws(v[i])
        invariant
            p <= i,
            skip_ws_from(v@, p as int) == skip_ws_from(v@, i as int),
        decreases v.len() - i,
    {
        i = i + 1;
    }
    i
}

/// Computes [`replace_all`] for a non-empty pattern.
pub fn replace_chars(v: &[char], pat: &[char], rep: &[char]) -> (r: Vec<char>)
    requires
        pat@.len() > 0,
    ensures
        r@ == replace_all(v@, pat@, rep@),
{
    let mut out: Vec<char> = Vec::new();
    let mut i: usize = 0;
    assert(v@.skip(0) =~= v@);
    assert(out@ + replace_all(v@, pat@, rep@) =~= replace_all(v@, pat@, rep@));
    while i < v.len()
        invariant
            i <= v@.len(),
            pat@.len() > 0,
            replace_all(v@, pat@, rep@) == out@ + replace_all(v@.skip(i as int), pat@, rep@),
        decreases v.len() - i,
    {
        let ghost rest = v@.skip(i as int);
        if chars_occur_at(v, pat, i) {
            proof {
                assert(rest.take(pat@.len() as int) =~= v@.subrange(i as int, i + pat@.len()));
                assert(rest.skip(pat@.len() as int) =~= v@.skip(i + pat@.len()));
                assert(out@ + (rep@ + replace_all(v@.skip(i + pat@.len()), pat@, rep@))
                    =~= (out@ + rep@) + replace_all(v@.skip(i + pat@.len()), pat@, rep@));
            }
            let mut k: usize = 0;
            let ghost before = out@;
            while k < rep.len()
                invariant
                    k <= rep@.len(),
                    out@ == before + rep@.take(k as int),
                decreases rep.len() - k,
            {
                assert(rep@.take(k + 1) =~= rep@.take(k as int).push(rep@[k as int]));
                out.push(rep[k]);
                k = k + 1;
            }
            assert(rep@.take(rep@.len() as int) =~= rep@);
            i = i + pat.len();
        } else {
            proof {
                if rest.len() >= pat@.len() {
                    assert(rest.take(pat@.len() as int) =~= v@.subrange(i as int, i + pat@.len()));
                }
                assert(rest.skip(1) =~= v@.skip(i + 1));
                assert(rest[0] == v@[i as int]);
                assert(out@ + (seq![rest[0]] + replace_all(v@.skip(i + 1), pat@, rep@))
                    =~= out@.push(v@[i as int]) + replace_all(v@.skip(i + 1), pat@, rep@));
            }
            out.push(v[i]);
            i = i + 1;
        }
    }
    assert(v@.skip(i as int) =~= Seq::<char>::empty());
    assert(out@ + Seq::<char>::empty() =~= out@);
    out
}

/// Computes [`join_with`] on strings.
pub fn join_strings(parts: &Vec<String>, sep: &str) -> (r: String)
    ensures
        r@ == join_with(views(parts@), sep@),
{
    let mut out = String::new();
    let mut i: usize = 0;
    while i < parts.len()
        invariant
            i <= parts@.len(),
            out@ == join_with(views(parts@).take(i as int), sep@),
        decreases parts.len() - i,
    {
        proof {
            let t = views(parts@).take(i + 1);
            assert(t.drop_last() =~= views(parts@).take(i as int));
            assert(t.last() == parts@[i as int]@);
            if i == 0 {
                assert(views(parts@).take(0) =~= Seq::<Seq<char>>::empty());
                assert(t.len() == 1);
            }
        }
        if i > 0 {
            out = out.concat(sep);
        }
        out = out.concat(parts[i].as_str());
        i = i + 1;
    }
    assert(views(parts@).take(parts@.len() as int) =~= views(parts@));
    out
}

} // verus!
