//! Sets of strings kept as lists in increasing lexicographic order of their
//! characters: what a `BTreeSet<String>` iterates.
//!
//! Comparing characters by code point orders strings as comparing their
//! UTF-8 bytes does, which is the order `String` has.

use vstd::prelude::*;

use crate::search::views;

verus! {

/// `a` comes strictly before `b`, character by character.
pub open spec fn lex_less(a: Seq<char>, b: Seq<char>) -> bool
    decreases a.len(),
{
    if a.len() == 0 {
        b.len() > 0
    } else if b.len() == 0 {
        false
    } else if a[0] != b[0] {
        a[0] < b[0]
    } else {
        lex_less(a.skip(1), b.skip(1))
    }
}

/// Every string comes strictly before the next one.
pub open spec fn strictly_sorted(s: Seq<Seq<char>>) -> bool {
    forall|i: int, j: int| 0 <= i < j < s.len() ==> lex_less(s[i], s[j])
}

/// Of two different strings one comes before the other, and no string
/// comes before itself.
pub proof fn lemma_lex_trichotomy(a: Seq<char>, b: Seq<char>)
    ensures
        a == b || lex_less(a, b) || lex_less(b, a),
        !(lex_less(a, b) && lex_less(b, a)),
        !lex_less(a, a),
    decreases a.len(),
{
    if a.len() > 0 && b.len() > 0 {
        lemma_lex_trichotomy(a.skip(1), b.skip(1));
        if a[0] == b[0] && a.skip(1) == b.skip(1) {
            assert(a =~= seq![a[0]] + a.skip(1));
            assert(b =~= seq![b[0]] + b.skip(1));
        }
    } else if a.len() == 0 && b.len() == 0 {
        assert(a =~= b);
    }
    if a.len() > 0 {
        lemma_lex_trichotomy(a.skip(1), a.skip(1));
    }
}

/// The order is transitive.
pub proof fn lemma_lex_transitive(a: Seq<char>, b: Seq<char>, c: Seq<char>)
    requires
        lex_less(a, b),
        lex_less(b, c),
    ensures
        lex_less(a, c),
    decreases a.len(),
{
    if a.len() > 0 && b.len() > 0 && c.len() > 0 && a[0] == b[0] && b[0] == c[0] {
        lemma_lex_transitive(a.skip(1), b.skip(1), c.skip(1));
    }
}

/// Decides [`lex_less`].
pub fn chars_less(a: &[char], b: &[char]) -> (r: bool)
    ensures
        r == lex_less(a@, b@),
{
    let mut i: usize = 0;
    assert(a@.skip(0) =~= a@);
    assert(b@.skip(0) =~= b@);
    while i < a.len() && i < b.len() && a[i] == b[i]
        invariant
            i <= a@.len(),
            i <= b@.len(),
            lex_less(a@, b@) == lex_less(a@.skip(i as int), b@.skip(i as int)),
        decreases a.len() - i,
    {
        proof {
            let sa = a@.skip(i as int);
            let sb = b@.skip(i as int);
            assert(sa.skip(1) =~= a@.skip(i + 1));
            assert(sb.skip(1) =~= b@.skip(i + 1));
            assert(sa[0] == a@[i as int]);
            assert(sb[0] == b@[i as int]);
        }
        i = i + 1;
    }
    proof {
        let sa = a@.skip(i as int);
        let sb = b@.skip(i as int);
        if i < a@.len() {
            assert(sa[0] == a@[i as int]);
        }
        if i < b@.len() {
            assert(sb[0] == b@[i as int]);
        }
    }
    if i == a.len() {
        i < b.len()
    } else if i == b.len() {
        false
    } else {
        a[i] < b[i]
    }
}

/// Whether the string `a` comes strictly before `key`.
fn precedes(a: &String, key: &[char]) -> (r: bool)
    ensures
        r == lex_less(a@, key@),
{
    let cur = crate::text::chars_of(a.as_str());
    chars_less(&cur, key)
}

/// Inserts `s` into a strictly sorted list unless it is already there.
pub fn insert_string(v: Vec<String>, s: String) -> (r: Vec<String>)
    requires
        strictly_sorted(views(v@)),
    ensures
        strictly_sorted(views(r@)),
        forall|t: Seq<char>| #[trigger] views(r@).contains(t) <==> (views(v@).contains(t) || t
            == s@),
{
    let ghost start = views(v@);
    let mut v = v;
    let key = crate::text::chars_of(s.as_str());
    let mut i: usize = 0;
    while i < v.len() && precedes(&v[i], &key)
        invariant
            i <= v@.len(),
            views(v@) == start,
            key@ == s@,
            strictly_sorted(start),
            forall|k: int| 0 <= k < i ==> lex_less(#[trigger] start[k], s@),
        decreases v.len() - i,
    {
        assert(start[i as int] == v@[i as int]@);
        i = i + 1;
    }
    let found = i < v.len() && crate::text::str_eq(v[i].as_str(), s.as_str());
    if i < v.len() {
        assert(start[i as int] == v@[i as int]@);
    }
    if found {
        assert(start[i as int] == s@);
        assert(forall|t: Seq<char>| #[trigger] views(v@).contains(t) <==> (start.contains(t) || t
            == s@)) by {
            assert(views(v@)[i as int] == s@);
        }
        return v;
    }
    proof {
        if i < start.len() {
            lemma_lex_trichotomy(start[i as int], s@);
        }
    }
    v.insert(i, s);
    let ghost now = views(v@);
    assert(now =~= start.take(i as int).push(s@) + start.skip(i as int));
    assert(strictly_sorted(now)) by {
        assert forall|a: int, b: int| 0 <= a < b < now.len() implies lex_less(now[a], now[b]) by {
            if b < i {
            } else if b == i {
            } else if a < i {
                assert(now[b] == start[b - 1]);
                if a < b - 1 {
                } else {
                    assert(a == b - 1);
                    assert(false);
                }
            } else if a == i {
                assert(now[b] == start[b - 1]);
                if b - 1 > i {
                    lemma_lex_transitive(s@, start[i as int], start[b - 1]);
                }
            } else {
                assert(now[a] == start[a - 1]);
                assert(now[b] == start[b - 1]);
            }
        }
    }
    assert forall|t: Seq<char>| #[trigger] now.contains(t) <==> (start.contains(t) || t == s@) by {
        if now.contains(t) {
            let k = choose|k: int| 0 <= k < now.len() && now[k] == t;
            if k < i {
                assert(start[k] == t);
            } else if k > i {
                assert(start[k - 1] == t);
            }
        }
        if start.contains(t) {
            let k = choose|k: int| 0 <= k < start.len() && start[k] == t;
            if k < i {
                assert(now[k] == t);
            } else {
                assert(now[k + 1] == t);
            }
        }
        if t == s@ {
            assert(now[i as int] == t);
        }
    }
    v
}

/// A strictly sorted list holds no string twice.
pub proof fn lemma_sorted_no_dup(s: Seq<Seq<char>>)
    requires
        strictly_sorted(s),
    ensures
        s.no_duplicates(),
{
    assert forall|i: int, j: int| 0 <= i < s.len() && 0 <= j < s.len() && i != j implies s[i] != s[j] by {
        if i < j {
            lemma_lex_trichotomy(s[i], s[j]);
        } else {
            lemma_lex_trichotomy(s[j], s[i]);
        }
    }
}

} // verus!
