//! Sets of TCP ports kept as strictly increasing lists: what `sort` followed
//! by `dedup` (or a `BTreeSet`) gives a list of ports.

use vstd::prelude::*;

verus! {

/// Every port is smaller than the next one.
pub open spec fn strictly_increasing(s: Seq<u16>) -> bool {
    forall|i: int, j: int| 0 <= i < j < s.len() ==> s[i] < s[j]
}

/// `a` and `b` hold the same ports.
pub open spec fn same_ports(a: Seq<u16>, b: Seq<u16>) -> bool {
    forall|p: u16| a.contains(p) <==> b.contains(p)
}

/// The sorted list of distinct ports is unique.
pub proof fn lemma_sorted_unique_is_unique(a: Seq<u16>, b: Seq<u16>)
    requires
        strictly_increasing(a),
        strictly_increasing(b),
        same_ports(a, b),
    ensures
        a == b,
    decreases a.len(),
{
    if a.len() == 0 {
        if b.len() > 0 {
            assert(b.contains(b[0]));
        }
        assert(a =~= b);
    } else if b.len() == 0 {
        assert(a.contains(a[0]));
    } else {
        // the first elements are both the smallest port
        assert(a.contains(a[0]));
        assert(b.contains(b[0]));
        let ia = choose|i: int| 0 <= i < a.len() && a[i] == b[0];
        let ib = choose|i: int| 0 <= i < b.len() && b[i] == a[0];
        assert(a[0] <= a[ia]);
        assert(b[0] <= b[ib]);
        assert(a[0] == b[0]);
        let ta = a.skip(1);
        let tb = b.skip(1);
        assert forall|p: u16| ta.contains(p) <==> tb.contains(p) by {
            if ta.contains(p) {
                let k = choose|k: int| 0 <= k < ta.len() && ta[k] == p;
                assert(a[k + 1] == p);
                assert(a.contains(p));
                let m = choose|m: int| 0 <= m < b.len() && b[m] == p;
                assert(m != 0);
                assert(tb[m - 1] == p);
            }
            if tb.contains(p) {
                let k = choose|k: int| 0 <= k < tb.len() && tb[k] == p;
                assert(b[k + 1] == p);
                assert(b.contains(p));
                let m = choose|m: int| 0 <= m < a.len() && a[m] == p;
                assert(m != 0);
                assert(ta[m - 1] == p);
            }
        }
        lemma_sorted_unique_is_unique(ta, tb);
        assert(a =~= seq![a[0]] + ta);
        assert(b =~= seq![b[0]] + tb);
    }
}

/// What a sequence holds after a push.
pub proof fn lemma_push_contains<A>(s: Seq<A>, x: A)
    ensures
        forall|q: A| #[trigger] s.push(x).contains(q) <==> (s.contains(q) || q == x),
{
    assert forall|q: A| #[trigger] s.push(x).contains(q) <==> (s.contains(q) || q == x) by {
        if s.push(x).contains(q) {
            let k = choose|k: int| 0 <= k < s.push(x).len() && s.push(x)[k] == q;
            if k < s.len() {
                assert(s[k] == q);
            }
        }
        if s.contains(q) {
            let k = choose|k: int| 0 <= k < s.len() && s[k] == q;
            assert(s.push(x)[k] == q);
        }
        if q == x {
            assert(s.push(x)[s.len() as int] == q);
        }
    }
}

/// Inserts `p` into a strictly increasing list unless it is already there.
pub fn insert_port(v: Vec<u16>, p: u16) -> (r: Vec<u16>)
    requires
        strictly_increasing(v@),
    ensures
        strictly_increasing(r@),
        forall|q: u16| #[trigger] r@.contains(q) <==> (v@.contains(q) || q == p),
{
    let ghost start = v@;
    let mut v = v;
    let mut i: usize = 0;
    while i < v.len() && v[i] < p
        invariant
            i <= v@.len(),
            v@ == start,
            strictly_increasing(v@),
            forall|k: int| 0 <= k < i ==> v@[k] < p,
        decreases v.len() - i,
    {
        i = i + 1;
    }
    if i < v.len() && v[i] == p {
        assert(v@.contains(p) ==> true);
        assert forall|q: u16| #[trigger] v@.contains(q) <==> (start.contains(q) || q == p) by {
            assert(v@[i as int] == p);
        }
        return v;
    }
    let ghost before = v@;
    v.insert(i, p);
    assert(v@ =~= before.take(i as int).push(p) + before.skip(i as int));
    assert(strictly_increasing(v@)) by {
        assert forall|a: int, b: int| 0 <= a < b < v@.len() implies v@[a] < v@[b] by {
            if b < i {
            } else if b == i {
            } else if a < i {
                assert(v@[b] == before[b - 1]);
                assert(before[a] < before[b - 1] || a == b - 1);
            } else if a == i {
                assert(v@[b] == before[b - 1]);
                assert(before[i as int] >= p);
                assert(before[i as int] != p);
                assert(before[i as int] <= before[b - 1]);
            } else {
                assert(v@[a] == before[a - 1]);
                assert(v@[b] == before[b - 1]);
            }
        }
    }
    assert(before == start);
    assert forall|q: u16| #[trigger] v@.contains(q) <==> (before.contains(q) || q == p) by {
        if v@.contains(q) {
            let k = choose|k: int| 0 <= k < v@.len() && v@[k] == q;
            if k < i {
                assert(before[k] == q);
            } else if k > i {
                assert(before[k - 1] == q);
            }
        }
        if before.contains(q) {
            let k = choose|k: int| 0 <= k < before.len() && before[k] == q;
            if k < i {
                assert(v@[k] == q);
            } else {
                assert(v@[k + 1] == q);
            }
        }
        if q == p {
            assert(v@[i as int] == p);
        }
    }
    v
}

/// The distinct ports of `ports` in increasing order.
pub fn sorted_unique(ports: &[u16]) -> (r: Vec<u16>)
    ensures
        strictly_increasing(r@),
        same_ports(r@, ports@),
{
    let mut r: Vec<u16> = Vec::new();
    let mut i: usize = 0;
    while i < ports.len()
        invariant
            i <= ports@.len(),
            strictly_increasing(r@),
            forall|q: u16| r@.contains(q) <==> ports@.take(i as int).contains(q),
        decreases ports.len() - i,
    {
        r = insert_port(r, ports[i]);
        proof {
            let t = ports@.take(i + 1);
            assert(t =~= ports@.take(i as int).push(ports@[i as int]));
            assert forall|q: u16| t.contains(q) <==> (ports@.take(i as int).contains(q) || q
                == ports@[i as int]) by {
                if t.contains(q) {
                    let k = choose|k: int| 0 <= k < t.len() && t[k] == q;
                    if k < i {
                        assert(ports@.take(i as int)[k] == q);
                    }
                }
                if ports@.take(i as int).contains(q) {
                    let k = choose|k: int| 0 <= k < i && ports@.take(i as int)[k] == q;
                    assert(t[k] == q);
                }
                if q == ports@[i as int] {
                    assert(t[i as int] == q);
                }
            }
        }
        i = i + 1;
    }
    assert(ports@.take(ports@.len() as int) =~= ports@);
    r
}

/// Whether `p` is one of `ports`.
pub fn contains_port(ports: &[u16], p: u16) -> (b: bool)
    ensures
        b == ports@.contains(p),
{
    let mut i: usize = 0;
    while i < ports.len()
        invariant
            i <= ports@.len(),
            forall|k: int| 0 <= k < i ==> ports@[k] != p,
        decreases ports.len() - i,
    {
        if ports[i] == p {
            assert(ports@[i as int] == p);
            return true;
        }
        i = i + 1;
    }
    false
}

/// The distinct ports of `ports` in increasing order, found by marking
/// each of the 65536 possible ports (for long lists).
pub fn distinct_ports(ports: &[u16]) -> (r: Vec<u16>)
    ensures
        strictly_increasing(r@),
        same_ports(r@, ports@),
{
    let mut marks: Vec<bool> = Vec::new();
    let mut k: usize = 0;
    while k < 65536
        invariant
            k <= 65536,
            marks@.len() == k,
            forall|j: int| 0 <= j < k ==> !marks@[j],
        decreases 65536 - k,
    {
        marks.push(false);
        k = k + 1;
    }
    let mut i: usize = 0;
    while i < ports.len()
        invariant
            i <= ports@.len(),
            marks@.len() == 65536,
            forall|j: int| 0 <= j < 65536 ==> (marks@[j] <==> exists|m: int| 0 <= m < i && ports@[m] == j),
        decreases ports.len() - i,
    {
        let p = ports[i];
        marks.set(p as usize, true);
        proof {
            assert forall|j: int| 0 <= j < 65536 implies (marks@[j] <==> exists|m: int| 0 <= m < i + 1 && ports@[m] == j) by {
                if j == p as int {
                    assert(ports@[i as int] == j);
                }
            }
        }
        i = i + 1;
    }
    let mut r: Vec<u16> = Vec::new();
    let mut q: usize = 0;
    while q < 65536
        invariant
            q <= 65536,
            marks@.len() == 65536,
            forall|j: int| 0 <= j < 65536 ==> (marks@[j] <==> exists|m: int| 0 <= m < ports@.len() && ports@[m] == j),
            strictly_increasing(r@),
            forall|a: int| 0 <= a < r@.len() ==> r@[a] < q,
            forall|p: u16| #[trigger] r@.contains(p) <==> (p < q && marks@[p as int]),
        decreases 65536 - q,
    {
        if marks[q] {
            let ghost before = r@;
            r.push(q as u16);
            proof {
                lemma_push_contains(before, q as u16);
            }
        }
        q = q + 1;
    }
    assert forall|p: u16| r@.contains(p) <==> ports@.contains(p) by {
        if ports@.contains(p) {
            let m = choose|m: int| 0 <= m < ports@.len() && ports@[m] == p;
            assert(marks@[p as int]);
        }
        if r@.contains(p) {
            assert(marks@[p as int]);
        }
    }
    r
}

} // verus!
