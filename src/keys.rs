//! The order of storage keys, and what makes a sequence of entries a page of a
//! descending listing.

use vstd::prelude::*;

verus! {

/// Strict lexicographic order on keys, character by character. For strings this
/// is the order of their UTF-8 bytes, which is the order a storage range walks.
pub open spec fn key_lt(a: Seq<char>, b: Seq<char>) -> bool
    decreases a.len(),
{
    if b.len() == 0 {
        false
    } else if a.len() == 0 {
        true
    } else if a[0] != b[0] {
        (a[0] as int) < (b[0] as int)
    } else {
        key_lt(a.drop_first(), b.drop_first())
    }
}

/// `k` lies strictly below the cursor; no cursor means no bound.
pub open spec fn below(k: Seq<char>, cursor: Option<Seq<char>>) -> bool {
    match cursor {
        Some(c) => key_lt(k, c),
        None => true,
    }
}

pub proof fn lemma_key_lt_irreflexive(a: Seq<char>)
    ensures
        !key_lt(a, a),
    decreases a.len(),
{
    if a.len() > 0 {
        lemma_key_lt_irreflexive(a.drop_first());
    }
}

pub proof fn lemma_key_lt_transitive(a: Seq<char>, b: Seq<char>, c: Seq<char>)
    requires
        key_lt(a, b),
        key_lt(b, c),
    ensures
        key_lt(a, c),
    decreases a.len(),
{
    if a.len() > 0 && b.len() > 0 && c.len() > 0 && a[0] == b[0] && b[0] == c[0] {
        lemma_key_lt_transitive(a.drop_first(), b.drop_first(), c.drop_first());
    }
}

/// `p` is one page of the descending listing of `m` that starts strictly below
/// `cursor` and holds at most `limit` entries (no limit: the whole rest).
/// Keys come in strictly descending order, each with its value in `m`, and a key
/// of `m` below the cursor is missing only where the page is full and either
/// the limit is zero or the key lies below the page's last one.
pub open spec fn is_page<V>(
    m: Map<Seq<char>, V>,
    cursor: Option<Seq<char>>,
    limit: Option<nat>,
    p: Seq<(Seq<char>, V)>,
) -> bool {
    &&& forall|i: int, j: int| 0 <= i < j < p.len() ==> key_lt(#[trigger] p[j].0, #[trigger] p[i].0)
    &&& forall|i: int|
        0 <= i < p.len() ==> m.contains_key(#[trigger] p[i].0) && m[p[i].0] == p[i].1 && below(
            p[i].0,
            cursor,
        )
    &&& limit matches Some(l) ==> p.len() <= l
    &&& forall|k: Seq<char>|
        #![trigger m.contains_key(k)]
        m.contains_key(k) && below(k, cursor) && (forall|i: int| 0 <= i < p.len() ==> p[i].0 != k)
            ==> (limit matches Some(l) && p.len() == l && (l == 0 || key_lt(k, p.last().0)))
}

/// What a limit grows to when another page's limit is added to it.
pub open spec fn add_limit(l: nat, rest: Option<nat>) -> Option<nat> {
    match rest {
        Some(r) => Some(l + r),
        None => None,
    }
}

/// Paging on: a full page of `l` entries, followed by the page that starts below
/// its last key, together form the page of the combined limit from the first
/// cursor. Repeated, the pages taken one after another list every entry below
/// the first cursor exactly once, in descending order.
pub proof fn lemma_pages_concatenate<V>(
    m: Map<Seq<char>, V>,
    cursor: Option<Seq<char>>,
    l: nat,
    p1: Seq<(Seq<char>, V)>,
    rest: Option<nat>,
    p2: Seq<(Seq<char>, V)>,
)
    requires
        l > 0,
        is_page(m, cursor, Some(l), p1),
        p1.len() == l,
        is_page(m, Some(p1.last().0), rest, p2),
    ensures
        is_page(m, cursor, add_limit(l, rest), p1 + p2),
{
    let p = p1 + p2;
    let last = p1.last().0;
    assert forall|i: int| 0 <= i < p1.len() - 1 implies key_lt(last, #[trigger] p1[i].0) by {}
    assert forall|i: int, j: int| 0 <= i < j < p.len() implies key_lt(#[trigger] p[j].0, #[trigger] p[i].0) by {
        if i < p1.len() && j >= p1.len() {
            assert(p[j] == p2[j - p1.len()]);
            assert(key_lt(p[j].0, last));
            if i < p1.len() - 1 {
                lemma_key_lt_transitive(p[j].0, last, p1[i].0);
            }
        }
    }
    assert forall|i: int| 0 <= i < p.len() implies m.contains_key(#[trigger] p[i].0) && m[p[i].0]
        == p[i].1 && below(p[i].0, cursor) by {
        if i >= p1.len() {
            assert(p[i] == p2[i - p1.len()]);
            assert(key_lt(p[i].0, last));
            assert(below(last, cursor));
            if let Some(c) = cursor {
                lemma_key_lt_transitive(p[i].0, last, c);
            }
        }
    }
    assert forall|k: Seq<char>|
        m.contains_key(k) && below(k, cursor) && (forall|i: int| 0 <= i < p.len() ==> p[i].0 != k)
        implies (add_limit(l, rest) matches Some(n) && p.len() == n && (n == 0 || key_lt(
        k,
        p.last().0,
    ))) by {
        assert forall|i: int| 0 <= i < p1.len() implies p1[i].0 != k by {
            assert(p[i] == p1[i]);
        }
        assert(key_lt(k, last));
        assert forall|i: int| 0 <= i < p2.len() implies p2[i].0 != k by {
            assert(p[i + p1.len()] == p2[i]);
        }
        assert(below(k, Some(last)));
        if p2.len() > 0 {
            assert(p.last() == p2.last());
        } else {
            assert(p.last() == p1.last());
        }
    }
}

/// Keys of distinct strings are ordered one way or the other.
pub proof fn lemma_key_lt_total(a: Seq<char>, b: Seq<char>)
    requires
        a != b,
    ensures
        key_lt(a, b) || key_lt(b, a),
    decreases a.len(),
{
    if a.len() == 0 && b.len() == 0 {
        assert(a =~= b);
    } else if a.len() > 0 && b.len() > 0 {
        if a[0] == b[0] {
            if a.drop_first() == b.drop_first() {
                assert(a =~= seq![a[0]] + a.drop_first());
                assert(b =~= seq![b[0]] + b.drop_first());
            }
            lemma_key_lt_total(a.drop_first(), b.drop_first());
        } else {
            assert((a[0] as int) != (b[0] as int));
        }
    }
}

/// A page that came back shorter than its limit is the whole rest of the listing.
pub proof fn lemma_short_page_is_rest<V>(
    m: Map<Seq<char>, V>,
    cursor: Option<Seq<char>>,
    l: nat,
    p: Seq<(Seq<char>, V)>,
)
    requires
        is_page(m, cursor, Some(l), p),
        p.len() < l,
    ensures
        is_page(m, cursor, None, p),
{
}

/// Keys strictly descend along `p`.
pub open spec fn descending<V>(p: Seq<(Seq<char>, V)>) -> bool {
    forall|i: int, j: int| 0 <= i < j < p.len() ==> key_lt(#[trigger] p[j].0, #[trigger] p[i].0)
}

/// Some entry of `p` has key `k`.
pub open spec fn has_key<V>(p: Seq<(Seq<char>, V)>, k: Seq<char>) -> bool {
    exists|i: int| 0 <= i < p.len() && p[i].0 == k
}

proof fn lemma_rest_keys<V>(p: Seq<(Seq<char>, V)>)
    requires
        descending(p),
        p.len() > 0,
    ensures
        descending(p.drop_first()),
        forall|k: Seq<char>|
            #[trigger] has_key(p.drop_first(), k) <==> (has_key(p, k) && k != p[0].0),
{
    let r = p.drop_first();
    assert forall|i: int, j: int| 0 <= i < j < r.len() implies key_lt(#[trigger] r[j].0, #[trigger] r[i].0) by {
        assert(r[j] == p[j + 1] && r[i] == p[i + 1]);
    }
    assert forall|k: Seq<char>| #[trigger] has_key(r, k) <==> (has_key(p, k) && k != p[0].0) by {
        if has_key(r, k) {
            let i = choose|i: int| 0 <= i < r.len() && r[i].0 == k;
            assert(r[i] == p[i + 1]);
            assert(key_lt(p[i + 1].0, p[0].0));
            lemma_key_lt_irreflexive(k);
        }
        if has_key(p, k) && k != p[0].0 {
            let i = choose|i: int| 0 <= i < p.len() && p[i].0 == k;
            assert(r[i - 1] == p[i]);
        }
    }
}

proof fn lemma_same_first_key<V>(p: Seq<(Seq<char>, V)>, q: Seq<(Seq<char>, V)>)
    requires
        descending(p),
        descending(q),
        p.len() > 0,
        q.len() > 0,
        forall|k: Seq<char>| has_key(p, k) <==> has_key(q, k),
    ensures
        p[0].0 == q[0].0,
{
    let a = p[0].0;
    let b = q[0].0;
    if a != b {
        assert(has_key(p, a));
        assert(has_key(q, b));
        lemma_key_lt_total(a, b);
        if key_lt(a, b) {
            assert(has_key(p, b));
            let i = choose|i: int| 0 <= i < p.len() && p[i].0 == b;
            lemma_key_lt_transitive(b, a, b);
            lemma_key_lt_irreflexive(b);
        } else {
            assert(has_key(q, a));
            let j = choose|j: int| 0 <= j < q.len() && q[j].0 == a;
            lemma_key_lt_transitive(a, b, a);
            lemma_key_lt_irreflexive(a);
        }
    }
}

proof fn lemma_sorted_same_keys<V>(m: Map<Seq<char>, V>, p: Seq<(Seq<char>, V)>, q: Seq<(Seq<char>, V)>)
    requires
        descending(p),
        descending(q),
        forall|i: int| 0 <= i < p.len() ==> m.contains_key(#[trigger] p[i].0) && m[p[i].0] == p[i].1,
        forall|i: int| 0 <= i < q.len() ==> m.contains_key(#[trigger] q[i].0) && m[q[i].0] == q[i].1,
        forall|k: Seq<char>| has_key(p, k) <==> has_key(q, k),
    ensures
        p == q,
    decreases p.len(),
{
    if p.len() == 0 || q.len() == 0 {
        if q.len() > 0 {
            assert(has_key(q, q[0].0));
        }
        if p.len() > 0 {
            assert(has_key(p, p[0].0));
        }
        assert(p =~= q);
    } else {
        lemma_same_first_key(p, q);
        let pr = p.drop_first();
        let qr = q.drop_first();
        lemma_rest_keys(p);
        lemma_rest_keys(q);
        assert forall|k: Seq<char>| has_key(pr, k) <==> has_key(qr, k) by {
            assert(has_key(pr, k) == (has_key(p, k) && k != p[0].0));
            assert(has_key(qr, k) == (has_key(q, k) && k != q[0].0));
        }
        assert forall|i: int| 0 <= i < pr.len() implies m.contains_key(#[trigger] pr[i].0) && m[pr[i].0] == pr[i].1 by {
            assert(pr[i] == p[i + 1]);
        }
        assert forall|i: int| 0 <= i < qr.len() implies m.contains_key(#[trigger] qr[i].0) && m[qr[i].0] == qr[i].1 by {
            assert(qr[i] == q[i + 1]);
        }
        lemma_sorted_same_keys(m, pr, qr);
        assert(p[0] == q[0]);
        assert(p =~= seq![p[0]] + pr);
        assert(q =~= seq![q[0]] + qr);
    }
}

/// The unbounded listing below a cursor is unique: two sequences that both meet
/// its description are the same sequence. With the concatenation law, pages
/// taken in turn thus rebuild exactly the full descending listing.
pub proof fn lemma_listing_unique<V>(
    m: Map<Seq<char>, V>,
    cursor: Option<Seq<char>>,
    p: Seq<(Seq<char>, V)>,
    q: Seq<(Seq<char>, V)>,
)
    requires
        is_page(m, cursor, None, p),
        is_page(m, cursor, None, q),
    ensures
        p == q,
{
    assert forall|k: Seq<char>| has_key(p, k) <==> has_key(q, k) by {
        if has_key(p, k) {
            let i = choose|i: int| 0 <= i < p.len() && p[i].0 == k;
            assert(m.contains_key(p[i].0));
        }
        if has_key(q, k) {
            let j = choose|j: int| 0 <= j < q.len() && q[j].0 == k;
            assert(m.contains_key(q[j].0));
        }
    }
    lemma_sorted_same_keys(m, p, q);
}

} // verus!
