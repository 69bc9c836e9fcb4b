//! Stable sorting of keyed items (the order of `sort_by_key`: ascending keys,
//! ties kept in their original order), by `usize` keys or by wide signed
//! ranks.
use vstd::prelude::*;

verus! {

/// Inserts `x` after every element whose key is at most `x`'s key, scanning
/// from the back.
pub open spec fn insert_by_key<T>(s: Seq<(usize, T)>, x: (usize, T)) -> Seq<(usize, T)>
    decreases s.len(),
{
    if s.len() == 0 {
        seq![x]
    } else if s.last().0 <= x.0 {
        s.push(x)
    } else {
        insert_by_key(s.drop_last(), x).push(s.last())
    }
}

/// Insertion sort by key; equal keys keep their relative order.
pub open spec fn sort_by_key<T>(s: Seq<(usize, T)>) -> Seq<(usize, T)>
    decreases s.len(),
{
    if s.len() == 0 {
        seq![]
    } else {
        insert_by_key(sort_by_key(s.drop_last()), s.last())
    }
}

/// Every key of a sorted sequence is no greater than the keys after it.
pub open spec fn keys_ascending<T>(s: Seq<(usize, T)>) -> bool {
    forall|i: int, j: int| 0 <= i <= j < s.len() ==> (#[trigger] s[i]).0 <= (#[trigger] s[j]).0
}

/// Inserting into an ascending sequence keeps it ascending and adds one element.
pub proof fn lemma_insert_ascending<T>(s: Seq<(usize, T)>, x: (usize, T))
    requires
        keys_ascending(s),
    ensures
        keys_ascending(insert_by_key(s, x)),
        insert_by_key(s, x).len() == s.len() + 1,
        insert_by_key(s, x).to_multiset() == s.to_multiset().insert(x),
    decreases s.len(),
{
    broadcast use vstd::seq_lib::group_to_multiset_ensures;

    if s.len() == 0 {
    } else if s.last().0 <= x.0 {
    } else {
        let t = s.drop_last();
        assert(keys_ascending(t));
        lemma_insert_ascending(t, x);
        let r = insert_by_key(t, x);
        assert forall|i: int, j: int| 0 <= i <= j < r.len() + 1 implies (#[trigger] r.push(
            s.last(),
        )[i]).0 <= (#[trigger] r.push(s.last())[j]).0 by {
            if j == r.len() && i < r.len() {
                let e = r[i];
                assert(r.to_multiset().count(e) > 0);
                assert(r.contains(e));
                if e == x {
                } else {
                    assert(t.to_multiset().count(e) > 0);
                    assert(t.contains(e));
                    let k = choose|k: int| 0 <= k < t.len() && t[k] == e;
                    assert(s[k] == e);
                    assert(s[s.len() - 1] == s.last());
                }
            }
        }
        assert(s =~= t.push(s.last()));
    }
}

/// The stable sort is ascending and a permutation of its input.
pub proof fn lemma_sort_ascending<T>(s: Seq<(usize, T)>)
    ensures
        keys_ascending(sort_by_key(s)),
        sort_by_key(s).len() == s.len(),
        sort_by_key(s).to_multiset() == s.to_multiset(),
    decreases s.len(),
{
    broadcast use vstd::seq_lib::group_to_multiset_ensures;

    if s.len() > 0 {
        lemma_sort_ascending(s.drop_last());
        lemma_insert_ascending(sort_by_key(s.drop_last()), s.last());
        assert(s =~= s.drop_last().push(s.last()));
    }
}

/// Sorts by key, keeping the original order of equal keys.
pub fn stable_sort_by_key<T>(v: Vec<(usize, T)>) -> (r: Vec<(usize, T)>)
    ensures
        r@ == sort_by_key(v@),
{
    let ghost orig = v@;
    let n = v.len();
    let mut rest = v;
    let mut out: Vec<(usize, T)> = Vec::new();
    let mut k: usize = 0;
    proof {
        assert(orig.skip(0) =~= orig);
        assert(orig.take(0) =~= Seq::<(usize, T)>::empty());
    }
    while rest.len() > 0
        invariant
            0 <= k <= orig.len(),
            orig.len() == n,
            rest@ == orig.skip(k as int),
            out@ == sort_by_key(orig.take(k as int)),
        decreases rest.len(),
    {
        let x = rest.remove(0);
        let ghost before = out@;
        proof {
            assert(orig.take(k + 1).drop_last() =~= orig.take(k as int));
            assert(orig.take(k + 1).last() == x);
            assert(rest@ =~= orig.skip(k + 1));
        }
        let mut j = out.len();
        proof {
            assert(before.take(j as int) =~= before);
            assert(before.skip(j as int) =~= Seq::<(usize, T)>::empty());
            assert(insert_by_key(before, x) =~= insert_by_key(before.take(j as int), x)
                + before.skip(j as int));
        }
        while j > 0 && out[j - 1].0 > x.0
            invariant
                0 <= j <= before.len(),
                out@ == before,
                insert_by_key(before, x) == insert_by_key(before.take(j as int), x) + before.skip(
                    j as int,
                ),
            decreases j,
        {
            proof {
                let t = before.take(j as int);
                assert(t.last() == before[j - 1]);
                assert(t.drop_last() =~= before.take(j - 1));
                assert(before.skip(j - 1) =~= seq![t.last()] + before.skip(j as int));
                assert(insert_by_key(t, x) == insert_by_key(before.take(j - 1), x).push(t.last()));
                assert(insert_by_key(before.take(j - 1), x).push(t.last()) + before.skip(j as int)
                    =~= insert_by_key(before.take(j - 1), x) + before.skip(j - 1));
            }
            j = j - 1;
        }
        proof {
            let t = before.take(j as int);
            if j > 0 {
                assert(t.last() == before[j - 1]);
                assert(insert_by_key(t, x) == t.push(x));
            } else {
                assert(t.push(x) =~= seq![x]);
            }
        }
        out.insert(j, x);
        proof {
            assert(out@ =~= before.take(j as int).push(x) + before.skip(j as int));
        }
        k = k + 1;
    }
    proof {
        assert(orig.take(k as int) =~= orig);
    }
    out
}

/// Inserts `x` after every element whose rank is at most `x`'s rank,
/// scanning from the back (wide signed ranks).
pub open spec fn insert_by_rank<T>(s: Seq<(i128, T)>, x: (i128, T)) -> Seq<(i128, T)>
    decreases s.len(),
{
    if s.len() == 0 {
        seq![x]
    } else if s.last().0 <= x.0 {
        s.push(x)
    } else {
        insert_by_rank(s.drop_last(), x).push(s.last())
    }
}

/// Insertion sort by a wide signed rank; equal ranks keep their relative
/// order.
pub open spec fn sort_by_rank<T>(s: Seq<(i128, T)>) -> Seq<(i128, T)>
    decreases s.len(),
{
    if s.len() == 0 {
        seq![]
    } else {
        insert_by_rank(sort_by_rank(s.drop_last()), s.last())
    }
}

/// Every key of a sorted sequence is no greater than the keys after it.
pub open spec fn ranks_ascending<T>(s: Seq<(i128, T)>) -> bool {
    forall|i: int, j: int| 0 <= i <= j < s.len() ==> (#[trigger] s[i]).0 <= (#[trigger] s[j]).0
}

/// Inserting into an ascending sequence keeps it ascending and adds one element.
pub proof fn lemma_insert_rank_ascending<T>(s: Seq<(i128, T)>, x: (i128, T))
    requires
        ranks_ascending(s),
    ensures
        ranks_ascending(insert_by_rank(s, x)),
        insert_by_rank(s, x).len() == s.len() + 1,
        insert_by_rank(s, x).to_multiset() == s.to_multiset().insert(x),
    decreases s.len(),
{
    broadcast use vstd::seq_lib::group_to_multiset_ensures;

    if s.len() == 0 {
    } else if s.last().0 <= x.0 {
    } else {
        let t = s.drop_last();
        assert(ranks_ascending(t));
        lemma_insert_rank_ascending(t, x);
        let r = insert_by_rank(t, x);
        assert forall|i: int, j: int| 0 <= i <= j < r.len() + 1 implies (#[trigger] r.push(
            s.last(),
        )[i]).0 <= (#[trigger] r.push(s.last())[j]).0 by {
            if j == r.len() && i < r.len() {
                let e = r[i];
                assert(r.to_multiset().count(e) > 0);
                assert(r.contains(e));
                if e == x {
                } else {
                    assert(t.to_multiset().count(e) > 0);
                    assert(t.contains(e));
                    let k = choose|k: int| 0 <= k < t.len() && t[k] == e;
                    assert(s[k] == e);
                    assert(s[s.len() - 1] == s.last());
                }
            }
        }
        assert(s =~= t.push(s.last()));
    }
}

/// The stable sort is ascending and a permutation of its input.
pub proof fn lemma_sort_by_rank_ascending<T>(s: Seq<(i128, T)>)
    ensures
        ranks_ascending(sort_by_rank(s)),
        sort_by_rank(s).len() == s.len(),
        sort_by_rank(s).to_multiset() == s.to_multiset(),
    decreases s.len(),
{
    broadcast use vstd::seq_lib::group_to_multiset_ensures;

    if s.len() > 0 {
        lemma_sort_by_rank_ascending(s.drop_last());
        lemma_insert_rank_ascending(sort_by_rank(s.drop_last()), s.last());
        assert(s =~= s.drop_last().push(s.last()));
    }
}

/// Sorts by a wide signed rank, keeping the original order of equal ranks.
pub fn stable_sort_by_rank<T>(v: Vec<(i128, T)>) -> (r: Vec<(i128, T)>)
    ensures
        r@ == sort_by_rank(v@),
{
    let ghost orig = v@;
    let n = v.len();
    let mut rest = v;
    let mut out: Vec<(i128, T)> = Vec::new();
    let mut k: usize = 0;
    proof {
        assert(orig.skip(0) =~= orig);
        assert(orig.take(0) =~= Seq::<(i128, T)>::empty());
    }
    while rest.len() > 0
        invariant
            0 <= k <= orig.len(),
            orig.len() == n,
            rest@ == orig.skip(k as int),
            out@ == sort_by_rank(orig.take(k as int)),
        decreases rest.len(),
    {
        let x = rest.remove(0);
        let ghost before = out@;
        proof {
            assert(orig.take(k + 1).drop_last() =~= orig.take(k as int));
            assert(orig.take(k + 1).last() == x);
            assert(rest@ =~= orig.skip(k + 1));
        }
        let mut j = out.len();
        proof {
            assert(before.take(j as int) =~= before);
            assert(before.skip(j as int) =~= Seq::<(i128, T)>::empty());
            assert(insert_by_rank(before, x) =~= insert_by_rank(before.take(j as int), x)
                + before.skip(j as int));
        }
        while j > 0 && out[j - 1].0 > x.0
            invariant
                0 <= j <= before.len(),
                out@ == before,
                insert_by_rank(before, x) == insert_by_rank(before.take(j as int), x) + before.skip(
                    j as int,
                ),
            decreases j,
        {
            proof {
                let t = before.take(j as int);
                assert(t.last() == before[j - 1]);
                assert(t.drop_last() =~= before.take(j - 1));
                assert(before.skip(j - 1) =~= seq![t.last()] + before.skip(j as int));
                assert(insert_by_rank(t, x) == insert_by_rank(before.take(j - 1), x).push(t.last()));
                assert(insert_by_rank(before.take(j - 1), x).push(t.last()) + before.skip(j as int)
                    =~= insert_by_rank(before.take(j - 1), x) + before.skip(j - 1));
            }
            j = j - 1;
        }
        proof {
            let t = before.take(j as int);
            if j > 0 {
                assert(t.last() == before[j - 1]);
                assert(insert_by_rank(t, x) == t.push(x));
            } else {
                assert(t.push(x) =~= seq![x]);
            }
        }
        out.insert(j, x);
        proof {
            assert(out@ =~= before.take(j as int).push(x) + before.skip(j as int));
        }
        k = k + 1;
    }
    proof {
        assert(orig.take(k as int) =~= orig);
    }
    out
}

} // verus!
