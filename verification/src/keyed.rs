//! Small string-keyed tables held as vectors of pairs.  The first entry with a
//! key is the one that counts; updates rewrite it in place or append a new one.
use vstd::prelude::*;

use std::collections::HashMap;

use crate::text::str_eq;

verus! {

/// Entry `i` is the first entry of `v` with key `k`.
pub open spec fn is_first_key<V>(v: Seq<(String, V)>, k: Seq<char>, i: int) -> bool {
    &&& 0 <= i < v.len()
    &&& v[i].0@ == k
    &&& forall|j: int| 0 <= j < i ==> (#[trigger] v[j]).0@ != k
}

/// Some entry of `v` has key `k`.
pub open spec fn has_key<V>(v: Seq<(String, V)>, k: Seq<char>) -> bool {
    exists|i: int| 0 <= i < v.len() && (#[trigger] v[i]).0@ == k
}

/// The value stored under `k`, if any.
pub open spec fn lookup<V>(v: Seq<(String, V)>, k: Seq<char>) -> Option<V> {
    if has_key(v, k) {
        Some(v[choose|i: int| is_first_key(v, k, i)].1)
    } else {
        None
    }
}

/// The first index with key `k` is unique and determines `lookup`.
pub proof fn lemma_first_key<V>(v: Seq<(String, V)>, k: Seq<char>, i: int)
    requires
        is_first_key(v, k, i),
    ensures
        has_key(v, k),
        lookup(v, k) == Some(v[i].1),
{
    assert(v[i].0@ == k);
    let c = choose|j: int| is_first_key(v, k, j);
    assert(is_first_key(v, k, c));
    if c < i {
        assert(v[c].0@ != k);
    } else if i < c {
        assert(v[i].0@ != k);
    }
}

/// A key that occurs has a first occurrence.
pub proof fn lemma_has_first_key<V>(v: Seq<(String, V)>, k: Seq<char>)
    requires
        has_key(v, k),
    ensures
        exists|i: int| is_first_key(v, k, i),
    decreases v.len(),
{
    if v[0].0@ == k {
        assert(is_first_key(v, k, 0));
    } else {
        let t = v.drop_first();
        let j = choose|j: int| 0 <= j < v.len() && (#[trigger] v[j]).0@ == k;
        assert(t[j - 1].0@ == k);
        lemma_has_first_key(t, k);
        let i = choose|i: int| is_first_key(t, k, i);
        assert forall|m: int| 0 <= m < i + 1 implies (#[trigger] v[m]).0@ != k by {
            if m > 0 {
                assert(v[m] == t[m - 1]);
            }
        }
        assert(is_first_key(v, k, i + 1));
    }
}

/// Appending an entry only affects a key that was absent.
pub proof fn lemma_lookup_push<V>(v: Seq<(String, V)>, e: (String, V))
    ensures
        forall|k: Seq<char>|
            #![trigger lookup(v.push(e), k)]
            #![trigger has_key(v.push(e), k)]
            has_key(v.push(e), k) == (has_key(v, k) || e.0@ == k) && lookup(v.push(e), k) == if has_key(
                v,
                k,
            ) {
                lookup(v, k)
            } else if e.0@ == k {
                Some(e.1)
            } else {
                None
            },
{
    let w = v.push(e);
    assert forall|k: Seq<char>|
        #![trigger lookup(w, k)]
        has_key(w, k) == (has_key(v, k) || e.0@ == k) && lookup(w, k) == if has_key(v, k) {
            lookup(v, k)
        } else if e.0@ == k {
            Some(e.1)
        } else {
            None
        } by {
        if has_key(v, k) {
            lemma_has_first_key(v, k);
            let c = choose|i: int| is_first_key(v, k, i);
            assert(is_first_key(w, k, c));
            lemma_first_key(w, k, c);
            lemma_first_key(v, k, c);
        } else if e.0@ == k {
            let n = v.len() as int;
            assert forall|j: int| 0 <= j < n implies (#[trigger] w[j]).0@ != k by {
                assert(w[j] == v[j]);
            }
            assert(is_first_key(w, k, n));
            lemma_first_key(w, k, n);
        } else {
            assert forall|j: int| 0 <= j < w.len() implies (#[trigger] w[j]).0@ != k by {
                if j < v.len() {
                    assert(w[j] == v[j]);
                }
            }
        }
    }
}

/// The index of the first entry with key `k`.
pub fn find_key<V>(v: &Vec<(String, V)>, k: &str) -> (r: Option<usize>)
    ensures
        r matches Some(i) ==> is_first_key(v@, k@, i as int),
        r is None ==> !has_key(v@, k@),
{
    let mut i: usize = 0;
    while i < v.len()
        invariant
            0 <= i <= v@.len(),
            forall|j: int| 0 <= j < i ==> (#[trigger] v@[j]).0@ != k@,
        decreases v.len() - i,
    {
        if str_eq(v[i].0.as_str(), k) {
            return Some(i);
        }
        i = i + 1;
    }
    None
}

/// The value stored under `k`, by reference.
pub fn get_ref<'a, V>(v: &'a Vec<(String, V)>, k: &str) -> (r: Option<&'a V>)
    ensures
        r matches Some(x) ==> lookup(v@, k@) == Some(*x),
        r is None ==> lookup(v@, k@) is None,
{
    match find_key(v, k) {
        Some(i) => {
            proof {
                lemma_first_key(v@, k@, i as int);
            }
            Some(&v[i].1)
        },
        None => None,
    }
}

/// Stores `val` under `k`: rewrites the first entry with that key, or appends one.
pub fn put<V>(v: &mut Vec<(String, V)>, k: &str, val: V)
    ensures
        lookup(final(v)@, k@) == Some(val),
        forall|k2: Seq<char>| k2 != k@ ==> lookup(final(v)@, k2) == lookup(old(v)@, k2),
        forall|k2: Seq<char>| has_key(final(v)@, k2) <==> (has_key(old(v)@, k2) || k2 == k@),
{
    match find_key(v, k) {
        Some(i) => {
            let key = v[i].0.clone();
            let ghost before = v@;
            v.set(i, (key, val));
            proof {
                assert(is_first_key(v@, k@, i as int));
                lemma_first_key(v@, k@, i as int);
                assert forall|k2: Seq<char>| k2 != k@ implies lookup(v@, k2) == lookup(
                    before,
                    k2,
                ) by {
                    assert forall|j: int| 0 <= j < v@.len() implies (#[trigger] v@[j]).0@ == before[j].0@ by {}
                    if has_key(before, k2) {
                        lemma_has_first_key(before, k2);
                        let c = choose|j: int| is_first_key(before, k2, j);
                        assert(is_first_key(before, k2, c));
                        assert(c != i);
                        assert(is_first_key(v@, k2, c));
                        lemma_first_key(v@, k2, c);
                        lemma_first_key(before, k2, c);
                    } else {
                        assert(!has_key(v@, k2));
                    }
                }
                assert forall|k2: Seq<char>| has_key(v@, k2) <==> (has_key(before, k2) || k2 == k@) by {
                    if has_key(v@, k2) {
                        let j = choose|j: int| 0 <= j < v@.len() && (#[trigger] v@[j]).0@ == k2;
                        assert(before[j].0@ == k2);
                    }
                    if has_key(before, k2) {
                        let j = choose|j: int| 0 <= j < before.len() && (#[trigger] before[j]).0@ == k2;
                        assert(v@[j].0@ == k2);
                    }
                }
            }
        },
        None => {
            let ghost before = v@;
            v.push((k.to_owned(), val));
            proof {
                let n = before.len() as int;
                assert(v@[n].0@ == k@);
                assert(is_first_key(v@, k@, n));
                lemma_first_key(v@, k@, n);
                assert forall|k2: Seq<char>| k2 != k@ implies lookup(v@, k2) == lookup(
                    before,
                    k2,
                ) by {
                    if has_key(before, k2) {
                        lemma_has_first_key(before, k2);
                        let c = choose|j: int| is_first_key(before, k2, j);
                        assert(is_first_key(before, k2, c));
                        assert(is_first_key(v@, k2, c));
                        lemma_first_key(v@, k2, c);
                        lemma_first_key(before, k2, c);
                    } else {
                        assert forall|j: int| 0 <= j < v@.len() implies (#[trigger] v@[j]).0@ != k2 by {
                            if j < n {
                                assert(v@[j] == before[j]);
                            }
                        }
                    }
                }
                assert forall|k2: Seq<char>| has_key(v@, k2) <==> (has_key(before, k2) || k2 == k@) by {
                    if has_key(v@, k2) {
                        let j = choose|j: int| 0 <= j < v@.len() && (#[trigger] v@[j]).0@ == k2;
                        if j < n {
                            assert(before[j].0@ == k2);
                        }
                    }
                    if has_key(before, k2) {
                        let j = choose|j: int| 0 <= j < before.len() && (#[trigger] before[j]).0@ == k2;
                        assert(v@[j].0@ == k2);
                    }
                }
            }
        },
    }
}

/// Whether some string in `v` equals `s`.
pub fn contains_string(v: &Vec<String>, s: &str) -> (r: bool)
    ensures
        r == exists|i: int| 0 <= i < v@.len() && (#[trigger] v@[i])@ == s@,
{
    let mut i: usize = 0;
    while i < v.len()
        invariant
            0 <= i <= v@.len(),
            forall|j: int| 0 <= j < i ==> (#[trigger] v@[j])@ != s@,
        decreases v.len() - i,
    {
        if str_eq(v[i].as_str(), s) {
            return true;
        }
        i = i + 1;
    }
    false
}

/// `HashMap::<String, V>::get` with a string-slice key.  Keys are equal
/// exactly when their characters are, so the map holds at most one key with
/// the given characters, and the result is a reference to its value.
#[verifier::external_body]
pub(crate) fn string_map_get<'a, V>(m: &'a HashMap<String, V>, k: &str) -> (r: Option<&'a V>)
    ensures
        forall|s: String| s@ == k@ && #[trigger] m@.contains_key(s) ==> r == Some(&m@[s]),
        r is Some ==> exists|s: String| s@ == k@ && #[trigger] m@.contains_key(s),
{
    m.get(k)
}

} // verus!
