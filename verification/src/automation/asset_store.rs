//! The script asset store, the fifth layer of the automation architecture:
//! generated scripts kept for reuse, with their usage counts.
use vstd::prelude::*;

use crate::automation::types::{
    copy_asset, ratio_below, AssetStats, usage_fits, usage_recorded, AssetQuery, AssetView, Ratio, ScriptAsset,
};
use crate::sort::{lemma_sort_by_rank_ascending, sort_by_rank, stable_sort_by_rank};
use crate::text::{contains, push_str, starts_with, str_contains, str_eq, to_owned};

verus! {

/// `std::io::Error`, carried through opaquely.
#[verifier::external_type_specification]
#[verifier::external_body]
pub struct ExIoError(std::io::Error);

/// The display text of an I/O error (`<std::io::Error as Display>::fmt`).
/// Nothing is promised of it: it may come from the operating system.
#[verifier::external_body]
pub(crate) fn io_error_text(e: &std::io::Error) -> String {
    e.to_string()
}

/// Errors of the asset stores.
#[derive(Debug)]
pub enum AssetStoreError {
    /// Asset not found.
    NotFound(String),
    /// Storage error.
    StorageError(String),
    /// Serialization error.
    SerializationError(String),
    /// I/O error.
    IoError(std::io::Error),
}

impl From<std::io::Error> for AssetStoreError {
    fn from(e: std::io::Error) -> (r: Self)
        ensures
            r == AssetStoreError::IoError(e),
    {
        AssetStoreError::IoError(e)
    }
}

impl vstd::std_specs::convert::FromSpecImpl<std::io::Error> for AssetStoreError {
    open spec fn obeys_from_spec() -> bool {
        true
    }

    open spec fn from_spec(v: std::io::Error) -> AssetStoreError {
        AssetStoreError::IoError(v)
    }
}

impl AssetStoreError {
    /// The text of the error.  That of an I/O error is its prefix followed by
    /// the error's own display text.
    pub fn message(&self) -> (r: String)
        ensures
            match self {
                AssetStoreError::NotFound(m) => r@ == "Asset not found: "@ + m@,
                AssetStoreError::StorageError(m) => r@ == "Storage error: "@ + m@,
                AssetStoreError::SerializationError(m) => r@ == "Serialization error: "@ + m@,
                AssetStoreError::IoError(_) => starts_with(r@, "IO error: "@),
            },
    {
        match self {
            AssetStoreError::NotFound(m) => {
                let mut s = to_owned("Asset not found: ");
                push_str(&mut s, m.as_str());
                s
            },
            AssetStoreError::StorageError(m) => {
                let mut s = to_owned("Storage error: ");
                push_str(&mut s, m.as_str());
                s
            },
            AssetStoreError::SerializationError(m) => {
                let mut s = to_owned("Serialization error: ");
                push_str(&mut s, m.as_str());
                s
            },
            AssetStoreError::IoError(e) => {
                let mut s = to_owned("IO error: ");
                let t = io_error_text(e);
                let ghost head = s@;
                push_str(&mut s, t.as_str());
                proof {
                    assert(s@.subrange(0, head.len() as int) =~= head);
                }
                s
            },
        }
    }
}

/// Configuration of an asset store.
#[derive(Debug, Clone, Copy)]
pub struct AssetStoreConfig {
    /// Maximum number of assets to store.
    pub max_assets: usize,
    /// Maximum age of an asset, in seconds.
    pub max_asset_age_secs: u64,
    /// Success rate below which a much-used asset is dropped.
    pub min_success_rate: Ratio,
    /// Interval between automatic cleanups, in seconds.
    pub cleanup_interval_secs: u64,
}

impl Default for AssetStoreConfig {
    fn default() -> (r: Self)
        ensures
            r.max_assets == 1000,
            r.max_asset_age_secs == 86400 * 30,
            r.min_success_rate == (Ratio { numerator: 1, denominator: 2 }),
            r.cleanup_interval_secs == 3600,
    {
        AssetStoreConfig {
            max_assets: 1000,
            max_asset_age_secs: 86400 * 30,
            min_success_rate: Ratio { numerator: 1, denominator: 2 },
            cleanup_interval_secs: 3600,
        }
    }
}

/// The assets as plain values.
pub open spec fn asset_views(v: Seq<ScriptAsset>) -> Seq<AssetView> {
    Seq::new(v.len(), |i: int| v[i]@)
}

/// No two assets share an id.
pub open spec fn distinct_ids(s: Seq<AssetView>) -> bool {
    forall|i: int, j: int|
        0 <= i < s.len() && 0 <= j < s.len() && i != j ==> (#[trigger] s[i]).id != (#[trigger] s[j]).id
}

/// Some asset has the id `k`.
pub open spec fn has_id(s: Seq<AssetView>, k: Seq<char>) -> bool {
    exists|i: int| 0 <= i < s.len() && (#[trigger] s[i]).id == k
}

/// A position of an asset with the id `k`.
pub open spec fn id_index(s: Seq<AssetView>, k: Seq<char>) -> int {
    choose|i: int| 0 <= i < s.len() && (#[trigger] s[i]).id == k
}

/// The asset with the id `k`, if any.
pub open spec fn lookup(s: Seq<AssetView>, k: Seq<char>) -> Option<AssetView> {
    if has_id(s, k) {
        Some(s[id_index(s, k)])
    } else {
        None
    }
}

/// An asset as a plain value, if any.
pub open spec fn opt_asset_view(o: Option<ScriptAsset>) -> Option<AssetView> {
    match o {
        Some(a) => Some(a@),
        None => None,
    }
}

/// The position of the least recently used asset, the first one among
/// equals.
pub open spec fn oldest_index(s: Seq<AssetView>) -> int
    decreases s.len(),
{
    if s.len() <= 1 {
        0
    } else {
        let j = oldest_index(s.drop_last());
        if s.last().last_used_at_millis < s[j].last_used_at_millis {
            s.len() - 1
        } else {
            j
        }
    }
}

/// `a` stored: it replaces the asset with its id, or is added.
pub open spec fn put(s: Seq<AssetView>, a: AssetView) -> Seq<AssetView> {
    if has_id(s, a.id) {
        s.update(id_index(s, a.id), a)
    } else {
        s.push(a)
    }
}

/// The assets with the least recently used one dropped when there are
/// `max` or more.
pub open spec fn make_room(s: Seq<AssetView>, max: nat) -> Seq<AssetView> {
    if s.len() >= max && s.len() > 0 {
        s.remove(oldest_index(s))
    } else {
        s
    }
}

/// The assets after saving `a` in a store of at most `max` assets.
pub open spec fn saved(s: Seq<AssetView>, max: nat, a: AssetView) -> Seq<AssetView> {
    put(make_room(s, max), a)
}

/// The assets without the one with the id `k`.
pub open spec fn without(s: Seq<AssetView>, k: Seq<char>) -> Seq<AssetView> {
    if has_id(s, k) {
        s.remove(id_index(s, k))
    } else {
        s
    }
}

/// With distinct ids, the asset at `i` is the one found by its id.
pub proof fn lemma_id_index(s: Seq<AssetView>, k: Seq<char>, i: int)
    requires
        distinct_ids(s),
        0 <= i < s.len(),
        s[i].id == k,
    ensures
        has_id(s, k),
        id_index(s, k) == i,
        lookup(s, k) == Some(s[i]),
{
    assert(has_id(s, k));
    let j = id_index(s, k);
    if j != i {
        assert(s[j].id != s[i].id);
    }
}

/// Dropping an asset keeps the ids distinct.
proof fn lemma_distinct_remove(s: Seq<AssetView>, k: int)
    requires
        distinct_ids(s),
        0 <= k < s.len(),
    ensures
        distinct_ids(s.remove(k)),
{
    let t = s.remove(k);
    assert forall|i: int, j: int|
        0 <= i < t.len() && 0 <= j < t.len() && i != j implies (#[trigger] t[i]).id != (
    #[trigger] t[j]).id by {
        let a = if i < k {
            i
        } else {
            i + 1
        };
        let b = if j < k {
            j
        } else {
            j + 1
        };
        assert(t[i] == s[a]);
        assert(t[j] == s[b]);
    }
}

/// Storing an asset keeps the ids distinct.
proof fn lemma_distinct_put(s: Seq<AssetView>, a: AssetView)
    requires
        distinct_ids(s),
    ensures
        distinct_ids(put(s, a)),
{
    let t = put(s, a);
    if has_id(s, a.id) {
        let k = id_index(s, a.id);
        assert forall|i: int, j: int|
            0 <= i < t.len() && 0 <= j < t.len() && i != j implies (#[trigger] t[i]).id != (
        #[trigger] t[j]).id by {
            if i != k && j != k {
                assert(t[i] == s[i] && t[j] == s[j]);
            } else if i == k {
                assert(t[j] == s[j]);
                assert(s[k].id == a.id);
            } else {
                assert(t[i] == s[i]);
                assert(s[k].id == a.id);
            }
        }
    } else {
        assert forall|i: int, j: int|
            0 <= i < t.len() && 0 <= j < t.len() && i != j implies (#[trigger] t[i]).id != (
        #[trigger] t[j]).id by {
            if i < s.len() && j < s.len() {
                assert(t[i] == s[i] && t[j] == s[j]);
            } else if i < s.len() {
                assert(t[i] == s[i]);
                assert(s[i].id != a.id);
            } else {
                assert(t[j] == s[j]);
                assert(s[j].id != a.id);
            }
        }
    }
}

/// The least recently used asset: its position lies in the sequence and no
/// asset was used before it.
pub proof fn lemma_oldest_is_least_recent(s: Seq<AssetView>)
    requires
        s.len() > 0,
    ensures
        0 <= oldest_index(s) < s.len(),
        forall|j: int|
            0 <= j < s.len() ==> s[oldest_index(s)].last_used_at_millis
                <= (#[trigger] s[j]).last_used_at_millis,
    decreases s.len(),
{
    if s.len() > 1 {
        let t = s.drop_last();
        lemma_oldest_is_least_recent(t);
        assert forall|j: int| 0 <= j < s.len() - 1 implies t[j] == s[j] by {}
    }
}

/// Saving an asset: afterwards its id finds it, the ids stay distinct, an
/// asset with another id is found as before unless it was the least
/// recently used one dropped to make room, and a store within its limit
/// stays within it.
pub proof fn lemma_saved(s: Seq<AssetView>, max: nat, a: AssetView)
    requires
        distinct_ids(s),
    ensures
        distinct_ids(saved(s, max, a)),
        lookup(saved(s, max, a), a.id) == Some(a),
        forall|k: Seq<char>|
            k != a.id ==> #[trigger] lookup(saved(s, max, a), k) == if s.len() >= max && s.len() > 0
                && k == s[oldest_index(s)].id {
                None
            } else {
                lookup(s, k)
            },
        0 < max && s.len() <= max ==> saved(s, max, a).len() <= max,
{
    let r = make_room(s, max);
    if s.len() >= max && s.len() > 0 {
        lemma_oldest_is_least_recent(s);
        lemma_distinct_remove(s, oldest_index(s));
    }
    lemma_distinct_put(r, a);
    let t = put(r, a);
    if has_id(r, a.id) {
        let k = id_index(r, a.id);
        lemma_id_index(t, a.id, k);
    } else {
        lemma_id_index(t, a.id, r.len() as int);
    }
    assert forall|k: Seq<char>| k != a.id implies #[trigger] lookup(t, k) == if s.len() >= max
        && s.len() > 0 && k == s[oldest_index(s)].id {
        None
    } else {
        lookup(s, k)
    } by {
        let o = oldest_index(s);
        let dropped = s.len() >= max && s.len() > 0;
        if has_id(s, k) {
            let i = id_index(s, k);
            lemma_id_index(s, k, i);
            if dropped && i == o {
                if has_id(t, k) {
                    let m = id_index(t, k);
                    if has_id(r, a.id) && m == id_index(r, a.id) {
                        assert(t[m].id == a.id);
                    } else if m == r.len() {
                        assert(t[m] == a);
                    } else {
                        assert(t[m] == r[m]);
                        let p = if m < o {
                            m
                        } else {
                            m + 1
                        };
                        assert(r[m] == s[p]);
                        assert(p != o);
                    }
                }
            } else {
                let ri = if dropped && i > o {
                    i - 1
                } else {
                    i
                };
                assert(r[ri] == s[i]);
                assert(t[ri] == r[ri]) by {
                    if has_id(r, a.id) {
                        assert(ri != id_index(r, a.id));
                    }
                }
                lemma_id_index(t, k, ri);
                if dropped {
                    assert(k != s[o].id);
                }
            }
        } else {
            if has_id(t, k) {
                let m = id_index(t, k);
                if has_id(r, a.id) && m == id_index(r, a.id) {
                    assert(t[m].id == a.id);
                } else if m == r.len() {
                    assert(t[m] == a);
                } else {
                    assert(t[m] == r[m]);
                    let p = if dropped && m >= o {
                        m + 1
                    } else {
                        m
                    };
                    assert(r[m] == s[p]);
                }
            }
        }
    }
}

/// Replacing a stored asset: afterwards its id finds the new one, the ids
/// stay distinct, and every other id finds what it found before.
pub proof fn lemma_updated(s: Seq<AssetView>, a: AssetView)
    requires
        distinct_ids(s),
        has_id(s, a.id),
    ensures
        distinct_ids(s.update(id_index(s, a.id), a)),
        lookup(s.update(id_index(s, a.id), a), a.id) == Some(a),
        forall|k: Seq<char>|
            k != a.id ==> #[trigger] lookup(s.update(id_index(s, a.id), a), k) == lookup(s, k),
{
    let o = id_index(s, a.id);
    let t = s.update(o, a);
    lemma_distinct_put(s, a);
    assert(put(s, a) == t);
    lemma_id_index(t, a.id, o);
    assert forall|k: Seq<char>| k != a.id implies #[trigger] lookup(t, k) == lookup(s, k) by {
        if has_id(s, k) {
            let i = id_index(s, k);
            lemma_id_index(s, k, i);
            assert(i != o);
            assert(t[i] == s[i]);
            lemma_id_index(t, k, i);
        } else if has_id(t, k) {
            let m = id_index(t, k);
            assert(m != o);
            assert(t[m] == s[m]);
        }
    }
}

/// Deleting an asset: its id finds nothing afterwards, the ids stay
/// distinct, and every other id finds what it found before.
pub proof fn lemma_without(s: Seq<AssetView>, id: Seq<char>)
    requires
        distinct_ids(s),
    ensures
        distinct_ids(without(s, id)),
        lookup(without(s, id), id) is None,
        forall|k: Seq<char>| k != id ==> #[trigger] lookup(without(s, id), k) == lookup(s, k),
{
    let t = without(s, id);
    if has_id(s, id) {
        let o = id_index(s, id);
        lemma_id_index(s, id, o);
        lemma_distinct_remove(s, o);
        if has_id(t, id) {
            let m = id_index(t, id);
            let p = if m < o {
                m
            } else {
                m + 1
            };
            assert(t[m] == s[p]);
        }
        assert forall|k: Seq<char>| k != id implies #[trigger] lookup(t, k) == lookup(s, k) by {
            if has_id(s, k) {
                let i = id_index(s, k);
                lemma_id_index(s, k, i);
                let ti = if i > o {
                    i - 1
                } else {
                    i
                };
                assert(t[ti] == s[i]);
                lemma_id_index(t, k, ti);
            } else if has_id(t, k) {
                let m = id_index(t, k);
                let p = if m < o {
                    m
                } else {
                    m + 1
                };
                assert(t[m] == s[p]);
            }
        }
    }
}

/// Whole seconds from `then` to `now` (both in milliseconds), truncated
/// toward zero.
pub open spec fn whole_seconds(now: i64, then: i64) -> int {
    let d = now - then;
    if d >= 0 {
        d / 1000
    } else {
        -((-d) / 1000)
    }
}

/// A signed count of seconds read as an unsigned 64-bit count (a negative
/// count wraps around).
pub open spec fn as_unsigned_seconds(x: int) -> int {
    if x >= 0 {
        x
    } else {
        x + 0x1_0000_0000_0000_0000
    }
}

/// An asset created at `created` is more than `max_age_secs` old at `now`.
pub open spec fn older_than(now: i64, created: i64, max_age_secs: u64) -> bool {
    as_unsigned_seconds(whole_seconds(now, created)) > max_age_secs
}

/// Whether an asset created at `created` is more than `max_age_secs` old at
/// `now`.
pub(crate) fn older_than_exec(now: i64, created: i64, max_age_secs: u64) -> (r: bool)
    ensures
        r == older_than(now, created, max_age_secs),
{
    let d: i128 = now as i128 - created as i128;
    let secs: i128 = if d >= 0 {
        d / 1000
    } else {
        0 - ((0 - d) / 1000)
    };
    let unsigned: i128 = if secs >= 0 {
        secs
    } else {
        secs + 0x1_0000_0000_0000_0000
    };
    unsigned > max_age_secs as i128
}

/// The asset meets every condition the query sets at time `now`.
pub open spec fn query_matches(q: AssetQuery, a: AssetView, now: i64) -> bool {
    &&& match q.task_signature {
        Some(sig) => contains(a.task_signature, sig@),
        None => true,
    }
    &&& match q.url_pattern {
        Some(p) => match a.url_pattern {
            Some(ap) => contains(ap, p@),
            None => false,
        },
        None => true,
    }
    &&& match q.min_success_rate {
        Some(m) => !ratio_below(a.rate(), m),
        None => true,
    }
    &&& match q.max_age_secs {
        Some(x) => !older_than(now, a.created_at_millis, x),
        None => true,
    }
}

/// Whether the asset meets every condition the query sets at time `now`.
fn asset_matches(q: &AssetQuery, a: &ScriptAsset, now: i64) -> (r: bool)
    ensures
        r == query_matches(*q, a@, now),
{
    match &q.task_signature {
        Some(sig) => {
            if !str_contains(a.task_signature.as_str(), sig.as_str()) {
                return false;
            }
        },
        None => {},
    }
    match &q.url_pattern {
        Some(p) => match &a.url_pattern {
            Some(ap) => {
                if !str_contains(ap.as_str(), p.as_str()) {
                    return false;
                }
            },
            None => {
                return false;
            },
        },
        None => {},
    }
    match &q.min_success_rate {
        Some(m) => {
            if a.success_rate().is_below(m) {
                return false;
            }
        },
        None => {},
    }
    match q.max_age_secs {
        Some(x) => !older_than_exec(now, a.created_at_millis, x),
        None => true,
    }
}

/// `a` ranks at least as high as `b`: a higher success rate, or the same
/// rate and a last use no earlier.
pub open spec fn ranks_at_least(a: AssetView, b: AssetView) -> bool {
    ratio_below(b.rate(), a.rate()) || (!ratio_below(a.rate(), b.rate())
        && a.last_used_at_millis >= b.last_used_at_millis)
}

/// The best matching asset: the last of those that rank highest.
pub open spec fn best_match(s: Seq<AssetView>, q: AssetQuery, now: i64) -> Option<AssetView>
    decreases s.len(),
{
    if s.len() == 0 {
        None
    } else {
        let b = best_match(s.drop_last(), q, now);
        let x = s.last();
        if query_matches(q, x, now) && match b {
            Some(y) => ranks_at_least(x, y),
            None => true,
        } {
            Some(x)
        } else {
            b
        }
    }
}

/// A query's age limit holds of every asset it accepts: with
/// `max_age_secs = Some(x)`, a matching asset was created less than `x + 1`
/// seconds before the query time, so it is at most `x` whole seconds old;
/// and an asset created no later than the query time and less than `x + 1`
/// seconds before it passes the age condition.
pub proof fn lemma_age_limit(q: AssetQuery, a: AssetView, now: i64, x: u64)
    requires
        q.max_age_secs == Some(x),
    ensures
        query_matches(q, a, now) ==> now - a.created_at_millis < (x + 1) * 1000,
        0 <= now - a.created_at_millis < (x + 1) * 1000 ==> !older_than(
            now,
            a.created_at_millis,
            x,
        ),
{
}

/// The asset found for a query with an age limit of `x` seconds is at most
/// `x` whole seconds old at the query time.
pub proof fn lemma_found_within_age(s: Seq<AssetView>, q: AssetQuery, now: i64, x: u64)
    requires
        q.max_age_secs == Some(x),
    ensures
        best_match(s, q, now) matches Some(a) ==> now - a.created_at_millis < (x + 1) * 1000,
{
    lemma_best_match(s, q, now);
    if let Some(a) = best_match(s, q, now) {
        lemma_age_limit(q, a, now, x);
    }
}

/// Cross-multiplied comparisons chain when the denominators are positive.
proof fn lemma_cross_chain(an: int, ad: int, bn: int, bd: int, cn: int, cd: int)
    requires
        ad > 0,
        bd > 0,
        cd > 0,
        an * bd >= bn * ad,
        bn * cd >= cn * bd,
    ensures
        an * cd >= cn * ad,
        (an * bd > bn * ad || bn * cd > cn * bd) ==> an * cd > cn * ad,
{
    assert(an * bd * cd >= bn * ad * cd) by (nonlinear_arith)
        requires
            an * bd >= bn * ad,
            cd > 0,
    ;
    assert(bn * cd * ad >= cn * bd * ad) by (nonlinear_arith)
        requires
            bn * cd >= cn * bd,
            ad > 0,
    ;
    assert(bn * ad * cd == bn * cd * ad) by (nonlinear_arith);
    assert(cn * bd * ad == cn * ad * bd) by (nonlinear_arith);
    assert(an * bd * cd == an * cd * bd) by (nonlinear_arith);
    assert(an * cd >= cn * ad) by (nonlinear_arith)
        requires
            an * cd * bd >= cn * ad * bd,
            bd > 0,
    ;
    if an * bd > bn * ad || bn * cd > cn * bd {
        if an * bd > bn * ad {
            assert(an * bd * cd > bn * ad * cd) by (nonlinear_arith)
                requires
                    an * bd > bn * ad,
                    cd > 0,
            ;
        } else {
            assert(bn * cd * ad > cn * bd * ad) by (nonlinear_arith)
                requires
                    bn * cd > cn * bd,
                    ad > 0,
            ;
        }
        assert(an * cd > cn * ad) by (nonlinear_arith)
            requires
                an * cd * bd > cn * ad * bd,
                bd > 0,
        ;
    }
}

/// Ranking is total and transitive.
proof fn lemma_ranks(a: AssetView, b: AssetView, c: AssetView)
    ensures
        ranks_at_least(a, b) || ranks_at_least(b, a),
        ranks_at_least(a, b) && ranks_at_least(b, c) ==> ranks_at_least(a, c),
{
    let (ra, rb, rc) = (a.rate(), b.rate(), c.rate());
    let (an, ad) = (ra.numerator as int, ra.denominator as int);
    let (bn, bd) = (rb.numerator as int, rb.denominator as int);
    let (cn, cd) = (rc.numerator as int, rc.denominator as int);
    assert(ad > 0 && bd > 0 && cd > 0);
    if ranks_at_least(a, b) && ranks_at_least(b, c) {
        assert(an * bd >= bn * ad);
        assert(bn * cd >= cn * bd);
        lemma_cross_chain(an, ad, bn, bd, cn, cd);
    }
}

/// The best match is a matching asset of the store that ranks at least as
/// high as every matching asset; there is none only when nothing matches.
pub proof fn lemma_best_match(s: Seq<AssetView>, q: AssetQuery, now: i64)
    ensures
        best_match(s, q, now) is None <==> forall|i: int|
            0 <= i < s.len() ==> !query_matches(q, #[trigger] s[i], now),
        best_match(s, q, now) matches Some(x) ==> {
            &&& s.contains(x)
            &&& query_matches(q, x, now)
            &&& forall|i: int|
                0 <= i < s.len() && query_matches(q, #[trigger] s[i], now) ==> ranks_at_least(
                    x,
                    s[i],
                )
        },
    decreases s.len(),
{
    if s.len() > 0 {
        let t = s.drop_last();
        lemma_best_match(t, q, now);
        let b = best_match(t, q, now);
        let x = s.last();
        assert forall|i: int| 0 <= i < t.len() implies t[i] == s[i] by {}
        assert(s[s.len() - 1] == x);
        match b {
            Some(y) => {
                let j = choose|j: int| 0 <= j < t.len() && t[j] == y;
                assert(s[j] == y);
                if query_matches(q, x, now) && ranks_at_least(x, y) {
                    assert forall|i: int|
                        0 <= i < s.len() && query_matches(q, #[trigger] s[i], now) implies ranks_at_least(
                        x,
                        s[i],
                    ) by {
                        if i < s.len() - 1 {
                            lemma_ranks(x, y, s[i]);
                        } else {
                            lemma_ranks(x, x, x);
                        }
                    }
                } else {
                    assert forall|i: int|
                        0 <= i < s.len() && query_matches(q, #[trigger] s[i], now) implies ranks_at_least(
                        y,
                        s[i],
                    ) by {
                        if i == s.len() - 1 {
                            lemma_ranks(x, y, x);
                        }
                    }
                }
            },
            None => {
                if query_matches(q, x, now) {
                    assert forall|i: int|
                        0 <= i < s.len() && query_matches(q, #[trigger] s[i], now) implies ranks_at_least(
                        x,
                        s[i],
                    ) by {
                        lemma_ranks(x, x, x);
                    }
                }
            },
        }
    }
}

/// An in-memory asset store, keyed by asset id.
pub struct MemoryAssetStore {
    assets: Vec<ScriptAsset>,
    config: AssetStoreConfig,
}

impl View for MemoryAssetStore {
    type V = Seq<AssetView>;

    closed spec fn view(&self) -> Seq<AssetView> {
        asset_views(self.assets@)
    }
}

/// The position of the asset with the id `id`, if any.
fn position_of(v: &Vec<ScriptAsset>, id: &str) -> (r: Option<usize>)
    requires
        distinct_ids(asset_views(v@)),
    ensures
        match r {
            Some(i) => i < v@.len() && v@[i as int]@.id == id@ && has_id(asset_views(v@), id@)
                && id_index(asset_views(v@), id@) == i,
            None => !has_id(asset_views(v@), id@),
        },
{
    let ghost s = asset_views(v@);
    let mut i: usize = 0;
    while i < v.len()
        invariant
            0 <= i <= v@.len(),
            s == asset_views(v@),
            distinct_ids(s),
            forall|j: int| 0 <= j < i ==> (#[trigger] s[j]).id != id@,
        decreases v.len() - i,
    {
        if str_eq(v[i].id.as_str(), id) {
            proof {
                assert(s[i as int] == v@[i as int]@);
                lemma_id_index(s, id@, i as int);
            }
            return Some(i);
        }
        assert(s[i as int] == v@[i as int]@);
        i = i + 1;
    }
    None
}

/// The position of the least recently used asset.
fn oldest_position(v: &Vec<ScriptAsset>) -> (r: usize)
    requires
        v@.len() > 0,
    ensures
        r == oldest_index(asset_views(v@)),
{
    let ghost s = asset_views(v@);
    let mut best: usize = 0;
    let mut i: usize = 1;
    proof {
        assert(s.take(1).len() == 1);
    }
    while i < v.len()
        invariant
            1 <= i <= v@.len(),
            s == asset_views(v@),
            best < i,
            best == oldest_index(s.take(i as int)),
        decreases v.len() - i,
    {
        proof {
            let t = s.take(i + 1);
            assert(t.drop_last() =~= s.take(i as int));
            assert(t.last() == v@[i as int]@);
            lemma_oldest_is_least_recent(s.take(i as int));
            assert(s.take(i as int)[best as int] == v@[best as int]@);
        }
        if v[i].last_used_at_millis < v[best].last_used_at_millis {
            best = i;
        }
        i = i + 1;
    }
    proof {
        assert(s.take(i as int) =~= s);
    }
    best
}

impl MemoryAssetStore {
    /// The ids are distinct.
    pub open spec fn wf(&self) -> bool {
        distinct_ids(self@)
    }

    /// The maximum number of assets.
    pub closed spec fn limit(&self) -> nat {
        self.config.max_assets as nat
    }

    /// An empty store with the default configuration.
    pub fn new() -> (r: Self)
        ensures
            r.wf(),
            r@.len() == 0,
            r.limit() == 1000,
    {
        MemoryAssetStore::with_config(AssetStoreConfig::default())
    }

    /// An empty store with the given configuration.
    pub fn with_config(config: AssetStoreConfig) -> (r: Self)
        ensures
            r.wf(),
            r@.len() == 0,
            r.limit() == config.max_assets,
    {
        let r = MemoryAssetStore { assets: Vec::new(), config };
        proof {
            assert(r@.len() == 0);
        }
        r
    }

    /// Saves an asset under its id, replacing one with the same id.  When
    /// the store already holds its maximum, the least recently used asset is
    /// dropped first.  Returns the asset's id.
    pub fn save(&mut self, asset: ScriptAsset) -> (r: Result<String, AssetStoreError>)
        requires
            old(self).wf(),
        ensures
            final(self).wf(),
            final(self).limit() == old(self).limit(),
            final(self)@ == saved(old(self)@, old(self).limit(), asset@),
            r matches Ok(id) && id@ == asset@.id,
    {
        let ghost s0 = self@;
        let ghost a = asset@;
        let id = asset.id.clone();
        let n = self.assets.len();
        if n >= self.config.max_assets && n > 0 {
            let k = oldest_position(&self.assets);
            proof {
                lemma_oldest_is_least_recent(s0);
            }
            self.assets.remove(k);
            proof {
                assert(self@ =~= s0.remove(k as int));
                lemma_distinct_remove(s0, k as int);
            }
        }
        let ghost s1 = self@;
        proof {
            assert(s1 == make_room(s0, self.limit()));
        }
        match position_of(&self.assets, asset.id.as_str()) {
            Some(i) => {
                self.assets.set(i, asset);
                proof {
                    assert(self@ =~= s1.update(i as int, a));
                }
            },
            None => {
                self.assets.push(asset);
                proof {
                    assert(self@ =~= s1.push(a));
                }
            },
        }
        proof {
            lemma_distinct_put(s1, a);
        }
        Ok(id)
    }

    /// The asset with the given id, if any.
    pub fn get(&self, id: &str) -> (r: Result<Option<ScriptAsset>, AssetStoreError>)
        requires
            self.wf(),
        ensures
            r matches Ok(o) && opt_asset_view(o) == lookup(self@, id@),
    {
        match position_of(&self.assets, id) {
            Some(i) => {
                let a = copy_asset(&self.assets[i]);
                proof {
                    assert(self@[i as int] == self.assets@[i as int]@);
                }
                Ok(Some(a))
            },
            None => Ok(None),
        }
    }

    /// Replaces the stored asset with the same id; an asset that is not
    /// stored is refused.
    pub fn update(&mut self, asset: &ScriptAsset) -> (r: Result<(), AssetStoreError>)
        requires
            old(self).wf(),
        ensures
            final(self).wf(),
            final(self).limit() == old(self).limit(),
            has_id(old(self)@, asset@.id) ==> r is Ok && final(self)@ == old(self)@.update(
                id_index(old(self)@, asset@.id),
                asset@,
            ),
            !has_id(old(self)@, asset@.id) ==> final(self)@ == old(self)@ && (r matches Err(
                AssetStoreError::NotFound(m),
            ) && m@ == asset@.id),
    {
        let ghost s0 = self@;
        match position_of(&self.assets, asset.id.as_str()) {
            Some(i) => {
                let a = copy_asset(asset);
                self.assets.set(i, a);
                proof {
                    assert(self@ =~= s0.update(i as int, asset@));
                    lemma_distinct_put(s0, asset@);
                    assert(put(s0, asset@) == s0.update(i as int, asset@));
                }
                Ok(())
            },
            None => Err(AssetStoreError::NotFound(asset.id.clone())),
        }
    }

    /// Removes the asset with the given id, if there is one.
    pub fn delete(&mut self, id: &str) -> (r: Result<(), AssetStoreError>)
        requires
            old(self).wf(),
        ensures
            final(self).wf(),
            final(self).limit() == old(self).limit(),
            final(self)@ == without(old(self)@, id@),
            r is Ok,
    {
        let ghost s0 = self@;
        match position_of(&self.assets, id) {
            Some(i) => {
                self.assets.remove(i);
                proof {
                    assert(self@ =~= s0.remove(i as int));
                    lemma_distinct_remove(s0, i as int);
                }
            },
            None => {},
        }
        Ok(())
    }

    /// Records one execution of the asset with the given id: one more use and
    /// execution, one more success when it succeeded, last used now.  An
    /// asset that is not stored is refused.
    pub fn record_usage(&mut self, id: &str, success: bool) -> (r: Result<(), AssetStoreError>)
        requires
            old(self).wf(),
            has_id(old(self)@, id@) ==> usage_fits(lookup(old(self)@, id@)->0, success),
        ensures
            final(self).wf(),
            final(self).limit() == old(self).limit(),
            has_id(old(self)@, id@) ==> {
                let k = id_index(old(self)@, id@);
                &&& r is Ok
                &&& final(self)@ == old(self)@.update(k, final(self)@[k])
                &&& usage_recorded(old(self)@[k], final(self)@[k], success)
            },
            !has_id(old(self)@, id@) ==> final(self)@ == old(self)@ && (r matches Err(
                AssetStoreError::NotFound(m),
            ) && m@ == id@),
    {
        let ghost s0 = self@;
        match position_of(&self.assets, id) {
            Some(i) => {
                let mut a = copy_asset(&self.assets[i]);
                proof {
                    assert(s0[i as int] == self.assets@[i as int]@);
                    lemma_id_index(s0, id@, i as int);
                }
                a.record_usage(success);
                let ghost na = a@;
                self.assets.set(i, a);
                proof {
                    assert(self@ =~= s0.update(i as int, na));
                    lemma_distinct_put(s0, na);
                    assert(put(s0, na) == s0.update(i as int, na));
                }
                Ok(())
            },
            None => Err(AssetStoreError::NotFound(id.to_string())),
        }
    }
}

/// How many assets a listing of `n` assets shows under `limit`.
pub open spec fn listed_count(n: nat, limit: Option<usize>) -> nat {
    match limit {
        Some(l) => if (l as nat) < n {
            l as nat
        } else {
            n
        },
        None => n,
    }
}

/// Each position paired with its rank, lowest rank first once sorted: the
/// most recently used asset ranks lowest.
pub open spec fn recency_ranks(s: Seq<AssetView>) -> Seq<(i128, usize)> {
    Seq::new(s.len(), |i: int| ((0 - s[i].last_used_at_millis) as i128, i as usize))
}

/// Each position paired with its rank: the most used asset ranks lowest.
pub open spec fn usage_ranks(s: Seq<AssetView>) -> Seq<(i128, usize)> {
    Seq::new(s.len(), |i: int| ((0 - s[i].use_count) as i128, i as usize))
}

/// The assets, most recently used first (ties in store order), at most
/// `limit` of them.
pub open spec fn recent_first(s: Seq<AssetView>, limit: Option<usize>) -> Seq<AssetView> {
    let order = sort_by_rank(recency_ranks(s));
    Seq::new(listed_count(s.len(), limit), |i: int| s[order[i].1 as int])
}

/// The ids of the five most used assets, most used first (ties in store
/// order).
pub open spec fn most_used_ids(s: Seq<AssetView>) -> Seq<Seq<char>> {
    let order = sort_by_rank(usage_ranks(s));
    Seq::new(listed_count(s.len(), Some(5)), |i: int| s[order[i].1 as int].id)
}

/// The sorted ranks are those of the assets, in ascending order.
proof fn lemma_sorted_ranks(r: Seq<(i128, usize)>, n: nat)
    requires
        r.len() == n,
        forall|i: int| 0 <= i < n ==> (#[trigger] r[i]).1 == i,
    ensures
        sort_by_rank(r).len() == n,
        forall|i: int|
            0 <= i < n ==> {
                let e = #[trigger] sort_by_rank(r)[i];
                &&& 0 <= e.1 < n
                &&& e == r[e.1 as int]
            },
        forall|i: int, j: int|
            0 <= i <= j < n ==> (#[trigger] sort_by_rank(r)[i]).0 <= (
            #[trigger] sort_by_rank(r)[j]).0,
{
    broadcast use vstd::seq_lib::group_to_multiset_ensures;

    lemma_sort_by_rank_ascending(r);
    let o = sort_by_rank(r);
    assert forall|i: int| 0 <= i < n implies {
        let e = #[trigger] o[i];
        &&& 0 <= e.1 < n
        &&& e == r[e.1 as int]
    } by {
        let e = o[i];
        assert(o.to_multiset().count(e) > 0);
        assert(r.contains(e));
        let m = choose|m: int| 0 <= m < r.len() && r[m] == e;
        assert(r[m].1 == m);
    }
}

/// The listing is ordered by last use, most recent first, and holds as
/// many assets as the limit allows, each one of the store.
pub proof fn lemma_recent_first(s: Seq<AssetView>, limit: Option<usize>)
    requires
        s.len() <= usize::MAX,
    ensures
        recent_first(s, limit).len() == listed_count(s.len(), limit),
        forall|i: int|
            0 <= i < recent_first(s, limit).len() ==> s.contains(
                #[trigger] recent_first(s, limit)[i],
            ),
        forall|i: int, j: int|
            0 <= i <= j < recent_first(s, limit).len() ==> (#[trigger] recent_first(
                s,
                limit,
            )[i]).last_used_at_millis >= (#[trigger] recent_first(s, limit)[j]).last_used_at_millis,
{
    let r = recency_ranks(s);
    assert forall|i: int| 0 <= i < s.len() implies (#[trigger] r[i]).1 == i by {}
    lemma_sorted_ranks(r, s.len());
    let o = sort_by_rank(r);
    let l = recent_first(s, limit);
    assert forall|i: int| 0 <= i < l.len() implies s.contains(#[trigger] l[i]) by {
        assert(o[i] == r[o[i].1 as int]);
        assert(l[i] == s[o[i].1 as int]);
    }
    assert forall|i: int, j: int| 0 <= i <= j < l.len() implies (#[trigger] l[i]).last_used_at_millis
        >= (#[trigger] l[j]).last_used_at_millis by {
        assert(o[i].0 <= o[j].0);
        assert(o[i] == r[o[i].1 as int]);
        assert(o[j] == r[o[j].1 as int]);
    }
}

/// The sum of the executions of the assets.
pub open spec fn executions_of(s: Seq<AssetView>) -> nat
    decreases s.len(),
{
    if s.len() == 0 {
        0
    } else {
        executions_of(s.drop_last()) + s.last().total_executions as nat
    }
}

/// The sum of the successful executions of the assets.
pub open spec fn successes_of(s: Seq<AssetView>) -> nat
    decreases s.len(),
{
    if s.len() == 0 {
        0
    } else {
        successes_of(s.drop_last()) + s.last().successful_executions as nat
    }
}

/// A prefix sums to no more than the whole.
proof fn lemma_sums_prefix(s: Seq<AssetView>, i: int)
    requires
        0 <= i <= s.len(),
    ensures
        executions_of(s.take(i)) <= executions_of(s),
        successes_of(s.take(i)) <= successes_of(s),
    decreases s.len(),
{
    if i == s.len() {
        assert(s.take(i) =~= s);
    } else {
        assert(s.take(i) =~= s.drop_last().take(i));
        lemma_sums_prefix(s.drop_last(), i);
    }
}

/// An asset due for removal: older than the maximum age, or run more than
/// five times with a success rate below the minimum.
pub open spec fn expired(a: AssetView, now: i64, max_age_secs: u64, min_success_rate: Ratio) -> bool {
    older_than(now, a.created_at_millis, max_age_secs) || (a.total_executions > 5 && ratio_below(
        a.rate(),
        min_success_rate,
    ))
}

/// The assets that are not due for removal, in order.
pub open spec fn survivors(s: Seq<AssetView>, now: i64, max_age_secs: u64, min_success_rate: Ratio) -> Seq<
    AssetView,
>
    decreases s.len(),
{
    if s.len() == 0 {
        s
    } else {
        let p = survivors(s.drop_last(), now, max_age_secs, min_success_rate);
        if expired(s.last(), now, max_age_secs, min_success_rate) {
            p
        } else {
            p.push(s.last())
        }
    }
}

/// Cleanup keeps exactly the assets that are not due for removal, and the
/// ids stay distinct.
pub proof fn lemma_survivors(s: Seq<AssetView>, now: i64, max_age_secs: u64, min_success_rate: Ratio)
    ensures
        survivors(s, now, max_age_secs, min_success_rate).len() <= s.len(),
        forall|x: AssetView|
            #[trigger] survivors(s, now, max_age_secs, min_success_rate).contains(x) <==> (
            s.contains(x) && !expired(x, now, max_age_secs, min_success_rate)),
        distinct_ids(s) ==> distinct_ids(survivors(s, now, max_age_secs, min_success_rate)),
    decreases s.len(),
{
    if s.len() > 0 {
        let t = s.drop_last();
        let x = s.last();
        lemma_survivors(t, now, max_age_secs, min_success_rate);
        let p = survivors(t, now, max_age_secs, min_success_rate);
        assert(s =~= t.push(x));
        assert forall|y: AssetView| #[trigger]
            survivors(s, now, max_age_secs, min_success_rate).contains(y) <==> (s.contains(y)
                && !expired(y, now, max_age_secs, min_success_rate)) by {
            let q = survivors(s, now, max_age_secs, min_success_rate);
            if s.contains(y) && !expired(y, now, max_age_secs, min_success_rate) {
                let k = choose|k: int| 0 <= k < s.len() && s[k] == y;
                if k < t.len() {
                    assert(t[k] == y);
                    assert(t.contains(y));
                    assert(p.contains(y));
                    let m = choose|m: int| 0 <= m < p.len() && p[m] == y;
                    if !expired(x, now, max_age_secs, min_success_rate) {
                        assert(q[m] == y);
                    }
                    assert(q.contains(y));
                } else {
                    assert(y == x);
                    assert(q == p.push(x));
                    assert(q[p.len() as int] == y);
                }
            }
            if q.contains(y) {
                let m = choose|m: int| 0 <= m < q.len() && q[m] == y;
                if expired(x, now, max_age_secs, min_success_rate) || m < p.len() {
                    assert(p[m] == y);
                    assert(p.contains(y));
                    let k = choose|k: int| 0 <= k < t.len() && t[k] == y;
                    assert(s[k] == y);
                } else {
                    assert(y == x);
                    assert(s[s.len() - 1] == x);
                }
            }
        }
        if distinct_ids(s) {
            assert(distinct_ids(t)) by {
                assert forall|i: int, j: int|
                    0 <= i < t.len() && 0 <= j < t.len() && i != j implies (#[trigger] t[i]).id != (
                #[trigger] t[j]).id by {
                    assert(t[i] == s[i] && t[j] == s[j]);
                }
            }
            if !expired(x, now, max_age_secs, min_success_rate) {
                let q = p.push(x);
                assert forall|i: int, j: int|
                    0 <= i < q.len() && 0 <= j < q.len() && i != j implies (#[trigger] q[i]).id != (
                #[trigger] q[j]).id by {
                    if i < p.len() && j < p.len() {
                        assert(q[i] == p[i] && q[j] == p[j]);
                    } else {
                        let m = if i < p.len() {
                            i
                        } else {
                            j
                        };
                        assert(q[m] == p[m]);
                        assert(p.contains(p[m]));
                        let k = choose|k: int| 0 <= k < t.len() && t[k] == p[m];
                        assert(s[k] == t[k]);
                        assert(s[s.len() - 1] == x);
                    }
                }
            }
        }
    }
}

impl MemoryAssetStore {
    /// The best asset matching the query at time `now` (milliseconds): among
    /// the matching ones, the highest success rate, then the latest use.
    pub fn find_at(&self, query: &AssetQuery, now: i64) -> (r: Result<
        Option<ScriptAsset>,
        AssetStoreError,
    >)
        ensures
            r matches Ok(o) && opt_asset_view(o) == best_match(self@, *query, now),
    {
        let ghost s = self@;
        let mut best: Option<usize> = None;
        let mut i: usize = 0;
        while i < self.assets.len()
            invariant
                0 <= i <= self.assets@.len(),
                s == self@,
                s == asset_views(self.assets@),
                match best {
                    Some(b) => b < i && best_match(s.take(i as int), *query, now) == Some(s[b as int]),
                    None => best_match(s.take(i as int), *query, now) is None,
                },
            decreases self.assets.len() - i,
        {
            proof {
                let t = s.take(i + 1);
                assert(t.drop_last() =~= s.take(i as int));
                assert(t.last() == self.assets@[i as int]@);
            }
            if asset_matches(query, &self.assets[i], now) {
                let take = match best {
                    Some(b) => {
                        proof {
                            assert(s[b as int] == self.assets@[b as int]@);
                        }
                        let x = &self.assets[i];
                        let y = &self.assets[b];
                        let (rx, ry) = (x.success_rate(), y.success_rate());
                        ry.is_below(&rx) || (!rx.is_below(&ry) && x.last_used_at_millis
                            >= y.last_used_at_millis)
                    },
                    None => true,
                };
                if take {
                    best = Some(i);
                }
            }
            i = i + 1;
        }
        proof {
            assert(s.take(i as int) =~= s);
        }
        match best {
            Some(b) => {
                proof {
                    assert(s[b as int] == self.assets@[b as int]@);
                }
                Ok(Some(copy_asset(&self.assets[b])))
            },
            None => Ok(None),
        }
    }

    /// The best asset matching the query now: among the matching ones, the
    /// highest success rate, then the latest use.  The time is the clock's.
    pub fn find(&self, query: &AssetQuery) -> (r: Result<Option<ScriptAsset>, AssetStoreError>)
        ensures
            r matches Ok(o) && exists|now: i64| opt_asset_view(o) == best_match(self@, *query, now),
    {
        let now = crate::context::subagent::utc_now_millis();
        self.find_at(query, now)
    }

    /// The assets, most recently used first, at most `limit` of them.
    pub fn list(&self, limit: Option<usize>) -> (r: Result<Vec<ScriptAsset>, AssetStoreError>)
        ensures
            r matches Ok(v) && asset_views(v@) == recent_first(self@, limit),
    {
        let ghost s = self@;
        let n = self.assets.len();
        let mut ranks: Vec<(i128, usize)> = Vec::new();
        let mut i: usize = 0;
        while i < n
            invariant
                0 <= i <= n,
                n == self.assets@.len(),
                s == asset_views(self.assets@),
                ranks@ == recency_ranks(s).take(i as int),
            decreases n - i,
        {
            ranks.push((0i128 - (self.assets[i].last_used_at_millis as i128), i));
            proof {
                assert(ranks@ =~= recency_ranks(s).take(i + 1));
            }
            i = i + 1;
        }
        proof {
            assert(ranks@ =~= recency_ranks(s));
            lemma_sorted_ranks(recency_ranks(s), n as nat);
        }
        let order = stable_sort_by_rank(ranks);
        let count = match limit {
            Some(l) => if l < n {
                l
            } else {
                n
            },
            None => n,
        };
        let mut out: Vec<ScriptAsset> = Vec::new();
        let mut j: usize = 0;
        while j < count
            invariant
                0 <= j <= count,
                count == listed_count(n as nat, limit),
                n == self.assets@.len(),
                s == asset_views(self.assets@),
                order@ == sort_by_rank(recency_ranks(s)),
                order@.len() == n,
                forall|k: int| 0 <= k < n ==> 0 <= (#[trigger] order@[k]).1 < n,
                asset_views(out@) == recent_first(s, limit).take(j as int),
            decreases count - j,
        {
            let k = order[j].1;
            assert(order@[j as int].1 < n);
            let ghost before = out@;
            let c = copy_asset(&self.assets[k]);
            out.push(c);
            proof {
                assert(s[k as int] == self.assets@[k as int]@);
                assert(recent_first(s, limit)[j as int] == s[k as int]);
                assert(asset_views(out@) =~= asset_views(before).push(c@));
                assert(asset_views(out@) =~= recent_first(s, limit).take(j + 1));
            }
            j = j + 1;
        }
        proof {
            assert(recent_first(s, limit).take(count as int) =~= recent_first(s, limit));
        }
        Ok(out)
    }

    /// Totals over the assets, the five most used ids, and the tokens saved
    /// at 4000 per successful execution.
    pub fn stats(&self) -> (r: Result<AssetStats, AssetStoreError>)
        requires
            executions_of(self@) <= u64::MAX,
            successes_of(self@) * 4000 <= u64::MAX,
        ensures
            r matches Ok(st) && {
                &&& st.total_assets == self@.len()
                &&& st.total_executions == executions_of(self@)
                &&& st.successful_executions == successes_of(self@)
                &&& st.tokens_saved == successes_of(self@) * 4000
                &&& crate::text::views_of(st.most_used_assets@) == most_used_ids(self@)
            },
    {
        let ghost s = self@;
        let n = self.assets.len();
        let mut total: u64 = 0;
        let mut ok: u64 = 0;
        let mut ranks: Vec<(i128, usize)> = Vec::new();
        let mut i: usize = 0;
        while i < n
            invariant
                0 <= i <= n,
                n == self.assets@.len(),
                s == asset_views(self.assets@),
                executions_of(s) <= u64::MAX,
                successes_of(s) * 4000 <= u64::MAX,
                total == executions_of(s.take(i as int)),
                ok == successes_of(s.take(i as int)),
                ranks@ == usage_ranks(s).take(i as int),
            decreases n - i,
        {
            proof {
                let t = s.take(i + 1);
                assert(t.drop_last() =~= s.take(i as int));
                assert(t.last() == self.assets@[i as int]@);
                lemma_sums_prefix(s, i + 1);
            }
            total = total + self.assets[i].total_executions;
            ok = ok + self.assets[i].successful_executions;
            ranks.push((0i128 - (self.assets[i].use_count as i128), i));
            proof {
                assert(ranks@ =~= usage_ranks(s).take(i + 1));
            }
            i = i + 1;
        }
        proof {
            assert(s.take(n as int) =~= s);
            assert(ranks@ =~= usage_ranks(s));
            lemma_sorted_ranks(usage_ranks(s), n as nat);
        }
        let order = stable_sort_by_rank(ranks);
        let count: usize = if n < 5 {
            n
        } else {
            5
        };
        let mut most_used: Vec<String> = Vec::new();
        let mut j: usize = 0;
        while j < count
            invariant
                0 <= j <= count,
                count == listed_count(n as nat, Some(5usize)),
                n == self.assets@.len(),
                s == asset_views(self.assets@),
                order@ == sort_by_rank(usage_ranks(s)),
                order@.len() == n,
                forall|k: int| 0 <= k < n ==> 0 <= (#[trigger] order@[k]).1 < n,
                crate::text::views_of(most_used@) == most_used_ids(s).take(j as int),
            decreases count - j,
        {
            let k = order[j].1;
            assert(order@[j as int].1 < n);
            let ghost before = most_used@;
            let c = self.assets[k].id.clone();
            most_used.push(c);
            proof {
                assert(s[k as int] == self.assets@[k as int]@);
                assert(most_used_ids(s)[j as int] == s[k as int].id);
                assert(crate::text::views_of(most_used@) =~= crate::text::views_of(before).push(c@));
                assert(crate::text::views_of(most_used@) =~= most_used_ids(s).take(j + 1));
            }
            j = j + 1;
        }
        proof {
            assert(most_used_ids(s).take(count as int) =~= most_used_ids(s));
        }
        Ok(
            AssetStats {
                total_assets: n as u64,
                total_executions: total,
                successful_executions: ok,
                most_used_assets: most_used,
                tokens_saved: ok * 4000,
            },
        )
    }

    /// Removes the assets due for removal at time `now` (milliseconds): those
    /// older than `max_age_secs`, and those run more than five times with a
    /// success rate below `min_success_rate`.  Returns how many went.
    pub fn cleanup_at(&mut self, max_age_secs: u64, min_success_rate: Ratio, now: i64) -> (r: Result<
        usize,
        AssetStoreError,
    >)
        requires
            old(self).wf(),
        ensures
            final(self).wf(),
            final(self).limit() == old(self).limit(),
            final(self)@ == survivors(old(self)@, now, max_age_secs, min_success_rate),
            r matches Ok(count) && count == old(self)@.len() - final(self)@.len(),
    {
        let ghost s = self@;
        let mut kept: Vec<ScriptAsset> = Vec::new();
        let mut i: usize = 0;
        proof {
            assert(s.take(0) =~= Seq::<AssetView>::empty());
            assert(asset_views(kept@) =~= Seq::<AssetView>::empty());
        }
        while i < self.assets.len()
            invariant
                0 <= i <= self.assets@.len(),
                s == asset_views(self.assets@),
                asset_views(kept@) == survivors(s.take(i as int), now, max_age_secs, min_success_rate),
            decreases self.assets.len() - i,
        {
            proof {
                let t = s.take(i + 1);
                assert(t.drop_last() =~= s.take(i as int));
                assert(t.last() == self.assets@[i as int]@);
            }
            let a = &self.assets[i];
            let gone = older_than_exec(now, a.created_at_millis, max_age_secs) || (a.total_executions
                > 5 && a.success_rate().is_below(&min_success_rate));
            if !gone {
                let ghost before = kept@;
                kept.push(copy_asset(a));
                proof {
                    assert(asset_views(kept@) =~= asset_views(before).push(a@));
                }
            }
            i = i + 1;
        }
        proof {
            assert(s.take(i as int) =~= s);
            lemma_survivors(s, now, max_age_secs, min_success_rate);
        }
        let removed = self.assets.len() - kept.len();
        self.assets = kept;
        Ok(removed)
    }

    /// Removes the assets due for removal now (see `cleanup_at`); the time is
    /// the clock's.
    pub fn cleanup(&mut self, max_age_secs: u64, min_success_rate: Ratio) -> (r: Result<
        usize,
        AssetStoreError,
    >)
        requires
            old(self).wf(),
        ensures
            final(self).wf(),
            final(self).limit() == old(self).limit(),
            exists|now: i64|
                final(self)@ == survivors(old(self)@, now, max_age_secs, min_success_rate),
            r matches Ok(count) && count == old(self)@.len() - final(self)@.len(),
    {
        let now = crate::context::subagent::utc_now_millis();
        self.cleanup_at(max_age_secs, min_success_rate, now)
    }
}

impl Default for MemoryAssetStore {
    fn default() -> (r: Self)
        ensures
            r.wf(),
            r@.len() == 0,
            r.limit() == 1000,
    {
        MemoryAssetStore::new()
    }
}

} // verus!
