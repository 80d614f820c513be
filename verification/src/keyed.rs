//! Finite maps kept as sequences of key/value pairs with distinct keys.
//!
//! The repositories store their tables in vectors; these spec functions and
//! lemmas give such a table its meaning as a map.

use vstd::prelude::*;

verus! {

/// The value that the last pair with key `k` carries, if any.
pub open spec fn lookup<K, V>(s: Seq<(K, V)>, k: K) -> Option<V>
    decreases s.len(),
{
    if s.len() == 0 {
        None
    } else if s.last().0 == k {
        Some(s.last().1)
    } else {
        lookup(s.drop_last(), k)
    }
}

/// No two pairs of `s` share a key.
pub open spec fn keys_unique<K, V>(s: Seq<(K, V)>) -> bool {
    forall|i: int, j: int| 0 <= i < j < s.len() ==> s[i].0 != s[j].0
}

/// `s` has a pair with key `k`.
pub open spec fn has_key<K, V>(s: Seq<(K, V)>, k: K) -> bool {
    exists|i: int| 0 <= i < s.len() && s[i].0 == k
}

pub proof fn lemma_lookup_push<K, V>(s: Seq<(K, V)>, k: K, v: V, q: K)
    ensures
        lookup(s.push((k, v)), q) == if q == k {
            Some(v)
        } else {
            lookup(s, q)
        },
{
    assert(s.push((k, v)).drop_last() =~= s);
}

pub proof fn lemma_lookup_none<K, V>(s: Seq<(K, V)>, q: K)
    ensures
        lookup(s, q) is None <==> !has_key(s, q),
    decreases s.len(),
{
    if s.len() > 0 {
        let t = s.drop_last();
        lemma_lookup_none(t, q);
        if has_key(t, q) {
            let i = choose|i: int| 0 <= i < t.len() && t[i].0 == q;
            assert(s[i].0 == q);
        }
        if has_key(s, q) && s.last().0 != q {
            let i = choose|i: int| 0 <= i < s.len() && s[i].0 == q;
            assert(t[i].0 == q);
        }
    }
}

pub proof fn lemma_lookup_index<K, V>(s: Seq<(K, V)>, i: int)
    requires
        keys_unique(s),
        0 <= i < s.len(),
    ensures
        lookup(s, s[i].0) == Some(s[i].1),
    decreases s.len(),
{
    if i < s.len() - 1 {
        let t = s.drop_last();
        assert(t[i] == s[i]);
        lemma_lookup_index(t, i);
    }
}

/// The key `q` occurs only at index `i`: `lookup` at `q` finds that pair.
pub proof fn lemma_lookup_found<K, V>(s: Seq<(K, V)>, q: K) -> (i: int)
    requires
        keys_unique(s),
        lookup(s, q) is Some,
    ensures
        0 <= i < s.len(),
        s[i].0 == q,
        lookup(s, q) == Some(s[i].1),
{
    lemma_lookup_none(s, q);
    let i = choose|i: int| 0 <= i < s.len() && s[i].0 == q;
    lemma_lookup_index(s, i);
    i
}

pub proof fn lemma_unique_push<K, V>(s: Seq<(K, V)>, k: K, v: V)
    requires
        keys_unique(s),
        !has_key(s, k),
    ensures
        keys_unique(s.push((k, v))),
{
    let t = s.push((k, v));
    assert forall|i: int, j: int| 0 <= i < j < t.len() implies t[i].0 != t[j].0 by {
        if j == s.len() {
            assert(s[i].0 != k);
        }
    }
}

pub proof fn lemma_lookup_update<K, V>(s: Seq<(K, V)>, i: int, v: V, q: K)
    requires
        keys_unique(s),
        0 <= i < s.len(),
    ensures
        keys_unique(s.update(i, (s[i].0, v))),
        lookup(s.update(i, (s[i].0, v)), q) == if q == s[i].0 {
            Some(v)
        } else {
            lookup(s, q)
        },
    decreases s.len(),
{
    let u = s.update(i, (s[i].0, v));
    assert forall|a: int, b: int| 0 <= a < b < u.len() implies u[a].0 != u[b].0 by {
        assert(u[a].0 == s[a].0 && u[b].0 == s[b].0);
    }
    if i == s.len() - 1 {
        assert(u.drop_last() =~= s.drop_last());
    } else {
        let t = s.drop_last();
        assert(u.drop_last() =~= t.update(i, (t[i].0, v)));
        lemma_lookup_update(t, i, v, q);
        if s.last().0 == q {
            assert(s[i].0 != q);
        }
    }
}

pub proof fn lemma_lookup_remove<K, V>(s: Seq<(K, V)>, i: int, q: K)
    requires
        keys_unique(s),
        0 <= i < s.len(),
    ensures
        keys_unique(s.remove(i)),
        lookup(s.remove(i), q) == if q == s[i].0 {
            None
        } else {
            lookup(s, q)
        },
    decreases s.len(),
{
    let r = s.remove(i);
    assert forall|a: int, b: int| 0 <= a < b < r.len() implies r[a].0 != r[b].0 by {
        let a2 = if a < i { a } else { a + 1 };
        let b2 = if b < i { b } else { b + 1 };
        assert(r[a] == s[a2] && r[b] == s[b2]);
    }
    if i == s.len() - 1 {
        assert(r =~= s.drop_last());
        if q == s[i].0 {
            lemma_lookup_none(r, q);
            if has_key(r, q) {
                let j = choose|j: int| 0 <= j < r.len() && r[j].0 == q;
                assert(s[j].0 == q);
            }
        }
    } else {
        let t = s.drop_last();
        assert(r.drop_last() =~= t.remove(i));
        assert(r.last() == s.last());
        lemma_lookup_remove(t, i, q);
        if s.last().0 == q {
            assert(s[i].0 != q);
        }
    }
}

/// The images under `f` of the elements of `s` that `keep` holds of, in
/// order.
pub open spec fn select<T, U>(s: Seq<T>, keep: spec_fn(T) -> bool, f: spec_fn(T) -> U) -> Seq<U>
    decreases s.len(),
{
    if s.len() == 0 {
        Seq::empty()
    } else {
        let rest = select(s.drop_last(), keep, f);
        if keep(s.last()) {
            rest.push(f(s.last()))
        } else {
            rest
        }
    }
}

pub proof fn lemma_select_step<T, U>(s: Seq<T>, keep: spec_fn(T) -> bool, f: spec_fn(T) -> U, i: int)
    requires
        0 <= i < s.len(),
    ensures
        select(s.take(i + 1), keep, f) == if keep(s[i]) {
            select(s.take(i), keep, f).push(f(s[i]))
        } else {
            select(s.take(i), keep, f)
        },
{
    assert(s.take(i + 1).drop_last() =~= s.take(i));
    assert(s.take(i + 1).last() == s[i]);
}

/// Every selected image comes from a kept element.
pub proof fn lemma_select_sound<T, U>(s: Seq<T>, keep: spec_fn(T) -> bool, f: spec_fn(T) -> U, k: int)
    requires
        0 <= k < select(s, keep, f).len(),
    ensures
        exists|i: int| 0 <= i < s.len() && keep(s[i]) && select(s, keep, f)[k] == f(s[i]),
    decreases s.len(),
{
    let t = s.drop_last();
    if k < select(t, keep, f).len() {
        lemma_select_sound(t, keep, f, k);
        let i = choose|i: int| 0 <= i < t.len() && keep(t[i]) && select(t, keep, f)[k] == f(t[i]);
        assert(s[i] == t[i]);
    } else {
        assert(keep(s.last()));
        assert(s[s.len() - 1] == s.last());
    }
}

/// Every kept element has its image selected.
pub proof fn lemma_select_complete<T, U>(s: Seq<T>, keep: spec_fn(T) -> bool, f: spec_fn(T) -> U, i: int)
    requires
        0 <= i < s.len(),
        keep(s[i]),
    ensures
        select(s, keep, f).contains(f(s[i])),
    decreases s.len(),
{
    let t = s.drop_last();
    if i < s.len() - 1 {
        assert(t[i] == s[i]);
        lemma_select_complete(t, keep, f, i);
        let k = choose|k: int| 0 <= k < select(t, keep, f).len() && select(t, keep, f)[k] == f(t[i]);
        assert(select(s, keep, f)[k] == f(s[i]));
    } else {
        let r = select(s, keep, f);
        assert(r[r.len() - 1] == f(s[i]));
    }
}

/// The pairs of `s` whose key `keep` holds of, in order.
pub open spec fn filter_keys<K, V>(s: Seq<(K, V)>, keep: spec_fn(K) -> bool) -> Seq<(K, V)> {
    select(s, |p: (K, V)| keep(p.0), |p: (K, V)| p)
}

/// Keeping the pairs whose key passes a test keeps the keys distinct, and
/// the lookup of a key that passes is that of the whole table.
pub proof fn lemma_lookup_filter<K, V>(s: Seq<(K, V)>, keep: spec_fn(K) -> bool, q: K)
    requires
        keys_unique(s),
    ensures
        keys_unique(filter_keys(s, keep)),
        lookup(filter_keys(s, keep), q) == if keep(q) {
            lookup(s, q)
        } else {
            None
        },
    decreases s.len(),
{
    if s.len() > 0 {
        let t = s.drop_last();
        let last = s.last();
        assert(keys_unique(t));
        lemma_lookup_filter(t, keep, q);
        lemma_lookup_filter(t, keep, last.0);
        assert(!has_key(t, last.0)) by {
            if has_key(t, last.0) {
                let j = choose|j: int| 0 <= j < t.len() && t[j].0 == last.0;
                assert(s[j].0 == s[s.len() - 1].0);
            }
        }
        lemma_lookup_none(t, last.0);
        lemma_lookup_none(filter_keys(t, keep), last.0);
        if keep(last.0) {
            lemma_unique_push(filter_keys(t, keep), last.0, last.1);
            lemma_lookup_push(filter_keys(t, keep), last.0, last.1, q);
        }
    }
}

} // verus!
