//! Keyed tables stored as vectors of `(key, value)` entries.
//!
//! A table is read through `table_map`, the map it denotes, and summed
//! through `table_sum`. Well-formed tables hold each key at most once, so
//! the map and the entries describe the same contents.
use vstd::prelude::*;

verus! {

/// The map denoted by a sequence of entries (a later entry shadows an earlier one).
pub open spec fn table_map<K, V>(s: Seq<(K, V)>) -> Map<K, V>
    decreases s.len(),
{
    if s.len() == 0 {
        Map::empty()
    } else {
        table_map(s.drop_last()).insert(s.last().0, s.last().1)
    }
}

/// No key occurs twice.
pub open spec fn keys_unique<K, V>(s: Seq<(K, V)>) -> bool {
    forall|i: int, j: int| 0 <= i < j < s.len() ==> s[i].0 != s[j].0
}

/// Sum of `f` over the values of all entries.
pub open spec fn table_sum<K, V>(s: Seq<(K, V)>, f: spec_fn(V) -> int) -> int
    decreases s.len(),
{
    if s.len() == 0 {
        0
    } else {
        table_sum(s.drop_last(), f) + f(s.last().1)
    }
}

/// The value stored under `k`, or `d` when the table has none.
pub open spec fn value_or<K, V>(s: Seq<(K, V)>, k: K, d: V) -> V {
    if table_map(s).contains_key(k) {
        table_map(s)[k]
    } else {
        d
    }
}

pub proof fn lemma_table_map_dom<K, V>(s: Seq<(K, V)>, k: K)
    ensures
        table_map(s).contains_key(k) <==> exists|i: int| 0 <= i < s.len() && s[i].0 == k,
    decreases s.len(),
{
    if s.len() > 0 {
        lemma_table_map_dom(s.drop_last(), k);
        if table_map(s).contains_key(k) && s.last().0 != k {
            let i = choose|i: int| 0 <= i < s.len() - 1 && s.drop_last()[i].0 == k;
            assert(s[i].0 == k);
        }
        if exists|i: int| 0 <= i < s.len() && s[i].0 == k {
            let i = choose|i: int| 0 <= i < s.len() && s[i].0 == k;
            if i < s.len() - 1 {
                assert(s.drop_last()[i].0 == k);
            }
        }
    }
}

pub proof fn lemma_table_map_index<K, V>(s: Seq<(K, V)>, i: int)
    requires
        keys_unique(s),
        0 <= i < s.len(),
    ensures
        table_map(s).contains_key(s[i].0),
        table_map(s)[s[i].0] == s[i].1,
    decreases s.len(),
{
    if i < s.len() - 1 {
        lemma_table_map_index(s.drop_last(), i);
        assert(s.drop_last()[i] == s[i]);
    }
}

pub proof fn lemma_table_update<K, V>(s: Seq<(K, V)>, i: int, v: V, f: spec_fn(V) -> int)
    requires
        keys_unique(s),
        0 <= i < s.len(),
    ensures
        keys_unique(s.update(i, (s[i].0, v))),
        table_map(s.update(i, (s[i].0, v))) == table_map(s).insert(s[i].0, v),
        table_sum(s.update(i, (s[i].0, v)), f) == table_sum(s, f) - f(s[i].1) + f(v),
    decreases s.len(),
{
    let t = s.update(i, (s[i].0, v));
    if i == s.len() - 1 {
        assert(t.drop_last() =~= s.drop_last());
        assert(table_map(t) =~= table_map(s).insert(s[i].0, v));
    } else {
        let d = s.drop_last();
        assert(t.drop_last() =~= d.update(i, (d[i].0, v)));
        lemma_table_update(d, i, v, f);
        assert(table_map(t) =~= table_map(s).insert(s[i].0, v));
    }
}

pub proof fn lemma_table_push<K, V>(s: Seq<(K, V)>, k: K, v: V, f: spec_fn(V) -> int)
    requires
        keys_unique(s),
        !table_map(s).contains_key(k),
    ensures
        keys_unique(s.push((k, v))),
        table_map(s.push((k, v))) == table_map(s).insert(k, v),
        table_sum(s.push((k, v)), f) == table_sum(s, f) + f(v),
{
    let t = s.push((k, v));
    assert(t.drop_last() =~= s);
    assert forall|i: int, j: int| 0 <= i < j < t.len() implies t[i].0 != t[j].0 by {
        if j == s.len() {
            lemma_table_map_dom(s, k);
            assert(s[i].0 == t[i].0);
        }
    }
}

pub proof fn lemma_table_remove<K, V>(s: Seq<(K, V)>, i: int, f: spec_fn(V) -> int)
    requires
        keys_unique(s),
        0 <= i < s.len(),
    ensures
        keys_unique(s.remove(i)),
        table_map(s.remove(i)) == table_map(s).remove(s[i].0),
        table_sum(s.remove(i), f) == table_sum(s, f) - f(s[i].1),
    decreases s.len(),
{
    let t = s.remove(i);
    if i == s.len() - 1 {
        assert(t =~= s.drop_last());
        lemma_table_map_dom(t, s[i].0);
        assert(table_map(t) =~= table_map(s).remove(s[i].0));
    } else {
        let d = s.drop_last();
        assert(t.drop_last() =~= d.remove(i));
        assert(t.last() == s.last());
        lemma_table_remove(d, i, f);
        assert(table_map(t) =~= table_map(s).remove(s[i].0));
    }
}

/// A sum of non-negative terms is at least each of its terms.
pub proof fn lemma_table_sum_bounds<K, V>(s: Seq<(K, V)>, i: int, f: spec_fn(V) -> int)
    requires
        0 <= i < s.len(),
        forall|v: V| #[trigger] f(v) >= 0,
    ensures
        table_sum(s, f) >= f(s[i].1),
    decreases s.len(),
{
    lemma_table_sum_nonneg(s.drop_last(), f);
    if i < s.len() - 1 {
        lemma_table_sum_bounds(s.drop_last(), i, f);
        assert(s.drop_last()[i] == s[i]);
    }
}

pub proof fn lemma_table_sum_nonneg<K, V>(s: Seq<(K, V)>, f: spec_fn(V) -> int)
    requires
        forall|v: V| #[trigger] f(v) >= 0,
    ensures
        table_sum(s, f) >= 0,
    decreases s.len(),
{
    if s.len() > 0 {
        lemma_table_sum_nonneg(s.drop_last(), f);
    }
}

/// Position of `k` in a table keyed by account.
pub fn find_account<V>(v: &Vec<(u64, V)>, k: u64) -> (r: Option<usize>)
    ensures
        match r {
            Some(i) => i < v@.len() && v@[i as int].0 == k,
            None => forall|i: int| 0 <= i < v@.len() ==> v@[i].0 != k,
        },
{
    let mut i: usize = 0;
    while i < v.len()
        invariant
            i <= v@.len(),
            forall|j: int| 0 <= j < i ==> v@[j].0 != k,
        decreases v@.len() - i,
    {
        if v[i].0 == k {
            return Some(i);
        }
        i = i + 1;
    }
    None
}

/// Position of `(a, b)` in a table keyed by pairs of accounts.
pub fn find_pair<V>(v: &Vec<((u64, u64), V)>, a: u64, b: u64) -> (r: Option<usize>)
    ensures
        match r {
            Some(i) => i < v@.len() && v@[i as int].0 == (a, b),
            None => forall|i: int| 0 <= i < v@.len() ==> v@[i].0 != (a, b),
        },
{
    let mut i: usize = 0;
    while i < v.len()
        invariant
            i <= v@.len(),
            forall|j: int| 0 <= j < i ==> v@[j].0 != (a, b),
        decreases v@.len() - i,
    {
        if v[i].0.0 == a && v[i].0.1 == b {
            return Some(i);
        }
        i = i + 1;
    }
    None
}

} // verus!
