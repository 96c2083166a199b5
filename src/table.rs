//! A sequence of records with unique keys, read as a map from key to record.
use vstd::prelude::*;

verus! {

/// No two records of `s` share a key.
pub open spec fn unique_keys<T, K>(s: Seq<T>, key: spec_fn(T) -> K) -> bool {
    forall|i: int, j: int|
        0 <= i < s.len() && 0 <= j < s.len() && i != j ==> key(s[i]) != key(s[j])
}

/// Record `i` of `s` has key `k`.
pub open spec fn at_key<T, K>(s: Seq<T>, key: spec_fn(T) -> K, k: K, i: int) -> bool {
    0 <= i < s.len() && key(s[i]) == k
}

/// The map from each key to the record that holds it.
pub open spec fn table<T, K>(s: Seq<T>, key: spec_fn(T) -> K) -> Map<K, T> {
    Map::new(
        |k: K| exists|i: int| at_key(s, key, k, i),
        |k: K| s[choose|i: int| at_key(s, key, k, i)],
    )
}

pub proof fn lemma_table_at<T, K>(s: Seq<T>, key: spec_fn(T) -> K, i: int)
    requires
        unique_keys(s, key),
        0 <= i < s.len(),
    ensures
        table(s, key).contains_key(key(s[i])),
        table(s, key)[key(s[i])] == s[i],
{
    let k = key(s[i]);
    assert(at_key(s, key, k, i));
    let j = choose|j: int| at_key(s, key, k, j);
    assert(j == i);
}

pub proof fn lemma_table_absent<T, K>(s: Seq<T>, key: spec_fn(T) -> K, k: K)
    requires
        forall|i: int| 0 <= i < s.len() ==> key(s[i]) != k,
    ensures
        !table(s, key).contains_key(k),
{
}

pub proof fn lemma_table_empty<T, K>(key: spec_fn(T) -> K)
    ensures
        unique_keys(Seq::<T>::empty(), key),
        table(Seq::<T>::empty(), key) == Map::<K, T>::empty(),
{
    assert(table(Seq::<T>::empty(), key) =~= Map::<K, T>::empty());
}

pub proof fn lemma_table_update<T, K>(s: Seq<T>, key: spec_fn(T) -> K, i: int, v: T)
    requires
        unique_keys(s, key),
        0 <= i < s.len(),
        key(v) == key(s[i]),
    ensures
        unique_keys(s.update(i, v), key),
        table(s.update(i, v), key) == table(s, key).insert(key(v), v),
{
    let t = s.update(i, v);
    assert(unique_keys(t, key)) by {
        assert forall|a: int, b: int|
            0 <= a < t.len() && 0 <= b < t.len() && a != b implies key(t[a]) != key(t[b]) by {
            assert(key(t[a]) == key(s[a]));
            assert(key(t[b]) == key(s[b]));
        }
    }
    let m1 = table(t, key);
    let m2 = table(s, key).insert(key(v), v);
    assert forall|k: K| m1.contains_key(k) == m2.contains_key(k) by {
        if m1.contains_key(k) {
            let j = choose|j: int| at_key(t, key, k, j);
            assert(at_key(s, key, k, j));
        }
        if table(s, key).contains_key(k) {
            let j = choose|j: int| at_key(s, key, k, j);
            assert(at_key(t, key, k, j));
        }
        if k == key(v) {
            assert(at_key(t, key, k, i));
        }
    }
    assert forall|k: K| #[trigger] m1.contains_key(k) implies m1[k] == m2[k] by {
        let j = choose|j: int| at_key(t, key, k, j);
        lemma_table_at(t, key, j);
        if j == i {
        } else {
            lemma_table_at(s, key, j);
        }
    }
    assert(m1 =~= m2);
}

pub proof fn lemma_table_push<T, K>(s: Seq<T>, key: spec_fn(T) -> K, v: T)
    requires
        unique_keys(s, key),
        !table(s, key).contains_key(key(v)),
    ensures
        unique_keys(s.push(v), key),
        table(s.push(v), key) == table(s, key).insert(key(v), v),
{
    let t = s.push(v);
    let n = s.len() as int;
    assert forall|i: int| 0 <= i < n implies key(s[i]) != key(v) by {
        if key(s[i]) == key(v) {
            assert(at_key(s, key, key(v), i));
        }
    }
    assert(unique_keys(t, key)) by {
        assert forall|a: int, b: int|
            0 <= a < t.len() && 0 <= b < t.len() && a != b implies key(t[a]) != key(t[b]) by {
            if a < n {
                assert(t[a] == s[a]);
            }
            if b < n {
                assert(t[b] == s[b]);
            }
        }
    }
    let m1 = table(t, key);
    let m2 = table(s, key).insert(key(v), v);
    assert forall|k: K| m1.contains_key(k) == m2.contains_key(k) by {
        if m1.contains_key(k) {
            let j = choose|j: int| at_key(t, key, k, j);
            if j < n {
                assert(at_key(s, key, k, j));
            }
        }
        if table(s, key).contains_key(k) {
            let j = choose|j: int| at_key(s, key, k, j);
            assert(at_key(t, key, k, j));
        }
        if k == key(v) {
            assert(at_key(t, key, k, n));
        }
    }
    assert forall|k: K| #[trigger] m1.contains_key(k) implies m1[k] == m2[k] by {
        let j = choose|j: int| at_key(t, key, k, j);
        lemma_table_at(t, key, j);
        if j < n {
            assert(t[j] == s[j]);
            lemma_table_at(s, key, j);
        }
    }
    assert(m1 =~= m2);
}

} // verus!
