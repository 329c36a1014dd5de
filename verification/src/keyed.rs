//! Sets and maps represented as vectors whose elements carry distinct keys.

use vstd::prelude::*;

verus! {

/// The set of the keys of the elements of `v`.
pub open spec fn key_set<T, K>(v: Seq<T>, key: spec_fn(T) -> K) -> Set<K> {
    Set::new(|k: K| exists|i: int| 0 <= i < v.len() && #[trigger] key(v[i]) == k)
}

/// No two elements of `v` carry the same key.
pub open spec fn keys_distinct<T, K>(v: Seq<T>, key: spec_fn(T) -> K) -> bool {
    forall|i: int, j: int| 0 <= i < v.len() && 0 <= j < v.len() && i != j ==> key(v[i]) != key(v[j])
}

/// The map from the key of each element of `v` to the value that `val` reads from it.
pub open spec fn key_map<T, K, V>(v: Seq<T>, key: spec_fn(T) -> K, val: spec_fn(T) -> V) -> Map<K, V> {
    Map::new(
        |k: K| key_set(v, key).contains(k),
        |k: K| val(v[choose|i: int| 0 <= i < v.len() && #[trigger] key(v[i]) == k]),
    )
}

/// The key of every element is in the key set.
pub proof fn lemma_key_set_contains<T, K>(v: Seq<T>, key: spec_fn(T) -> K, i: int)
    requires
        0 <= i < v.len(),
    ensures
        key_set(v, key).contains(key(v[i])),
{
}

/// An empty vector has no keys, and its map is empty.
pub proof fn lemma_key_set_empty<T, K>(v: Seq<T>, key: spec_fn(T) -> K)
    requires
        v.len() == 0,
    ensures
        key_set(v, key) == Set::<K>::empty(),
        keys_distinct(v, key),
        key_map(v, key, |t: T| t) == Map::<K, T>::empty(),
{
    assert(key_set(v, key) =~= Set::<K>::empty());
    assert(key_map(v, key, |t: T| t) =~= Map::<K, T>::empty());
}

/// Pushing an element with a new key adds that key, and keeps the keys distinct.
pub proof fn lemma_key_set_push<T, K>(v: Seq<T>, key: spec_fn(T) -> K, x: T)
    requires
        keys_distinct(v, key),
        !key_set(v, key).contains(key(x)),
    ensures
        key_set(v.push(x), key) == key_set(v, key).insert(key(x)),
        keys_distinct(v.push(x), key),
{
    let w = v.push(x);
    assert forall|k: K| key_set(w, key).contains(k) <==> key_set(v, key).insert(key(x)).contains(k) by {
        if key_set(w, key).contains(k) {
            let i = choose|i: int| 0 <= i < w.len() && #[trigger] key(w[i]) == k;
            if i < v.len() {
                assert(key(v[i]) == k);
            }
        }
        if key_set(v, key).contains(k) {
            let i = choose|i: int| 0 <= i < v.len() && #[trigger] key(v[i]) == k;
            assert(key(w[i]) == k);
        }
        if k == key(x) {
            assert(key(w[v.len() as int]) == k);
        }
    }
    assert(key_set(w, key) =~= key_set(v, key).insert(key(x)));
    assert forall|i: int, j: int| 0 <= i < w.len() && 0 <= j < w.len() && i != j implies key(w[i]) != key(w[j]) by {
        if i < v.len() && j < v.len() {
        } else if i < v.len() {
            assert(key_set(v, key).contains(key(v[i])));
        } else {
            assert(key_set(v, key).contains(key(v[j])));
        }
    }
}

/// With distinct keys, removing an element removes exactly its key.
pub proof fn lemma_key_set_remove<T, K>(v: Seq<T>, key: spec_fn(T) -> K, i: int)
    requires
        keys_distinct(v, key),
        0 <= i < v.len(),
    ensures
        key_set(v.remove(i), key) == key_set(v, key).remove(key(v[i])),
        keys_distinct(v.remove(i), key),
{
    let w = v.remove(i);
    assert forall|k: K| key_set(w, key).contains(k) <==> key_set(v, key).remove(key(v[i])).contains(k) by {
        if key_set(w, key).contains(k) {
            let j = choose|j: int| 0 <= j < w.len() && #[trigger] key(w[j]) == k;
            if j < i {
                assert(key(v[j]) == k);
            } else {
                assert(key(v[j + 1]) == k);
            }
        }
        if key_set(v, key).remove(key(v[i])).contains(k) {
            let j = choose|j: int| 0 <= j < v.len() && #[trigger] key(v[j]) == k;
            if j < i {
                assert(key(w[j]) == k);
            } else {
                assert(j != i);
                assert(key(w[j - 1]) == k);
            }
        }
    }
    assert(key_set(w, key) =~= key_set(v, key).remove(key(v[i])));
    assert forall|a: int, b: int| 0 <= a < w.len() && 0 <= b < w.len() && a != b implies key(w[a]) != key(w[b]) by {
        let a2 = if a < i { a } else { a + 1 };
        let b2 = if b < i { b } else { b + 1 };
        assert(w[a] == v[a2]);
        assert(w[b] == v[b2]);
    }
}

/// With distinct keys, dropping the last element removes exactly its key.
pub proof fn lemma_key_set_drop_last<T, K>(v: Seq<T>, key: spec_fn(T) -> K)
    requires
        keys_distinct(v, key),
        v.len() > 0,
    ensures
        key_set(v, key) == key_set(v.drop_last(), key).insert(key(v.last())),
        keys_distinct(v.drop_last(), key),
        !key_set(v.drop_last(), key).contains(key(v.last())),
{
    let w = v.drop_last();
    assert(keys_distinct(w, key)) by {
        assert forall|i: int, j: int| 0 <= i < w.len() && 0 <= j < w.len() && i != j implies key(w[i]) != key(w[j]) by {
            assert(w[i] == v[i] && w[j] == v[j]);
        }
    }
    if key_set(w, key).contains(key(v.last())) {
        let i = choose|i: int| 0 <= i < w.len() && #[trigger] key(w[i]) == key(v.last());
        assert(w[i] == v[i]);
        assert(false);
    }
    lemma_key_set_push(w, key, v.last());
    assert(w.push(v.last()) =~= v);
}

/// The set of keys of a vector is empty exactly when the vector is.
pub proof fn lemma_key_set_is_empty<T, K>(v: Seq<T>, key: spec_fn(T) -> K)
    ensures
        key_set(v, key).is_empty() <==> v.len() == 0,
{
    if v.len() == 0 {
        assert(key_set(v, key) =~= Set::<K>::empty());
    } else {
        assert(key_set(v, key).contains(key(v[0])));
    }
}

/// With distinct keys, the map gives each element's value under its key.
pub proof fn lemma_key_map_index<T, K, V>(v: Seq<T>, key: spec_fn(T) -> K, val: spec_fn(T) -> V, i: int)
    requires
        keys_distinct(v, key),
        0 <= i < v.len(),
    ensures
        key_map(v, key, val).contains_key(key(v[i])),
        key_map(v, key, val)[key(v[i])] == val(v[i]),
{
    let k = key(v[i]);
    assert(key_set(v, key).contains(k));
    let j = choose|j: int| 0 <= j < v.len() && #[trigger] key(v[j]) == k;
    assert(j == i);
}

/// Pushing an element with a new key maps that key to the element's value.
pub proof fn lemma_key_map_push<T, K, V>(v: Seq<T>, key: spec_fn(T) -> K, val: spec_fn(T) -> V, x: T)
    requires
        keys_distinct(v, key),
        !key_set(v, key).contains(key(x)),
    ensures
        key_map(v.push(x), key, val) == key_map(v, key, val).insert(key(x), val(x)),
        keys_distinct(v.push(x), key),
{
    let w = v.push(x);
    lemma_key_set_push(v, key, x);
    assert forall|k: K| #[trigger] key_map(w, key, val).contains_key(k) implies key_map(w, key, val)[k]
        == key_map(v, key, val).insert(key(x), val(x))[k] by {
        let j = choose|j: int| 0 <= j < w.len() && #[trigger] key(w[j]) == k;
        lemma_key_map_index(w, key, val, j);
        if j < v.len() {
            assert(w[j] == v[j]);
            lemma_key_map_index(v, key, val, j);
        }
    }
    assert(key_map(w, key, val) =~= key_map(v, key, val).insert(key(x), val(x)));
}

/// With distinct keys, removing an element removes its key from the map.
pub proof fn lemma_key_map_remove<T, K, V>(v: Seq<T>, key: spec_fn(T) -> K, val: spec_fn(T) -> V, i: int)
    requires
        keys_distinct(v, key),
        0 <= i < v.len(),
    ensures
        key_map(v.remove(i), key, val) == key_map(v, key, val).remove(key(v[i])),
        keys_distinct(v.remove(i), key),
{
    let w = v.remove(i);
    lemma_key_set_remove(v, key, i);
    assert forall|k: K| #[trigger] key_map(w, key, val).contains_key(k) implies key_map(w, key, val)[k]
        == key_map(v, key, val).remove(key(v[i]))[k] by {
        let j = choose|j: int| 0 <= j < w.len() && #[trigger] key(w[j]) == k;
        lemma_key_map_index(w, key, val, j);
        let j2 = if j < i { j } else { j + 1 };
        assert(w[j] == v[j2]);
        lemma_key_map_index(v, key, val, j2);
    }
    assert(key_map(w, key, val) =~= key_map(v, key, val).remove(key(v[i])));
}

/// Replacing an element by one with the same key keeps the keys and maps the key to the new
/// value.
pub proof fn lemma_key_map_update<T, K, V>(v: Seq<T>, key: spec_fn(T) -> K, val: spec_fn(T) -> V, i: int, x: T)
    requires
        keys_distinct(v, key),
        0 <= i < v.len(),
        key(x) == key(v[i]),
    ensures
        key_set(v.update(i, x), key) == key_set(v, key),
        key_map(v.update(i, x), key, val) == key_map(v, key, val).insert(key(x), val(x)),
        keys_distinct(v.update(i, x), key),
{
    let w = v.update(i, x);
    assert forall|k: K| key_set(w, key).contains(k) <==> key_set(v, key).contains(k) by {
        if key_set(w, key).contains(k) {
            let j = choose|j: int| 0 <= j < w.len() && #[trigger] key(w[j]) == k;
            assert(key(v[j]) == k);
        }
        if key_set(v, key).contains(k) {
            let j = choose|j: int| 0 <= j < v.len() && #[trigger] key(v[j]) == k;
            assert(key(w[j]) == k);
        }
    }
    assert(key_set(w, key) =~= key_set(v, key));
    assert(keys_distinct(w, key));
    assert forall|k: K| #[trigger] key_map(w, key, val).contains_key(k) implies key_map(w, key, val)[k]
        == key_map(v, key, val).insert(key(x), val(x))[k] by {
        let j = choose|j: int| 0 <= j < w.len() && #[trigger] key(w[j]) == k;
        lemma_key_map_index(w, key, val, j);
        if j != i {
            lemma_key_map_index(v, key, val, j);
        }
    }
    assert(key_map(w, key, val) =~= key_map(v, key, val).insert(key(x), val(x)));
}

} // verus!
