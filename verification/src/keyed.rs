//! Entries kept in the order in which their keys first came, read as a map.

use vstd::prelude::*;

verus! {

/// The map from each of `keys` to the value that stands at the same place in
/// `values`. It is meant for keys without repetition.
pub open spec fn keyed<K, V>(keys: Seq<K>, values: Seq<V>) -> Map<K, V>
    recommends
        keys.len() == values.len(),
        keys.no_duplicates(),
{
    Map::new(|k: K| keys.contains(k), |k: K| values[keys.index_of(k)])
}

/// Without entries the map is empty.
pub proof fn lemma_keyed_empty<K, V>()
    ensures
        keyed(Seq::<K>::empty(), Seq::<V>::empty()) == Map::<K, V>::empty(),
{
    assert(keyed(Seq::<K>::empty(), Seq::<V>::empty()) =~= Map::<K, V>::empty());
}

/// The key at a place is mapped to the value at that place.
pub proof fn lemma_keyed_at<K, V>(keys: Seq<K>, values: Seq<V>, i: int)
    requires
        keys.len() == values.len(),
        keys.no_duplicates(),
        0 <= i < keys.len(),
    ensures
        keyed(keys, values).contains_key(keys[i]),
        keyed(keys, values)[keys[i]] == values[i],
{
    assert(keys.contains(keys[i]));
}

/// The keys of the map are those of the sequence, so they are finitely many,
/// and as many as the sequence is long.
pub proof fn lemma_keyed_dom<K, V>(keys: Seq<K>, values: Seq<V>)
    requires
        keys.no_duplicates(),
    ensures
        keyed(keys, values).dom() == keys.to_set(),
        keyed(keys, values).dom().finite(),
        keyed(keys, values).dom().len() == keys.len(),
{
    assert(keyed(keys, values).dom() =~= keys.to_set());
    vstd::seq_lib::seq_to_set_is_finite(keys);
    keys.unique_seq_to_set();
}

/// An entry with a new key, put at the end, is an insertion into the map.
pub proof fn lemma_keyed_push<K, V>(keys: Seq<K>, values: Seq<V>, k: K, v: V)
    requires
        keys.len() == values.len(),
        keys.no_duplicates(),
        !keys.contains(k),
    ensures
        keys.push(k).no_duplicates(),
        keyed(keys.push(k), values.push(v)) == keyed(keys, values).insert(k, v),
{
    let keys2 = keys.push(k);
    let values2 = values.push(v);
    assert forall|i: int, j: int| 0 <= i < keys2.len() && 0 <= j < keys2.len() && i != j implies keys2[i]
        != keys2[j] by {
        if i < keys.len() {
            assert(keys.contains(keys[i]));
        }
        if j < keys.len() {
            assert(keys.contains(keys[j]));
        }
    }
    assert forall|x: K| #[trigger] keyed(keys2, values2).contains_key(x) == keyed(keys, values).insert(
        k,
        v,
    ).contains_key(x) by {
        vstd::seq_lib::lemma_seq_contains_after_push(keys, k, x);
    }
    assert forall|x: K| #[trigger] keyed(keys2, values2).contains_key(x) implies keyed(keys2, values2)[x]
        == keyed(keys, values).insert(k, v)[x] by {
        let i = keys2.index_of(x);
        if x == k {
            assert(keys2[keys.len() as int] == k);
        } else {
            assert(keys[i] == x);
            let j = keys.index_of(x);
            assert(keys2[j] == x);
        }
    }
    assert(keyed(keys2, values2) =~= keyed(keys, values).insert(k, v));
}

/// A new value at the place of a key is an insertion under that key.
pub proof fn lemma_keyed_update<K, V>(keys: Seq<K>, values: Seq<V>, i: int, v: V)
    requires
        keys.len() == values.len(),
        keys.no_duplicates(),
        0 <= i < keys.len(),
    ensures
        keyed(keys, values.update(i, v)) == keyed(keys, values).insert(keys[i], v),
{
    assert(keys.contains(keys[i]));
    assert forall|x: K| #[trigger] keyed(keys, values.update(i, v)).contains_key(x) implies keyed(
        keys,
        values.update(i, v),
    )[x] == keyed(keys, values).insert(keys[i], v)[x] by {
        let j = keys.index_of(x);
        assert(keys[j] == x);
    }
    assert(keyed(keys, values.update(i, v)) =~= keyed(keys, values).insert(keys[i], v));
}

} // verus!
