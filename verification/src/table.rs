//! A list of keys beside a list of values, read as a map.

use vstd::prelude::*;

verus! {

/// The map that pairs each key with the value at the key's place.
pub open spec fn table<K, V>(keys: Seq<K>, values: Seq<V>) -> Map<K, V> {
    Map::new(|key: K| keys.contains(key), |key: K| values[keys.index_of(key)])
}

/// Where no key occurs twice, the key at a place is paired with the value at
/// that place.
pub proof fn lemma_table_at<K, V>(keys: Seq<K>, values: Seq<V>, i: int)
    requires
        keys.no_duplicates(),
        0 <= i < keys.len(),
    ensures
        table(keys, values).dom().contains(keys[i]),
        table(keys, values)[keys[i]] == values[i],
{
    assert(keys.contains(keys[i]));
}

/// A key that is new, put at the end with its value, is inserted into the map.
pub proof fn lemma_table_push<K, V>(keys: Seq<K>, values: Seq<V>, key: K, value: V)
    requires
        keys.no_duplicates(),
        keys.len() == values.len(),
        !keys.contains(key),
    ensures
        keys.push(key).no_duplicates(),
        table(keys.push(key), values.push(value)) == table(keys, values).insert(key, value),
{
    let longer = keys.push(key);
    assert(longer[keys.len() as int] == key);
    assert forall|other: K| #[trigger] longer.contains(other) <==> (other == key || keys.contains(other)) by {
        if keys.contains(other) {
            assert(longer[keys.index_of(other)] == other);
        }
    }
    assert forall|other: K| #[trigger] longer.contains(other) implies table(
        longer,
        values.push(value),
    )[other] == table(keys, values).insert(key, value)[other] by {
        let at = longer.index_of(other);
        if other != key {
            assert(keys[at] == other);
            assert(keys[keys.index_of(other)] == other);
        }
    }
    assert(table(longer, values.push(value)) =~= table(keys, values).insert(key, value));
}

/// A new value at the place of a key is inserted into the map under that key.
pub proof fn lemma_table_update<K, V>(keys: Seq<K>, values: Seq<V>, i: int, value: V)
    requires
        keys.no_duplicates(),
        keys.len() == values.len(),
        0 <= i < keys.len(),
    ensures
        table(keys, values.update(i, value)) == table(keys, values).insert(keys[i], value),
{
    assert(keys.contains(keys[i]));
    assert(table(keys, values.update(i, value)) =~= table(keys, values).insert(keys[i], value));
}

/// With no keys the map is empty.
pub proof fn lemma_table_empty<K, V>()
    ensures
        table(Seq::<K>::empty(), Seq::<V>::empty()) == Map::<K, V>::empty(),
{
    assert(table(Seq::<K>::empty(), Seq::<V>::empty()) =~= Map::<K, V>::empty());
}

} // verus!
