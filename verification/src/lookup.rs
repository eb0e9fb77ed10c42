use vstd::prelude::*;

verus! {

/// Whether `i` is the first place in `keys` that holds `key`.
pub open spec fn first_at<K>(keys: Seq<K>, key: K, i: int) -> bool {
    &&& 0 <= i < keys.len()
    &&& keys[i] == key
    &&& forall|j: int| 0 <= j < i ==> keys[j] != key
}

/// The first place in `keys` that holds `key`, if any does.
pub open spec fn first_index<K>(keys: Seq<K>, key: K) -> Option<int> {
    if exists|i: int| first_at(keys, key, i) {
        Some(choose|i: int| first_at(keys, key, i))
    } else {
        None
    }
}

/// A first place is the first place.
pub proof fn lemma_first_index_found<K>(keys: Seq<K>, key: K, i: int)
    requires
        first_at(keys, key, i),
    ensures
        first_index(keys, key) == Some(i),
{
    let c = choose|c: int| first_at(keys, key, c);
    assert(first_at(keys, key, c));
    if c < i {
        assert(keys[c] != key);
    } else if i < c {
        assert(keys[i] != key);
    }
}

/// A key that no place holds has no first place.
pub proof fn lemma_first_index_absent<K>(keys: Seq<K>, key: K)
    requires
        forall|j: int| 0 <= j < keys.len() ==> keys[j] != key,
    ensures
        first_index(keys, key) is None,
{
    if exists|i: int| first_at(keys, key, i) {
        let c = choose|c: int| first_at(keys, key, c);
        assert(keys[c] != key);
    }
}

/// What `first_index` returns is a first place, and without one no place
/// holds the key.
pub proof fn lemma_first_index_is_first<K>(keys: Seq<K>, key: K)
    ensures
        match first_index(keys, key) {
            Some(i) => first_at(keys, key, i),
            None => forall|j: int| 0 <= j < keys.len() ==> keys[j] != key,
        },
{
    if !(exists|i: int| first_at(keys, key, i)) {
        assert forall|j: int| 0 <= j < keys.len() implies keys[j] != key by {
            if keys[j] == key {
                lemma_some_first(keys, key, j);
            }
        }
    }
}

/// If some place holds `key`, a first such place exists.
pub proof fn lemma_some_first<K>(keys: Seq<K>, key: K, at: int)
    requires
        0 <= at < keys.len(),
        keys[at] == key,
    ensures
        exists|i: int| first_at(keys, key, i),
    decreases at,
{
    if forall|j: int| 0 <= j < at ==> keys[j] != key {
        assert(first_at(keys, key, at));
    } else {
        let j = choose|j: int| 0 <= j < at && keys[j] == key;
        lemma_some_first(keys, key, j);
    }
}

/// Appending a key changes nothing for a key that is already held, nor
/// for one that differs from the appended one.
pub proof fn lemma_first_index_push<K>(keys: Seq<K>, added: K, key: K)
    ensures
        first_index(keys, key) is Some ==> first_index(keys.push(added), key) == first_index(
            keys,
            key,
        ),
        first_index(keys, key) is None && added != key ==> first_index(keys.push(added), key)
            is None,
        first_index(keys, key) is None && added == key ==> first_index(keys.push(added), key)
            == Some(keys.len() as int),
{
    let after = keys.push(added);
    lemma_first_index_is_first(keys, key);
    match first_index(keys, key) {
        Some(c) => {
            assert(first_at(after, key, c));
            lemma_first_index_found(after, key, c);
        },
        None => {
            if added == key {
                assert(first_at(after, key, keys.len() as int));
                lemma_first_index_found(after, key, keys.len() as int);
            } else {
                lemma_first_index_absent(after, key);
            }
        },
    }
}

} // verus!
