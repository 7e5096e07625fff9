//! Deduplicating interning: the table model and the laws it obeys.
//!
//! An interning table is modelled as the sequence of keys in insertion
//! order. Interning a key returns the index of its first occurrence; a key
//! not seen before is appended and its new index returned. The concrete
//! tables (one per key type) live beside their key types; the spec-level
//! model and its laws are shared here.

use vstd::prelude::*;

verus! {

/// Stable reference to the interned template for a plain border key.
#[derive(Clone, Copy, Debug, PartialEq, Eq, Hash, Structural)]
pub struct NormalBorderDataHandle {
    pub index: usize,
}

/// Stable reference to the interned template for an image border key.
#[derive(Clone, Copy, Debug, PartialEq, Eq, Hash, Structural)]
pub struct ImageBorderDataHandle {
    pub index: usize,
}

/// Index of the first occurrence of `key` in `keys`; the length when absent.
pub open spec fn key_index<K>(keys: Seq<K>, key: K) -> int
    decreases keys.len(),
{
    if keys.len() <= 0 {
        0
    } else if keys[0] == key {
        0
    } else {
        1 + key_index(keys.drop_first(), key)
    }
}

/// The table after interning `key`: unchanged when the key is already
/// present, extended by one entry otherwise.
pub open spec fn intern_keys<K>(keys: Seq<K>, key: K) -> Seq<K> {
    if keys.contains(key) {
        keys
    } else {
        keys.push(key)
    }
}

/// The keys of a well-formed table are pairwise distinct.
pub open spec fn keys_distinct<K>(keys: Seq<K>) -> bool {
    forall|i: int, j: int| 0 <= i < j < keys.len() ==> keys[i] != keys[j]
}

/// `key_index` finds exactly the first occurrence.
pub proof fn lemma_key_index_found<K>(keys: Seq<K>, key: K, i: int)
    requires
        0 <= i < keys.len(),
        keys[i] == key,
        forall|j: int| 0 <= j < i ==> keys[j] != key,
    ensures
        key_index(keys, key) == i,
    decreases i,
{
    if i > 0 {
        assert(keys[0] != key);
        assert(keys.drop_first()[i - 1] == key);
        assert forall|j: int| 0 <= j < i - 1 implies keys.drop_first()[j] != key by {
            assert(keys[j + 1] != key);
        }
        lemma_key_index_found(keys.drop_first(), key, i - 1);
    }
}

/// On a table that does not hold `key`, `key_index` is the length.
pub proof fn lemma_key_index_absent<K>(keys: Seq<K>, key: K)
    requires
        !keys.contains(key),
    ensures
        key_index(keys, key) == keys.len(),
    decreases keys.len(),
{
    if keys.len() > 0 {
        assert(keys[0] != key);
        assert(!keys.drop_first().contains(key)) by {
            if keys.drop_first().contains(key) {
                let w = choose|w: int|
                    0 <= w < keys.drop_first().len() && keys.drop_first()[w] == key;
                assert(keys[w + 1] == key);
            }
        }
        lemma_key_index_absent(keys.drop_first(), key);
    }
}

/// On a table that holds `key`, `key_index` is in range and points at it.
pub proof fn lemma_key_index_present<K>(keys: Seq<K>, key: K)
    requires
        keys.contains(key),
    ensures
        0 <= key_index(keys, key) < keys.len(),
        keys[key_index(keys, key)] == key,
    decreases keys.len(),
{
    if keys[0] != key {
        let w = choose|w: int| 0 <= w < keys.len() && keys[w] == key;
        assert(keys.drop_first()[w - 1] == key);
        assert(keys.drop_first().contains(key));
        lemma_key_index_present(keys.drop_first(), key);
        assert(keys[key_index(keys.drop_first(), key) + 1]
            == keys.drop_first()[key_index(keys.drop_first(), key)]);
    }
}

/// Law: interning the same key twice yields the same handle index both
/// times and leaves the table unchanged the second time.
pub proof fn lemma_intern_same_key_same_handle<K>(keys: Seq<K>, key: K)
    ensures
        intern_keys(intern_keys(keys, key), key) == intern_keys(keys, key),
        key_index(intern_keys(keys, key), key) == key_index(keys, key),
{
    if !keys.contains(key) {
        lemma_key_index_absent(keys, key);
        let grown = keys.push(key);
        assert(grown[keys.len() as int] == key);
        assert(grown.contains(key));
        assert forall|j: int| 0 <= j < keys.len() implies grown[j] != key by {
            if grown[j] == key {
                assert(keys[j] == key);
            }
        }
        lemma_key_index_found(grown, key, keys.len() as int);
    }
}

/// Law: interning two distinct keys yields distinct handle indices.
pub proof fn lemma_intern_distinct_keys_distinct_handles<K>(keys: Seq<K>, k1: K, k2: K)
    requires
        k1 != k2,
    ensures
        ({
            let grown = intern_keys(keys, k1);
            key_index(grown, k1) != key_index(grown, k2)
        }),
{
    let grown = intern_keys(keys, k1);
    if !keys.contains(k1) {
        assert(grown[keys.len() as int] == k1);
    }
    assert(grown.contains(k1));
    lemma_key_index_present(grown, k1);
    if grown.contains(k2) {
        lemma_key_index_present(grown, k2);
    } else {
        lemma_key_index_absent(grown, k2);
    }
}

} // verus!
