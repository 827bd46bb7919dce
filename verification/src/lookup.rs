//! Finding the first occurrence of a key in a sequence.

use vstd::prelude::*;

verus! {

/// Index of the first element of `keys` that equals `key`.
pub open spec fn first_index<K>(keys: Seq<K>, key: K) -> Option<int>
    decreases keys.len(),
{
    if keys.len() == 0 {
        None
    } else {
        match first_index(keys.drop_last(), key) {
            Some(index) => Some(index),
            None => if keys.last() == key {
                Some(keys.len() - 1)
            } else {
                None
            },
        }
    }
}

/// A first index, where there is one, is the least index that holds the key.
pub proof fn lemma_first_index<K>(keys: Seq<K>, key: K)
    ensures
        match first_index(keys, key) {
            Some(index) => {
                &&& 0 <= index < keys.len()
                &&& keys[index] == key
                &&& forall|j: int| 0 <= j < index ==> keys[j] != key
            },
            None => forall|j: int| 0 <= j < keys.len() ==> keys[j] != key,
        },
    decreases keys.len(),
{
    if keys.len() > 0 {
        lemma_first_index(keys.drop_last(), key);
        match first_index(keys.drop_last(), key) {
            Some(index) => {
                assert(keys.drop_last()[index] == keys[index]);
                assert forall|j: int| 0 <= j < index implies keys[j] != key by {
                    assert(keys.drop_last()[j] == keys[j]);
                }
            },
            None => {
                assert forall|j: int| 0 <= j < keys.len() - 1 implies keys[j] != key by {
                    assert(keys.drop_last()[j] == keys[j]);
                }
            },
        }
    }
}

} // verus!
