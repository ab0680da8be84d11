use crate::text::str_eq;
use vstd::prelude::*;

verus! {

/// An item that is found by a text.
pub trait Keyed {
    /// The text by which the item is found.
    spec fn key(&self) -> Seq<char>;

    fn key_text(&self) -> (text: &str)
        ensures
            text@ == self.key(),
    ;
}

/// The keys of the items of a sequence.
pub open spec fn keys_of<T: Keyed>(items: Seq<T>) -> Seq<Seq<char>> {
    Seq::new(items.len(), |i: int| items[i].key())
}

/// The first position at or after `start` at which `key` stands in `keys`.
pub open spec fn position_from(keys: Seq<Seq<char>>, key: Seq<char>, start: int) -> Option<int>
    decreases keys.len() - start,
{
    if start < 0 || start >= keys.len() {
        None
    } else if keys[start] == key {
        Some(start)
    } else {
        position_from(keys, key, start + 1)
    }
}

/// The first position at which `key` stands in `keys`.
pub open spec fn position_of(keys: Seq<Seq<char>>, key: Seq<char>) -> Option<int> {
    position_from(keys, key, 0)
}

/// A position that was found holds the key, and no position before it does;
/// where none was found, no position holds it.
pub proof fn lemma_position_from(keys: Seq<Seq<char>>, key: Seq<char>, start: int)
    requires
        0 <= start,
    ensures
        position_from(keys, key, start) matches Some(at) ==> start <= at < keys.len() && keys[at]
            == key && forall|j: int| start <= j < at ==> keys[j] != key,
        position_from(keys, key, start) is None ==> forall|j: int|
            start <= j < keys.len() ==> keys[j] != key,
    decreases keys.len() - start,
{
    if start < keys.len() && keys[start] != key {
        lemma_position_from(keys, key, start + 1);
    }
}

/// The first position that holds the key is the one that is found.
pub proof fn lemma_position_first(keys: Seq<Seq<char>>, key: Seq<char>, at: int)
    requires
        0 <= at < keys.len(),
        keys[at] == key,
        forall|j: int| 0 <= j < at ==> keys[j] != key,
    ensures
        position_of(keys, key) == Some(at),
{
    lemma_position_from(keys, key, 0);
}

/// The first item of `items` whose key is `key`.
pub fn find_keyed<T: Keyed>(items: &[T], key: &str) -> (found: Option<usize>)
    ensures
        found matches Some(at) ==> at < items.len() && items[at as int].key() == key@,
        (match found {
            Some(at) => position_of(keys_of(items@), key@) == Some(at as int),
            None => position_of(keys_of(items@), key@) is None,
        }),
{
    let ghost keys = keys_of(items@);
    let mut i: usize = 0;
    while i < items.len()
        invariant
            i <= items.len(),
            keys == keys_of(items@),
            position_of(keys, key@) == position_from(keys, key@, i as int),
        decreases items.len() - i,
    {
        if str_eq(items[i].key_text(), key) {
            return Some(i);
        }
        i += 1;
    }
    None
}

} // verus!
