//! Lists of entries that are found by a text key: where the first entry with
//! a key stands, and how an entry is put in its place.

use vstd::prelude::*;

verus! {

/// The position of the first of `keys` that is `key`.
pub open spec fn first_position(keys: Seq<Seq<char>>, key: Seq<char>) -> Option<int>
    decreases keys.len(),
{
    if keys.len() == 0 {
        None
    } else if keys.last() == key && first_position(keys.drop_last(), key) is None {
        Some(keys.len() - 1)
    } else {
        first_position(keys.drop_last(), key)
    }
}

/// `first_position` finds the first key that is `key`, and only reports none
/// when there is none.
pub proof fn lemma_first_position(keys: Seq<Seq<char>>, key: Seq<char>)
    ensures
        match first_position(keys, key) {
            Some(i) => 0 <= i < keys.len() && keys[i] == key && forall|k: int|
                0 <= k < i ==> keys[k] != key,
            None => forall|k: int| 0 <= k < keys.len() ==> keys[k] != key,
        },
    decreases keys.len(),
{
    if keys.len() > 0 {
        lemma_first_position(keys.drop_last(), key);
        let front = keys.drop_last();
        assert(forall|k: int| 0 <= k < front.len() ==> front[k] == keys[k]);
    }
}

/// An entry that is found by a text key.
pub trait Keyed {
    /// The key of the entry.
    spec fn key(&self) -> Seq<char>;

    fn key_text(&self) -> (r: &String)
        ensures
            r@ == self.key(),
    ;
}

/// The keys of `entries`, in order.
pub open spec fn keys_in<T: Keyed>(entries: Seq<T>) -> Seq<Seq<char>> {
    Seq::new(entries.len(), |i: int| entries[i].key())
}

/// The position of the first of `entries` with the key `key`.
pub fn find_key<T: Keyed>(entries: &Vec<T>, key: &str) -> (r: Option<usize>)
    ensures
        match r {
            Some(i) => i < entries@.len() && first_position(keys_in(entries@), key@) == Some(
                i as int,
            ),
            None => first_position(keys_in(entries@), key@) is None,
        },
{
    let wanted = key.to_owned();
    let mut i: usize = 0;
    while i < entries.len()
        invariant
            i <= entries.len(),
            wanted@ == key@,
            forall|k: int| 0 <= k < i ==> keys_in(entries@)[k] != key@,
        decreases entries.len() - i,
    {
        if *entries[i].key_text() == wanted {
            proof {
                lemma_first_position(keys_in(entries@), key@);
                assert(keys_in(entries@)[i as int] == key@);
            }
            return Some(i);
        }
        i = i + 1;
    }
    proof {
        lemma_first_position(keys_in(entries@), key@);
    }
    None
}

/// Puts `item` into `entries`: in the place `found`, whose entry is handed
/// back, or at the end where no place is given.
pub fn put_at<T>(entries: &mut Vec<T>, found: Option<usize>, item: T) -> (previous: Option<T>)
    requires
        found matches Some(i) ==> i < old(entries)@.len(),
    ensures
        match found {
            Some(i) => final(entries)@ == old(entries)@.update(i as int, item) && previous == Some(
                old(entries)@[i as int],
            ),
            None => final(entries)@ == old(entries)@.push(item) && previous is None,
        },
{
    match found {
        Some(i) => {
            let mut entry = item;
            std::mem::swap(&mut entry, &mut entries[i]);
            Some(entry)
        },
        None => {
            entries.push(item);
            None
        },
    }
}

} // verus!
