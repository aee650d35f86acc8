//! Parameter maps: text keys mapped to text values, kept in the order in which
//! the keys were first written.

use crate::keyed::{find_key, first_position, keys_in, lemma_first_position, put_at, Keyed};
use std::time::{SystemTime, UNIX_EPOCH};
use vstd::prelude::*;

verus! {

/// Reads the clock with `std::time::SystemTime::now` and writes the time since the
/// epoch out as text. Nothing is promised of the text: the clock decides it, and
/// two calls that read the same time, on one thread or on two, come back with
/// the same. Where identifiers have to differ, take them from an `IdSource`.
#[verifier::external_body]
pub fn generate_id() -> String {
    format!("{:?}", SystemTime::now().duration_since(UNIX_EPOCH).unwrap_or_default())
}

/// The mathematical content of a parameter map: its entries, key first, in order.
pub type Pairs = Seq<(Seq<char>, Seq<char>)>;

/// No key occurs twice.
pub open spec fn keys_distinct(s: Pairs) -> bool {
    forall|i: int, j: int| 0 <= i < j < s.len() ==> s[i].0 != s[j].0
}

/// Whether some entry of `s` has the key `key`.
pub open spec fn has_key(s: Pairs, key: Seq<char>) -> bool {
    exists|i: int| 0 <= i < s.len() && #[trigger] s[i].0 == key
}

/// The keys of `s`, in order.
pub open spec fn keys_of(s: Pairs) -> Seq<Seq<char>> {
    Seq::new(s.len(), |i: int| s[i].0)
}

/// The position of the first entry of `s` with the key `key`.
pub open spec fn position_of(s: Pairs, key: Seq<char>) -> Option<int> {
    first_position(keys_of(s), key)
}

/// The value that `s` holds for `key`.
pub open spec fn lookup(s: Pairs, key: Seq<char>) -> Option<Seq<char>> {
    match position_of(s, key) {
        Some(i) => Some(s[i].1),
        None => None,
    }
}

/// `s` after `key` was written with `value`: an entry with that key keeps its
/// place and takes the new value; a new key goes to the end.
pub open spec fn written(s: Pairs, key: Seq<char>, value: Seq<char>) -> Pairs {
    match position_of(s, key) {
        Some(i) => s.update(i, (key, value)),
        None => s.push((key, value)),
    }
}

/// `position_of` finds the first entry with the key, and only reports none when there is none.
pub proof fn lemma_position_of(s: Pairs, key: Seq<char>)
    ensures
        match position_of(s, key) {
            Some(i) => 0 <= i < s.len() && s[i].0 == key && forall|k: int|
                0 <= k < i ==> s[k].0 != key,
            None => forall|k: int| 0 <= k < s.len() ==> s[k].0 != key,
        },
{
    let keys = keys_of(s);
    lemma_first_position(keys, key);
    match first_position(keys, key) {
        Some(i) => {
            assert(keys[i] == s[i].0);
            assert forall|k: int| 0 <= k < i implies s[k].0 != key by {
                assert(keys[k] == s[k].0);
            }
        },
        None => {
            assert forall|k: int| 0 <= k < s.len() implies s[k].0 != key by {
                assert(keys[k] == s[k].0);
            }
        },
    }
}

/// Writing a key keeps the keys distinct, and the map then holds the value under that key.
pub proof fn lemma_written(s: Pairs, key: Seq<char>, value: Seq<char>)
    requires
        keys_distinct(s),
    ensures
        keys_distinct(written(s, key, value)),
        lookup(written(s, key, value), key) == Some(value),
        forall|other: Seq<char>|
            other != key ==> lookup(written(s, key, value), other) == lookup(s, other),
{
    let w = written(s, key, value);
    lemma_position_of(s, key);
    lemma_position_of(w, key);
    assert forall|other: Seq<char>| other != key implies lookup(w, other) == lookup(
        s,
        other,
    ) by {
        lemma_position_of(s, other);
        lemma_position_of(w, other);
        match position_of(s, other) {
            Some(i) => {
                assert(w[i] == s[i]);
            },
            None => {},
        }
        match position_of(w, other) {
            Some(i) => {
                if i < s.len() {
                    assert(w[i].0 == s[i].0);
                }
            },
            None => {},
        }
    }
    match position_of(s, key) {
        Some(i) => {
            assert(w[i].0 == key);
        },
        None => {
            assert(w[s.len() as int].0 == key);
        },
    }
}

/// A map from text keys to text values. Each key occurs once; the entries stand in
/// the order in which their keys were first written.
///
/// It is a list and no hash map: `vstd` states what a hash map holds only for
/// keys that obey its key model, and it says of text keys neither that they
/// do nor what they are as keys, so nothing could be proved of such a map.
#[derive(Debug)]
pub struct TextMap {
    entries: Vec<(String, String)>,
}

/// The parameters that fill the placeholders of a URL template.
pub type PathParam = TextMap;

/// The parameters that make up a query string.
pub type QueryParam = TextMap;

/// The content of a vector of entries.
pub open spec fn pairs_of(entries: Seq<(String, String)>) -> Pairs {
    Seq::new(entries.len(), |i: int| (entries[i].0@, entries[i].1@))
}

impl View for TextMap {
    type V = Pairs;

    closed spec fn view(&self) -> Pairs {
        pairs_of(self.entries@)
    }
}

impl Keyed for (String, String) {
    /// An entry of a map is found by its first part.
    open spec fn key(&self) -> Seq<char> {
        self.0@
    }

    fn key_text(&self) -> (r: &String) {
        &self.0
    }
}

impl Clone for TextMap {
    /// A map with the same entries.
    fn clone(&self) -> (r: Self)
        ensures
            r@ == self@,
    {
        proof {
            use_type_invariant(self);
        }
        let mut entries: Vec<(String, String)> = Vec::new();
        let mut i: usize = 0;
        while i < self.entries.len()
            invariant
                i <= self.entries.len(),
                entries@.len() == i,
                pairs_of(entries@) == pairs_of(self.entries@).take(i as int),
            decreases self.entries.len() - i,
        {
            let ghost before = entries@;
            entries.push((self.entries[i].0.clone(), self.entries[i].1.clone()));
            proof {
                assert forall|k: int| 0 <= k < i + 1 implies pairs_of(entries@)[k] == pairs_of(
                    self.entries@,
                ).take(i + 1)[k] by {
                    if k < i {
                        assert(pairs_of(before)[k] == pairs_of(self.entries@).take(i as int)[k]);
                    }
                }
                assert(pairs_of(entries@) =~= pairs_of(self.entries@).take(i + 1));
            }
            i = i + 1;
        }
        proof {
            assert(pairs_of(self.entries@).take(self.entries@.len() as int) == pairs_of(
                self.entries@,
            ));
        }
        TextMap { entries }
    }
}

impl TextMap {
    #[verifier::type_invariant]
    spec fn well_formed(&self) -> bool {
        keys_distinct(pairs_of(self.entries@))
    }

    /// Brings what holds of every map into a proof: its keys are distinct.
    /// Does nothing when the program runs.
    pub fn keys_are_distinct(&self)
        ensures
            keys_distinct(self@),
    {
        proof {
            use_type_invariant(self);
        }
    }

    /// A map without entries.
    pub fn new() -> (r: Self)
        ensures
            r@ == Seq::<(Seq<char>, Seq<char>)>::empty(),
    {
        let r = TextMap { entries: Vec::new() };
        assert(pairs_of(r.entries@) =~= Seq::<(Seq<char>, Seq<char>)>::empty());
        r
    }

    /// The number of entries.
    pub fn len(&self) -> (r: usize)
        ensures
            r == self@.len(),
    {
        self.entries.len()
    }

    /// Whether the map has no entry.
    pub fn is_empty(&self) -> (r: bool)
        ensures
            r == (self@.len() == 0),
    {
        self.entries.len() == 0
    }

    /// The position of `key` among the entries.
    fn find(&self, key: &str) -> (r: Option<usize>)
        ensures
            match r {
                Some(i) => position_of(self@, key@) == Some(i as int) && i < self@.len(),
                None => position_of(self@, key@) is None,
            },
    {
        proof {
            assert(keys_in(self.entries@) =~= keys_of(self@));
        }
        find_key(&self.entries, key)
    }

    /// Whether the map holds `key`.
    pub fn contains_key(&self, key: &str) -> (r: bool)
        ensures
            r == has_key(self@, key@),
            r == (lookup(self@, key@) is Some),
    {
        proof {
            lemma_position_of(self@, key@);
        }
        match self.find(key) {
            Some(i) => {
                assert(self@[i as int].0 == key@);
                true
            },
            None => false,
        }
    }

    /// The value written last under `key`.
    pub fn get(&self, key: &str) -> (r: Option<&String>)
        ensures
            match r {
                Some(v) => lookup(self@, key@) == Some(v@),
                None => lookup(self@, key@) is None,
            },
    {
        match self.find(key) {
            Some(i) => Some(&self.entries[i].1),
            None => None,
        }
    }

    /// The entry at position `index`, key first.
    pub fn get_at(&self, index: usize) -> (r: Option<(&String, &String)>)
        ensures
            match r {
                Some(e) => index < self@.len() && self@[index as int] == (e.0@, e.1@),
                None => index >= self@.len(),
            },
    {
        if index < self.entries.len() {
            Some((&self.entries[index].0, &self.entries[index].1))
        } else {
            None
        }
    }

    /// Writes `value` under `key` and returns the value that stood there before.
    pub fn insert(&mut self, key: String, value: String) -> (r: Option<String>)
        ensures
            final(self)@ == written(old(self)@, key@, value@),
            match r {
                Some(v) => lookup(old(self)@, key@) == Some(v@),
                None => lookup(old(self)@, key@) is None,
            },
            lookup(final(self)@, key@) == Some(value@),
            forall|other: Seq<char>|
                other != key@ ==> lookup(final(self)@, other) == lookup(old(self)@, other),
    {
        proof {
            use_type_invariant(&*self);
            lemma_written(self@, key@, value@);
        }
        let ghost before = self@;
        let found = self.find(key.as_str());
        let mut entries: Vec<(String, String)> = Vec::new();
        std::mem::swap(&mut entries, &mut self.entries);
        assert(pairs_of(entries@) == before);
        let previous = put_at(&mut entries, found, (key, value));
        proof {
            match found {
                Some(i) => {
                    assert(pairs_of(entries@) =~= before.update(i as int, (key@, value@)));
                },
                None => {
                    assert(pairs_of(entries@) =~= before.push((key@, value@)));
                },
            }
        }
        self.entries = entries;
        match previous {
            Some(entry) => Some(entry.1),
            None => None,
        }
    }
}

/// Whether `text` is an identifier that `generate_id` may come back with.
/// Nothing is known of it but what a call shows.
pub open spec fn generated(text: Seq<char>) -> bool {
    exists|id: String| id@ == text && #[trigger] call_ensures(generate_id, (), id)
}

} // verus!
