//! A small map from texts to values, kept in the order of first insertion.

use crate::text::{same_text, Text};
use vstd::prelude::*;

verus! {

/// A value that can be told apart from another by its model.
pub trait Distinct: View + Copy {
    /// Whether two values have the same model.
    fn same_as(&self, other: &Self) -> (same: bool)
        ensures
            same == (self@ == other@),
    ;
}

/// A map from texts to values. Of two entries with one key the first counts.
#[derive(Clone, Debug)]
pub struct TextMap<V> {
    pub entries: Vec<(String, V)>,
}

/// The place of the first entry with a key at or after `from`.
pub open spec fn key_place<V>(entries: Seq<(String, V)>, key: Text, from: int) -> Option<int>
    decreases entries.len() - from,
{
    if from < 0 || from >= entries.len() {
        None
    } else if entries[from].0@ == key {
        Some(from)
    } else {
        key_place(entries, key, from + 1)
    }
}

/// The map that entries form.
#[verifier::opaque]
pub open spec fn entries_map<V: Distinct>(entries: Seq<(String, V)>) -> Map<Text, V::V> {
    Map::new(
        |key: Text| key_place(entries, key, 0) is Some,
        |key: Text| entries[key_place(entries, key, 0)->0].1@,
    )
}

impl<V: Distinct> View for TextMap<V> {
    type V = Map<Text, V::V>;

    open spec fn view(&self) -> Map<Text, V::V> {
        entries_map(self.entries@)
    }
}

/// The first entry with a key is the one that no other precedes.
proof fn lemma_key_place<V>(entries: Seq<(String, V)>, key: Text, from: int)
    requires
        0 <= from,
    ensures
        match key_place(entries, key, from) {
            Some(place) => from <= place < entries.len() && entries[place].0@ == key && forall|
                i: int,
            |
                from <= i < place ==> (#[trigger] entries[i]).0@ != key,
            None => forall|i: int| from <= i < entries.len() ==> (#[trigger] entries[i]).0@ != key,
        },
    decreases entries.len() - from,
{
    if from < entries.len() && entries[from].0@ != key {
        lemma_key_place(entries, key, from + 1);
    }
}

proof fn lemma_key_place_is<V>(entries: Seq<(String, V)>, key: Text, place: int)
    requires
        0 <= place < entries.len(),
        entries[place].0@ == key,
        forall|i: int| 0 <= i < place ==> (#[trigger] entries[i]).0@ != key,
    ensures
        key_place(entries, key, 0) == Some(place),
{
    lemma_key_place(entries, key, 0);
}

impl<V: Distinct> TextMap<V> {
    /// An empty map.
    pub fn new() -> (map: TextMap<V>)
        ensures
            map@ == Map::<Text, V::V>::empty(),
    {
        let map = TextMap { entries: Vec::new() };
        proof {
            reveal(entries_map);
            assert(map@ =~= Map::<Text, V::V>::empty());
        }
        map
    }

    /// Whether the map holds nothing.
    pub fn is_empty(&self) -> (empty: bool)
        ensures
            empty == (self@ == Map::<Text, V::V>::empty()),
    {
        proof {
            reveal(entries_map);
            if self.entries@.len() == 0 {
                assert(self@ =~= Map::<Text, V::V>::empty());
            } else {
                assert(self@.contains_key(self.entries@[0].0@));
            }
        }
        self.entries.len() == 0
    }

    fn find(&self, key: &str) -> (place: Option<usize>)
        ensures
            match place {
                Some(place) => key_place(self.entries@, key@, 0) == Some(place as int) && place
                    < self.entries@.len(),
                None => key_place(self.entries@, key@, 0) is None,
            },
    {
        let mut next: usize = 0;
        while next < self.entries.len()
            invariant
                next <= self.entries@.len(),
                key_place(self.entries@, key@, 0) == key_place(self.entries@, key@, next as int),
            decreases self.entries@.len() - next,
        {
            if same_text(self.entries[next].0.as_str(), key) {
                return Some(next);
            }
            next += 1;
        }
        None
    }

    /// The value of a key.
    pub fn get(&self, key: &str) -> (value: Option<V>)
        ensures
            match value {
                Some(value) => self@.contains_key(key@) && value@ == self@[key@],
                None => !self@.contains_key(key@),
            },
    {
        proof {
            reveal(entries_map);
        }
        match self.find(key) {
            Some(place) => Some(self.entries[place].1),
            None => None,
        }
    }

    /// Gives a key a value, in place of the one it had.
    pub fn set(&mut self, key: &str, value: V)
        ensures
            final(self)@ == old(self)@.insert(key@, value@),
    {
        let ghost before = self.entries@;
        let found = self.find(key);
        match found {
            Some(place) => {
                self.entries[place] = (key.to_owned(), value);
            },
            None => {
                self.entries.push((key.to_owned(), value));
            },
        }
        proof {
            reveal(entries_map);
            let after = self.entries@;
            let place = match found {
                Some(place) => place as int,
                None => before.len() as int,
            };
            lemma_key_place(before, key@, 0);
            lemma_key_place_is(after, key@, place);
            assert forall|k: Text| k != key@ implies key_place(after, k, 0) == key_place(
                before,
                k,
                0,
            ) by {
                lemma_key_place(before, k, 0);
                lemma_key_place(after, k, 0);
                if let Some(at) = key_place(before, k, 0) {
                    lemma_key_place_is(after, k, at);
                } else if let Some(at) = key_place(after, k, 0) {
                    assert(before[at].0@ == k);
                }
            }
            let map = self@;
            let changed = old(self)@.insert(key@, value@);
            assert forall|k: Text| map.contains_key(k) == changed.contains_key(k) by {}
            assert forall|k: Text| map.contains_key(k) implies map[k] == changed[k] by {
                if k != key@ {
                    lemma_key_place(before, k, 0);
                    assert(before[key_place(before, k, 0)->0].0@ != key@);
                }
            }
            assert(map =~= changed);
        }
    }

    /// Whether every entry of this map is one of the other.
    fn within(&self, other: &TextMap<V>) -> (within: bool)
        ensures
            within == (forall|key: Text|
                #[trigger] self@.contains_key(key) ==> other@.contains_key(key) && other@[key]
                    == self@[key]),
    {
        let mut next: usize = 0;
        proof {
            reveal(entries_map);
        }
        while next < self.entries.len()
            invariant
                next <= self.entries@.len(),
                forall|i: int|
                    0 <= i < next ==> other@.contains_key((#[trigger] self.entries@[i]).0@)
                        && self@.contains_key(self.entries@[i].0@)
                        && other@[self.entries@[i].0@] == self@[self.entries@[i].0@],
            decreases self.entries@.len() - next,
        {
            let key = self.entries[next].0.as_str();
            proof {
                reveal(entries_map);
                lemma_key_place(self.entries@, key@, 0);
                assert(self@.contains_key(key@));
            }
            match (self.get(key), other.get(key)) {
                (Some(mine), Some(theirs)) => {
                    if !theirs.same_as(&mine) {
                        return false;
                    }
                },
                _ => {
                    return false;
                },
            }
            next += 1;
        }
        proof {
            assert forall|key: Text| #[trigger] self@.contains_key(key) implies other@.contains_key(
                key,
            ) && other@[key] == self@[key] by {
                lemma_key_place(self.entries@, key, 0);
                let place = key_place(self.entries@, key, 0)->0;
                assert(self.entries@[place].0@ == key);
            }
        }
        true
    }

    /// Whether two maps hold the same keys with the same values.
    pub fn same(&self, other: &TextMap<V>) -> (same: bool)
        ensures
            same == (self@ == other@),
    {
        let same = self.within(other) && other.within(self);
        proof {
            if same {
                assert(self@ =~= other@);
            }
        }
        same
    }
}

} // verus!
