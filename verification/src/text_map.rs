//! A map with text keys.
use vstd::prelude::*;

use crate::text::same_text;

verus! {

/// A map from text to values, kept as a list of entries with distinct keys.
#[derive(Debug)]
pub struct TextMap<V> {
    entries: Vec<(String, V)>,
}

/// No two entries have the same key.
spec fn distinct_keys<V>(entries: Seq<(String, V)>) -> bool {
    forall|i: int, j: int|
        0 <= i < j < entries.len() ==> #[trigger] entries[i].0@ != #[trigger] entries[j].0@
}

/// The entry at position `i` has the key `key`.
spec fn has_key_at<V>(entries: Seq<(String, V)>, key: Seq<char>, i: int) -> bool {
    0 <= i < entries.len() && entries[i].0@ == key
}

impl<V> View for TextMap<V> {
    type V = Map<Seq<char>, V>;

    closed spec fn view(&self) -> Map<Seq<char>, V> {
        let entries = self.entries@;
        Map::new(
            |key: Seq<char>| exists|i: int| has_key_at(entries, key, i),
            |key: Seq<char>| entries[choose|i: int| has_key_at(entries, key, i)].1,
        )
    }
}

impl<V> TextMap<V> {
    #[verifier::type_invariant]
    spec fn well_formed(self) -> bool {
        distinct_keys(self.entries@)
    }

    /// The map without entries.
    pub fn new() -> (map: Self)
        ensures
            map@.dom() == Set::<Seq<char>>::empty(),
    {
        let map = TextMap { entries: Vec::new() };
        assert(map@.dom() =~= Set::<Seq<char>>::empty());
        map
    }

    /// The position of the entry with the key `key`.
    fn position(&self, key: &str) -> (found: Option<usize>)
        ensures
            match found {
                Some(i) => has_key_at(self.entries@, key@, i as int),
                None => forall|i: int| !has_key_at(self.entries@, key@, i),
            },
    {
        let mut i: usize = 0;
        while i < self.entries.len()
            invariant
                i <= self.entries@.len(),
                forall|j: int| 0 <= j < i ==> !has_key_at(self.entries@, key@, j),
            decreases self.entries@.len() - i,
        {
            if same_text(self.entries[i].0.as_str(), key) {
                return Some(i);
            }
            i = i + 1;
        }
        None
    }

    /// The value at `key`, if there is one.
    pub fn get(&self, key: &str) -> (value: Option<&V>)
        ensures
            match value {
                Some(found) => self@.contains_key(key@) && *found == self@[key@],
                None => !self@.contains_key(key@),
            },
    {
        proof {
            use_type_invariant(self);
        }
        match self.position(key) {
            Some(i) => {
                proof {
                    self.lemma_at(key@, i as int);
                }
                Some(&self.entries[i].1)
            },
            None => None,
        }
    }

    /// Puts `value` at `key`, in place of the value that is there, if any.
    pub fn insert(&mut self, key: String, value: V)
        ensures
            final(self)@ == old(self)@.insert(key@, value),
    {
        proof {
            use_type_invariant(&*self);
        }
        let position = self.position(key.as_str());
        let mut entries: Vec<(String, V)> = Vec::new();
        std::mem::swap(&mut entries, &mut self.entries);
        let ghost before = entries@;
        match position {
            Some(i) => {
                entries.set(i, (key, value));
            },
            None => {
                entries.push((key, value));
            },
        }
        proof {
            let at: int = match position {
                Some(i) => i as int,
                None => before.len() as int,
            };
            assert forall|i: int, j: int|
                0 <= i < j < entries@.len() implies #[trigger] entries@[i].0@
                != #[trigger] entries@[j].0@ by {
                if i == at {
                    assert(!has_key_at(before, key@, j) || position is Some);
                } else if j == at {
                    assert(!has_key_at(before, key@, i) || position is Some);
                }
            }
        }
        self.entries = entries;
        proof {
            let at: int = match position {
                Some(i) => i as int,
                None => before.len() as int,
            };
            let now = self.entries@;
            assert forall|k: Seq<char>| #[trigger]
                self@.contains_key(k) == old(self)@.insert(key@, value).contains_key(k) by {
                if k == key@ {
                    assert(has_key_at(now, k, at));
                } else {
                    if self@.contains_key(k) {
                        let i = choose|i: int| has_key_at(now, k, i);
                        assert(has_key_at(before, k, i));
                    }
                    if old(self)@.contains_key(k) {
                        let i = choose|i: int| has_key_at(before, k, i);
                        assert(has_key_at(now, k, i));
                    }
                }
            }
            assert forall|k: Seq<char>| #[trigger] self@.contains_key(k) implies self@[k]
                == old(self)@.insert(key@, value)[k] by {
                if k == key@ {
                    self.lemma_at(k, at);
                } else {
                    let i = choose|i: int| has_key_at(now, k, i);
                    self.lemma_at(k, i);
                    assert(has_key_at(before, k, i));
                    old(self).lemma_at(k, i);
                }
            }
            assert(self@ =~= old(self)@.insert(key@, value));
        }
    }

    /// Takes the value at `key` out of the map, if there is one.
    pub fn remove(&mut self, key: &str) -> (value: Option<V>)
        ensures
            final(self)@ == old(self)@.remove(key@),
            match value {
                Some(found) => old(self)@.contains_key(key@) && found == old(self)@[key@],
                None => !old(self)@.contains_key(key@),
            },
    {
        proof {
            use_type_invariant(&*self);
        }
        match self.position(key) {
            Some(at) => {
                let mut entries: Vec<(String, V)> = Vec::new();
                std::mem::swap(&mut entries, &mut self.entries);
                let ghost before = entries@;
                let ghost last = before.len() - 1;
                let (_, value) = entries.swap_remove(at);
                self.entries = entries;
                proof {
                    old(self).lemma_at(key@, at as int);
                    let now = self.entries@;
                    assert forall|k: Seq<char>| #[trigger]
                        self@.contains_key(k) == old(self)@.remove(key@).contains_key(k) by {
                        if self@.contains_key(k) {
                            let i = choose|i: int| has_key_at(now, k, i);
                            assert(has_key_at(before, k, if i == at { last } else { i }));
                        }
                        if old(self)@.remove(key@).contains_key(k) {
                            let i = choose|i: int| has_key_at(before, k, i);
                            assert(has_key_at(now, k, if i == last { at as int } else { i }));
                        }
                    }
                    assert forall|k: Seq<char>| #[trigger] self@.contains_key(k) implies self@[k]
                        == old(self)@.remove(key@)[k] by {
                        let i = choose|i: int| has_key_at(now, k, i);
                        self.lemma_at(k, i);
                        let j = if i == at { last } else { i };
                        assert(has_key_at(before, k, j));
                        old(self).lemma_at(k, j);
                    }
                    assert(self@ =~= old(self)@.remove(key@));
                }
                Some(value)
            },
            None => {
                assert(self@.remove(key@) =~= self@);
                None
            },
        }
    }

    /// The view at the key of an entry is the value of that entry.
    proof fn lemma_at(&self, key: Seq<char>, i: int)
        requires
            distinct_keys(self.entries@),
            has_key_at(self.entries@, key, i),
        ensures
            self@.contains_key(key),
            self@[key] == self.entries@[i].1,
    {
        let chosen = choose|j: int| has_key_at(self.entries@, key, j);
        assert(has_key_at(self.entries@, key, chosen));
        if chosen < i {
            assert(self.entries@[chosen].0@ != self.entries@[i].0@);
        } else if i < chosen {
            assert(self.entries@[i].0@ != self.entries@[chosen].0@);
        }
    }
}

} // verus!
