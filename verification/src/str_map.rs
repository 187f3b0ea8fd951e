//! `StrMap`: a map keyed by strings, kept as a vector of entries whose keys
//! are pairwise distinct. Entries keep their insertion order.

use crate::text::str_eq;
use vstd::prelude::*;

verus! {

/// A string-keyed map. No key occurs twice; new keys are appended.
#[derive(Debug, Clone, PartialEq)]
pub struct StrMap<V> {
    entries: Vec<(String, V)>,
}

/// The keys of a sequence of entries, in order.
pub open spec fn entry_keys<V>(s: Seq<(String, V)>) -> Seq<Seq<char>> {
    s.map_values(|e: (String, V)| e.0@)
}

/// The first position of key `k` in a key sequence, or -1.
pub open spec fn key_index(keys: Seq<Seq<char>>, k: Seq<char>) -> int {
    if keys.contains(k) {
        choose|i: int| 0 <= i < keys.len() && keys[i] == k
    } else {
        -1
    }
}

impl<V> StrMap<V> {
    /// The keys, in insertion order.
    pub closed spec fn keys_seq(&self) -> Seq<Seq<char>> {
        entry_keys(self.entries@)
    }

    /// No key occurs twice.
    pub closed spec fn wf(&self) -> bool {
        self.keys_seq().no_duplicates()
    }

    /// The map from each key to its value.
    pub closed spec fn view(&self) -> Map<Seq<char>, V> {
        Map::new(
            |k: Seq<char>| self.keys_seq().contains(k),
            |k: Seq<char>| self.entries@[key_index(self.keys_seq(), k)].1,
        )
    }

    /// The key at position `i` of the insertion order.
    pub closed spec fn key_at(&self, i: int) -> Seq<char> {
        self.entries@[i].0@
    }

    /// Number of entries.
    pub closed spec fn size(&self) -> nat {
        self.entries@.len()
    }

    proof fn lemma_index(&self, i: int)
        requires
            self.wf(),
            0 <= i < self.entries@.len(),
        ensures
            key_index(self.keys_seq(), self.entries@[i].0@) == i,
            self@.contains_key(self.entries@[i].0@),
            self@[self.entries@[i].0@] == self.entries@[i].1,
    {
        let keys = self.keys_seq();
        assert(keys[i] == self.entries@[i].0@);
        assert(keys.contains(self.entries@[i].0@));
        let j = key_index(keys, self.entries@[i].0@);
        assert(keys[j] == keys[i]);
    }

    /// Facts linking the entries to the map view.
    pub proof fn lemma_view(&self)
        requires
            self.wf(),
        ensures
            self.size() == self.keys_seq().len(),
            self.keys_seq().no_duplicates(),
            forall|i: int| 0 <= i < self.size() ==> #[trigger] self.keys_seq()[i] == self.key_at(i),
            forall|k: Seq<char>| self@.contains_key(k) <==> self.keys_seq().contains(k),
            self@.dom().finite(),
            self@.dom().len() == self.size(),
    {
        let keys = self.keys_seq();
        assert(self@.dom() =~= keys.to_set());
        keys.unique_seq_to_set();
    }

    /// An empty map.
    pub fn new() -> (res: Self)
        ensures
            res.wf(),
            res@ == Map::<Seq<char>, V>::empty(),
            res.keys_seq() == Seq::<Seq<char>>::empty(),
    {
        let res = StrMap { entries: Vec::new() };
        assert(res@ =~= Map::<Seq<char>, V>::empty());
        assert(res.keys_seq() =~= Seq::<Seq<char>>::empty());
        res
    }

    /// The position of key `k`, if present.
    fn find(&self, k: &str) -> (res: Option<usize>)
        requires
            self.wf(),
        ensures
            match res {
                Some(i) => i < self.entries@.len() && self.entries@[i as int].0@ == k@,
                None => !self.keys_seq().contains(k@),
            },
    {
        let mut i: usize = 0;
        while i < self.entries.len()
            invariant
                i <= self.entries@.len(),
                forall|j: int| 0 <= j < i ==> self.entries@[j].0@ != k@,
            decreases self.entries.len() - i,
        {
            if str_eq(self.entries[i].0.as_str(), k) {
                return Some(i);
            }
            i = i + 1;
        }
        assert forall|j: int| 0 <= j < self.keys_seq().len() implies self.keys_seq()[j] != k@ by {
            assert(self.keys_seq()[j] == self.entries@[j].0@);
        }
        None
    }

    /// Number of keys.
    pub fn len(&self) -> (res: usize)
        requires
            self.wf(),
        ensures
            res == self@.len(),
            res == self.size(),
    {
        proof {
            self.lemma_view();
        }
        self.entries.len()
    }

    /// Whether the map has no keys.
    pub fn is_empty(&self) -> (res: bool)
        requires
            self.wf(),
        ensures
            res == (self@.len() == 0),
    {
        proof {
            self.lemma_view();
        }
        self.entries.len() == 0
    }

    /// Whether `k` is a key.
    pub fn contains_key(&self, k: &str) -> (res: bool)
        requires
            self.wf(),
        ensures
            res == self@.contains_key(k@),
    {
        match self.find(k) {
            Some(i) => {
                proof {
                    self.lemma_index(i as int);
                }
                true
            },
            None => false,
        }
    }

    /// The value stored under `k`, if any.
    pub fn get(&self, k: &str) -> (res: Option<&V>)
        requires
            self.wf(),
        ensures
            match res {
                Some(v) => self@.contains_key(k@) && *v == self@[k@],
                None => !self@.contains_key(k@),
            },
    {
        match self.find(k) {
            Some(i) => {
                proof {
                    self.lemma_index(i as int);
                }
                Some(&self.entries[i].1)
            },
            None => None,
        }
    }

    /// The key at position `i`.
    pub fn key(&self, i: usize) -> (res: &String)
        requires
            i < self.size(),
        ensures
            res@ == self.key_at(i as int),
    {
        &self.entries[i].0
    }

    /// The value at position `i`.
    pub fn value(&self, i: usize) -> (res: &V)
        requires
            self.wf(),
            i < self.size(),
        ensures
            *res == self@[self.key_at(i as int)],
            self@.contains_key(self.key_at(i as int)),
    {
        proof {
            self.lemma_index(i as int);
        }
        &self.entries[i].1
    }

    /// Stores `v` under `k`, replacing any previous value. A new key is
    /// appended to the insertion order; an existing key keeps its place.
    pub fn insert(&mut self, k: String, v: V)
        requires
            old(self).wf(),
        ensures
            final(self).wf(),
            final(self)@ == old(self)@.insert(k@, v),
            old(self).keys_seq().contains(k@) ==> final(self).keys_seq() == old(self).keys_seq(),
            !old(self).keys_seq().contains(k@) ==> final(self).keys_seq() == old(
                self,
            ).keys_seq().push(k@),
    {
        let ghost old_keys = self.keys_seq();
        let ghost old_view = self@;
        match self.find(k.as_str()) {
            Some(i) => {
                let ghost ki = self.entries@[i as int].0;
                self.entries.set(i, (k, v));
                assert(self.keys_seq() =~= old_keys) by {
                    assert forall|j: int| 0 <= j < old_keys.len() implies self.keys_seq()[j]
                        == old_keys[j] by {
                        if j == i as int {
                        }
                    }
                }
                assert(self@ =~= old_view.insert(k@, v)) by {
                    assert(old_keys[i as int] == k@);
                    assert(self@.dom() =~= old_view.insert(k@, v).dom());
                    assert forall|key: Seq<char>| #[trigger] self@.contains_key(key) implies self@[key]
                        == old_view.insert(k@, v)[key] by {
                        let j = key_index(self.keys_seq(), key);
                        assert(self.keys_seq()[j] == key);
                        if key == k@ {
                            assert(old_keys[i as int] == k@);
                            assert(j == i as int);
                        } else {
                            assert(j != i as int);
                            assert(old_keys[j] == key);
                        }
                    }
                }
            },
            None => {
                self.entries.push((k, v));
                let ghost n = old_keys.len();
                assert(self.keys_seq() =~= old_keys.push(k@));
                assert(self@ =~= old_view.insert(k@, v)) by {
                    assert forall|key: Seq<char>| self@.contains_key(key) <==> old_view.insert(k@, v).contains_key(key) by {
                        if self.keys_seq().contains(key) {
                            let j = choose|j: int| 0 <= j < self.keys_seq().len() && self.keys_seq()[j] == key;
                            if j < n {
                                assert(old_keys[j] == key);
                            }
                        }
                        if old_keys.contains(key) {
                            let j = choose|j: int| 0 <= j < old_keys.len() && old_keys[j] == key;
                            assert(self.keys_seq()[j] == key);
                        }
                        assert(self.keys_seq()[n as int] == k@);
                    }
                    assert(self@.dom() =~= old_view.insert(k@, v).dom());
                    assert forall|key: Seq<char>| #[trigger] self@.contains_key(key) implies self@[key]
                        == old_view.insert(k@, v)[key] by {
                        let j = key_index(self.keys_seq(), key);
                        assert(self.keys_seq()[j] == key);
                        if key == k@ {
                            if j < n {
                                assert(old_keys[j] == k@);
                                assert(old_keys.contains(k@));
                            }
                            assert(j == n);
                        } else {
                            assert(j != n);
                            assert(old_keys[j] == key);
                            let j0 = key_index(old_keys, key);
                            assert(old_keys[j0] == key);
                        }
                    }
                }
            },
        }
    }
}

} // verus!
