//! A table from text keys to values that keeps its entries in the order in
//! which their keys first arrived.

use vstd::prelude::*;
use crate::text::same_text;

verus! {

/// Entries are held as two parallel vectors; no key occurs twice.
pub struct Table<V> {
    pub keys: Vec<String>,
    pub values: Vec<V>,
}

impl<V> Table<V> {
    /// The two vectors run in parallel and the keys are pairwise distinct.
    pub open spec fn wf(&self) -> bool {
        &&& self.keys.len() == self.values.len()
        &&& forall|i: int, j: int|
            0 <= i < j < self.keys.len() ==> self.keys[i]@ != self.keys[j]@
    }

    /// Whether some entry has this key.
    pub open spec fn contains(&self, key: Seq<char>) -> bool {
        exists|i: int| 0 <= i < self.keys.len() && self.keys[i]@ == key
    }

    /// The position of the entry with this key, where there is one.
    pub open spec fn index_of(&self, key: Seq<char>) -> int {
        choose|i: int| 0 <= i < self.keys.len() && self.keys[i]@ == key
    }

    /// The table as a map from keys to values.
    pub open spec fn view(&self) -> Map<Seq<char>, V> {
        Map::new(|k: Seq<char>| self.contains(k), |k: Seq<char>| self.values[self.index_of(k)])
    }

    /// In a well-formed table a key is found at one position only.
    pub proof fn lemma_index_unique(&self, i: int)
        requires
            self.wf(),
            0 <= i < self.keys.len(),
        ensures
            self.contains(self.keys[i]@),
            self.index_of(self.keys[i]@) == i,
            self@.contains_key(self.keys[i]@),
            self@[self.keys[i]@] == self.values[i],
    {
        let j = self.index_of(self.keys[i]@);
        if j < i {
            assert(self.keys[j]@ != self.keys[i]@);
        } else if i < j {
            assert(self.keys[i]@ != self.keys[j]@);
        }
    }

    /// A table that has the keys of a well-formed one is well formed, has the
    /// same domain, and finds each key at the same position.
    pub proof fn lemma_same_keys(&self, after: &Self)
        requires
            self.wf(),
            after.keys@ == self.keys@,
            after.values.len() == self.values.len(),
        ensures
            after.wf(),
            after@.dom() == self@.dom(),
            forall|k: Seq<char>| #[trigger]
                self@.contains_key(k) ==> after.index_of(k) == self.index_of(k) && 0
                    <= self.index_of(k) < self.keys.len() && self.keys[self.index_of(k)]@ == k
                    && after@[k] == after.values[self.index_of(k)] && self@[k]
                    == self.values[self.index_of(k)],
    {
        assert forall|k: Seq<char>| #[trigger] after@.contains_key(k) == self@.contains_key(k) by {
            if self.contains(k) {
                let j = self.index_of(k);
                assert(after.keys[j]@ == k);
            }
            if after.contains(k) {
                let j = after.index_of(k);
                assert(self.keys[j]@ == k);
            }
        }
        assert(after@.dom() =~= self@.dom());
        assert forall|k: Seq<char>| #[trigger] self@.contains_key(k) implies after.index_of(k)
            == self.index_of(k) && 0 <= self.index_of(k) < self.keys.len()
            && self.keys[self.index_of(k)]@ == k && after@[k] == after.values[self.index_of(k)]
            && self@[k] == self.values[self.index_of(k)] by {
            let j = self.index_of(k);
            self.lemma_index_unique(j);
            after.lemma_index_unique(j);
        }
    }

    /// A table without entries.
    pub fn new() -> (table: Self)
        ensures
            table.wf(),
            table.keys.len() == 0,
            table@ == Map::<Seq<char>, V>::empty(),
    {
        let table = Table { keys: Vec::new(), values: Vec::new() };
        assert(table@ =~= Map::<Seq<char>, V>::empty());
        table
    }

    /// The number of entries.
    pub fn len(&self) -> (n: usize)
        requires
            self.wf(),
        ensures
            n == self.keys.len(),
    {
        self.keys.len()
    }

    /// The position of the entry with this key, if there is one.
    pub fn position(&self, key: &str) -> (found: Option<usize>)
        requires
            self.wf(),
        ensures
            match found {
                Some(i) => i < self.keys.len() && self.keys[i as int]@ == key@
                    && self.index_of(key@) == i && self@.contains_key(key@),
                None => !self@.contains_key(key@),
            },
    {
        let mut i: usize = 0;
        while i < self.keys.len()
            invariant
                self.wf(),
                i <= self.keys.len(),
                forall|j: int| 0 <= j < i ==> self.keys[j]@ != key@,
            decreases self.keys.len() - i,
        {
            if same_text(self.keys[i].as_str(), key) {
                proof {
                    self.lemma_index_unique(i as int);
                }
                return Some(i);
            }
            i += 1;
        }
        None
    }

    /// Whether some entry has this key.
    pub fn contains_key(&self, key: &str) -> (found: bool)
        requires
            self.wf(),
        ensures
            found == self@.contains_key(key@),
    {
        self.position(key).is_some()
    }

    /// The value stored under this key, if there is one.
    pub fn get(&self, key: &str) -> (found: Option<&V>)
        requires
            self.wf(),
        ensures
            match found {
                Some(v) => self@.contains_key(key@) && *v == self@[key@],
                None => !self@.contains_key(key@),
            },
    {
        match self.position(key) {
            Some(i) => Some(&self.values[i]),
            None => None,
        }
    }

    /// Stores `value` under `key`. An entry that already has the key keeps its
    /// place and takes the new value; a new key goes to the end.
    pub fn insert(&mut self, key: String, value: V)
        requires
            old(self).wf(),
        ensures
            final(self).wf(),
            final(self)@ == old(self)@.insert(key@, value),
            old(self)@.contains_key(key@) ==> {
                &&& final(self).keys@ == old(self).keys@
                &&& final(self).values@ == old(self).values@.update(
                    old(self).index_of(key@),
                    value,
                )
            },
            !old(self)@.contains_key(key@) ==> {
                &&& final(self).keys@ == old(self).keys@.push(key)
                &&& final(self).values@ == old(self).values@.push(value)
            },
    {
        let ghost before = *self;
        match self.position(key.as_str()) {
            Some(i) => {
                self.values.set(i, value);
                proof {
                    assert forall|k: Seq<char>| #[trigger]
                        self@.contains_key(k) == before@.insert(key@, value).contains_key(
                            k,
                        ) by {
                        if before.contains(k) {
                            let j = before.index_of(k);
                            assert(self.keys[j]@ == k);
                        }
                        if self.contains(k) {
                            let j = self.index_of(k);
                            assert(before.keys[j]@ == k);
                        }
                    }
                    assert forall|k: Seq<char>| #[trigger]
                        self@.contains_key(k) implies self@[k] == before@.insert(key@, value)[k] by {
                        let j = self.index_of(k);
                        before.lemma_index_unique(j);
                        self.lemma_index_unique(j);
                    }
                    assert(self@ =~= before@.insert(key@, value));
                }
            },
            None => {
                proof {
                    assert forall|j: int| 0 <= j < before.keys.len() implies before.keys[j]@
                        != key@ by {
                        if before.keys[j]@ == key@ {
                            before.lemma_index_unique(j);
                        }
                    }
                }
                self.keys.push(key);
                self.values.push(value);
                proof {
                    let n = before.keys.len() as int;
                    assert(self.wf());
                    assert forall|k: Seq<char>| #[trigger]
                        self@.contains_key(k) == before@.insert(key@, value).contains_key(
                            k,
                        ) by {
                        if before.contains(k) {
                            let j = before.index_of(k);
                            assert(self.keys[j]@ == k);
                        }
                        if k == key@ {
                            assert(self.keys[n]@ == k);
                        }
                        if self.contains(k) {
                            let j = self.index_of(k);
                            if j < n {
                                assert(before.keys[j]@ == k);
                            }
                        }
                    }
                    assert forall|k: Seq<char>| #[trigger]
                        self@.contains_key(k) implies self@[k] == before@.insert(key@, value)[k] by {
                        let j = self.index_of(k);
                        self.lemma_index_unique(j);
                        if j < n {
                            before.lemma_index_unique(j);
                        }
                    }
                    assert(self@ =~= before@.insert(key@, value));
                }
            },
        }
    }

    /// Takes the entry with this key out, if there is one; the others keep
    /// their order.
    pub fn remove(&mut self, key: &str) -> (taken: Option<V>)
        requires
            old(self).wf(),
        ensures
            final(self).wf(),
            final(self)@ == old(self)@.remove(key@),
            match taken {
                Some(v) => old(self)@.contains_key(key@) && v == old(self)@[key@]
                    && final(self).keys@ == old(self).keys@.remove(old(self).index_of(key@))
                    && final(self).values@ == old(self).values@.remove(old(self).index_of(key@)),
                None => !old(self)@.contains_key(key@) && final(self).keys@ == old(self).keys@
                    && final(self).values@ == old(self).values@,
            },
    {
        let ghost before = *self;
        match self.position(key) {
            Some(i) => {
                self.keys.remove(i);
                let v = self.values.remove(i);
                proof {
                    let p = i as int;
                    assert(self.wf()) by {
                        assert forall|a: int, b: int| 0 <= a < b < self.keys.len() implies
                            self.keys[a]@ != self.keys[b]@ by {
                            let a0 = if a < p { a } else { a + 1 };
                            let b0 = if b < p { b } else { b + 1 };
                            assert(self.keys[a] == before.keys[a0]);
                            assert(self.keys[b] == before.keys[b0]);
                        }
                    }
                    assert forall|k: Seq<char>| #[trigger]
                        self@.contains_key(k) == before@.remove(key@).contains_key(k) by {
                        if before.contains(k) && k != key@ {
                            let j = before.index_of(k);
                            before.lemma_index_unique(j);
                            let j1 = if j < p { j } else { j - 1 };
                            assert(self.keys[j1]@ == k);
                        }
                        if self.contains(k) {
                            let j = self.index_of(k);
                            let j0 = if j < p { j } else { j + 1 };
                            assert(before.keys[j0]@ == k);
                            before.lemma_index_unique(j0);
                            before.lemma_index_unique(p);
                        }
                    }
                    assert forall|k: Seq<char>| #[trigger]
                        self@.contains_key(k) implies self@[k] == before@.remove(key@)[k] by {
                        let j = self.index_of(k);
                        self.lemma_index_unique(j);
                        let j0 = if j < p { j } else { j + 1 };
                        assert(before.keys[j0]@ == k);
                        before.lemma_index_unique(j0);
                    }
                    assert(self@ =~= before@.remove(key@));
                    before.lemma_index_unique(p);
                }
                Some(v)
            },
            None => {
                proof {
                    assert(self@ =~= before@.remove(key@));
                }
                None
            },
        }
    }

    /// Drops every entry.
    pub fn clear(&mut self)
        ensures
            final(self).wf(),
            final(self).keys.len() == 0,
            final(self)@ == Map::<Seq<char>, V>::empty(),
    {
        self.keys.clear();
        self.values.clear();
        assert(self@ =~= Map::<Seq<char>, V>::empty());
    }
}

} // verus!
