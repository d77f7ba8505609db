//! A finite map held as a list of entries, one per key.

use vstd::prelude::*;

verus! {

/// A value that can serve as the key of a [`Table`]: two keys
/// can be told apart at run time.
pub trait Key: Sized {
    /// Whether the two keys are the same key.
    fn same(&self, other: &Self) -> (same: bool)
        ensures
            same == (*self == *other),
    ;
}

/// A finite map from keys to values. Its view is the map itself.
pub struct Table<K, V> {
    entries: Vec<(K, V)>,
}

impl<K, V> Table<K, V> {
    /// The table is well formed: no key occurs in two entries.
    pub closed spec fn wf(self) -> bool {
        forall|i: int, j: int|
            0 <= i < j < self.entries@.len() ==> self.entries@[i].0 != self.entries@[j].0
    }

    /// Whether some entry has the key.
    closed spec fn holds(self, key: K) -> bool {
        exists|i: int| 0 <= i < self.entries@.len() && self.entries@[i].0 == key
    }

    /// The position of the entry with the key, if some entry has it.
    closed spec fn position(self, key: K) -> int {
        choose|i: int| 0 <= i < self.entries@.len() && self.entries@[i].0 == key
    }
}

impl<K, V> View for Table<K, V> {
    type V = Map<K, V>;

    closed spec fn view(&self) -> Map<K, V> {
        Map::new(|key: K| self.holds(key), |key: K| self.entries@[self.position(key)].1)
    }
}

impl<K: Key, V> Table<K, V> {
    /// The empty map.
    pub fn new() -> (table: Table<K, V>)
        ensures
            table.wf(),
            table@ == Map::<K, V>::empty(),
    {
        let table = Table { entries: Vec::new() };
        assert(table@ =~= Map::<K, V>::empty());
        table
    }

    /// The position of the entry with the key.
    fn find(&self, key: &K) -> (found: Option<usize>)
        requires
            self.wf(),
        ensures
            match found {
                Some(i) => i < self.entries@.len() && self.entries@[i as int].0 == *key
                    && self.holds(*key) && self.position(*key) == i,
                None => !self.holds(*key),
            },
    {
        let mut i: usize = 0;
        while i < self.entries.len()
            invariant
                self.wf(),
                i <= self.entries@.len(),
                forall|j: int| 0 <= j < i ==> self.entries@[j].0 != *key,
            decreases self.entries@.len() - i,
        {
            if self.entries[i].0.same(key) {
                proof {
                    assert(self.entries@[i as int].0 == *key);
                    assert(self.holds(*key));
                    let p = self.position(*key);
                    assert(0 <= p < self.entries@.len() && self.entries@[p].0 == *key);
                    assert(p == i);
                }
                return Some(i);
            }
            i = i + 1;
        }
        None
    }

    /// The value under the key, if the map has the key.
    pub fn get(&self, key: &K) -> (value: Option<&V>)
        requires
            self.wf(),
        ensures
            match value {
                Some(v) => self@.contains_key(*key) && self@[*key] == *v,
                None => !self@.contains_key(*key),
            },
    {
        match self.find(key) {
            Some(i) => Some(&self.entries[i].1),
            None => None,
        }
    }

    /// Puts the value under the key, in place of the value that was there.
    pub fn insert(&mut self, key: K, value: V)
        requires
            old(self).wf(),
        ensures
            final(self).wf(),
            final(self)@ == old(self)@.insert(key, value),
    {
        let found = self.find(&key);
        match found {
            Some(i) => {
                self.entries[i] = (key, value);
                proof {
                    let before = *old(self);
                    let after = *self;
                    assert forall|k: K| after.holds(k) == (before.holds(k) || k == key) by {
                        if before.holds(k) {
                            assert(after.entries@[before.position(k)].0 == k);
                        }
                        if after.holds(k) {
                            assert(before.entries@[after.position(k)].0 == k);
                        }
                    }
                    assert forall|k: K| after.holds(k) && k != key implies
                        after.entries@[after.position(k)].1 == before.entries@[before.position(k)].1 by {
                        assert(before.entries@[after.position(k)].0 == k);
                    }
                    assert(after@ =~= before@.insert(key, value));
                }
            },
            None => {
                self.entries.push((key, value));
                proof {
                    let before = *old(self);
                    let after = *self;
                    let last = before.entries@.len() as int;
                    assert(after.entries@[last].0 == key);
                    assert forall|k: K| after.holds(k) == (before.holds(k) || k == key) by {
                        if before.holds(k) {
                            assert(after.entries@[before.position(k)].0 == k);
                        }
                    }
                    assert forall|k: K| after.holds(k) && k != key implies
                        after.entries@[after.position(k)].1 == before.entries@[before.position(k)].1 by {
                        assert(before.entries@[after.position(k)].0 == k);
                    }
                    assert(after@ =~= before@.insert(key, value));
                }
            },
        }
    }
}

} // verus!
