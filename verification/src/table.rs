//! A small keyed store: a map held as a list of entries with distinct keys.

use vstd::prelude::*;
use crate::primitives::{bytes_equal, AccountId};

verus! {

/// A key that can be compared in executable code.
pub trait Key: Sized {
    /// Whether the two keys are the same.
    fn same(&self, other: &Self) -> (r: bool)
        ensures
            r == (*self == *other),
    ;
}

impl Key for u64 {
    fn same(&self, other: &Self) -> (r: bool) {
        *self == *other
    }
}

impl Key for AccountId {
    fn same(&self, other: &Self) -> (r: bool) {
        bytes_equal(&self.bytes, &other.bytes)
    }
}

impl<A: Key, B: Key> Key for (A, B) {
    fn same(&self, other: &Self) -> (r: bool) {
        self.0.same(&other.0) && self.1.same(&other.1)
    }
}

/// A finite map from `K` to `V`.
pub struct Table<K: Key, V> {
    entries: Vec<(K, V)>,
}

impl<K: Key, V> Table<K, V> {
    /// The invariant of a table: no key occurs twice.
    pub closed spec fn wf(self) -> bool {
        forall|i: int, j: int|
            #![trigger self.entries@[i], self.entries@[j]]
            0 <= i < self.entries@.len() && 0 <= j < self.entries@.len() && i != j
                ==> self.entries@[i].0 != self.entries@[j].0
    }

    /// A key is held at one position only.
    proof fn lemma_one_position(self, key: K, i: int, j: int)
        requires
            self.wf(),
            self.holds_at(key, i),
            self.holds_at(key, j),
        ensures
            i == j,
    {
        let a = self.entries@[i];
        let b = self.entries@[j];
    }

    /// The table maps a key to the value of the entry that holds it.
    proof fn lemma_value_at(self, key: K, i: int)
        requires
            self.wf(),
            self.holds_at(key, i),
        ensures
            self@.contains_key(key),
            self@[key] == self.entries@[i].1,
    {
        let chosen = choose|j: int| self.holds_at(key, j);
        self.lemma_one_position(key, chosen, i);
    }

    spec fn holds_at(self, key: K, i: int) -> bool {
        0 <= i < self.entries@.len() && self.entries@[i].0 == key
    }
}

impl<K: Key, V> View for Table<K, V> {
    type V = Map<K, V>;

    closed spec fn view(&self) -> Map<K, V> {
        Map::new(
            |key: K| exists|i: int| self.holds_at(key, i),
            |key: K| self.entries@[choose|i: int| self.holds_at(key, i)].1,
        )
    }
}

impl<K: Key, V> Table<K, V> {
    /// An empty table.
    pub fn new() -> (r: Self)
        ensures
            r.wf(),
            r@ == Map::<K, V>::empty(),
    {
        let r = Table { entries: Vec::new() };
        assert(r@ =~= Map::<K, V>::empty());
        r
    }

    /// The position of `key` among the entries, if it is there.
    fn position(&self, key: &K) -> (r: Option<usize>)
        requires
            self.wf(),
        ensures
            match r {
                Some(i) => self.holds_at(*key, i as int) && self@.contains_key(*key) && self@[*key]
                    == self.entries@[i as int].1,
                None => !self@.contains_key(*key) && forall|i: int| !self.holds_at(*key, i),
            },
    {
        let mut i: usize = 0;
        while i < self.entries.len()
            invariant
                self.wf(),
                i <= self.entries.len(),
                forall|j: int| 0 <= j < i ==> self.entries@[j].0 != *key,
            decreases self.entries.len() - i,
        {
            if self.entries[i].0.same(key) {
                proof {
                    assert(self.holds_at(*key, i as int));
                    self.lemma_value_at(*key, i as int);
                }
                return Some(i);
            }
            i += 1;
        }
        None
    }

    /// The value stored under `key`, if any.
    pub fn get(&self, key: &K) -> (r: Option<&V>)
        requires
            self.wf(),
        ensures
            match r {
                Some(value) => self@.contains_key(*key) && *value == self@[*key],
                None => !self@.contains_key(*key),
            },
    {
        match self.position(key) {
            Some(i) => Some(&self.entries[i].1),
            None => None,
        }
    }

    /// Whether a value is stored under `key`.
    pub fn contains_key(&self, key: &K) -> (r: bool)
        requires
            self.wf(),
        ensures
            r == self@.contains_key(*key),
    {
        self.position(key).is_some()
    }

    /// Stores `value` under `key`, replacing what was there.
    pub fn insert(&mut self, key: K, value: V)
        requires
            old(self).wf(),
        ensures
            final(self).wf(),
            final(self)@ == old(self)@.insert(key, value),
    {
        match self.position(&key) {
            Some(i) => {
                self.entries[i].1 = value;
                proof {
                    assert(self.wf()) by {
                        assert forall|a: int, b: int|
                            #![trigger self.entries@[a], self.entries@[b]]
                            0 <= a < self.entries@.len() && 0 <= b < self.entries@.len() && a
                                != b implies self.entries@[a].0 != self.entries@[b].0 by {
                            assert(self.entries@[a].0 == old(self).entries@[a].0);
                            assert(self.entries@[b].0 == old(self).entries@[b].0);
                        }
                    }
                    assert forall|k: K|
                        self@.contains_key(k) == #[trigger] old(self)@.insert(
                            key,
                            value,
                        ).contains_key(k) by {
                        if self@.contains_key(k) {
                            let j = choose|j: int| self.holds_at(k, j);
                            assert(old(self).holds_at(k, j));
                        }
                        if old(self)@.contains_key(k) {
                            let j = choose|j: int| old(self).holds_at(k, j);
                            assert(self.holds_at(k, j));
                        }
                    }
                    assert forall|k: K| #[trigger] self@.contains_key(k) implies self@[k] == old(
                        self,
                    )@.insert(key, value)[k] by {
                        let j = choose|j: int| self.holds_at(k, j);
                        self.lemma_value_at(k, j);
                        assert(old(self).holds_at(k, j));
                        old(self).lemma_value_at(k, j);
                        if k == key {
                            self.lemma_one_position(k, j, i as int);
                        }
                    }
                    assert(self@ =~= old(self)@.insert(key, value));
                }
            },
            None => {
                self.entries.push((key, value));
                proof {
                    let last = old(self).entries@.len() as int;
                    assert(self.wf()) by {
                        assert forall|a: int, b: int|
                            #![trigger self.entries@[a], self.entries@[b]]
                            0 <= a < self.entries@.len() && 0 <= b < self.entries@.len() && a
                                != b implies self.entries@[a].0 != self.entries@[b].0 by {
                            if a < last && b < last {
                                assert(self.entries@[a] == old(self).entries@[a]);
                                assert(self.entries@[b] == old(self).entries@[b]);
                            } else if a < last {
                                assert(!old(self).holds_at(key, a));
                            } else {
                                assert(!old(self).holds_at(key, b));
                            }
                        }
                    }
                    assert(self.holds_at(key, last));
                    assert forall|k: K|
                        self@.contains_key(k) == #[trigger] old(self)@.insert(
                            key,
                            value,
                        ).contains_key(k) by {
                        if self@.contains_key(k) {
                            let j = choose|j: int| self.holds_at(k, j);
                            if j < last {
                                assert(old(self).holds_at(k, j));
                            }
                        }
                        if old(self)@.contains_key(k) {
                            let j = choose|j: int| old(self).holds_at(k, j);
                            assert(self.holds_at(k, j));
                        }
                    }
                    assert forall|k: K| #[trigger] self@.contains_key(k) implies self@[k] == old(
                        self,
                    )@.insert(key, value)[k] by {
                        let j = choose|j: int| self.holds_at(k, j);
                        self.lemma_value_at(k, j);
                        if k == key {
                            self.lemma_one_position(k, j, last);
                        } else {
                            assert(old(self).holds_at(k, j));
                            old(self).lemma_value_at(k, j);
                        }
                    }
                    assert(self@ =~= old(self)@.insert(key, value));
                }
            },
        }
    }

    /// Removes what is stored under `key`, if anything.
    pub fn remove(&mut self, key: &K)
        requires
            old(self).wf(),
        ensures
            final(self).wf(),
            final(self)@ == old(self)@.remove(*key),
    {
        let _ = self.take(key);
    }

    /// Removes and hands out what is stored under `key`, if anything.
    pub fn take(&mut self, key: &K) -> (r: Option<V>)
        requires
            old(self).wf(),
        ensures
            final(self).wf(),
            final(self)@ == old(self)@.remove(*key),
            match r {
                Some(value) => old(self)@.contains_key(*key) && value == old(self)@[*key],
                None => !old(self)@.contains_key(*key),
            },
    {
        match self.position(key) {
            Some(i) => {
                let entry = self.entries.remove(i);
                proof {
                    let at = i as int;
                    assert forall|a: int| 0 <= a < self.entries@.len() implies self.entries@[a]
                        == old(self).entries@[if a < at {
                        a
                    } else {
                        a + 1
                    }] by {}
                    assert(self.wf()) by {
                        assert forall|a: int, b: int|
                            #![trigger self.entries@[a], self.entries@[b]]
                            0 <= a < self.entries@.len() && 0 <= b < self.entries@.len() && a
                                != b implies self.entries@[a].0 != self.entries@[b].0 by {
                            let a0 = if a < at {
                                a
                            } else {
                                a + 1
                            };
                            let b0 = if b < at {
                                b
                            } else {
                                b + 1
                            };
                            assert(self.entries@[a] == old(self).entries@[a0]);
                            assert(self.entries@[b] == old(self).entries@[b0]);
                        }
                    }
                    assert forall|k: K|
                        self@.contains_key(k) == #[trigger] old(self)@.remove(*key).contains_key(
                            k,
                        ) by {
                        if self@.contains_key(k) {
                            let j = choose|j: int| self.holds_at(k, j);
                            let j0 = if j < at {
                                j
                            } else {
                                j + 1
                            };
                            assert(old(self).holds_at(k, j0));
                            if k == *key {
                                old(self).lemma_one_position(k, j0, at);
                            }
                        }
                        if old(self)@.contains_key(k) && k != *key {
                            let j = choose|j: int| old(self).holds_at(k, j);
                            if j < at {
                                assert(self.holds_at(k, j));
                            } else {
                                assert(self.holds_at(k, j - 1));
                            }
                        }
                    }
                    assert forall|k: K| #[trigger] self@.contains_key(k) implies self@[k] == old(
                        self,
                    )@.remove(*key)[k] by {
                        let j = choose|j: int| self.holds_at(k, j);
                        self.lemma_value_at(k, j);
                        let j0 = if j < at {
                            j
                        } else {
                            j + 1
                        };
                        assert(old(self).holds_at(k, j0));
                        old(self).lemma_value_at(k, j0);
                    }
                    assert(self@ =~= old(self)@.remove(*key));
                }
                Some(entry.1)
            },
            None => {
                assert(self@ =~= old(self)@.remove(*key));
                None
            },
        }
    }
}

impl<K: Key + Copy, V: Copy> Table<K, V> {
    /// A table of its own with the same entries.
    pub fn duplicate(&self) -> (r: Self)
        requires
            self.wf(),
        ensures
            r.wf(),
            r@ == self@,
    {
        let mut entries: Vec<(K, V)> = Vec::new();
        let mut i: usize = 0;
        while i < self.entries.len()
            invariant
                i <= self.entries.len(),
                entries@ == self.entries@.take(i as int),
            decreases self.entries.len() - i,
        {
            let entry = self.entries[i];
            entries.push(entry);
            assert(entries@ =~= self.entries@.take(i + 1));
            i += 1;
        }
        assert(entries@ =~= self.entries@);
        let r = Table { entries };
        proof {
            assert(r.wf());
            assert forall|k: K| r@.contains_key(k) == #[trigger] self@.contains_key(k) by {
                if r@.contains_key(k) {
                    let j = choose|j: int| r.holds_at(k, j);
                    assert(self.holds_at(k, j));
                }
                if self@.contains_key(k) {
                    let j = choose|j: int| self.holds_at(k, j);
                    assert(r.holds_at(k, j));
                }
            }
            assert forall|k: K| #[trigger] r@.contains_key(k) implies r@[k] == self@[k] by {
                let j = choose|j: int| r.holds_at(k, j);
                r.lemma_value_at(k, j);
                assert(self.holds_at(k, j));
                self.lemma_value_at(k, j);
            }
            assert(r@ =~= self@);
        }
        r
    }
}

} // verus!
