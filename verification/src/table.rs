//! A keyed record store: at most one record per key.

use vstd::prelude::*;
use crate::address::Address;

verus! {

/// What a type needs in order to key a [`Table`]: a model, and an executable
/// test for two keys having the same model.
pub trait Key: View + Sized {
    /// Whether `self` and `other` stand for the same key.
    fn same(&self, other: &Self) -> (r: bool)
        ensures
            r == (self@ == other@),
    ;
}

impl Key for Address {
    fn same(&self, other: &Address) -> (r: bool) {
        Address::same(self, other)
    }
}

impl Key for (Address, Address) {
    fn same(&self, other: &(Address, Address)) -> (r: bool) {
        self.0.same(&other.0) && self.1.same(&other.1)
    }
}

/// Records of type `V` keyed by `K`. The model is the finite map from key
/// models to records.
pub struct Table<K: Key, V> {
    keys: Vec<K>,
    values: Vec<V>,
}

impl<K: Key, V> View for Table<K, V> {
    type V = Map<K::V, V>;

    closed spec fn view(&self) -> Map<K::V, V> {
        Map::new(
            |k: K::V| self.holds(k),
            |k: K::V| self.values[self.slot(k)],
        )
    }
}

impl<K: Key, V> Table<K, V> {
    /// Some slot holds a key whose model is `k`.
    spec fn holds(&self, k: K::V) -> bool {
        exists|i: int| 0 <= i < self.keys.len() && (#[trigger] self.keys[i])@ == k
    }

    /// A slot that holds `k`, where one does.
    spec fn slot(&self, k: K::V) -> int {
        choose|i: int| 0 <= i < self.keys.len() && (#[trigger] self.keys[i])@ == k
    }

    /// Every key has its record beside it, and no key occurs twice.
    pub closed spec fn well_formed(&self) -> bool {
        &&& self.keys.len() == self.values.len()
        &&& forall|i: int, j: int|
            0 <= i < j < self.keys.len() ==> (#[trigger] self.keys[i])@ != (#[trigger] self.keys[j])@
        &&& self@.dom().finite()
        &&& self@.dom().len() == self.keys.len()
    }

    /// In a well-formed table the slot of a key is the one place it occurs.
    proof fn lemma_slot(&self, i: int)
        requires
            self.well_formed(),
            0 <= i < self.keys.len(),
        ensures
            self.holds(self.keys[i]@),
            self.slot(self.keys[i]@) == i,
            self@.contains_key(self.keys[i]@),
            self@[self.keys[i]@] == self.values[i],
    {
        let k = self.keys[i]@;
        let j = self.slot(k);
        assert(0 <= j < self.keys.len() && self.keys[j]@ == k);
        if j < i {
            assert(self.keys[j]@ != self.keys[i]@);
        } else if i < j {
            assert(self.keys[i]@ != self.keys[j]@);
        }
    }

    /// The empty table.
    pub fn new() -> (r: Self)
        ensures
            r.well_formed(),
            r@ == Map::<K::V, V>::empty(),
    {
        let r = Table { keys: Vec::new(), values: Vec::new() };
        assert(r@ =~= Map::<K::V, V>::empty());
        r
    }

    /// The number of records.
    pub fn len(&self) -> (r: usize)
        requires
            self.well_formed(),
        ensures
            self@.dom().finite(),
            r == self@.dom().len(),
    {
        self.keys.len()
    }

    /// The slot that holds `key`, if any does.
    fn find(&self, key: &K) -> (r: Option<usize>)
        requires
            self.well_formed(),
        ensures
            match r {
                Some(i) => i < self.keys.len() && self.keys[i as int]@ == key@,
                None => !self.holds(key@),
            },
    {
        let mut i: usize = 0;
        while i < self.keys.len()
            invariant
                i <= self.keys.len(),
                forall|j: int| 0 <= j < i ==> (#[trigger] self.keys[j])@ != key@,
            decreases self.keys.len() - i,
        {
            if self.keys[i].same(key) {
                return Some(i);
            }
            i += 1;
        }
        None
    }

    /// Whether `key` has a record.
    pub fn contains_key(&self, key: &K) -> (r: bool)
        requires
            self.well_formed(),
        ensures
            r == self@.contains_key(key@),
    {
        match self.find(key) {
            Some(i) => {
                proof {
                    self.lemma_slot(i as int);
                }
                true
            },
            None => false,
        }
    }

    /// The record of `key`, if it has one.
    pub fn get(&self, key: &K) -> (r: Option<&V>)
        requires
            self.well_formed(),
        ensures
            match r {
                Some(v) => self@.contains_key(key@) && *v == self@[key@],
                None => !self@.contains_key(key@),
            },
    {
        match self.find(key) {
            Some(i) => {
                proof {
                    self.lemma_slot(i as int);
                }
                Some(&self.values[i])
            },
            None => None,
        }
    }

    /// Gives `key` the record `value`, in place of the one it had, if any.
    pub fn insert(&mut self, key: K, value: V)
        requires
            old(self).well_formed(),
        ensures
            final(self).well_formed(),
            final(self)@ == old(self)@.insert(key@, value),
    {
        match self.find(&key) {
            Some(i) => {
                self.values.set(i, value);
                proof {
                    let before = *old(self);
                    let after = *self;
                    assert(after.keys == before.keys);
                    assert forall|k: K::V| after.holds(k) == before.holds(k) by {
                        if before.holds(k) {
                            assert(after.keys[before.slot(k)]@ == k);
                        }
                        if after.holds(k) {
                            assert(before.keys[after.slot(k)]@ == k);
                        }
                    }
                    assert forall|k: K::V| #[trigger] after.holds(k) implies after.slot(k)
                        == before.slot(k) by {
                        let a = after.slot(k);
                        assert(before.keys[a]@ == k);
                        before.lemma_slot(a);
                    }
                    before.lemma_slot(i as int);
                    assert(after@ =~= before@.insert(key@, value));
                }
            },
            None => {
                self.keys.push(key);
                self.values.push(value);
                proof {
                    let before = *old(self);
                    let after = *self;
                    let n = before.keys.len() as int;
                    assert(after.keys[n]@ == key@);
                    assert forall|k: K::V| after.holds(k) == (before.holds(k) || k == key@) by {
                        if before.holds(k) {
                            let j = before.slot(k);
                            assert(after.keys[j]@ == k);
                        }
                    }
                    assert forall|k: K::V| #[trigger] before.holds(k) implies after.values[after.slot(k)]
                        == before.values[before.slot(k)] by {
                        let j = before.slot(k);
                        let a = after.slot(k);
                        assert(after.keys[j]@ == k);
                        assert(0 <= a < after.keys.len() && after.keys[a]@ == k);
                        if a < n {
                            before.lemma_slot(a);
                        }
                    }
                    assert(after.holds(key@));
                    let a = after.slot(key@);
                    assert(0 <= a < after.keys.len() && after.keys[a]@ == key@);
                    if a < n {
                        assert(before.keys[a]@ == key@);
                        assert(before.holds(key@));
                    }
                    assert(after@ =~= before@.insert(key@, value));
                    assert(!before@.dom().contains(key@));
                }
            },
        }
    }

    /// Takes the record of `key` out of the table and returns it; `None`,
    /// and no change, where `key` has none.
    pub fn remove(&mut self, key: &K) -> (r: Option<V>)
        requires
            old(self).well_formed(),
        ensures
            final(self).well_formed(),
            final(self)@ == old(self)@.remove(key@),
            match r {
                Some(v) => old(self)@.contains_key(key@) && v == old(self)@[key@],
                None => !old(self)@.contains_key(key@),
            },
    {
        match self.find(key) {
            Some(i) => {
                let _ = self.keys.remove(i);
                let value = self.values.remove(i);
                proof {
                    let before = *old(self);
                    let after = *self;
                    let at = i as int;
                    before.lemma_slot(at);
                    assert forall|a: int, b: int| 0 <= a < b < after.keys.len() implies (
                    #[trigger] after.keys[a])@ != (#[trigger] after.keys[b])@ by {
                        let a0 = if a < at { a } else { a + 1 };
                        let b0 = if b < at { b } else { b + 1 };
                        assert(after.keys[a] == before.keys[a0]);
                        assert(after.keys[b] == before.keys[b0]);
                    }
                    assert forall|k: K::V| after.holds(k) == (before.holds(k) && k != key@) by {
                        if after.holds(k) {
                            let a = after.slot(k);
                            let a0 = if a < at { a } else { a + 1 };
                            assert(before.keys[a0]@ == k);
                            assert(a0 != at);
                            if a0 < at {
                                assert(before.keys[a0]@ != before.keys[at]@);
                            } else {
                                assert(before.keys[at]@ != before.keys[a0]@);
                            }
                        }
                        if before.holds(k) && k != key@ {
                            let b0 = before.slot(k);
                            let b = if b0 < at { b0 } else { b0 - 1 };
                            assert(after.keys[b]@ == k);
                        }
                    }
                    assert forall|k: K::V| #[trigger] after.holds(k) implies after.values[after.slot(k)]
                        == before.values[before.slot(k)] by {
                        let a = after.slot(k);
                        let a0 = if a < at { a } else { a + 1 };
                        assert(before.keys[a0]@ == k);
                        before.lemma_slot(a0);
                    }
                    assert(after@ =~= before@.remove(key@));
                }
                Some(value)
            },
            None => {
                proof {
                    assert(self@ =~= old(self)@.remove(key@));
                }
                None
            },
        }
    }
}

} // verus!
