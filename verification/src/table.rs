//! A small keyed store: each key holds at most one value.
//!
//! Keys are compared through their views, so two keys with the same view
//! are one key.

use vstd::prelude::*;
use crate::types::{bytes32_eq, Principal};

verus! {

/// A type whose values can serve as keys of a [`Table`].
pub trait Key: View + Copy {
    /// Whether `self` and `other` are the same key.
    fn same_key(&self, other: &Self) -> (r: bool)
        ensures
            r == (self@ == other@),
    ;
}

impl Key for [u8; 32] {
    fn same_key(&self, other: &Self) -> (r: bool) {
        bytes32_eq(self, other)
    }
}

impl Key for Principal {
    fn same_key(&self, other: &Self) -> (r: bool) {
        self.same(other)
    }
}

/// A store of values under keys. Its view is the map from the views of the
/// keys to the views of the values.
pub struct Table<K: Key, V: View + Copy> {
    keys: Vec<K>,
    values: Vec<V>,
}

impl<K: Key, V: View + Copy> View for Table<K, V> {
    type V = Map<K::V, V::V>;

    closed spec fn view(&self) -> Map<K::V, V::V> {
        Map::new(
            |k: K::V| exists|i: int| 0 <= i < self.keys.len() && self.keys[i]@ == k,
            |k: K::V| self.values[choose|i: int| 0 <= i < self.keys.len() && self.keys[i]@ == k]@,
        )
    }
}

impl<K: Key, V: View + Copy> Table<K, V> {
    /// The store is sound: every key has its value, and no key occurs twice.
    pub closed spec fn wf(&self) -> bool {
        &&& self.keys.len() == self.values.len()
        &&& forall|i: int, j: int|
            0 <= i < j < self.keys.len() ==> self.keys[i]@ != self.keys[j]@
    }

    /// The key at place `i` holds the value at place `i`.
    proof fn lemma_entry(&self, i: int)
        requires
            self.wf(),
            0 <= i < self.keys.len(),
        ensures
            self@.contains_key(self.keys[i]@),
            self@[self.keys[i]@] == self.values[i]@,
    {
        let k = self.keys[i]@;
        let j = choose|j: int| 0 <= j < self.keys.len() && self.keys[j]@ == k;
        assert(j == i);
    }

    /// An empty store.
    pub fn new() -> (t: Self)
        ensures
            t.wf(),
            t@ == Map::<K::V, V::V>::empty(),
    {
        let t = Table { keys: Vec::new(), values: Vec::new() };
        t
    }

    /// The place of `key` among the keys, if it is there.
    fn position(&self, key: &K) -> (r: Option<usize>)
        requires
            self.wf(),
        ensures
            match r {
                Some(i) => i < self.keys.len() && self.keys[i as int]@ == key@,
                None => forall|i: int| 0 <= i < self.keys.len() ==> self.keys[i]@ != key@,
            },
    {
        let mut i: usize = 0;
        while i < self.keys.len()
            invariant
                i <= self.keys.len(),
                forall|j: int| 0 <= j < i ==> self.keys[j]@ != key@,
            decreases self.keys.len() - i,
        {
            if self.keys[i].same_key(key) {
                return Some(i);
            }
            i += 1;
        }
        None
    }

    /// Whether a value is stored under `key`.
    pub fn contains(&self, key: &K) -> (r: bool)
        requires
            self.wf(),
        ensures
            r == self@.contains_key(key@),
    {
        self.position(key).is_some()
    }

    /// The value stored under `key`, if there is one.
    pub fn get(&self, key: &K) -> (r: Option<V>)
        requires
            self.wf(),
        ensures
            match r {
                Some(v) => self@.contains_key(key@) && self@[key@] == v@,
                None => !self@.contains_key(key@),
            },
    {
        match self.position(key) {
            Some(i) => Some(self.values[i]),
            None => None,
        }
    }

    /// Stores `value` under `key`, in place of what was stored there.
    pub fn insert(&mut self, key: K, value: V)
        requires
            old(self).wf(),
        ensures
            final(self).wf(),
            final(self)@ == old(self)@.insert(key@, value@),
    {
        match self.position(&key) {
            Some(i) => {
                self.values[i] = value;
            },
            None => {
                self.keys.push(key);
                self.values.push(value);
                proof {
                    let n = old(self).keys.len() as int;
                    assert(self.keys[n]@ == key@);
                    assert forall|k: K::V| old(self)@.insert(key@, value@).contains_key(k)
                        implies self@.contains_key(k) by {
                        if k != key@ {
                            let i = choose|i: int|
                                0 <= i < old(self).keys.len() && old(self).keys[i]@ == k;
                            assert(self.keys[i]@ == k);
                        }
                    }
                    assert forall|k: K::V| self@.contains_key(k) implies old(
                        self,
                    )@.insert(key@, value@).contains_key(k) && self@[k] == old(self)@.insert(
                        key@,
                        value@,
                    )[k] by {
                        let i = choose|i: int| 0 <= i < self.keys.len() && self.keys[i]@ == k;
                        self.lemma_entry(i);
                        if i < n {
                            old(self).lemma_entry(i);
                        }
                    }
                }
            },
        }
    }
}

} // verus!
