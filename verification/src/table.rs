//! A small keyed table: the storage behind each section of the ledger.

use vstd::prelude::*;

verus! {

/// A key whose executable comparison agrees with equality in specifications.
pub trait Key: Copy {
    fn same(&self, other: &Self) -> (r: bool)
        ensures
            r == (*self == *other),
    ;
}

/// A finite map from keys to values, held as two parallel vectors in which
/// no key occurs twice. Its view is the map itself.
pub struct Table<K: Key, V: Copy> {
    keys: Vec<K>,
    values: Vec<V>,
}

impl<K: Key, V: Copy> View for Table<K, V> {
    type V = Map<K, V>;

    closed spec fn view(&self) -> Map<K, V> {
        Map::new(
            |k: K| self.keys@.contains(k),
            |k: K| self.values@[self.keys@.index_of(k)],
        )
    }
}

impl<K: Key, V: Copy> Table<K, V> {
    #[verifier::type_invariant]
    spec fn well_formed(self) -> bool {
        &&& self.keys@.len() == self.values@.len()
        &&& self.keys@.no_duplicates()
    }

    /// The empty table.
    pub fn new() -> (t: Self)
        ensures
            t@ == Map::<K, V>::empty(),
    {
        let t = Table { keys: Vec::new(), values: Vec::new() };
        t
    }

    /// Where `key` sits, if it is present.
    fn position(&self, key: &K) -> (r: Option<usize>)
        ensures
            match r {
                Some(i) => i < self.keys@.len() && self.keys@[i as int] == *key,
                None => !self.keys@.contains(*key),
            },
    {
        let mut i: usize = 0;
        while i < self.keys.len()
            invariant
                i <= self.keys@.len(),
                forall|j: int| 0 <= j < i ==> self.keys@[j] != *key,
            decreases self.keys@.len() - i,
        {
            if self.keys[i].same(key) {
                return Some(i);
            }
            i += 1;
        }
        None
    }

    /// The value stored under `key`.
    pub fn get(&self, key: &K) -> (r: Option<V>)
        ensures
            r == (if self@.contains_key(*key) {
                Some(self@[*key])
            } else {
                None
            }),
    {
        proof {
            use_type_invariant(self);
        }
        match self.position(key) {
            Some(i) => {
                Some(self.values[i])
            },
            None => None,
        }
    }

    /// Stores `value` under `key`, replacing what was there.
    pub fn insert(&mut self, key: K, value: V)
        ensures
            final(self)@ == old(self)@.insert(key, value),
    {
        proof {
            use_type_invariant(&*self);
        }
        let found = self.position(&key);
        let ghost before = *self;
        let mut taken = Table { keys: Vec::new(), values: Vec::new() };
        std::mem::swap(self, &mut taken);
        let Table { mut keys, mut values } = taken;
        match found {
            Some(i) => {
                values.set(i, value);
            },
            None => {
                keys.push(key);
                values.push(value);
            },
        }
        *self = Table { keys, values };
        proof {
            let after = *self;
            assert forall|k: K| after.keys@.contains(k) <==> (k == key || before.keys@.contains(
                k,
            )) by {
                if before.keys@.contains(k) {
                    let j = before.keys@.index_of(k);
                    assert(after.keys@[j] == k);
                }
                if k == key && found is None {
                    assert(after.keys@[before.keys@.len() as int] == k);
                }
            }
            assert forall|k: K| after.keys@.contains(k) implies #[trigger] after@[k] == before@.insert(
                key,
                value,
            )[k] by {
                let j = after.keys@.index_of(k);
            }
        }
    }

    /// Removes `key` and what is stored under it.
    pub fn remove(&mut self, key: &K)
        ensures
            final(self)@ == old(self)@.remove(*key),
    {
        proof {
            use_type_invariant(&*self);
        }
        let found = self.position(key);
        let ghost before = *self;
        match found {
            Some(i) => {
                let mut taken = Table { keys: Vec::new(), values: Vec::new() };
                std::mem::swap(self, &mut taken);
                let Table { mut keys, mut values } = taken;
                keys.remove(i);
                values.remove(i);
                *self = Table { keys, values };
                proof {
                    let after = *self;
                    assert forall|k: K| after.keys@.contains(k) <==> (k != *key
                        && before.keys@.contains(k)) by {
                        if after.keys@.contains(k) {
                            let j = after.keys@.index_of(k);
                        }
                        if k != *key && before.keys@.contains(k) {
                            let j = before.keys@.index_of(k);
                            if j < i {
                                assert(after.keys@[j] == k);
                            } else {
                                assert(after.keys@[j - 1] == k);
                            }
                        }
                    }
                    assert forall|k: K| after.keys@.contains(k) implies #[trigger] after@[k]
                        == before@[k] by {
                        let j = after.keys@.index_of(k);
                    }
                }
            },
            None => {},
        }
    }

    /// A copy of the table.
    pub fn duplicate(&self) -> (t: Self)
        ensures
            t@ == self@,
    {
        proof {
            use_type_invariant(self);
        }
        let mut keys: Vec<K> = Vec::new();
        let mut values: Vec<V> = Vec::new();
        let mut i: usize = 0;
        while i < self.keys.len()
            invariant
                i <= self.keys@.len(),
                self.keys@.len() == self.values@.len(),
                keys@ == self.keys@.take(i as int),
                values@ == self.values@.take(i as int),
            decreases self.keys@.len() - i,
        {
            keys.push(self.keys[i]);
            values.push(self.values[i]);
            i += 1;
        }
        assert(keys@ =~= self.keys@);
        Table { keys, values }
    }
}

} // verus!
