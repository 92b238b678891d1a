use vstd::prelude::*;

use crate::bytes::bytes_equal;
use crate::types::{Address, HandleId, Nonce, ReaderId, RequestId};

verus! {

/// Keys that can be compared for equality in executable code.
pub trait TableKey: Sized {
    fn same_key(&self, other: &Self) -> (res: bool)
        ensures
            res == (*self == *other),
    ;
}

impl TableKey for ReaderId {
    fn same_key(&self, other: &Self) -> (res: bool) {
        bytes_equal(&self.0, &other.0)
    }
}

impl TableKey for RequestId {
    fn same_key(&self, other: &Self) -> (res: bool) {
        bytes_equal(&self.0, &other.0)
    }
}

impl TableKey for (Address, Nonce) {
    fn same_key(&self, other: &Self) -> (res: bool) {
        bytes_equal(&(self.0).0, &(other.0).0) && bytes_equal(&(self.1).0, &(other.1).0)
    }
}

impl TableKey for (Address, HandleId) {
    fn same_key(&self, other: &Self) -> (res: bool) {
        bytes_equal(&(self.0).0, &(other.0).0) && bytes_equal(&(self.1).0, &(other.1).0)
    }
}

/// A finite map kept as a list of entries with distinct keys.
#[verifier::reject_recursive_types(K)]
pub struct Table<K, V> {
    entries: Vec<(K, V)>,
    model: Ghost<Map<K, V>>,
}

impl<K: TableKey, V> Table<K, V> {
    /// The map that the table holds.
    pub closed spec fn map(&self) -> Map<K, V> {
        self.model@
    }

    /// The entries hold exactly the map, each key once.
    pub closed spec fn wf(&self) -> bool {
        &&& forall|i: int|
            #![trigger self.entries@[i]]
            0 <= i < self.entries@.len() ==> self.model@.contains_key(self.entries@[i].0)
                && self.model@[self.entries@[i].0] == self.entries@[i].1
        &&& forall|k: K|
            #![trigger self.model@.contains_key(k)]
            self.model@.contains_key(k) ==> exists|i: int|
                0 <= i < self.entries@.len() && #[trigger] self.entries@[i].0 == k
        &&& forall|i: int, j: int|
            0 <= i < j < self.entries@.len() ==> #[trigger] self.entries@[i].0
                != #[trigger] self.entries@[j].0
    }

    pub fn new() -> (res: Self)
        ensures
            res.wf(),
            res.map() == Map::<K, V>::empty(),
    {
        Table { entries: Vec::new(), model: Ghost(Map::empty()) }
    }

    /// The position of `key` among the entries, if present.
    fn position(&self, key: &K) -> (res: Option<usize>)
        requires
            self.wf(),
        ensures
            match res {
                Some(i) => i < self.entries@.len() && self.entries@[i as int].0 == *key,
                None => !self.map().contains_key(*key),
            },
    {
        let mut i: usize = 0;
        while i < self.entries.len()
            invariant
                self.wf(),
                i <= self.entries@.len(),
                forall|j: int| 0 <= j < i ==> self.entries@[j].0 != *key,
            decreases self.entries@.len() - i,
        {
            if self.entries[i].0.same_key(key) {
                return Some(i);
            }
            i = i + 1;
        }
        proof {
            if self.map().contains_key(*key) {
                let j: int = choose|j: int| 0 <= j < self.entries@.len() && #[trigger] self.entries@[j].0 == *key;
                assert(self.entries@[j].0 == *key);
            }
        }
        None
    }

    /// The value stored under `key`.
    pub fn get(&self, key: &K) -> (res: Option<&V>)
        requires
            self.wf(),
        ensures
            match res {
                Some(v) => self.map().contains_key(*key) && *v == self.map()[*key],
                None => !self.map().contains_key(*key),
            },
    {
        match self.position(key) {
            Some(i) => Some(&self.entries[i].1),
            None => None,
        }
    }

    /// Whether `key` is present.
    pub fn contains(&self, key: &K) -> (res: bool)
        requires
            self.wf(),
        ensures
            res == self.map().contains_key(*key),
    {
        self.position(key).is_some()
    }

    /// Stores `value` under `key`, replacing any earlier value.
    pub fn insert(&mut self, key: K, value: V)
        requires
            old(self).wf(),
        ensures
            final(self).wf(),
            final(self).map() == old(self).map().insert(key, value),
    {
        let ghost new_model = self.model@.insert(key, value);
        match self.position(&key) {
            Some(i) => {
                self.entries.set(i, (key, value));
                self.model = Ghost(new_model);
                assert forall|k: K| #[trigger] self.model@.contains_key(k) implies exists|j: int|
                    0 <= j < self.entries@.len() && #[trigger] self.entries@[j].0 == k by {
                    if k == key {
                        assert(self.entries@[i as int].0 == k);
                    } else {
                        assert(old(self).model@.contains_key(k));
                        let j: int = choose|j: int| 0 <= j < old(self).entries@.len() && #[trigger] old(self).entries@[j].0 == k;
                        assert(self.entries@[j].0 == k);
                    }
                }
            },
            None => {
                self.entries.push((key, value));
                self.model = Ghost(new_model);
                assert forall|k: K| #[trigger] self.model@.contains_key(k) implies exists|j: int|
                    0 <= j < self.entries@.len() && #[trigger] self.entries@[j].0 == k by {
                    if k == key {
                        assert(self.entries@[self.entries@.len() - 1].0 == k);
                    } else {
                        assert(old(self).model@.contains_key(k));
                        let j: int = choose|j: int| 0 <= j < old(self).entries@.len() && #[trigger] old(self).entries@[j].0 == k;
                        assert(self.entries@[j].0 == k);
                    }
                }
            },
        }
    }
}

} // verus!
