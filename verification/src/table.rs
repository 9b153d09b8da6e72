//! A small keyed table: the shape of every namespace of the contract's
//! storage. A key is told apart from the others by its identity alone, and
//! each identity is stored at most once.

use vstd::prelude::*;
use crate::address::Address;

verus! {

/// A value that can key a table.
pub(crate) trait Key: Sized {
    /// What tells one key from another.
    type Id;

    /// The identity of this key.
    spec fn id(&self) -> Self::Id;

    /// Whether two keys have the same identity.
    fn same(&self, other: &Self) -> (same: bool)
        ensures
            same == (self.id() == other.id()),
    ;
}

impl Key for String {
    type Id = Seq<char>;

    open spec fn id(&self) -> Seq<char> {
        self@
    }

    fn same(&self, other: &String) -> (same: bool) {
        *self == *other
    }
}

impl Key for Address {
    type Id = Address;

    open spec fn id(&self) -> Address {
        *self
    }

    fn same(&self, other: &Address) -> (same: bool) {
        *self == *other
    }
}

/// One stored pair.
pub(crate) struct Entry<K, V> {
    key: K,
    value: V,
}

/// A table from key identities to values, in insertion order.
pub(crate) struct Table<K: Key, V> {
    entries: Vec<Entry<K, V>>,
}

impl<K: Key, V> Table<K, V> {
    /// No identity is stored twice.
    pub(crate) closed spec fn wf(&self) -> bool {
        forall|i: int, j: int|
            0 <= i < j < self.entries@.len() ==> self.entries@[i].key.id()
                != self.entries@[j].key.id()
    }

    /// Whether position `i` holds the key with identity `id`.
    spec fn holds(&self, i: int, id: K::Id) -> bool {
        0 <= i < self.entries@.len() && self.entries@[i].key.id() == id
    }

    /// The table as a map from identities to values.
    pub(crate) closed spec fn view(&self) -> Map<K::Id, V> {
        Map::new(
            |id: K::Id| exists|i: int| self.holds(i, id),
            |id: K::Id| self.entries@[choose|i: int| self.holds(i, id)].value,
        )
    }

    /// An empty table.
    pub(crate) fn new() -> (table: Self)
        ensures
            table.wf(),
            table@ == Map::<K::Id, V>::empty(),
    {
        let table = Table { entries: Vec::new() };
        assert(table@ =~= Map::<K::Id, V>::empty());
        table
    }

    /// The position of `key`, if it is stored.
    fn position(&self, key: &K) -> (found: Option<usize>)
        ensures
            match found {
                Some(i) => self.holds(i as int, key.id()),
                None => forall|i: int| !self.holds(i, key.id()),
            },
    {
        let mut i: usize = 0;
        while i < self.entries.len()
            invariant
                i <= self.entries@.len(),
                forall|j: int| 0 <= j < i ==> !self.holds(j, key.id()),
            decreases self.entries@.len() - i,
        {
            if self.entries[i].key.same(key) {
                return Some(i);
            }
            i += 1;
        }
        None
    }

    /// Whether `key` is stored.
    pub(crate) fn contains_key(&self, key: &K) -> (present: bool)
        ensures
            present == self@.contains_key(key.id()),
    {
        self.position(key).is_some()
    }

    /// The value stored under `key`.
    pub(crate) fn get(&self, key: &K) -> (found: Option<&V>)
        requires
            self.wf(),
        ensures
            match found {
                Some(value) => self@.contains_key(key.id()) && *value == self@[key.id()],
                None => !self@.contains_key(key.id()),
            },
    {
        match self.position(key) {
            Some(i) => {
                proof {
                    let j = choose|j: int| self.holds(j, key.id());
                    assert(j == i);
                }
                Some(&self.entries[i].value)
            },
            None => None,
        }
    }

    /// Stores `value` under `key`, replacing what was stored under it.
    pub(crate) fn insert(&mut self, key: K, value: V)
        requires
            old(self).wf(),
        ensures
            final(self).wf(),
            final(self)@ == old(self)@.insert(key.id(), value),
    {
        let ghost id = key.id();
        let ghost before = *self;
        match self.position(&key) {
            Some(i) => {
                self.entries[i] = Entry { key, value };
                proof {
                    assert forall|j: int| 0 <= j < self.entries@.len() implies (
                    #[trigger] self.entries@[j]).key.id() == before.entries@[j].key.id() by {}
                    assert forall|k: K::Id, j: int| self.holds(j, k) <==> before.holds(j, k) by {}
                    assert forall|k: K::Id| self@.contains_key(k) implies self@[k]
                        == before@.insert(id, value)[k] by {
                        let j = choose|j: int| self.holds(j, k);
                        let jb = choose|j: int| before.holds(j, k);
                        assert(before.holds(j, k));
                        assert(j == jb);
                    }
                    assert(self@.dom() =~= before@.insert(id, value).dom()) by {
                        assert forall|k: K::Id| self@.contains_key(k) <==> before@.insert(
                            id,
                            value,
                        ).contains_key(k) by {
                            if k == id {
                                assert(self.holds(i as int, k));
                            }
                            if self@.contains_key(k) {
                                let j = choose|j: int| self.holds(j, k);
                                assert(before.holds(j, k));
                            }
                            if before@.contains_key(k) {
                                let j = choose|j: int| before.holds(j, k);
                                assert(self.holds(j, k));
                            }
                        }
                    }
                    assert(self@ =~= before@.insert(id, value));
                }
            },
            None => {
                self.entries.push(Entry { key, value });
                proof {
                    let last = before.entries@.len() as int;
                    assert forall|j: int| 0 <= j < last implies (#[trigger] self.entries@[j])
                        == before.entries@[j] by {}
                    assert forall|a: int, b: int| 0 <= a < b < self.entries@.len() implies
                        self.entries@[a].key.id() != self.entries@[b].key.id() by {
                        if b == last {
                            assert(!before.holds(a, id));
                        }
                    }
                    assert forall|k: K::Id| self@.contains_key(k) <==> before@.insert(
                        id,
                        value,
                    ).contains_key(k) by {
                        if k == id {
                            assert(self.holds(last, k));
                        }
                        if self@.contains_key(k) {
                            let j = choose|j: int| self.holds(j, k);
                            if j < last {
                                assert(before.holds(j, k));
                            }
                        }
                        if before@.contains_key(k) {
                            let j = choose|j: int| before.holds(j, k);
                            assert(self.holds(j, k));
                        }
                    }
                    assert forall|k: K::Id| self@.contains_key(k) implies self@[k]
                        == before@.insert(id, value)[k] by {
                        let j = choose|j: int| self.holds(j, k);
                        if k == id {
                            if j < last {
                                assert(before.holds(j, k));
                            }
                        } else {
                            assert(before.holds(j, k));
                            let jb = choose|j: int| before.holds(j, k);
                            assert(j == jb);
                        }
                    }
                    assert(self@ =~= before@.insert(id, value));
                }
            },
        }
    }
}

} // verus!
