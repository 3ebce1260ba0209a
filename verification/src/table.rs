//! A keyed table with unique keys, the building block of the store.

use vstd::prelude::*;

verus! {

/// A value that can serve as a key: it is copied freely and compared at run
/// time, and the comparison agrees with mathematical equality.
pub trait StoreKey: Sized + Copy {
    fn same(&self, other: &Self) -> (r: bool)
        ensures
            r == (*self == *other),
    ;
}

impl StoreKey for u64 {
    fn same(&self, other: &Self) -> (r: bool) {
        *self == *other
    }
}

/// An association of keys to values in which no key occurs twice.
///
/// Its view is the `Map` it stands for.
pub struct Table<K, V> {
    entries: Vec<(K, V)>,
}

impl<K, V> Table<K, V> {
    /// No key occurs twice.
    #[verifier::type_invariant]
    closed spec fn distinct(&self) -> bool {
        Self::keys_distinct(self.entries@)
    }

    closed spec fn keys_distinct(entries: Seq<(K, V)>) -> bool {
        forall|i: int, j: int|
            0 <= i < entries.len() && 0 <= j < entries.len() && i != j ==> (#[trigger] entries[i]).0
                != (#[trigger] entries[j]).0
    }
}

impl<K: StoreKey, V> Table<K, V> {
    /// Entry `i` holds `key`.
    closed spec fn at(entries: Seq<(K, V)>, key: K, i: int) -> bool {
        0 <= i < entries.len() && entries[i].0 == key
    }

    closed spec fn holds(entries: Seq<(K, V)>, key: K) -> bool {
        exists|i: int| Self::at(entries, key, i)
    }

    closed spec fn place(entries: Seq<(K, V)>, key: K) -> int {
        choose|i: int| Self::at(entries, key, i)
    }

    closed spec fn as_map(entries: Seq<(K, V)>) -> Map<K, V> {
        Map::new(|k: K| Self::holds(entries, k), |k: K| entries[Self::place(entries, k)].1)
    }

    pub closed spec fn view(&self) -> Map<K, V> {
        Self::as_map(self.entries@)
    }

    /// The keys in the order in which the table holds them.
    pub closed spec fn slots(&self) -> Seq<K> {
        Seq::new(self.entries@.len(), |i: int| self.entries@[i].0)
    }

    /// Where keys are distinct, the entry that holds a key is where the key
    /// is looked up.
    proof fn lemma_place(entries: Seq<(K, V)>, i: int)
        requires
            Self::keys_distinct(entries),
            0 <= i < entries.len(),
        ensures
            Self::holds(entries, entries[i].0),
            Self::place(entries, entries[i].0) == i,
            Self::as_map(entries).contains_key(entries[i].0),
            Self::as_map(entries)[entries[i].0] == entries[i].1,
    {
        assert(Self::at(entries, entries[i].0, i));
        let p = Self::place(entries, entries[i].0);
        assert(Self::at(entries, entries[i].0, p));
        if p != i {
            assert(entries[p].0 != entries[i].0);
        }
    }

    /// Every key of the map sits in some slot, and every slot holds a key of
    /// the map.
    pub proof fn lemma_slots(&self)
        ensures
            forall|k: K| #[trigger]
                self@.contains_key(k) ==> exists|i: int|
                    0 <= i < self.slots().len() && self.slots()[i] == k,
            forall|i: int|
                0 <= i < self.slots().len() ==> self@.contains_key(#[trigger] self.slots()[i]),
    {
        assert forall|k: K| #[trigger] self@.contains_key(k) implies exists|i: int|
            0 <= i < self.slots().len() && self.slots()[i] == k by {
            let i = Self::place(self.entries@, k);
            assert(Self::at(self.entries@, k, i));
            assert(self.slots()[i] == k);
        }
        assert forall|i: int| 0 <= i < self.slots().len() implies self@.contains_key(
            #[trigger] self.slots()[i],
        ) by {
            assert(Self::at(self.entries@, self.slots()[i], i));
        }
    }

    pub fn new() -> (t: Self)
        ensures
            t@ == Map::<K, V>::empty(),
            t.slots().len() == 0,
    {
        let t = Table { entries: Vec::new() };
        assert forall|k: K| !Self::holds(t.entries@, k) by {
            if Self::holds(t.entries@, k) {
                let i = choose|i: int| Self::at(t.entries@, k, i);
                assert(Self::at(t.entries@, k, i));
            }
        }
        assert(t@ =~= Map::<K, V>::empty());
        t
    }

    pub fn len(&self) -> (n: usize)
        ensures
            n == self.slots().len(),
    {
        self.entries.len()
    }

    /// The key and the value in slot `i`.
    pub fn entry(&self, i: usize) -> (e: (K, &V))
        requires
            i < self.slots().len(),
        ensures
            e.0 == self.slots()[i as int],
            self@.contains_key(e.0),
            self@[e.0] == *e.1,
    {
        proof {
            use_type_invariant(self);
            Self::lemma_place(self.entries@, i as int);
        }
        let held = &self.entries[i];
        (held.0, &held.1)
    }

    fn position(&self, key: &K) -> (r: Option<usize>)
        ensures
            match r {
                Some(i) => Self::at(self.entries@, *key, i as int),
                None => !Self::holds(self.entries@, *key),
            },
    {
        let mut i: usize = 0;
        while i < self.entries.len()
            invariant
                i <= self.entries@.len(),
                forall|j: int| 0 <= j < i ==> !Self::at(self.entries@, *key, j),
            decreases self.entries@.len() - i,
        {
            if self.entries[i].0.same(key) {
                return Some(i);
            }
            i += 1;
        }
        assert forall|j: int| !Self::at(self.entries@, *key, j) by {}
        None
    }

    pub fn contains(&self, key: &K) -> (r: bool)
        ensures
            r == self@.contains_key(*key),
    {
        match self.position(key) {
            Some(i) => {
                assert(Self::holds(self.entries@, *key));
                true
            },
            None => false,
        }
    }

    pub fn get(&self, key: &K) -> (r: Option<&V>)
        ensures
            match r {
                Some(v) => self@.contains_key(*key) && self@[*key] == *v,
                None => !self@.contains_key(*key),
            },
    {
        match self.position(key) {
            Some(i) => {
                proof {
                    use_type_invariant(self);
                    Self::lemma_place(self.entries@, i as int);
                }
                Some(&self.entries[i].1)
            },
            None => None,
        }
    }

    /// Binds `key` to `value`, in place of what it was bound to.
    pub fn insert(&mut self, key: K, value: V)
        ensures
            final(self)@ == old(self)@.insert(key, value),
    {
        proof {
            use_type_invariant(&*self);
        }
        let found = self.position(&key);
        let mut entries: Vec<(K, V)> = Vec::new();
        std::mem::swap(&mut entries, &mut self.entries);
        let ghost before = entries@;
        match found {
            Some(i) => {
                entries.set(i, (key, value));
            },
            None => {
                entries.push((key, value));
            },
        }
        let ghost after = entries@;
        proof {
            assert(Self::keys_distinct(after)) by {
                assert forall|a: int, b: int|
                    0 <= a < after.len() && 0 <= b < after.len() && a != b implies (
                #[trigger] after[a]).0 != (#[trigger] after[b]).0 by {
                    match found {
                        Some(i) => {
                            assert(after[a].0 == before[a].0);
                            assert(after[b].0 == before[b].0);
                        },
                        None => {
                            if a < before.len() && b < before.len() {
                                assert(after[a] == before[a]);
                                assert(after[b] == before[b]);
                            } else if a < before.len() {
                                assert(after[a] == before[a]);
                                assert(!Self::at(before, key, a));
                            } else {
                                assert(after[b] == before[b]);
                                assert(!Self::at(before, key, b));
                            }
                        },
                    }
                }
            }
            let target = Self::as_map(before).insert(key, value);
            assert forall|k: K| Self::as_map(after).contains_key(k) == target.contains_key(k) by {
                if Self::holds(after, k) {
                    let p = choose|p: int| Self::at(after, k, p);
                    assert(Self::at(after, k, p));
                    if k != key {
                        assert(Self::at(before, k, p));
                    }
                }
                if Self::holds(before, k) {
                    let p = choose|p: int| Self::at(before, k, p);
                    assert(Self::at(before, k, p));
                    assert(Self::at(after, k, p));
                }
                if k == key {
                    match found {
                        Some(i) => {
                            assert(Self::at(after, k, i as int));
                        },
                        None => {
                            assert(Self::at(after, k, before.len() as int));
                        },
                    }
                }
            }
            assert forall|k: K| Self::as_map(after).contains_key(k) implies Self::as_map(after)[k]
                == target[k] by {
                let p = Self::place(after, k);
                assert(Self::at(after, k, p));
                Self::lemma_place(after, p);
                if k != key {
                    assert(Self::at(before, k, p));
                    Self::lemma_place(before, p);
                    assert(after[p] == before[p]);
                } else {
                    match found {
                        Some(i) => {
                            Self::lemma_place(after, i as int);
                        },
                        None => {
                            Self::lemma_place(after, before.len() as int);
                        },
                    }
                }
            }
            assert(Self::as_map(after) =~= target);
        }
        self.entries = entries;
    }

    /// Takes `key` out of the table, if it is there.
    pub fn remove(&mut self, key: &K)
        ensures
            final(self)@ == old(self)@.remove(*key),
    {
        proof {
            use_type_invariant(&*self);
        }
        let found = self.position(key);
        let mut entries: Vec<(K, V)> = Vec::new();
        std::mem::swap(&mut entries, &mut self.entries);
        let ghost before = entries@;
        match found {
            Some(i) => {
                entries.remove(i);
            },
            None => {},
        }
        let ghost after = entries@;
        proof {
            let target = Self::as_map(before).remove(*key);
            match found {
                Some(i) => {
                    assert forall|a: int| 0 <= a < after.len() implies after[a] == before[if a
                        < i {
                        a
                    } else {
                        a + 1
                    }] by {}
                    assert(Self::keys_distinct(after)) by {
                        assert forall|a: int, b: int|
                            0 <= a < after.len() && 0 <= b < after.len() && a != b implies (
                        #[trigger] after[a]).0 != (#[trigger] after[b]).0 by {
                            let a0 = if a < i { a } else { a + 1 };
                            let b0 = if b < i { b } else { b + 1 };
                            assert(after[a] == before[a0]);
                            assert(after[b] == before[b0]);
                            assert(before[a0].0 != before[b0].0);
                        }
                    }
                    assert forall|k: K| Self::as_map(after).contains_key(k)
                        == target.contains_key(k) by {
                        if Self::holds(after, k) {
                            let p = choose|p: int| Self::at(after, k, p);
                            assert(Self::at(after, k, p));
                            let p0 = if p < i { p } else { p + 1 };
                            assert(after[p] == before[p0]);
                            assert(Self::at(before, k, p0));
                            if k == *key {
                                assert(before[p0].0 != before[i as int].0);
                            }
                        }
                        if Self::holds(before, k) && k != *key {
                            let p = choose|p: int| Self::at(before, k, p);
                            assert(Self::at(before, k, p));
                            let q = if p < i { p } else { p - 1 };
                            assert(after[q] == before[p]);
                            assert(Self::at(after, k, q));
                        }
                    }
                    assert forall|k: K| Self::as_map(after).contains_key(k) implies Self::as_map(
                        after,
                    )[k] == target[k] by {
                        let p = Self::place(after, k);
                        assert(Self::at(after, k, p));
                        Self::lemma_place(after, p);
                        let p0 = if p < i { p } else { p + 1 };
                        assert(after[p] == before[p0]);
                        Self::lemma_place(before, p0);
                    }
                    assert(Self::as_map(after) =~= target);
                },
                None => {
                    assert(target =~= Self::as_map(before));
                },
            }
        }
        self.entries = entries;
    }
}

} // verus!
