//! A keyed record store with create-if-absent and overwrite-if-present
//! access, viewed as a map from keys to records.

use vstd::prelude::*;

verus! {

broadcast use vstd::array::group_array_axioms;

/// A key that can be compared at run time exactly as it compares in
/// specifications.
pub trait StoreKey: Sized {
    fn same_key(&self, other: &Self) -> (r: bool)
        ensures
            r == (*self == *other),
    ;
}

impl StoreKey for u64 {
    fn same_key(&self, other: &u64) -> (r: bool) {
        *self == *other
    }
}

impl StoreKey for [u8; 32] {
    fn same_key(&self, other: &[u8; 32]) -> (r: bool) {
        let mut i: usize = 0;
        while i < 32
            invariant
                i <= 32,
                forall|j: int| 0 <= j < i ==> self[j] == other[j],
            decreases 32 - i,
        {
            if self[i] != other[i] {
                return false;
            }
            i = i + 1;
        }
        assert(*self =~= *other);
        true
    }
}

/// Records of type `T` held under pairwise distinct keys of type `K`.
pub struct KeyedStore<K, T> {
    entries: Vec<(K, T)>,
}

impl<K, T> KeyedStore<K, T> {
    /// No key is held twice.
    pub closed spec fn wf(&self) -> bool {
        forall|i: int, j: int|
            0 <= i < self.entries@.len() && 0 <= j < self.entries@.len()
                && #[trigger] self.entries@[i].0 == #[trigger] self.entries@[j].0 ==> i == j
    }

    spec fn holds_key(&self, k: K) -> bool {
        exists|i: int| 0 <= i < self.entries@.len() && #[trigger] self.entries@[i].0 == k
    }

    spec fn slot_of(&self, k: K) -> int {
        choose|i: int| 0 <= i < self.entries@.len() && #[trigger] self.entries@[i].0 == k
    }
}

impl<K, T> View for KeyedStore<K, T> {
    type V = Map<K, T>;

    closed spec fn view(&self) -> Map<K, T> {
        Map::new(|k: K| self.holds_key(k), |k: K| self.entries@[self.slot_of(k)].1)
    }
}

impl<K: StoreKey, T: Copy> KeyedStore<K, T> {
    /// A store that holds no record.
    pub fn new() -> (r: Self)
        ensures
            r.wf(),
            r@ == Map::<K, T>::empty(),
    {
        let r = KeyedStore { entries: Vec::new() };
        assert(r@ =~= Map::<K, T>::empty());
        r
    }

    /// The position of the entry under `k`, if there is one.
    fn position(&self, k: &K) -> (r: Option<usize>)
        ensures
            match r {
                Some(i) => i < self.entries@.len() && self.entries@[i as int].0 == *k,
                None => !self.holds_key(*k),
            },
    {
        let mut i: usize = 0;
        while i < self.entries.len()
            invariant
                i <= self.entries@.len(),
                forall|j: int| 0 <= j < i ==> self.entries@[j].0 != *k,
            decreases self.entries@.len() - i,
        {
            if self.entries[i].0.same_key(k) {
                return Some(i);
            }
            i = i + 1;
        }
        None
    }

    /// Whether a record is held under `k`.
    pub fn contains(&self, k: &K) -> (r: bool)
        requires
            self.wf(),
        ensures
            r == self@.contains_key(*k),
    {
        self.position(k).is_some()
    }

    /// The record held under `k`, if any.
    pub fn get(&self, k: &K) -> (r: Option<T>)
        requires
            self.wf(),
        ensures
            r == (if self@.contains_key(*k) { Some(self@[*k]) } else { None }),
    {
        match self.position(k) {
            Some(i) => {
                proof {
                    let s = self.slot_of(*k);
                    assert(self.entries@[s].0 == self.entries@[i as int].0);
                }
                Some(self.entries[i].1)
            },
            None => None,
        }
    }

    /// Holds `v` under `k`, replacing the record held there before, if any.
    pub fn put(&mut self, k: K, v: T)
        requires
            old(self).wf(),
        ensures
            final(self).wf(),
            final(self)@ == old(self)@.insert(k, v),
    {
        let ghost pre = *self;
        match self.position(&k) {
            Some(i) => {
                self.entries.set(i, (k, v));
                proof {
                    assert forall|a: int, b: int|
                        0 <= a < self.entries@.len() && 0 <= b < self.entries@.len()
                            && #[trigger] self.entries@[a].0 == #[trigger] self.entries@[b].0 implies a == b by {
                        assert(self.entries@[a].0 == pre.entries@[a].0);
                        assert(self.entries@[b].0 == pre.entries@[b].0);
                    }
                    assert forall|q: K| #[trigger] self.holds_key(q) == pre.holds_key(q) by {
                        if pre.holds_key(q) {
                            let j = pre.slot_of(q);
                            assert(self.entries@[j].0 == q);
                        }
                        if self.holds_key(q) {
                            let j = self.slot_of(q);
                            assert(pre.entries@[j].0 == q);
                        }
                    }
                    assert forall|q: K| self.holds_key(q) implies
                        self.entries@[self.slot_of(q)].1 == #[trigger] pre@.insert(k, v)[q] by {
                        let j = self.slot_of(q);
                        if q == k {
                            assert(self.entries@[i as int].0 == q);
                        } else {
                            let p = pre.slot_of(q);
                            assert(self.entries@[p].0 == q);
                        }
                    }
                    assert(self@ =~= pre@.insert(k, v));
                }
            },
            None => {
                self.entries.push((k, v));
                proof {
                    let n = pre.entries@.len() as int;
                    assert forall|a: int, b: int|
                        0 <= a < self.entries@.len() && 0 <= b < self.entries@.len()
                            && #[trigger] self.entries@[a].0 == #[trigger] self.entries@[b].0 implies a == b by {
                        if a < n && b < n {
                            assert(self.entries@[a].0 == pre.entries@[a].0);
                            assert(self.entries@[b].0 == pre.entries@[b].0);
                        } else if a < n {
                            assert(pre.entries@[a].0 == k);
                        } else if b < n {
                            assert(pre.entries@[b].0 == k);
                        }
                    }
                    assert forall|q: K| #[trigger] self.holds_key(q) == (pre.holds_key(q) || q == k) by {
                        if pre.holds_key(q) {
                            let j = pre.slot_of(q);
                            assert(self.entries@[j].0 == q);
                        }
                        if q == k {
                            assert(self.entries@[n].0 == q);
                        }
                        if self.holds_key(q) && q != k {
                            let j = self.slot_of(q);
                            assert(pre.entries@[j].0 == q);
                        }
                    }
                    assert forall|q: K| self.holds_key(q) implies
                        self.entries@[self.slot_of(q)].1 == #[trigger] pre@.insert(k, v)[q] by {
                        let j = self.slot_of(q);
                        if q == k {
                            assert(self.entries@[n].0 == q);
                        } else {
                            let p = pre.slot_of(q);
                            assert(self.entries@[p].0 == q);
                        }
                    }
                    assert(self@ =~= pre@.insert(k, v));
                }
            },
        }
    }
}

} // verus!
