//! Per-swap keyed storage: an association table keyed by [`SwapId`] with a
//! map view.  Insertion refuses a key that is already live, so at most one
//! value ever exists per swap identifier.

use vstd::prelude::*;

use crate::types::SwapId;

verus! {

/// Owned key-value state scoped to one coordinator instance.  Keys are
/// unique; the abstract content is the map [`Registry::view`].
pub struct Registry<V> {
    ids: Vec<SwapId>,
    vals: Vec<V>,
}

impl<V> Registry<V> {
    /// Well-formedness: one value per id, ids pairwise distinct.
    pub closed spec fn wf(&self) -> bool {
        &&& self.ids@.len() == self.vals@.len()
        &&& forall|i: int, j: int|
            0 <= i < j < self.ids@.len() ==> self.ids@[i] != self.ids@[j]
    }

    /// Index at which a key is stored.
    pub closed spec fn index_of(&self, k: SwapId) -> int {
        choose|i: int| 0 <= i < self.ids@.len() && self.ids@[i] == k
    }

    /// Whether a key is live.
    pub closed spec fn has(&self, k: SwapId) -> bool {
        exists|i: int| 0 <= i < self.ids@.len() && self.ids@[i] == k
    }

    /// The abstract content: the finite map from live keys to their values.
    pub closed spec fn view(&self) -> Map<SwapId, V> {
        Map::new(|k: SwapId| self.has(k), |k: SwapId| self.vals@[self.index_of(k)])
    }

    proof fn lemma_index(&self, i: int, k: SwapId)
        requires
            self.wf(),
            0 <= i < self.ids@.len(),
            self.ids@[i] == k,
        ensures
            self.has(k),
            self.index_of(k) == i,
            self.view().contains_key(k),
            self.view()[k] == self.vals@[i],
    {
        assert(self.has(k));
        let j = self.index_of(k);
        if j != i {
            if j < i {
                assert(self.ids@[j] != self.ids@[i]);
            } else {
                assert(self.ids@[i] != self.ids@[j]);
            }
            assert(false);
        }
    }

    /// An empty registry.
    pub fn new() -> (r: Registry<V>)
        ensures
            r.wf(),
            r@ =~= Map::<SwapId, V>::empty(),
    {
        let r = Registry { ids: Vec::new(), vals: Vec::new() };
        proof {
            assert forall|k: SwapId| !r.has(k) by {}
        }
        r
    }

    fn find(&self, id: SwapId) -> (r: Option<usize>)
        requires
            self.wf(),
        ensures
            (match r {
                Some(i) => i < self.ids@.len() && self.ids@[i as int] == id && self.has(id)
                    && self.index_of(id) == i,
                None => !self.has(id),
            }),
    {
        let mut i: usize = 0;
        while i < self.ids.len()
            invariant
                self.wf(),
                0 <= i <= self.ids@.len(),
                forall|j: int| 0 <= j < i ==> self.ids@[j] != id,
            decreases self.ids@.len() - i,
        {
            if self.ids[i] == id {
                proof {
                    self.lemma_index(i as int, id);
                }
                return Some(i);
            }
            i = i + 1;
        }
        None
    }

    /// Whether a value is live for this id.
    pub fn contains(&self, id: SwapId) -> (r: bool)
        requires
            self.wf(),
        ensures
            r <==> self@.contains_key(id),
    {
        proof {
            if self.has(id) {
                let i = choose|i: int| 0 <= i < self.ids@.len() && self.ids@[i] == id;
                self.lemma_index(i, id);
            }
        }
        self.find(id).is_some()
    }

    /// Read access to the value stored for an id.
    pub fn get(&self, id: SwapId) -> (r: Option<&V>)
        requires
            self.wf(),
        ensures
            (match r {
                Some(v) => self@.contains_key(id) && *v == self@[id],
                None => !self@.contains_key(id),
            }),
    {
        match self.find(id) {
            Some(i) => {
                proof {
                    self.lemma_index(i as int, id);
                }
                Some(&self.vals[i])
            }
            None => None,
        }
    }

    /// Store a value for a fresh id.  A second creation attempt for a live id
    /// is rejected and mutates nothing.
    pub fn insert(&mut self, id: SwapId, v: V) -> (r: bool)
        requires
            old(self).wf(),
        ensures
            final(self).wf(),
            r <==> !old(self)@.contains_key(id),
            r ==> final(self)@ =~= old(self)@.insert(id, v),
            !r ==> *final(self) == *old(self),
    {
        match self.find(id) {
            Some(_) => false,
            None => {
                let ghost old_ids = self.ids@;
                let ghost old_self = *self;
                self.ids.push(id);
                self.vals.push(v);
                proof {
                    let n = old_ids.len() as int;
                    assert forall|i: int, j: int|
                        0 <= i < j < self.ids@.len() implies self.ids@[i] != self.ids@[j] by {
                        if j < n {
                            assert(old_self.ids@[i] != old_self.ids@[j]);
                        } else {
                            assert(self.ids@[j] == id);
                            assert(old_self.ids@[i] == self.ids@[i]);
                            if self.ids@[i] == id {
                                assert(old_self.has(id));
                            }
                        }
                    }
                    assert forall|k: SwapId| #[trigger] self.view().contains_key(k)
                        <==> old_self.view().insert(id, v).contains_key(k) by {
                        if k == id {
                            self.lemma_index(n, id);
                        } else {
                            if self.has(k) {
                                let i = choose|i: int|
                                    0 <= i < self.ids@.len() && self.ids@[i] == k;
                                assert(i != n);
                                assert(old_self.ids@[i] == k);
                                assert(old_self.has(k));
                            }
                            if old_self.has(k) {
                                let i = choose|i: int|
                                    0 <= i < old_self.ids@.len() && old_self.ids@[i] == k;
                                assert(self.ids@[i] == k);
                                assert(self.has(k));
                            }
                        }
                    }
                    assert forall|k: SwapId| self.view().contains_key(k)
                        implies #[trigger] self.view()[k] == old_self.view().insert(id, v)[k] by {
                        if k == id {
                            self.lemma_index(n, id);
                        } else {
                            let i = choose|i: int| 0 <= i < self.ids@.len() && self.ids@[i] == k;
                            self.lemma_index(i, k);
                            assert(i != n);
                            assert(old_self.ids@[i] == k);
                            old_self.lemma_index(i, k);
                        }
                    }
                }
                true
            }
        }
    }

    /// Remove and return the value stored for an id, if any.
    pub fn take(&mut self, id: SwapId) -> (r: Option<V>)
        requires
            old(self).wf(),
        ensures
            final(self).wf(),
            (match r {
                Some(v) => old(self)@.contains_key(id) && v == old(self)@[id]
                    && final(self)@ =~= old(self)@.remove(id),
                None => !old(self)@.contains_key(id) && *final(self) == *old(self),
            }),
    {
        match self.find(id) {
            Some(i) => {
                let ghost old_self = *old(self);
                proof {
                    old_self.lemma_index(i as int, id);
                }
                self.ids.remove(i);
                let v = self.vals.remove(i);
                proof {
                    let n = old_self.ids@.len() as int;
                    let ii = i as int;
                    assert(self.ids@ =~= old_self.ids@.subrange(0, ii)
                        + old_self.ids@.subrange(ii + 1, n));
                    assert(self.vals@ =~= old_self.vals@.subrange(0, ii)
                        + old_self.vals@.subrange(ii + 1, n));
                    assert forall|a: int| 0 <= a < self.ids@.len() implies
                        #[trigger] self.ids@[a] == old_self.ids@[if a < ii { a } else { a + 1 }]
                        && self.vals@[a] == old_self.vals@[if a < ii { a } else { a + 1 }] by {}
                    assert forall|a: int, b: int|
                        0 <= a < b < self.ids@.len() implies self.ids@[a] != self.ids@[b] by {
                        let a0 = if a < ii { a } else { a + 1 };
                        let b0 = if b < ii { b } else { b + 1 };
                        assert(old_self.ids@[a0] != old_self.ids@[b0]);
                    }
                    assert forall|k: SwapId| #[trigger] self.view().contains_key(k)
                        <==> old_self.view().remove(id).contains_key(k) by {
                        if self.has(k) {
                            let a = choose|a: int|
                                0 <= a < self.ids@.len() && self.ids@[a] == k;
                            let a0 = if a < ii { a } else { a + 1 };
                            assert(old_self.ids@[a0] == k);
                            assert(old_self.has(k));
                            if k == id {
                                old_self.lemma_index(a0, k);
                                assert(false);
                            }
                        }
                        if old_self.has(k) && k != id {
                            let a0 = choose|a0: int|
                                0 <= a0 < old_self.ids@.len() && old_self.ids@[a0] == k;
                            assert(a0 != ii);
                            let a = if a0 < ii { a0 } else { a0 - 1 };
                            assert(self.ids@[a] == k);
                            assert(self.has(k));
                        }
                    }
                    assert forall|k: SwapId| self.view().contains_key(k)
                        implies #[trigger] self.view()[k]
                            == old_self.view().remove(id)[k] by {
                        let a = choose|a: int| 0 <= a < self.ids@.len() && self.ids@[a] == k;
                        self.lemma_index(a, k);
                        let a0 = if a < ii { a } else { a + 1 };
                        old_self.lemma_index(a0, k);
                    }
                }
                Some(v)
            }
            None => None,
        }
    }
}

} // verus!
