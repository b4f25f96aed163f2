use vstd::prelude::*;

verus! {

/// An association map from `u64` keys to values, kept as a vector of
/// key-value pairs with pairwise distinct keys. It stands in for the
/// persisted key-value maps that the host ledger supplies, so that the
/// governance core's state is an explicit value the contracts can speak of.
#[derive(Debug)]
pub struct KvMap<V> {
    pairs: Vec<(u64, V)>,
}

impl<V> View for KvMap<V> {
    type V = Map<u64, V>;

    closed spec fn view(&self) -> Map<u64, V> {
        Map::new(
            |k: u64| exists|i: int| 0 <= i < self.pairs@.len() && self.pairs@[i].0 == k,
            |k: u64|
                self.pairs@[choose|i: int|
                    0 <= i < self.pairs@.len() && self.pairs@[i].0 == k].1,
        )
    }
}

impl<V> KvMap<V> {
    /// The keys in the vector are pairwise distinct, so each key names
    /// exactly one value.
    pub closed spec fn wf(&self) -> bool {
        forall|i: int, j: int|
            0 <= i < j < self.pairs@.len() ==> self.pairs@[i].0 != self.pairs@[j].0
    }

    /// Number of entries held.
    pub closed spec fn spec_len(&self) -> nat {
        self.pairs@.len()
    }

    proof fn lemma_view_at(&self, i: int)
        requires
            self.wf(),
            0 <= i < self.pairs@.len(),
        ensures
            self@.contains_key(self.pairs@[i].0),
            self@[self.pairs@[i].0] == self.pairs@[i].1,
    {
        let k = self.pairs@[i].0;
        assert(self@.contains_key(k));
        let j = choose|j: int| 0 <= j < self.pairs@.len() && self.pairs@[j].0 == k;
        assert(j == i);
    }

    proof fn lemma_absent(&self, k: u64)
        requires
            forall|i: int| 0 <= i < self.pairs@.len() ==> self.pairs@[i].0 != k,
        ensures
            !self@.contains_key(k),
    {
    }

    pub fn new() -> (r: Self)
        ensures
            r.wf(),
            r@ == Map::<u64, V>::empty(),
            r.spec_len() == 0,
    {
        let r = KvMap { pairs: Vec::new() };
        proof {
            assert(r@ =~= Map::<u64, V>::empty());
        }
        r
    }

    pub fn contains_key(&self, k: u64) -> (r: bool)
        requires
            self.wf(),
        ensures
            r == self@.contains_key(k),
    {
        let mut i: usize = 0;
        while i < self.pairs.len()
            invariant
                self.wf(),
                i <= self.pairs@.len(),
                forall|j: int| 0 <= j < i ==> self.pairs@[j].0 != k,
            decreases self.pairs@.len() - i,
        {
            if self.pairs[i].0 == k {
                proof {
                    self.lemma_view_at(i as int);
                }
                return true;
            }
            i += 1;
        }
        proof {
            self.lemma_absent(k);
        }
        false
    }

    pub fn get(&self, k: u64) -> (r: Option<&V>)
        requires
            self.wf(),
        ensures
            match r {
                Some(v) => self@.contains_key(k) && *v == self@[k],
                None => !self@.contains_key(k),
            },
    {
        let mut i: usize = 0;
        while i < self.pairs.len()
            invariant
                self.wf(),
                i <= self.pairs@.len(),
                forall|j: int| 0 <= j < i ==> self.pairs@[j].0 != k,
            decreases self.pairs@.len() - i,
        {
            if self.pairs[i].0 == k {
                proof {
                    self.lemma_view_at(i as int);
                }
                return Some(&self.pairs[i].1);
            }
            i += 1;
        }
        proof {
            self.lemma_absent(k);
        }
        None
    }

    /// Inserts or overwrites the value under `k`.
    pub fn insert(&mut self, k: u64, v: V)
        requires
            old(self).wf(),
        ensures
            final(self).wf(),
            final(self)@ == old(self)@.insert(k, v),
            final(self).spec_len() == if old(self)@.contains_key(k) {
                old(self).spec_len()
            } else {
                old(self).spec_len() + 1
            },
    {
        let mut i: usize = 0;
        while i < self.pairs.len()
            invariant
                self.wf(),
                i <= self.pairs@.len(),
                forall|j: int| 0 <= j < i ==> self.pairs@[j].0 != k,
                *self == *old(self),
            decreases self.pairs@.len() - i,
        {
            if self.pairs[i].0 == k {
                proof {
                    self.lemma_view_at(i as int);
                }
                self.pairs.set(i, (k, v));
                proof {
                    assert forall|j: int|
                        0 <= j < self.pairs@.len() implies self.pairs@[j].0
                        == old(self).pairs@[j].0 by {}
                    assert forall|k2: u64| #[trigger]
                        self@.contains_key(k2) == old(self)@.insert(k, v).contains_key(k2) by {
                        if self@.contains_key(k2) {
                            let j = choose|j: int|
                                0 <= j < self.pairs@.len() && self.pairs@[j].0 == k2;
                            assert(old(self).pairs@[j].0 == k2);
                            old(self).lemma_view_at(j);
                        }
                        if old(self)@.insert(k, v).contains_key(k2) {
                            if k2 == k {
                                assert(self.pairs@[i as int].0 == k2);
                            } else {
                                let j = choose|j: int|
                                    0 <= j < old(self).pairs@.len() && old(self).pairs@[j].0 == k2;
                                assert(self.pairs@[j].0 == k2);
                            }
                        }
                    }
                    assert forall|k2: u64|
                        self@.contains_key(k2) implies self@[k2] == old(self)@.insert(k, v)[k2] by {
                        let j = choose|j: int|
                            0 <= j < self.pairs@.len() && self.pairs@[j].0 == k2;
                        self.lemma_view_at(j);
                        if k2 == k {
                            assert(j == i);
                        } else {
                            assert(old(self).pairs@[j].0 == k2);
                            old(self).lemma_view_at(j);
                        }
                    }
                    assert(self@ =~= old(self)@.insert(k, v));
                }
                return;
            }
            i += 1;
        }
        proof {
            self.lemma_absent(k);
        }
        self.pairs.push((k, v));
        proof {
            let n = old(self).pairs@.len() as int;
            assert(self.pairs@ == old(self).pairs@.push((k, v)));
            assert forall|j: int| 0 <= j < n implies self.pairs@[j] == old(self).pairs@[j] by {}
            assert(self.pairs@[n].0 == k);
            assert forall|k2: u64| #[trigger]
                self@.contains_key(k2) == old(self)@.insert(k, v).contains_key(k2) by {
                if self@.contains_key(k2) {
                    let j = choose|j: int| 0 <= j < self.pairs@.len() && self.pairs@[j].0 == k2;
                    if j < n {
                        assert(old(self).pairs@[j].0 == k2);
                        old(self).lemma_view_at(j);
                    }
                }
                if old(self)@.insert(k, v).contains_key(k2) {
                    if k2 == k {
                        assert(self.pairs@[n].0 == k2);
                    } else {
                        let j = choose|j: int|
                            0 <= j < old(self).pairs@.len() && old(self).pairs@[j].0 == k2;
                        assert(self.pairs@[j].0 == k2);
                    }
                }
            }
            assert forall|k2: u64|
                self@.contains_key(k2) implies self@[k2] == old(self)@.insert(k, v)[k2] by {
                let j = choose|j: int| 0 <= j < self.pairs@.len() && self.pairs@[j].0 == k2;
                self.lemma_view_at(j);
                if k2 == k {
                    assert(j == n);
                } else {
                    assert(j < n);
                    assert(old(self).pairs@[j].0 == k2);
                    old(self).lemma_view_at(j);
                }
            }
            assert(self@ =~= old(self)@.insert(k, v));
        }
    }

    /// Removes and returns the value under `k`, if any.
    pub fn remove(&mut self, k: u64) -> (r: Option<V>)
        requires
            old(self).wf(),
        ensures
            final(self).wf(),
            final(self)@ == old(self)@.remove(k),
            match r {
                Some(v) => old(self)@.contains_key(k) && v == old(self)@[k]
                    && final(self).spec_len() == old(self).spec_len() - 1,
                None => !old(self)@.contains_key(k)
                    && final(self).spec_len() == old(self).spec_len(),
            },
    {
        let mut i: usize = 0;
        while i < self.pairs.len()
            invariant
                self.wf(),
                i <= self.pairs@.len(),
                forall|j: int| 0 <= j < i ==> self.pairs@[j].0 != k,
                *self == *old(self),
            decreases self.pairs@.len() - i,
        {
            if self.pairs[i].0 == k {
                proof {
                    self.lemma_view_at(i as int);
                }
                let pair = self.pairs.remove(i);
                proof {
                    let n = self.pairs@.len() as int;
                    assert forall|j: int|
                        0 <= j < n implies self.pairs@[j] == if j < i {
                        old(self).pairs@[j]
                    } else {
                        old(self).pairs@[j + 1]
                    } by {}
                    assert forall|k2: u64| #[trigger]
                        self@.contains_key(k2) == old(self)@.remove(k).contains_key(k2) by {
                        if self@.contains_key(k2) {
                            let j = choose|j: int|
                                0 <= j < self.pairs@.len() && self.pairs@[j].0 == k2;
                            if j < i {
                                assert(old(self).pairs@[j].0 == k2);
                                old(self).lemma_view_at(j);
                            } else {
                                assert(old(self).pairs@[j + 1].0 == k2);
                                old(self).lemma_view_at(j + 1);
                            }
                            assert(k2 != k);
                        }
                        if old(self)@.remove(k).contains_key(k2) {
                            let j = choose|j: int|
                                0 <= j < old(self).pairs@.len() && old(self).pairs@[j].0 == k2;
                            assert(k2 != k);
                            assert(j != i);
                            if j < i {
                                assert(self.pairs@[j].0 == k2);
                            } else {
                                assert(self.pairs@[j - 1].0 == k2);
                            }
                        }
                    }
                    assert forall|k2: u64|
                        self@.contains_key(k2) implies self@[k2] == old(self)@.remove(k)[k2] by {
                        let j = choose|j: int|
                            0 <= j < self.pairs@.len() && self.pairs@[j].0 == k2;
                        self.lemma_view_at(j);
                        if j < i {
                            assert(old(self).pairs@[j].0 == k2);
                            old(self).lemma_view_at(j);
                        } else {
                            assert(old(self).pairs@[j + 1].0 == k2);
                            old(self).lemma_view_at(j + 1);
                        }
                    }
                    assert(self@ =~= old(self)@.remove(k));
                }
                return Some(pair.1);
            }
            i += 1;
        }
        proof {
            self.lemma_absent(k);
            assert(self@ =~= old(self)@.remove(k));
        }
        None
    }
}

} // verus!
