use crate::types::ReceiptKey;
use vstd::prelude::*;

verus! {

/// The vote receipts: a map from `(account, vote type, round)` to the
/// recorded choice, kept as a vector of pairs with pairwise distinct
/// keys. A receipt is only ever added, never changed or removed.
pub struct ReceiptMap {
    pairs: Vec<(ReceiptKey, bool)>,
}

impl View for ReceiptMap {
    type V = Map<ReceiptKey, bool>;

    closed spec fn view(&self) -> Map<ReceiptKey, bool> {
        Map::new(
            |k: ReceiptKey| exists|i: int| 0 <= i < self.pairs@.len() && self.pairs@[i].0 == k,
            |k: ReceiptKey|
                self.pairs@[choose|i: int|
                    0 <= i < self.pairs@.len() && self.pairs@[i].0 == k].1,
        )
    }
}

impl ReceiptMap {
    pub closed spec fn wf(&self) -> bool {
        forall|i: int, j: int|
            0 <= i < j < self.pairs@.len() ==> self.pairs@[i].0 != self.pairs@[j].0
    }

    pub fn new() -> (r: Self)
        ensures
            r.wf(),
            r@ == Map::<ReceiptKey, bool>::empty(),
    {
        let r = ReceiptMap { pairs: Vec::new() };
        proof {
            assert(r@ =~= Map::<ReceiptKey, bool>::empty());
        }
        r
    }

    pub fn contains_key(&self, k: ReceiptKey) -> (r: bool)
        requires
            self.wf(),
        ensures
            r == self@.contains_key(k),
    {
        let mut i: usize = 0;
        while i < self.pairs.len()
            invariant
                self.wf(),
                i <= self.pairs@.len(),
                forall|j: int| 0 <= j < i ==> self.pairs@[j].0 != k,
            decreases self.pairs@.len() - i,
        {
            if self.pairs[i].0 == k {
                assert(self@.contains_key(k));
                return true;
            }
            i += 1;
        }
        false
    }

    /// Records a receipt under a key that holds none yet.
    pub fn insert(&mut self, k: ReceiptKey, choice: bool)
        requires
            old(self).wf(),
            !old(self)@.contains_key(k),
        ensures
            final(self).wf(),
            final(self)@ == old(self)@.insert(k, choice),
    {
        proof {
            assert forall|i: int| 0 <= i < self.pairs@.len() implies self.pairs@[i].0 != k by {
                if self.pairs@[i].0 == k {
                    assert(self@.contains_key(k));
                }
            }
        }
        self.pairs.push((k, choice));
        proof {
            let n = old(self).pairs@.len() as int;
            assert forall|j: int| 0 <= j < n implies self.pairs@[j] == old(self).pairs@[j] by {}
            assert(self.pairs@[n].0 == k);
            assert forall|k2: ReceiptKey| #[trigger]
                self@.contains_key(k2) == old(self)@.insert(k, choice).contains_key(k2) by {
                if self@.contains_key(k2) && k2 != k {
                    let j = choose|j: int| 0 <= j < self.pairs@.len() && self.pairs@[j].0 == k2;
                    assert(j != n);
                    assert(old(self).pairs@[j].0 == k2);
                    assert(old(self)@.contains_key(k2));
                }
                if old(self)@.contains_key(k2) {
                    let j = choose|j: int|
                        0 <= j < old(self).pairs@.len() && old(self).pairs@[j].0 == k2;
                    assert(self.pairs@[j].0 == k2);
                }
                if k2 == k {
                    assert(self.pairs@[n].0 == k2);
                }
            }
            assert forall|k2: ReceiptKey|
                self@.contains_key(k2) implies self@[k2] == old(self)@.insert(k, choice)[k2] by {
                let j = choose|j: int| 0 <= j < self.pairs@.len() && self.pairs@[j].0 == k2;
                if k2 == k {
                    assert(j == n);
                } else {
                    assert(j != n);
                    assert(old(self).pairs@[j].0 == k2);
                    let j0 = choose|j0: int|
                        0 <= j0 < old(self).pairs@.len() && old(self).pairs@[j0].0 == k2;
                    assert(j0 == j);
                }
            }
            assert(self@ =~= old(self)@.insert(k, choice));
        }
    }
}

} // verus!
