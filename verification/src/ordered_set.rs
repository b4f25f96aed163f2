use vstd::prelude::*;

verus! {

/// An ordered, duplicate-free set of account ids, kept as a strictly
/// increasing vector. Membership tests run by binary search; insertion
/// places the new id at the search-determined index, so the vector stays
/// sorted and free of duplicates after any sequence of additions.
pub struct OrderedSet {
    items: Vec<u64>,
}

impl View for OrderedSet {
    type V = Seq<u64>;

    closed spec fn view(&self) -> Seq<u64> {
        self.items@
    }
}

impl OrderedSet {
    /// Strictly increasing, hence duplicate-free.
    pub open spec fn sorted(s: Seq<u64>) -> bool {
        forall|i: int, j: int| 0 <= i < j < s.len() ==> s[i] < s[j]
    }

    pub open spec fn wf(&self) -> bool {
        Self::sorted(self@)
    }

    pub fn new() -> (r: Self)
        ensures
            r.wf(),
            r@ == Seq::<u64>::empty(),
    {
        OrderedSet { items: Vec::new() }
    }

    /// Binary search: the index of `x`, or the index at which `x` would
    /// have to be inserted to keep the vector sorted.
    fn search(&self, x: u64) -> (r: Result<usize, usize>)
        requires
            self.wf(),
        ensures
            match r {
                Ok(i) => i < self@.len() && self@[i as int] == x,
                Err(i) => {
                    &&& i <= self@.len()
                    &&& !self@.contains(x)
                    &&& forall|j: int| 0 <= j < i ==> self@[j] < x
                    &&& forall|j: int| i <= j < self@.len() ==> self@[j] > x
                },
            },
    {
        let mut lo: usize = 0;
        let mut hi: usize = self.items.len();
        while lo < hi
            invariant
                self.wf(),
                lo <= hi <= self@.len(),
                forall|j: int| 0 <= j < lo ==> self@[j] < x,
                forall|j: int| hi <= j < self@.len() ==> self@[j] > x,
            decreases hi - lo,
        {
            let mid = lo + (hi - lo) / 2;
            if self.items[mid] == x {
                return Ok(mid);
            } else if self.items[mid] < x {
                lo = mid + 1;
            } else {
                hi = mid;
            }
        }
        proof {
            assert forall|j: int| 0 <= j < self@.len() implies self@[j] != x by {}
        }
        Err(lo)
    }

    /// Membership test by binary search; no side effects.
    pub fn contains(&self, x: u64) -> (r: bool)
        requires
            self.wf(),
        ensures
            r == self@.contains(x),
    {
        match self.search(x) {
            Ok(_) => true,
            Err(_) => false,
        }
    }

    /// Adds `x` at its sorted position; reports whether it was new.
    /// An id that is already present leaves the set untouched.
    pub fn insert(&mut self, x: u64) -> (r: bool)
        requires
            old(self).wf(),
        ensures
            final(self).wf(),
            r == !old(self)@.contains(x),
            r ==> final(self)@.len() == old(self)@.len() + 1,
            r ==> forall|y: u64|
                #[trigger] final(self)@.contains(y) == (old(self)@.contains(y) || y == x),
            !r ==> *final(self) == *old(self),
    {
        match self.search(x) {
            Ok(_) => false,
            Err(i) => {
                self.items.insert(i, x);
                proof {
                    let s0 = old(self)@;
                    let s1 = self@;
                    let ii = i as int;
                    assert forall|j: int|
                        0 <= j < s1.len() implies s1[j] == (if j < ii {
                        s0[j]
                    } else if j == ii {
                        x
                    } else {
                        s0[j - 1]
                    }) by {}
                    assert forall|a: int, b: int| 0 <= a < b < s1.len() implies s1[a] < s1[b] by {
                        if b < ii {
                            assert(s0[a] < s0[b]);
                        } else if a < ii && b == ii {
                            assert(s0[a] < x);
                        } else if a < ii && b > ii {
                            assert(s0[a] < x);
                            assert(s0[b - 1] > x);
                        } else if a == ii {
                            assert(s0[b - 1] > x);
                        } else {
                            assert(s0[a - 1] < s0[b - 1]);
                        }
                    }
                    assert forall|y: u64|
                        #[trigger] s1.contains(y) == (s0.contains(y) || y == x) by {
                        if s1.contains(y) {
                            let j = choose|j: int| 0 <= j < s1.len() && s1[j] == y;
                            if j < ii {
                                assert(s0[j] == y);
                            } else if j > ii {
                                assert(s0[j - 1] == y);
                            }
                        }
                        if s0.contains(y) {
                            let j = choose|j: int| 0 <= j < s0.len() && s0[j] == y;
                            if j < ii {
                                assert(s1[j] == y);
                            } else {
                                assert(s1[j + 1] == y);
                            }
                        }
                        if y == x {
                            assert(s1[ii] == y);
                        }
                    }
                }
                true
            },
        }
    }
}


/// A strictly increasing sequence holds no duplicates: distinct
/// positions hold distinct ids.
pub proof fn lemma_sorted_no_duplicates(s: Seq<u64>)
    requires
        OrderedSet::sorted(s),
    ensures
        forall|i: int, j: int| 0 <= i < j < s.len() ==> s[i] != s[j],
{
}

} // verus!
