//! The progress watermark. Workers complete version ranges out of
//! order; the persisted cursor may only advance to the largest version
//! below which nothing is missing, never past a gap. The tracker keeps
//! the contiguous frontier and the completed ranges still floating above
//! it.

use vstd::prelude::*;

verus! {

/// Whether a half-open range covers a version.
pub open spec fn covers(iv: (u64, u64), v: int) -> bool {
    iv.0 <= v < iv.1
}

/// Whether any pending range covers a version.
pub open spec fn in_pending(pending: Seq<(u64, u64)>, v: int) -> bool {
    exists|i: int| 0 <= i < pending.len() && covers(#[trigger] pending[i], v)
}

/// Tracks which versions at or above the resume point have been durably
/// processed, and the contiguous frontier among them.
#[derive(Debug)]
pub struct ProgressTracker {
    pub start: u64,
    pub frontier: u64,
    pub pending: Vec<(u64, u64)>,
}

impl ProgressTracker {
    /// The versions recorded as completed.
    pub open spec fn completed(self) -> Set<int> {
        Set::new(
            |v: int| (self.start <= v < self.frontier) || in_pending(self.pending@, v),
        )
    }

    /// Pending ranges are non-empty, sorted by start, and lie strictly
    /// above the frontier, which never falls below the resume point.
    pub open spec fn spec_well_formed(self) -> bool {
        &&& self.start <= self.frontier
        &&& forall|i: int| 0 <= i < self.pending@.len() ==> (#[trigger] self.pending@[i]).0 < self.pending@[i].1
        &&& forall|i: int| 0 <= i < self.pending@.len() ==> (#[trigger] self.pending@[i]).0 > self.frontier
        &&& forall|i: int, j: int|
            0 <= i < j < self.pending@.len() ==> (#[trigger] self.pending@[i]).0 <= (
            #[trigger] self.pending@[j]).0
    }

    /// A fresh tracker: nothing completed, frontier at the resume point.
    pub fn new(start: u64) -> (r: Self)
        ensures
            r.spec_well_formed(),
            r.start == start,
            r.completed() =~= Set::<int>::empty(),
    {
        let r = ProgressTracker { start, frontier: start, pending: Vec::new() };
        proof {
            assert forall|v: int| !r.completed().contains(v) by {
                assert(!in_pending(r.pending@, v));
            }
        }
        r
    }

    /// The safe resume point: every version from the start up to (but
    /// excluding) the watermark is completed, and the watermark itself
    /// is not.
    pub fn watermark(&self) -> (r: u64)
        ensures
            r == self.frontier,
    {
        self.frontier
    }

    /// Soundness and maximality of the watermark: all versions below it
    /// (from the resume point) are completed, and it sits on the first
    /// gap.
    pub proof fn lemma_watermark(self)
        requires
            self.spec_well_formed(),
        ensures
            forall|v: int| self.start <= v < self.frontier ==> self.completed().contains(v),
            !self.completed().contains(self.frontier as int),
    {
        assert(!in_pending(self.pending@, self.frontier as int)) by {
            assert forall|i: int| 0 <= i < self.pending@.len() implies !covers(
                #[trigger] self.pending@[i],
                self.frontier as int,
            ) by {}
        }
    }

    /// Records the half-open range `[lo, hi)` as completed and advances
    /// the frontier over every range it now reaches. The completed set
    /// grows by exactly that range; the watermark never moves backwards.
    #[verifier::loop_isolation(false)]
    pub fn complete(&mut self, lo: u64, hi: u64)
        requires
            old(self).spec_well_formed(),
            old(self).start <= lo < hi,
        ensures
            final (self).spec_well_formed(),
            final (self).start == old(self).start,
            final (self).frontier >= old(self).frontier,
            final (self).completed() =~= old(self).completed().union(
                Set::new(|v: int| lo <= v < hi),
            ),
    {
        let ghost target = old(self).completed().union(Set::new(|v: int| lo <= v < hi));
        let n = self.pending.len();
        let mut idx: usize = 0;
        while idx < n && self.pending[idx].0 <= lo
            invariant
                idx <= n,
                forall|j: int| 0 <= j < idx ==> (#[trigger] self.pending@[j]).0 <= lo,
            decreases n - idx,
        {
            idx += 1;
        }
        let ghost before_insert = self.pending@;
        self.pending.insert(idx, (lo, hi));
        proof {
            before_insert.insert_ensures(idx as int, (lo, hi));
            assert forall|v: int| in_pending(self.pending@, v) == (in_pending(before_insert, v)
                || covers((lo, hi), v)) by {
                if in_pending(self.pending@, v) {
                    let i = choose|i: int|
                        0 <= i < self.pending@.len() && covers(#[trigger] self.pending@[i], v);
                    if i < idx {
                        assert(covers(before_insert[i], v));
                    } else if i == idx {
                        assert(covers((lo, hi), v));
                    } else {
                        assert(self.pending@[i] == before_insert[i - 1]);
                        assert(covers(before_insert[i - 1], v));
                    }
                }
                if in_pending(before_insert, v) {
                    let i = choose|i: int|
                        0 <= i < before_insert.len() && covers(#[trigger] before_insert[i], v);
                    if i < idx {
                        assert(covers(self.pending@[i], v));
                    } else {
                        assert(self.pending@[i + 1] == before_insert[i]);
                        assert(covers(self.pending@[i + 1], v));
                    }
                }
                if covers((lo, hi), v) {
                    assert(covers(self.pending@[idx as int], v));
                }
            }
            assert(self.completed() =~= target);
        }
        while self.pending.len() > 0 && self.pending[0].0 <= self.frontier
            invariant
                self.start == old(self).start,
                self.frontier >= old(self).frontier,
                self.start <= self.frontier,
                forall|i: int|
                    0 <= i < self.pending@.len() ==> (#[trigger] self.pending@[i]).0 < self.pending@[i].1,
                forall|i: int, j: int|
                    0 <= i < j < self.pending@.len() ==> (#[trigger] self.pending@[i]).0 <= (
                    #[trigger] self.pending@[j]).0,
                self.completed() =~= target,
            decreases self.pending@.len(),
        {
            let ghost pre = *self;
            let (s, e) = self.pending.remove(0);
            if e > self.frontier {
                self.frontier = e;
            }
            proof {
                assert(self.pending@ =~= pre.pending@.drop_first());
                assert forall|v: int| in_pending(pre.pending@, v) == (in_pending(self.pending@, v)
                    || covers((s, e), v)) by {
                    if in_pending(pre.pending@, v) {
                        let i = choose|i: int|
                            0 <= i < pre.pending@.len() && covers(#[trigger] pre.pending@[i], v);
                        if i == 0 {
                            assert(covers((s, e), v));
                        } else {
                            assert(self.pending@[i - 1] == pre.pending@[i]);
                            assert(covers(self.pending@[i - 1], v));
                        }
                    }
                    if in_pending(self.pending@, v) {
                        let i = choose|i: int|
                            0 <= i < self.pending@.len() && covers(#[trigger] self.pending@[i], v);
                        assert(pre.pending@[i + 1] == self.pending@[i]);
                        assert(covers(pre.pending@[i + 1], v));
                    }
                    if covers((s, e), v) {
                        assert(covers(pre.pending@[0], v));
                    }
                }
                assert forall|v: int| self.completed().contains(v) == pre.completed().contains(
                    v,
                ) by {}
                assert(self.completed() =~= pre.completed());
                assert(self.completed() =~= target);
            }
        }
        proof {
            if self.pending@.len() > 0 {
                assert(self.pending@[0].0 > self.frontier);
                assert forall|i: int| 0 <= i < self.pending@.len() implies (
                #[trigger] self.pending@[i]).0 > self.frontier by {
                    if i > 0 {
                        assert(self.pending@[0].0 <= self.pending@[i].0);
                    }
                }
            }
        }
    }
}

} // verus!
