//! The per-session correlation-id generator.
//!
//! Ids start at a reserved base so they never collide with control-plane
//! message labels, and increase monotonically. A program sharing one
//! generator among concurrent callers puts it behind an atomic counter or
//! a lock; every interleaving then behaves as the sequential
//! fetch-and-increment specified here.

use vstd::prelude::*;

verus! {

/// First correlation id ever handed out; everything below is reserved for
/// control-plane message labels.
pub const CORRELATION_BASE: u64 = 0x1000;

/// A monotonic correlation-id source, created with its session and never
/// reset.
pub struct CorrelationGenerator {
    next: u64,
    issued: Ghost<Seq<u64>>,
}

impl CorrelationGenerator {
    /// The id the next call will hand out.
    pub closed spec fn next_id(self) -> u64 {
        self.next
    }

    /// Every id handed out so far, in order.
    pub closed spec fn issued(self) -> Seq<u64> {
        self.issued@
    }

    /// Ids never fall below the reserved base, never reach the counter,
    /// and grow strictly along the issue order.
    pub closed spec fn wf(self) -> bool {
        &&& CORRELATION_BASE <= self.next
        &&& forall|i: int|
            0 <= i < self.issued@.len() ==> CORRELATION_BASE <= #[trigger] self.issued@[i]
                < self.next
        &&& forall|i: int, j: int|
            0 <= i < j < self.issued@.len() ==> #[trigger] self.issued@[i] < #[trigger] self.issued@[j]
    }

    /// A fresh generator that has issued nothing.
    pub fn new() -> (r: CorrelationGenerator)
        ensures
            r.wf(),
            r.next_id() == CORRELATION_BASE,
            r.issued() == Seq::<u64>::empty(),
    {
        CorrelationGenerator { next: CORRELATION_BASE, issued: Ghost(Seq::empty()) }
    }

    /// Hands out one id and advances the counter. Each id is strictly
    /// larger than every id issued before, hence never a repeat.
    pub fn fresh_id(&mut self) -> (r: u64)
        requires
            old(self).wf(),
            old(self).next_id() < u64::MAX,
        ensures
            final(self).wf(),
            r == old(self).next_id(),
            CORRELATION_BASE <= r,
            final(self).next_id() == old(self).next_id() + 1,
            final(self).issued() == old(self).issued().push(r),
    {
        let id = self.next;
        self.next = self.next + 1;
        proof {
            self.issued@ = self.issued@.push(id);
        }
        id
    }

    /// Correlation uniqueness: however many ids a generator has handed
    /// out, no two of them are equal.
    pub proof fn lemma_issued_distinct(self)
        requires
            self.wf(),
        ensures
            forall|i: int, j: int|
                0 <= i < self.issued().len() && 0 <= j < self.issued().len() && i != j
                    ==> self.issued()[i] != self.issued()[j],
    {
        assert forall|i: int, j: int|
            0 <= i < self.issued().len() && 0 <= j < self.issued().len() && i != j implies self
            .issued()[i] != self.issued()[j] by {
            if i < j {
                assert(self.issued@[i] < self.issued@[j]);
            } else {
                assert(self.issued@[j] < self.issued@[i]);
            }
        }
    }
}

} // verus!
