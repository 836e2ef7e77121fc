//! The bounded concurrency pool: a counting resource of permits that gates
//! how many download workers may be in their fetch/write phase at once.

use vstd::prelude::*;

verus! {

/// A fixed pool of permits. A worker holds one permit for the whole of its
/// fetch/write phase; at most `limit` permits are ever out at once.
pub struct PermitPool {
    pub limit: usize,
    pub active: usize,
}

impl PermitPool {
    /// The pool's invariant: never more active permits than the limit.
    pub open spec fn wf(&self) -> bool {
        self.active <= self.limit
    }

    /// A fresh pool of `limit` permits, none of them taken.
    pub fn new(limit: usize) -> (r: PermitPool)
        ensures
            r.limit == limit,
            r.active == 0,
            r.wf(),
    {
        PermitPool { limit, active: 0 }
    }

    /// Takes a permit when one is free; returns whether it succeeded. The
    /// number of active permits never exceeds the limit.
    pub fn try_acquire(&mut self) -> (r: bool)
        requires
            old(self).wf(),
        ensures
            final(self).wf(),
            final(self).limit == old(self).limit,
            r == (old(self).active < old(self).limit),
            r ==> final(self).active == old(self).active + 1,
            !r ==> final(self).active == old(self).active,
    {
        if self.active < self.limit {
            self.active = self.active + 1;
            true
        } else {
            false
        }
    }

    /// Returns a permit to the pool.
    pub fn release(&mut self)
        requires
            old(self).wf(),
            old(self).active > 0,
        ensures
            final(self).wf(),
            final(self).limit == old(self).limit,
            final(self).active == old(self).active - 1,
    {
        self.active = self.active - 1;
    }
}

/// One permit-pool operation, as a worker performs it: take a permit before
/// the fetch phase, give it back after.
pub enum PoolOp {
    Acquire,
    Release,
}

/// The number of active permits after a sequence of operations against a pool
/// of `limit` permits, starting from an idle pool: an acquire that finds the
/// pool full does nothing, as does a release when no permit is out.
pub open spec fn pool_active_after(limit: nat, ops: Seq<PoolOp>) -> nat
    decreases ops.len(),
{
    if ops.len() == 0 {
        0
    } else {
        let before = pool_active_after(limit, ops.drop_last());
        match ops.last() {
            PoolOp::Acquire => if before < limit {
                before + 1
            } else {
                before
            },
            PoolOp::Release => if before > 0 {
                (before - 1) as nat
            } else {
                before
            },
        }
    }
}

/// With a concurrency limit of `limit`, no sequence of permit acquisitions
/// and releases ever drives the number of active permits above `limit`: at no
/// point are more than `limit` workers in their gated phase at once.
pub proof fn lemma_pool_bounded(limit: nat, ops: Seq<PoolOp>)
    ensures
        pool_active_after(limit, ops) <= limit,
    decreases ops.len(),
{
    if ops.len() > 0 {
        lemma_pool_bounded(limit, ops.drop_last());
    }
}

} // verus!
