//! The gateway's resource accounting: the bounded admission gate that
//! limits how many requests may attempt inference at once, and the
//! exclusive generation lock on the single model resource.
//!
//! The counters model the process-wide state; every transition keeps the
//! well-formedness invariant, and in a well-formed state at most one
//! generation is ever active.

use vstd::prelude::*;

verus! {

/// Concurrency factor applied to the configured parallelism when the
/// admission gate's capacity is fixed at startup.
pub const MAX_CONCURRENT_INFERENCES: usize = 32;

/// The admission gate's capacity for a configured parallelism level.
pub fn gate_capacity(n_parallel: usize) -> (r: usize)
    requires
        n_parallel <= usize::MAX / MAX_CONCURRENT_INFERENCES,
    ensures
        r == n_parallel * MAX_CONCURRENT_INFERENCES,
{
    n_parallel * MAX_CONCURRENT_INFERENCES
}

/// The gateway's shared resource state: the admission gate (capacity
/// fixed at startup, `in_flight` requests currently admitted) and the
/// exclusive model lock (`generating` counts the generations currently
/// holding it).
pub struct GatewayResources {
    pub capacity: usize,
    pub in_flight: usize,
    pub generating: usize,
}

impl GatewayResources {
    /// The invariant every transition preserves: admitted requests never
    /// exceed capacity, at most one generation is active, and a
    /// generation only runs inside an admitted request.
    pub open spec fn wf(self) -> bool {
        &&& self.in_flight <= self.capacity
        &&& self.generating <= 1
        &&& self.generating <= self.in_flight
    }

    /// A fresh resource state: nothing admitted, nothing generating.
    pub fn new(capacity: usize) -> (r: GatewayResources)
        ensures
            r.wf(),
            r.capacity == capacity,
            r.in_flight == 0,
            r.generating == 0,
    {
        GatewayResources { capacity, in_flight: 0, generating: 0 }
    }

    /// Take an admission unit if capacity remains. Acquisition fails
    /// precisely on exhaustion, and a failed attempt changes nothing: a
    /// rejected request never touches the model lock.
    pub fn try_admit(&mut self) -> (r: bool)
        requires
            old(self).wf(),
        ensures
            final(self).wf(),
            r == (old(self).in_flight < old(self).capacity),
            final(self).capacity == old(self).capacity,
            final(self).generating == old(self).generating,
            r ==> final(self).in_flight == old(self).in_flight + 1,
            !r ==> *final(self) == *old(self),
    {
        if self.in_flight < self.capacity {
            self.in_flight = self.in_flight + 1;
            true
        } else {
            false
        }
    }

    /// Give the admission unit back. Required on every exit path of a
    /// request, after any generation it started has ended.
    pub fn release_admission(&mut self)
        requires
            old(self).wf(),
            old(self).in_flight > 0,
            old(self).generating < old(self).in_flight,
        ensures
            final(self).wf(),
            final(self).capacity == old(self).capacity,
            final(self).generating == old(self).generating,
            final(self).in_flight == old(self).in_flight - 1,
    {
        self.in_flight = self.in_flight - 1;
    }

    /// Try to take the exclusive model lock for one generation. Succeeds
    /// exactly when no generation holds it, so two generations can never
    /// hold it at once; a failed attempt changes nothing and the caller
    /// must retry once the holder has released it.
    pub fn try_begin_generation(&mut self) -> (r: bool)
        requires
            old(self).wf(),
            old(self).in_flight > 0,
        ensures
            final(self).wf(),
            r == (old(self).generating == 0),
            final(self).capacity == old(self).capacity,
            final(self).in_flight == old(self).in_flight,
            r ==> final(self).generating == 1,
            !r ==> *final(self) == *old(self),
    {
        if self.generating == 0 {
            self.generating = 1;
            true
        } else {
            false
        }
    }

    /// Release the model lock at the end of a generation. Required on
    /// every exit path, success or failure.
    pub fn end_generation(&mut self)
        requires
            old(self).wf(),
            old(self).generating == 1,
        ensures
            final(self).wf(),
            final(self).capacity == old(self).capacity,
            final(self).in_flight == old(self).in_flight,
            final(self).generating == 0,
    {
        self.generating = 0;
    }
}

/// Mutual exclusion on the model resource: in any well-formed state at
/// most one generation holds the model lock, so the lock is never held
/// by two concurrent generations.
pub proof fn lemma_generation_mutual_exclusion(s: GatewayResources)
    requires
        s.wf(),
    ensures
        s.generating <= 1,
{
}

/// The admission bound: in any well-formed state the number of
/// outstanding admitted requests never exceeds the configured capacity.
pub proof fn lemma_admission_bounded(s: GatewayResources)
    requires
        s.wf(),
    ensures
        s.in_flight <= s.capacity,
{
}

} // verus!
