//! The process-wide concurrency permit for outbound notification
//! fan-out: a counting semaphore with a fixed bound, so that no burst
//! of broadcasts can open unbounded simultaneous sends. A caller over
//! the limit suspends — it is never failed and its send is never
//! dropped — until an earlier send completes and frees a permit.

use vstd::prelude::*;

verus! {

/// What an acquire attempt decided.
#[derive(Debug, Clone, Copy, PartialEq, Eq, Structural)]
pub enum PermitDecision {
    /// A permit was free: the send may start now.
    Granted,
    /// Every permit is out: the caller suspends until a release, then
    /// tries again.
    MustWait,
}

/// The counting semaphore's state: how many permits exist and how many
/// are out.
#[derive(Debug, Clone, Copy, PartialEq, Eq, Structural)]
pub struct NotifyPermits {
    /// How many permits exist.
    pub limit: usize,
    /// How many permits are out.
    pub outstanding: usize,
}

impl NotifyPermits {
    /// How many permits exist.
    pub open spec fn spec_limit(&self) -> usize {
        self.limit
    }

    /// How many permits are out.
    pub open spec fn spec_outstanding(&self) -> usize {
        self.outstanding
    }

    /// Permit invariant: never more permits out than exist.
    pub open spec fn wf(&self) -> bool {
        self.spec_outstanding() <= self.spec_limit()
    }

    /// A semaphore with the given bound and no permit out.
    pub fn new(limit: usize) -> (r: Self)
        ensures
            r.wf(),
            r.spec_limit() == limit,
            r.spec_outstanding() == 0,
    {
        NotifyPermits { limit, outstanding: 0 }
    }

    /// How many permits are currently free.
    pub fn available(&self) -> (r: usize)
        requires
            self.wf(),
        ensures
            r == self.spec_limit() - self.spec_outstanding(),
    {
        self.limit - self.outstanding
    }

    /// Try to take a permit: granted exactly when one is free, and a
    /// caller finding none must wait — the attempt neither fails nor
    /// drops the send.
    pub fn try_acquire(&mut self) -> (r: PermitDecision)
        requires
            old(self).wf(),
        ensures
            final(self).wf(),
            final(self).spec_limit() == old(self).spec_limit(),
            old(self).spec_outstanding() < old(self).spec_limit() ==> r
                == PermitDecision::Granted && final(self).spec_outstanding() == old(
                self,
            ).spec_outstanding() + 1,
            old(self).spec_outstanding() == old(self).spec_limit() ==> r
                == PermitDecision::MustWait && final(self).spec_outstanding() == old(
                self,
            ).spec_outstanding(),
            r == spec_decision(*old(self)),
            *final(self) == spec_acquired(*old(self)),
    {
        if self.outstanding < self.limit {
            self.outstanding = self.outstanding + 1;
            PermitDecision::Granted
        } else {
            PermitDecision::MustWait
        }
    }

    /// Return a held permit, waking one suspended caller if any.
    pub fn release(&mut self)
        requires
            old(self).wf(),
            old(self).spec_outstanding() > 0,
        ensures
            final(self).wf(),
            final(self).spec_limit() == old(self).spec_limit(),
            final(self).spec_outstanding() == old(self).spec_outstanding() - 1,
            *final(self) == spec_released(*old(self)),
    {
        self.outstanding = self.outstanding - 1;
    }
}

/// What an acquire attempt on this state decides.
pub open spec fn spec_decision(p: NotifyPermits) -> PermitDecision {
    if p.spec_outstanding() < p.spec_limit() {
        PermitDecision::Granted
    } else {
        PermitDecision::MustWait
    }
}

/// The permits after one acquire attempt.
pub open spec fn spec_acquired(p: NotifyPermits) -> NotifyPermits
    recommends
        p.wf(),
{
    if p.spec_outstanding() < p.spec_limit() {
        NotifyPermits { limit: p.spec_limit(), outstanding: (p.spec_outstanding() + 1) as usize }
    } else {
        p
    }
}

/// The permits after one release.
pub open spec fn spec_released(p: NotifyPermits) -> NotifyPermits
    recommends
        p.spec_outstanding() > 0,
{
    NotifyPermits { limit: p.spec_limit(), outstanding: (p.spec_outstanding() - 1) as usize }
}

/// Law: with every permit of a bound-N semaphore out — as after N
/// simultaneous broadcasts — one more acquire must wait; it is not
/// failed and its send is not dropped, and the state does not change.
/// As soon as one of the N earlier sends completes and releases its
/// permit, the waiting acquire is granted and the bound is reached
/// again.
pub proof fn lemma_extra_broadcast_waits_until_release(p: NotifyPermits)
    requires
        p.wf(),
        p.spec_limit() > 0,
        p.spec_outstanding() == p.spec_limit(),
    ensures
        spec_decision(p) == PermitDecision::MustWait,
        spec_acquired(p) == p,
        spec_decision(spec_released(p)) == PermitDecision::Granted,
        spec_acquired(spec_released(p)).spec_outstanding() == p.spec_limit(),
{
}

} // verus!
