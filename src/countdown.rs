//! A countdown that owns the registration of the periodic timer driving it.
//!
//! The registration leaves the countdown only through `release`, which
//! consumes it, so it is handed back for cancellation exactly once whatever
//! way the countdown ends.
use vstd::prelude::*;

verus! {

/// Counts down from a positive number of ticks; `R` is the registration of
/// the timer that fires the ticks.
pub struct SnapshotTimer<R> {
    remaining: u32,
    timeout_id: Option<R>,
}

impl<R> SnapshotTimer<R> {
    /// Ticks still to come.
    pub closed spec fn spec_remaining(&self) -> nat {
        self.remaining as nat
    }

    /// The timer registration, while it is still held.
    pub closed spec fn spec_registration(&self) -> Option<R> {
        self.timeout_id
    }

    /// The countdown one tick later.
    pub closed spec fn spec_ticked(&self) -> SnapshotTimer<R> {
        SnapshotTimer { remaining: (self.remaining - 1) as u32, timeout_id: self.timeout_id }
    }

    /// One tick takes one off what remains and keeps the registration.
    pub proof fn lemma_ticked(&self)
        requires
            self.spec_remaining() > 0,
        ensures
            self.spec_ticked().spec_remaining() == self.spec_remaining() - 1,
            self.spec_ticked().spec_registration() == self.spec_registration(),
    {
    }

    /// Arms a countdown of `total_ticks` ticks over a live registration.
    pub fn new(total_ticks: u32, timeout_id: R) -> (r: SnapshotTimer<R>)
        requires
            total_ticks > 0,
        ensures
            r.spec_remaining() == total_ticks,
            r.spec_registration() == Some(timeout_id),
    {
        SnapshotTimer { remaining: total_ticks, timeout_id: Some(timeout_id) }
    }

    /// One timer firing: counts one tick down and returns what remains.
    pub fn tick(&mut self) -> (r: u32)
        requires
            old(self).spec_remaining() > 0,
        ensures
            r == old(self).spec_remaining() - 1,
            final(self).spec_remaining() == r,
            final(self).spec_registration() == old(self).spec_registration(),
            *final(self) == old(self).spec_ticked(),
    {
        self.remaining = self.remaining - 1;
        self.remaining
    }

    pub fn remaining(&self) -> (r: u32)
        ensures
            r == self.spec_remaining(),
    {
        self.remaining
    }

    /// Whether the timer registration is still held.
    pub fn is_armed(&self) -> (r: bool)
        ensures
            r == self.spec_registration().is_some(),
    {
        self.timeout_id.is_some()
    }

    /// Ends the countdown, whether it ran out or is cancelled early, and
    /// hands back the registration to cancel, if one is still held.
    pub fn release(self) -> (r: Option<R>)
        ensures
            r == self.spec_registration(),
    {
        self.timeout_id
    }
}

} // verus!
