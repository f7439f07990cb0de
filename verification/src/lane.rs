//! One direction of one socket: a waker slot and a readiness latch.

use std::task::Waker;
use vstd::prelude::*;

verus! {

/// The state of one direction of a source.
///
/// `triggered` is the readiness latch: once set, it stays set until the
/// consumer clears it. `waker` is the slot for the single task that waits on
/// this direction.
pub struct Lane {
    pub waker: Option<Waker>,
    pub triggered: bool,
}

/// Where a lane stands in its cycle.
#[derive(Clone, Copy, Debug, PartialEq, Eq, Structural)]
pub enum Phase {
    /// No readiness recorded and nobody waiting.
    Idle,
    /// A waker is stored and no readiness is recorded: a task is suspended.
    Armed,
    /// Readiness is recorded and has not been consumed.
    Latched,
}

impl Lane {
    /// The lane of a fresh registration.
    pub open spec fn idle() -> Lane {
        Lane { waker: None, triggered: false }
    }

    /// The lane after a task has left `waker` in the slot.
    pub open spec fn armed(self, waker: Waker) -> Lane {
        Lane { waker: Some(waker), triggered: self.triggered }
    }

    /// The lane after the event loop has seen readiness: the slot is emptied
    /// and the latch is set.
    pub open spec fn fired(self) -> Lane {
        Lane { waker: None, triggered: true }
    }

    /// The lane after the consumer has cleared the latch.
    pub open spec fn cleared(self) -> Lane {
        Lane { waker: self.waker, triggered: false }
    }

    /// The phase of the lane's cycle that this state belongs to.
    pub open spec fn spec_phase(&self) -> Phase {
        if self.triggered {
            Phase::Latched
        } else if self.waker is Some {
            Phase::Armed
        } else {
            Phase::Idle
        }
    }

    /// Tells in which phase of its cycle the lane is.
    #[verifier::when_used_as_spec(spec_phase)]
    pub fn phase(&self) -> (phase: Phase)
        ensures
            phase == self.spec_phase(),
    {
        if self.triggered {
            Phase::Latched
        } else if self.waker.is_some() {
            Phase::Armed
        } else {
            Phase::Idle
        }
    }

    /// Creates an idle lane.
    pub fn new() -> (lane: Lane)
        ensures
            lane == Lane::idle(),
    {
        Lane { waker: None, triggered: false }
    }

    /// Reads the latch.
    pub fn is_triggered(&self) -> (set: bool)
        ensures
            set == self.triggered,
    {
        self.triggered
    }

    /// Leaves a waker for the caller's task in the slot.
    ///
    /// A stored waker that already wakes the same task is kept; any other
    /// content of the slot is replaced by a clone of `waker`. Either way the
    /// slot then holds a waker for the caller's task, and the latch is not
    /// touched.
    pub fn arm(&mut self, waker: &Waker)
        ensures
            *final(self) == old(self).armed(*waker),
    {
        let keep = match &self.waker {
            Some(existing) => existing.will_wake(waker),
            None => false,
        };
        if !keep {
            self.waker = Some(waker.clone());
        }
    }

    /// Records readiness: takes the pending waker out of the slot, if there
    /// is one, and sets the latch whether or not anyone was waiting.
    pub fn fire(&mut self) -> (taken: Option<Waker>)
        ensures
            *final(self) == old(self).fired(),
            taken == old(self).waker,
    {
        let taken = self.waker.take();
        self.triggered = true;
        taken
    }

    /// Clears the latch and leaves the slot as it is.
    pub fn clear(&mut self)
        ensures
            *final(self) == old(self).cleared(),
    {
        self.triggered = false;
    }
}

} // verus!
