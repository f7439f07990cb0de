//! The per-socket record: one lane per direction, and the socket's token.

use crate::direction::{Direction, Token};
use crate::lane::{Lane, Phase};
use std::task::Waker;
use vstd::prelude::*;

verus! {

/// The bookkeeping of one registered socket.
///
/// Exactly one source exists per live registration. It is created at
/// registration, changed by readiness checks (arming), by event delivery
/// (latching and waker extraction) and by the consumer (clearing), and it is
/// discarded at deregistration.
pub struct Source {
    read: Lane,
    write: Lane,
    token: Token,
}

/// What a source holds, as contracts see it.
pub struct SourceView {
    pub read: Lane,
    pub write: Lane,
    pub token: Token,
}

impl SourceView {
    /// The source of a fresh registration under `token`: both lanes idle.
    pub open spec fn fresh(token: Token) -> SourceView {
        SourceView { read: Lane::idle(), write: Lane::idle(), token }
    }

    /// The lane of `direction`.
    pub open spec fn lane(self, direction: Direction) -> Lane {
        match direction {
            Direction::Read => self.read,
            Direction::Write => self.write,
        }
    }

    /// This source with the lane of `direction` replaced by `lane`.
    pub open spec fn with_lane(self, direction: Direction, lane: Lane) -> SourceView {
        match direction {
            Direction::Read => SourceView { read: lane, ..self },
            Direction::Write => SourceView { write: lane, ..self },
        }
    }

    /// This source after a waker was left for `direction`.
    pub open spec fn arm(self, direction: Direction, waker: Waker) -> SourceView {
        self.with_lane(direction, self.lane(direction).armed(waker))
    }

    /// This source after readiness was recorded for `direction`.
    pub open spec fn fire(self, direction: Direction) -> SourceView {
        self.with_lane(direction, self.lane(direction).fired())
    }

    /// This source after the latch of `direction` was cleared.
    pub open spec fn clear(self, direction: Direction) -> SourceView {
        self.with_lane(direction, self.lane(direction).cleared())
    }

    /// This source after one readiness event: each direction that the event
    /// reports is fired, the others are left alone.
    pub open spec fn deliver(self, readable: bool, writable: bool) -> SourceView {
        let after_read = if readable {
            self.fire(Direction::Read)
        } else {
            self
        };
        if writable {
            after_read.fire(Direction::Write)
        } else {
            after_read
        }
    }

    /// The wakers that one readiness event takes out of this source: the
    /// read waker first, then the write waker, each only if its direction is
    /// reported and its slot is filled.
    pub open spec fn taken(self, readable: bool, writable: bool) -> Seq<Waker> {
        let from_read = if readable && self.read.waker is Some {
            seq![self.read.waker->Some_0]
        } else {
            Seq::<Waker>::empty()
        };
        let from_write = if writable && self.write.waker is Some {
            seq![self.write.waker->Some_0]
        } else {
            Seq::<Waker>::empty()
        };
        from_read + from_write
    }
}

impl View for Source {
    type V = SourceView;

    closed spec fn view(&self) -> SourceView {
        SourceView { read: self.read, write: self.write, token: self.token }
    }
}

impl Source {
    /// Creates the source of a fresh registration under `token`.
    pub fn new(token: Token) -> (source: Source)
        ensures
            source@ == SourceView::fresh(token),
    {
        Source { read: Lane::new(), write: Lane::new(), token }
    }

    /// The token under which this source is registered.
    pub fn token(&self) -> (token: Token)
        ensures
            token == self@.token,
    {
        self.token
    }

    /// Reads the latch of `direction`.
    pub fn is_triggered(&self, direction: Direction) -> (set: bool)
        ensures
            set == self@.lane(direction).triggered,
    {
        match direction {
            Direction::Read => self.read.is_triggered(),
            Direction::Write => self.write.is_triggered(),
        }
    }

    /// Tells in which phase of its cycle `direction` is.
    pub fn phase(&self, direction: Direction) -> (phase: Phase)
        ensures
            phase == self@.lane(direction).phase(),
    {
        match direction {
            Direction::Read => self.read.phase(),
            Direction::Write => self.write.phase(),
        }
    }

    /// Tells whether a waker is stored for `direction`.
    pub fn is_armed(&self, direction: Direction) -> (filled: bool)
        ensures
            filled == (self@.lane(direction).waker is Some),
    {
        match direction {
            Direction::Read => self.read.waker.is_some(),
            Direction::Write => self.write.waker.is_some(),
        }
    }

    /// Leaves a waker for the caller's task in the slot of `direction`.
    ///
    /// The other direction, both latches and the token stay as they are.
    pub fn arm(&mut self, direction: Direction, waker: &Waker)
        ensures
            final(self)@ == old(self)@.arm(direction, *waker),
    {
        match direction {
            Direction::Read => self.read.arm(waker),
            Direction::Write => self.write.arm(waker),
        }
    }

    /// Applies one readiness event to this source.
    ///
    /// For each direction that the event reports, the pending waker is moved
    /// to the end of `batch` and the latch is set; the latch is set even when
    /// no waker was pending, so that a later readiness check still resolves.
    pub fn deliver(&mut self, readable: bool, writable: bool, batch: &mut Vec<Waker>)
        ensures
            final(self)@ == old(self)@.deliver(readable, writable),
            final(batch)@ == old(batch)@ + old(self)@.taken(readable, writable),
    {
        if readable {
            if let Some(waker) = self.read.fire() {
                batch.push(waker);
            }
        }
        if writable {
            if let Some(waker) = self.write.fire() {
                batch.push(waker);
            }
        }
    }

    /// Clears the latch of `direction`.
    ///
    /// The waker slots, the other latch and the token stay as they are.
    pub fn clear(&mut self, direction: Direction)
        ensures
            final(self)@ == old(self)@.clear(direction),
    {
        match direction {
            Direction::Read => self.read.clear(),
            Direction::Write => self.write.clear(),
        }
    }
}

} // verus!
