//! Readiness events, as the OS poller reports them.

use crate::direction::{Direction, Token};
use vstd::prelude::*;

verus! {

/// One readiness report: the token of a registration and the directions in
/// which its socket is ready.
#[derive(Clone, Copy, Debug, PartialEq, Eq, Structural)]
pub struct Event {
    pub token: Token,
    pub readable: bool,
    pub writable: bool,
}

impl Event {
    /// Whether this event reports readiness in `direction`.
    pub open spec fn reports(self, direction: Direction) -> bool {
        match direction {
            Direction::Read => self.readable,
            Direction::Write => self.writable,
        }
    }
}

/// Makes `mio::Events` known to the verifier as an opaque type.
#[verifier::external_type_specification]
#[verifier::external_body]
pub struct ExEvents(mio::Events);

/// The readiness reports that `events` holds, in the order in which
/// `mio::Events::iter` yields them.
pub uninterp spec fn reported(events: mio::Events) -> Seq<Event>;

/// `mio::Events::iter`, with `Event::token`, `Event::is_readable` and
/// `Event::is_writable` read off each item: the result lists what `events`
/// holds, one entry per item and in iteration order.
#[verifier::external_body]
pub(crate) fn collect(events: &mio::Events) -> (out: Vec<Event>)
    ensures
        out@ == reported(*events),
{
    events.iter().map(|e| Event {
        token: Token(e.token().0),
        readable: e.is_readable(),
        writable: e.is_writable(),
    }).collect()
}

} // verus!
