//! A user-space I/O reactor, verified.
//!
//! The crate holds the bookkeeping that sits between an operating system's
//! socket-readiness notifications and the wakers of suspended tasks: one
//! readiness latch and one waker slot per socket and direction, a table of
//! those records keyed by token, the step that delivers a batch of readiness
//! events, and the retry loop that socket operations are built on.
//!
//! A latch records that readiness occurred, and it is cleared only by the
//! consumer, after a retried operation answered "would block". This is the
//! discipline of an edge-triggered OS poller, which reports a socket again
//! only once it has been drained: both directions are registered with the
//! poller once, and nothing is re-armed there per operation.
//!
//! Every operation here takes exclusive access to the state it changes. A
//! shell that shares the reactor between an event-loop thread and many tasks
//! serialises those accesses; the laws in [`laws`] say what holds when event
//! delivery falls between the steps of a readiness check.

pub mod direction;
pub mod task;
pub mod lane;
pub mod source;
pub mod event;
pub mod reactor;
pub mod stream;
pub mod laws;

pub use direction::{Direction, Token};
pub use lane::{Lane, Phase};
pub use source::{Source, SourceView};
pub use event::Event;
pub use reactor::{Reactor, ReactorError, ReactorView};
pub use stream::{Attempt, TcpStream};
pub use task::wake_all;
