//! The socket wrapper, and the retry loop that its operations are built on.

use crate::direction::{Direction, Token};
use crate::reactor::{Reactor, ReactorError};
use std::task::{Poll, Waker};
use vstd::prelude::*;

verus! {

/// What one try of a raw, non-blocking socket operation came to.
pub enum Attempt<T> {
    /// The socket was not ready after all: nothing was done.
    WouldBlock,
    /// The operation ran to its end, with this result: a success or any
    /// failure other than "would block".
    Done(T),
}

/// A registered socket.
///
/// The stream owns the raw socket `sys` and knows the token under which the
/// reactor keeps the socket's source.
pub struct TcpStream<S> {
    pub sys: S,
    token: Token,
}

impl<S> TcpStream<S> {
    /// The token under which the stream is registered.
    pub closed spec fn spec_token(&self) -> Token {
        self.token
    }

    /// The raw socket that the stream owns.
    pub closed spec fn socket(&self) -> S {
        self.sys
    }

    /// Makes the stream of a registration that was just entered under
    /// `token`.
    pub(crate) fn new(sys: S, token: Token) -> (stream: TcpStream<S>)
        ensures
            stream.socket() == sys,
            stream.token() == token,
    {
        TcpStream { sys, token }
    }

    /// Returns the token under which the stream is registered.
    #[verifier::when_used_as_spec(spec_token)]
    pub fn token(&self) -> (token: Token)
        ensures
            token == self.spec_token(),
    {
        self.token
    }

    /// Runs the raw operation `f` once the socket is ready in `direction`,
    /// or arms `waker` and reports `Pending`.
    ///
    /// As long as the readiness check says `Ready`, `f` is tried. A result
    /// other than "would block" ends the call and is handed on as it is.
    /// "Would block" means that the latch was stale: it is cleared and the
    /// check is made again, which arms `waker` and ends the call with
    /// `Pending`. So `f` is tried at most once per call, and not at all while
    /// the latch is clear.
    ///
    /// A stream whose token is not registered with `reactor` gets
    /// [`ReactorError::Unregistered`], and `f` is not tried.
    pub fn poll_io<T, F: FnMut() -> Attempt<T>>(
        &self,
        reactor: &mut Reactor,
        direction: Direction,
        mut f: F,
        waker: &Waker,
    ) -> (r: Poll<Result<T, ReactorError>>)
        requires
            old(reactor).wf(),
            call_requires(f, ()),
        ensures
            final(reactor).wf(),
            final(reactor)@.next == old(reactor)@.next,
            !old(reactor)@.sources.contains_key(self.token()) ==> {
                &&& r == Poll::<Result<T, ReactorError>>::Ready(Err(ReactorError::Unregistered))
                &&& final(reactor)@.sources == old(reactor)@.sources
            },
            old(reactor)@.sources.contains_key(self.token()) ==> {
                let source = old(reactor)@.sources[self.token()];
                match r {
                    Poll::Pending => {
                        &&& source.lane(direction).triggered ==> call_ensures(
                            f,
                            (),
                            Attempt::WouldBlock,
                        )
                        &&& final(reactor)@.sources == old(reactor)@.sources.insert(
                            self.token(),
                            source.clear(direction).arm(direction, *waker),
                        )
                    },
                    Poll::Ready(Ok(value)) => {
                        &&& source.lane(direction).triggered
                        &&& call_ensures(f, (), Attempt::Done(value))
                        &&& final(reactor)@.sources == old(reactor)@.sources
                    },
                    Poll::Ready(Err(_)) => false,
                }
            },
    {
        let ghost op = f;
        let mut source = match reactor.checkout(self.token) {
            Some(source) => source,
            None => {
                return Poll::Ready(Err(ReactorError::Unregistered));
            },
        };
        let ghost start = source@;
        let mut outcome: Poll<Result<T, ReactorError>> = Poll::Pending;
        loop
            invariant_except_break
                outcome is Pending,
                f == op,
                call_requires(op, ()),
                source@ == start || (start.lane(direction).triggered && call_ensures(
                    op,
                    (),
                    Attempt::<T>::WouldBlock,
                ) && source@ == start.clear(direction)),
            ensures
                match outcome {
                    Poll::Pending => {
                        &&& start.lane(direction).triggered ==> call_ensures(
                            op,
                            (),
                            Attempt::<T>::WouldBlock,
                        )
                        &&& source@ == start.clear(direction).arm(direction, *waker)
                    },
                    Poll::Ready(Ok(value)) => {
                        &&& start.lane(direction).triggered
                        &&& call_ensures(op, (), Attempt::Done(value))
                        &&& source@ == start
                    },
                    Poll::Ready(Err(_)) => false,
                },
            decreases
                    (if source@.lane(direction).triggered {
                        1int
                    } else {
                        0int
                    }),
        {
            match reactor.poll_ready(&mut source, direction, waker) {
                Poll::Pending => {
                    assert(start.clear(direction).arm(direction, *waker) == source@);
                    break ;
                },
                Poll::Ready(()) => {},
            }
            match f() {
                Attempt::WouldBlock => {
                    reactor.clear_trigger(&mut source, direction);
                },
                Attempt::Done(value) => {
                    outcome = Poll::Ready(Ok(value));
                    break ;
                },
            }
        }
        reactor.checkin(source);
        assert(final(reactor)@.sources =~= old(reactor)@.sources.insert(self.token(), source@));
        assert(old(reactor)@.sources.insert(self.token(), start) =~= old(reactor)@.sources);
        outcome
    }
}

} // verus!
