//! The reactor: the table of sources, and the operations on it.

use crate::direction::{Direction, Token};
use crate::event::{collect, reported, Event};
use crate::source::{Source, SourceView};
use crate::stream::TcpStream;
use std::collections::HashMap;
use std::task::{Poll, Waker};
use vstd::prelude::*;

verus! {

/// Why a reactor operation was refused.
#[derive(Clone, Copy, Debug, PartialEq, Eq, Structural)]
pub enum ReactorError {
    /// Every token has been handed out; nothing more can be registered.
    Exhausted,
    /// The token names no live registration of this reactor.
    Unregistered,
}

/// What a reactor holds, as contracts see it.
pub struct ReactorView {
    /// The live registrations.
    pub sources: Map<Token, SourceView>,
    /// The number that the next registration gets for its token.
    pub next: usize,
}

impl ReactorView {
    /// Every live source sits under its own token, and every token in use
    /// lies below the next one to be handed out.
    pub open spec fn wf(self) -> bool {
        forall|token: Token| #[trigger]
            self.sources.contains_key(token) ==> token.0 < self.next && self.sources[token].token
                == token
    }
}

/// The table's state after the readiness report `event`: the source that the
/// event names takes it; an event for a token that is not in the table
/// changes nothing.
pub open spec fn deliver_one(sources: Map<Token, SourceView>, event: Event) -> Map<
    Token,
    SourceView,
> {
    if sources.contains_key(event.token) {
        sources.insert(event.token, sources[event.token].deliver(event.readable, event.writable))
    } else {
        sources
    }
}

/// The wakers that the readiness report `event` takes out of the table.
pub open spec fn taken_by(sources: Map<Token, SourceView>, event: Event) -> Seq<Waker> {
    if sources.contains_key(event.token) {
        sources[event.token].taken(event.readable, event.writable)
    } else {
        Seq::<Waker>::empty()
    }
}

/// The table's state after the reports of `events` were applied in order.
pub open spec fn delivered(sources: Map<Token, SourceView>, events: Seq<Event>) -> Map<
    Token,
    SourceView,
>
    decreases events.len(),
{
    if events.len() == 0 {
        sources
    } else {
        deliver_one(delivered(sources, events.drop_last()), events.last())
    }
}

/// The wakers that applying `events` in order takes out of the table, in the
/// order in which they are taken.
pub open spec fn woken(sources: Map<Token, SourceView>, events: Seq<Event>) -> Seq<Waker>
    decreases events.len(),
{
    if events.len() == 0 {
        Seq::<Waker>::empty()
    } else {
        woken(sources, events.drop_last()) + taken_by(
            delivered(sources, events.drop_last()),
            events.last(),
        )
    }
}

/// The table of live registrations.
///
/// Tokens are handed out in increasing order and never twice, so a token
/// names at most one source for the whole life of the reactor.
pub struct Reactor {
    sources: HashMap<usize, Source>,
    next: usize,
}

impl View for Reactor {
    type V = ReactorView;

    closed spec fn view(&self) -> ReactorView {
        ReactorView {
            sources: Map::new(
                |token: Token| self.sources@.contains_key(token.0),
                |token: Token| self.sources@[token.0]@,
            ),
            next: self.next,
        }
    }
}

impl Reactor {
    /// The invariant of the table; see [`ReactorView::wf`].
    pub open spec fn wf(&self) -> bool {
        self@.wf()
    }

    /// Creates a reactor with no registrations.
    ///
    /// The result is always `Ok`: an empty table cannot fail to be made. It
    /// is a `Result` so that a shell which opens its OS poller in the same
    /// breath has one error path for both.
    pub fn new() -> (r: Result<Reactor, ReactorError>)
        ensures
            r matches Ok(reactor) && reactor.wf() && reactor@.sources == Map::<
                Token,
                SourceView,
            >::empty() && reactor@.next == 0,
    {
        Ok(Reactor::with_first_token(0))
    }

    /// Creates a reactor with no registrations whose first token is `first`.
    ///
    /// The tokens below `first` are never handed out, so a shell can keep
    /// them for registrations of its own with the OS poller.
    pub fn with_first_token(first: usize) -> (reactor: Reactor)
        ensures
            reactor.wf(),
            reactor@.sources == Map::<Token, SourceView>::empty(),
            reactor@.next == first,
    {
        let reactor = Reactor { sources: HashMap::new(), next: first };
        assert(reactor@.sources =~= Map::<Token, SourceView>::empty());
        reactor
    }

    /// Looks up the source under `token`.
    pub fn source(&self, token: Token) -> (found: Option<&Source>)
        ensures
            match found {
                Some(source) => self@.sources.contains_key(token) && source@
                    == self@.sources[token],
                None => !self@.sources.contains_key(token),
            },
    {
        self.sources.get(&token.0)
    }

    /// Tells whether `token` names a live registration.
    pub fn is_registered(&self, token: Token) -> (live: bool)
        ensures
            live == self@.sources.contains_key(token),
    {
        self.sources.contains_key(&token.0)
    }

    /// Registers the raw socket `sys`: allocates the next token, enters a
    /// fresh source under it, and returns the stream that owns the socket.
    ///
    /// Telling the OS poller about the socket, for both directions, is the
    /// caller's part, under the token of the returned stream.
    ///
    /// Fails with [`ReactorError::Exhausted`], changing nothing, exactly when
    /// the last token has been handed out.
    pub fn register<S>(&mut self, sys: S) -> (r: Result<TcpStream<S>, ReactorError>)
        requires
            old(self).wf(),
        ensures
            final(self).wf(),
            match r {
                Ok(stream) => {
                    &&& old(self)@.next < usize::MAX
                    &&& stream.socket() == sys
                    &&& stream.token() == Token(old(self)@.next)
                    &&& !old(self)@.sources.contains_key(stream.token())
                    &&& final(self)@.sources == old(self)@.sources.insert(
                        stream.token(),
                        SourceView::fresh(stream.token()),
                    )
                    &&& final(self)@.next == old(self)@.next + 1
                },
                Err(e) => {
                    &&& old(self)@.next == usize::MAX
                    &&& e == ReactorError::Exhausted
                    &&& final(self)@ == old(self)@
                },
            },
    {
        if self.next == usize::MAX {
            return Err(ReactorError::Exhausted);
        }
        let token = Token(self.next);
        self.sources.insert(token.0, Source::new(token));
        self.next = self.next + 1;
        assert(final(self)@.sources =~= old(self)@.sources.insert(token, SourceView::fresh(token)));
        Ok(TcpStream::new(sys, token))
    }

    /// Takes the source under `token` out of the table, if there is one.
    pub(crate) fn checkout(&mut self, token: Token) -> (found: Option<Source>)
        requires
            old(self).wf(),
        ensures
            final(self).wf(),
            final(self)@.next == old(self)@.next,
            match found {
                Some(source) => {
                    &&& old(self)@.sources.contains_key(token)
                    &&& source@ == old(self)@.sources[token]
                    &&& final(self)@.sources == old(self)@.sources.remove(token)
                },
                None => !old(self)@.sources.contains_key(token) && final(self)@ == old(self)@,
            },
    {
        let found = self.sources.remove(&token.0);
        assert(final(self)@.sources =~= old(self)@.sources.remove(token));
        assert(found is None ==> final(self)@.sources =~= old(self)@.sources);
        found
    }

    /// Puts `source` into the table under its own token.
    pub(crate) fn checkin(&mut self, source: Source)
        requires
            old(self).wf(),
            source@.token.0 < old(self)@.next,
        ensures
            final(self).wf(),
            final(self)@.next == old(self)@.next,
            final(self)@.sources == old(self)@.sources.insert(source@.token, source@),
    {
        let token = source.token();
        self.sources.insert(token.0, source);
        assert(final(self)@.sources =~= old(self)@.sources.insert(source@.token, source@));
    }

    /// Checks whether `direction` of `source` is ready, and arms it if not.
    ///
    /// The check has three steps. First the latch is read: if it is set, the
    /// answer is `Ready` and nothing is changed. Otherwise a waker for the
    /// caller's task is left in the slot, and then the latch is read a second
    /// time; only if it is still clear is the answer `Pending`, which is the
    /// point at which the caller suspends. With exclusive access to the
    /// source nothing can set the latch between the steps, so here the second
    /// reading always finds what the first one found.
    pub fn poll_ready(&self, source: &mut Source, direction: Direction, waker: &Waker) -> (r: Poll<
        (),
    >)
        ensures
            old(source)@.lane(direction).triggered ==> r == Poll::Ready(()) && final(source)@
                == old(source)@,
            !old(source)@.lane(direction).triggered ==> r == Poll::<()>::Pending && final(source)@
                == old(source)@.arm(direction, *waker),
    {
        if source.is_triggered(direction) {
            return Poll::Ready(());
        }
        source.arm(direction, waker);
        if source.is_triggered(direction) {
            return Poll::Ready(());
        }
        Poll::Pending
    }

    /// Clears the latch of `direction`, so that the next readiness check
    /// stays pending until the OS reports readiness again.
    ///
    /// To be called right after a retried raw operation reported that it
    /// would block, and never on speculation.
    pub fn clear_trigger(&self, source: &mut Source, direction: Direction)
        ensures
            final(source)@ == old(source)@.clear(direction),
    {
        source.clear(direction);
    }

    /// Removes the registration under `token`, if there is one.
    ///
    /// Doing so a second time, or for a token that was never registered,
    /// changes nothing.
    pub fn deregister(&mut self, token: Token)
        requires
            old(self).wf(),
        ensures
            final(self).wf(),
            final(self)@.sources == old(self)@.sources.remove(token),
            final(self)@.next == old(self)@.next,
    {
        self.sources.remove(&token.0);
        assert(final(self)@.sources =~= old(self)@.sources.remove(token));
    }

    /// Applies a batch of readiness reports, in order, and returns the
    /// wakers of the tasks that have to be resumed.
    ///
    /// A report for a token that is not in the table is ignored. For every
    /// other report, each direction it names is latched and its pending
    /// waker, if any, is moved to the result. No waker is invoked here: the
    /// caller does that once it has let go of every lock on the reactor.
    pub fn dispatch(&mut self, events: &Vec<Event>) -> (batch: Vec<Waker>)
        requires
            old(self).wf(),
        ensures
            final(self).wf(),
            final(self)@.sources == delivered(old(self)@.sources, events@),
            final(self)@.next == old(self)@.next,
            batch@ == woken(old(self)@.sources, events@),
    {
        let mut batch: Vec<Waker> = Vec::new();
        let mut i: usize = 0;
        while i < events.len()
            invariant
                i <= events.len(),
                self.wf(),
                self@.next == old(self)@.next,
                self@.sources == delivered(old(self)@.sources, events@.take(i as int)),
                batch@ == woken(old(self)@.sources, events@.take(i as int)),
            decreases events.len() - i,
        {
            let event = events[i];
            let ghost before = self@.sources;
            assert(events@.take(i + 1).drop_last() == events@.take(i as int));
            assert(events@.take(i + 1).last() == event);
            if let Some(source) = self.checkout(event.token) {
                let mut source = source;
                source.deliver(event.readable, event.writable, &mut batch);
                self.checkin(source);
            }
            assert(self@.sources =~= deliver_one(before, event));
            i = i + 1;
        }
        assert(events@.take(events.len() as int) == events@);
        batch
    }

    /// Applies the readiness reports that `events` holds after a wait on the
    /// OS poller; see [`Reactor::dispatch`].
    pub fn turn(&mut self, events: &mio::Events) -> (batch: Vec<Waker>)
        requires
            old(self).wf(),
        ensures
            final(self).wf(),
            final(self)@.sources == delivered(old(self)@.sources, reported(*events)),
            final(self)@.next == old(self)@.next,
            batch@ == woken(old(self)@.sources, reported(*events)),
    {
        let reports = collect(events);
        self.dispatch(&reports)
    }
}

} // verus!
