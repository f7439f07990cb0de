use reactor::{Attempt, Direction, Event, Phase, Reactor, ReactorError, Token};
use std::sync::atomic::{AtomicUsize, Ordering};
use std::sync::Arc;
use std::task::{Poll, Wake, Waker};
use std::time::Duration;

struct Task {
    wakeups: AtomicUsize,
}

impl Wake for Task {
    fn wake(self: Arc<Self>) {
        self.wakeups.fetch_add(1, Ordering::SeqCst);
    }
}

fn new_task() -> (Arc<Task>, Waker) {
    let task = Arc::new(Task { wakeups: AtomicUsize::new(0) });
    let waker = Waker::from(task.clone());
    (task, waker)
}

fn wakeups(task: &Arc<Task>) -> usize {
    task.wakeups.load(Ordering::SeqCst)
}

fn readable(token: Token) -> Event {
    Event { token, readable: true, writable: false }
}

fn writable(token: Token) -> Event {
    Event { token, readable: false, writable: true }
}

#[test]
fn new_reactor_has_no_registrations() {
    let reactor = Reactor::new().unwrap();
    assert!(!reactor.is_registered(Token(0)));
    assert!(reactor.source(Token(0)).is_none());
}

#[test]
fn register_hands_out_tokens_in_increasing_order() {
    let mut reactor = Reactor::new().unwrap();
    let a = reactor.register("a").unwrap();
    let b = reactor.register("b").unwrap();
    let c = reactor.register("c").unwrap();
    assert_eq!(a.token(), Token(0));
    assert_eq!(b.token(), Token(1));
    assert_eq!(c.token(), Token(2));
    assert_eq!(a.sys, "a");
    assert_eq!(b.sys, "b");
    assert_eq!(c.sys, "c");
    for stream in [&a, &b, &c] {
        assert!(reactor.is_registered(stream.token()));
        let source = reactor.source(stream.token()).unwrap();
        assert_eq!(source.token(), stream.token());
        assert_eq!(source.phase(Direction::Read), Phase::Idle);
        assert_eq!(source.phase(Direction::Write), Phase::Idle);
    }
    assert!(!reactor.is_registered(Token(3)));
}

#[test]
fn with_first_token_starts_there() {
    let mut reactor = Reactor::with_first_token(40);
    assert!(!reactor.is_registered(Token(40)));
    let stream = reactor.register(()).unwrap();
    assert_eq!(stream.token(), Token(40));
    assert!(!reactor.is_registered(Token(0)));
    assert!(reactor.is_registered(Token(40)));
}

#[test]
fn register_fails_when_tokens_are_exhausted() {
    let mut reactor = Reactor::with_first_token(usize::MAX - 1);
    let last = reactor.register(1u8).unwrap();
    assert_eq!(last.token(), Token(usize::MAX - 1));
    assert_eq!(reactor.register(2u8).err(), Some(ReactorError::Exhausted));
    assert_eq!(reactor.register(3u8).err(), Some(ReactorError::Exhausted));
    assert!(reactor.is_registered(Token(usize::MAX - 1)));
    assert!(!reactor.is_registered(Token(usize::MAX)));
}

#[test]
fn tokens_are_not_reused_after_deregistration() {
    let mut reactor = Reactor::new().unwrap();
    let a = reactor.register(()).unwrap();
    reactor.deregister(a.token());
    let b = reactor.register(()).unwrap();
    assert_eq!(a.token(), Token(0));
    assert_eq!(b.token(), Token(1));
    assert!(!reactor.is_registered(Token(0)));
    assert!(reactor.is_registered(Token(1)));
}

#[test]
fn deregister_twice_is_deregister_once() {
    let mut reactor = Reactor::new().unwrap();
    let a = reactor.register(()).unwrap();
    let b = reactor.register(()).unwrap();
    reactor.deregister(a.token());
    assert!(!reactor.is_registered(a.token()));
    assert!(reactor.is_registered(b.token()));
    reactor.deregister(a.token());
    assert!(!reactor.is_registered(a.token()));
    assert!(reactor.is_registered(b.token()));
}

#[test]
fn deregister_of_unknown_token_changes_nothing() {
    let mut reactor = Reactor::new().unwrap();
    let a = reactor.register(()).unwrap();
    reactor.deregister(Token(77));
    assert!(reactor.is_registered(a.token()));
    assert!(!reactor.is_registered(Token(77)));
}

#[test]
fn dispatch_ignores_events_for_unknown_tokens() {
    let mut reactor = Reactor::new().unwrap();
    let a = reactor.register(()).unwrap();
    let batch = reactor.dispatch(&vec![readable(Token(5)), writable(Token(6))]);
    assert!(batch.is_empty());
    assert!(!reactor.is_registered(Token(5)));
    assert!(!reactor.is_registered(Token(6)));
    let source = reactor.source(a.token()).unwrap();
    assert!(!source.is_triggered(Direction::Read));
    assert!(!source.is_triggered(Direction::Write));
}

#[test]
fn dispatch_finds_no_source_after_deregistration() {
    let mut reactor = Reactor::new().unwrap();
    let a = reactor.register(()).unwrap();
    let (task, waker) = new_task();
    let first = a.poll_io(&mut reactor, Direction::Read, || Attempt::Done(0u8), &waker);
    assert_eq!(first, Poll::Pending);
    reactor.deregister(a.token());
    let batch = reactor.dispatch(&vec![readable(a.token())]);
    assert!(batch.is_empty());
    assert!(!reactor.is_registered(a.token()));
    assert!(reactor.source(a.token()).is_none());
    assert_eq!(wakeups(&task), 0);
}

#[test]
fn dispatch_of_no_events_changes_nothing() {
    let mut reactor = Reactor::new().unwrap();
    let a = reactor.register(()).unwrap();
    let (_task, waker) = new_task();
    assert_eq!(a.poll_io(&mut reactor, Direction::Write, || Attempt::Done(0u8), &waker), Poll::Pending);
    let batch = reactor.dispatch(&Vec::new());
    assert!(batch.is_empty());
    let source = reactor.source(a.token()).unwrap();
    assert_eq!(source.phase(Direction::Write), Phase::Armed);
    assert_eq!(source.phase(Direction::Read), Phase::Idle);
}

#[test]
fn dispatch_latches_and_collects_wakers_in_event_order() {
    let mut reactor = Reactor::new().unwrap();
    let a = reactor.register(()).unwrap();
    let b = reactor.register(()).unwrap();
    let (_ta, a_read) = new_task();
    let (_tb, b_write) = new_task();
    let (_tc, b_read) = new_task();
    assert_eq!(a.poll_io(&mut reactor, Direction::Read, || Attempt::Done(()), &a_read), Poll::Pending);
    assert_eq!(b.poll_io(&mut reactor, Direction::Write, || Attempt::Done(()), &b_write), Poll::Pending);
    assert_eq!(b.poll_io(&mut reactor, Direction::Read, || Attempt::Done(()), &b_read), Poll::Pending);
    let events = vec![
        Event { token: b.token(), readable: true, writable: true },
        readable(a.token()),
    ];
    let batch = reactor.dispatch(&events);
    assert_eq!(batch.len(), 3);
    assert!(batch[0].will_wake(&b_read));
    assert!(batch[1].will_wake(&b_write));
    assert!(batch[2].will_wake(&a_read));
    let source_a = reactor.source(a.token()).unwrap();
    assert!(source_a.is_triggered(Direction::Read));
    assert!(!source_a.is_triggered(Direction::Write));
    assert!(!source_a.is_armed(Direction::Read));
    let source_b = reactor.source(b.token()).unwrap();
    assert!(source_b.is_triggered(Direction::Read));
    assert!(source_b.is_triggered(Direction::Write));
    assert!(!source_b.is_armed(Direction::Read));
    assert!(!source_b.is_armed(Direction::Write));
}

#[test]
fn dispatch_takes_a_waker_only_once_per_batch() {
    let mut reactor = Reactor::new().unwrap();
    let a = reactor.register(()).unwrap();
    let (task, waker) = new_task();
    assert_eq!(a.poll_io(&mut reactor, Direction::Read, || Attempt::Done(()), &waker), Poll::Pending);
    let batch = reactor.dispatch(&vec![readable(a.token()), readable(a.token()), writable(a.token())]);
    assert_eq!(batch.len(), 1);
    reactor::wake_all(batch);
    assert_eq!(wakeups(&task), 1);
    let source = reactor.source(a.token()).unwrap();
    assert!(source.is_triggered(Direction::Read));
    assert!(source.is_triggered(Direction::Write));
}

#[test]
fn dispatch_leaves_unreported_sources_alone() {
    let mut reactor = Reactor::new().unwrap();
    let a = reactor.register(()).unwrap();
    let b = reactor.register(()).unwrap();
    let (task, waker) = new_task();
    assert_eq!(b.poll_io(&mut reactor, Direction::Read, || Attempt::Done(()), &waker), Poll::Pending);
    let batch = reactor.dispatch(&vec![readable(a.token())]);
    assert!(batch.is_empty());
    let source_b = reactor.source(b.token()).unwrap();
    assert_eq!(source_b.phase(Direction::Read), Phase::Armed);
    assert_eq!(wakeups(&task), 0);
}

#[test]
fn turn_on_empty_mio_events_changes_nothing() {
    let mut reactor = Reactor::new().unwrap();
    let a = reactor.register(()).unwrap();
    let events = mio::Events::with_capacity(4);
    let batch = reactor.turn(&events);
    assert!(batch.is_empty());
    assert_eq!(reactor.source(a.token()).unwrap().phase(Direction::Read), Phase::Idle);
}

#[test]
fn turn_delivers_what_the_os_poller_reports() {
    let mut poll = mio::Poll::new().unwrap();
    let mut events = mio::Events::with_capacity(8);
    let mut reactor = Reactor::with_first_token(5);
    let other = reactor.register(()).unwrap();
    let stream = reactor.register(()).unwrap();
    assert_eq!(stream.token(), Token(6));
    let nudge = mio::Waker::new(poll.registry(), mio::Token(stream.token().0)).unwrap();
    let (task, waker) = new_task();
    assert_eq!(stream.poll_io(&mut reactor, Direction::Read, || Attempt::Done(()), &waker), Poll::Pending);
    nudge.wake().unwrap();
    poll.poll(&mut events, Some(Duration::from_secs(10))).unwrap();
    assert!(!events.is_empty());
    let batch = reactor.turn(&events);
    assert_eq!(batch.len(), 1);
    assert!(batch[0].will_wake(&waker));
    reactor::wake_all(batch);
    assert_eq!(wakeups(&task), 1);
    let source = reactor.source(stream.token()).unwrap();
    assert!(source.is_triggered(Direction::Read));
    assert!(!source.is_armed(Direction::Read));
    let untouched = reactor.source(other.token()).unwrap();
    assert_eq!(untouched.phase(Direction::Read), Phase::Idle);
    assert_eq!(untouched.phase(Direction::Write), Phase::Idle);
}
