//! Laws of the reactor, proved over the models that the contracts use.
//!
//! A source changes in three ways only: a task arms a direction, the event
//! loop fires a direction, the consumer clears a latch. The laws below say
//! what holds of every sequence of such steps, of a readiness check during
//! which the event loop fires, and of the table under event delivery.

use crate::direction::{Direction, Token};
use crate::event::Event;
use crate::lane::{Lane, Phase};
use crate::reactor::{deliver_one, delivered, taken_by, woken};
use crate::source::SourceView;
use std::task::Waker;
use vstd::prelude::*;

verus! {

/// One change to a source.
pub enum Step {
    /// A task leaves its waker for a direction.
    Arm(Direction, Waker),
    /// The event loop records readiness of a direction.
    Fire(Direction),
    /// The consumer clears the latch of a direction.
    Clear(Direction),
}

impl Step {
    /// The direction that the step acts on.
    pub open spec fn direction(self) -> Direction {
        match self {
            Step::Arm(direction, _) => direction,
            Step::Fire(direction) => direction,
            Step::Clear(direction) => direction,
        }
    }
}

/// The source `source` after `step`.
pub open spec fn after(source: SourceView, step: Step) -> SourceView {
    match step {
        Step::Arm(direction, waker) => source.arm(direction, waker),
        Step::Fire(direction) => source.fire(direction),
        Step::Clear(direction) => source.clear(direction),
    }
}

/// The source `source` after `steps`, taken first to last.
pub open spec fn after_all(source: SourceView, steps: Seq<Step>) -> SourceView
    decreases steps.len(),
{
    if steps.len() == 0 {
        source
    } else {
        after(after_all(source, steps.drop_last()), steps.last())
    }
}

/// The source `source` after the event loop fired `directions`, first to
/// last.
pub open spec fn after_fires(source: SourceView, directions: Seq<Direction>) -> SourceView
    decreases directions.len(),
{
    if directions.len() == 0 {
        source
    } else {
        after_fires(source, directions.drop_last()).fire(directions.last())
    }
}

/// A readiness check on `direction` during which the event loop fires.
///
/// The check reads the latch, arms, and reads the latch again. `early` are
/// the directions that the event loop fires between the first reading and
/// the arming, `late` those it fires between the arming and the second
/// reading. The result is the source at the end of the check and whether the
/// check answers `Ready`.
pub open spec fn check_amid(
    source: SourceView,
    direction: Direction,
    waker: Waker,
    early: Seq<Direction>,
    late: Seq<Direction>,
) -> (SourceView, bool) {
    if source.lane(direction).triggered {
        (source, true)
    } else {
        let armed = after_fires(source, early).arm(direction, waker);
        let end = after_fires(armed, late);
        (end, end.lane(direction).triggered)
    }
}

/// A check during which nothing fires is the check with exclusive access: it
/// answers `Ready` and changes nothing if the latch is set, and else arms
/// the direction and answers `Pending`.
pub proof fn law_undisturbed_check(source: SourceView, direction: Direction, waker: Waker)
    ensures
        check_amid(source, direction, waker, Seq::empty(), Seq::empty()) == if source.lane(
            direction,
        ).triggered {
            (source, true)
        } else {
            (source.arm(direction, waker), false)
        },
{
}

/// A fresh registration is not ready: a check on it answers `Pending` and
/// leaves the caller's waker in the slot. Checking again for the same task
/// changes nothing and is `Pending` again, until the direction is fired.
pub proof fn law_fresh_source_pends(token: Token, direction: Direction, waker: Waker)
    ensures
        ({
            let fresh = SourceView::fresh(token);
            let (armed, ready) = check_amid(fresh, direction, waker, Seq::empty(), Seq::empty());
            &&& !ready
            &&& armed == fresh.arm(direction, waker)
            &&& armed.lane(direction).phase() == Phase::Armed
            &&& armed.lane(direction).waker == Some(waker)
            &&& check_amid(armed, direction, waker, Seq::empty(), Seq::empty()) == (armed, false)
        }),
{
}

/// Firing leaves the other direction alone, sets the latch of every fired
/// direction for good, and empties only the slots of fired directions.
proof fn lemma_after_fires(source: SourceView, directions: Seq<Direction>, direction: Direction)
    ensures
        after_fires(source, directions).token == source.token,
        directions.contains(direction) ==> after_fires(source, directions).lane(direction)
            == source.lane(direction).fired(),
        !directions.contains(direction) ==> after_fires(source, directions).lane(direction)
            == source.lane(direction),
    decreases directions.len(),
{
    if directions.len() > 0 {
        let front = directions.drop_last();
        lemma_after_fires(source, front, direction);
        assert(directions.contains(direction) <==> front.contains(direction) || directions.last()
            == direction) by {
            if front.contains(direction) {
                let i = choose|i: int| 0 <= i < front.len() && front[i] == direction;
                assert(directions[i] == direction);
            }
            if directions.contains(direction) {
                let i = choose|i: int| 0 <= i < directions.len() && directions[i] == direction;
                if i < front.len() {
                    assert(front[i] == direction);
                }
            }
        }
    }
}

/// No wakeup is missed: if the event loop fires the direction at any point
/// between the first reading of the latch and the second, the check answers
/// `Ready`.
pub proof fn law_no_missed_wakeup(
    source: SourceView,
    direction: Direction,
    waker: Waker,
    early: Seq<Direction>,
    late: Seq<Direction>,
)
    requires
        early.contains(direction) || late.contains(direction),
    ensures
        check_amid(source, direction, waker, early, late).1,
{
    lemma_after_fires(source, early, direction);
    let armed = after_fires(source, early).arm(direction, waker);
    lemma_after_fires(armed, late, direction);
}

/// A check that answers `Pending` leaves the caller's waker in the slot with
/// the latch clear, so the next firing of the direction hands that waker to
/// the event loop.
pub proof fn law_pending_is_armed(
    source: SourceView,
    direction: Direction,
    waker: Waker,
    early: Seq<Direction>,
    late: Seq<Direction>,
)
    requires
        !check_amid(source, direction, waker, early, late).1,
    ensures
        !early.contains(direction) && !late.contains(direction),
        check_amid(source, direction, waker, early, late).0.lane(direction) == (Lane {
            waker: Some(waker),
            triggered: false,
        }),
{
    lemma_after_fires(source, early, direction);
    let armed = after_fires(source, early).arm(direction, waker);
    lemma_after_fires(armed, late, direction);
}

/// A latch that is set stays set over every sequence of steps that does not
/// clear it.
pub proof fn law_latch_persists(source: SourceView, steps: Seq<Step>, direction: Direction)
    requires
        source.lane(direction).triggered,
        forall|i: int| 0 <= i < steps.len() ==> steps[i] != Step::Clear(direction),
    ensures
        after_all(source, steps).lane(direction).triggered,
    decreases steps.len(),
{
    if steps.len() > 0 {
        law_latch_persists(source, steps.drop_last(), direction);
        assert(steps.last() == steps[steps.len() - 1]);
    }
}

/// After the latch was cleared, it stays clear over every sequence of steps
/// in which the event loop does not fire the direction: readiness does not
/// come back by itself.
pub proof fn law_cleared_until_fired(source: SourceView, steps: Seq<Step>, direction: Direction)
    requires
        forall|i: int| 0 <= i < steps.len() ==> steps[i] != Step::Fire(direction),
    ensures
        !after_all(source.clear(direction), steps).lane(direction).triggered,
    decreases steps.len(),
{
    if steps.len() > 0 {
        law_cleared_until_fired(source, steps.drop_last(), direction);
        assert(steps.last() == steps[steps.len() - 1]);
    }
}

/// A waker that is stored stays in its slot over every sequence of steps
/// that neither fires its direction nor arms it anew.
pub proof fn law_waker_retained(
    source: SourceView,
    steps: Seq<Step>,
    direction: Direction,
    waker: Waker,
)
    requires
        source.lane(direction).waker == Some(waker),
        forall|i: int|
            0 <= i < steps.len() ==> steps[i] != Step::Fire(direction) && !(steps[i] is Arm
                && steps[i].direction() == direction),
    ensures
        after_all(source, steps).lane(direction).waker == Some(waker),
    decreases steps.len(),
{
    if steps.len() > 0 {
        law_waker_retained(source, steps.drop_last(), direction, waker);
        assert(steps.last() == steps[steps.len() - 1]);
    }
}

/// The two directions of a source are independent: steps on one direction
/// leave the lane of the other exactly as it was. The token never changes.
pub proof fn law_directions_isolated(source: SourceView, steps: Seq<Step>, direction: Direction)
    requires
        forall|i: int| 0 <= i < steps.len() ==> steps[i].direction() != direction,
    ensures
        after_all(source, steps).lane(direction) == source.lane(direction),
        after_all(source, steps).token == source.token,
    decreases steps.len(),
{
    if steps.len() > 0 {
        law_directions_isolated(source, steps.drop_last(), direction);
        assert(steps.last() == steps[steps.len() - 1]);
    }
}

/// The cycle of a lane. A check with exclusive access leaves a latched lane
/// latched and answers `Ready`; it leaves any other lane armed and answers
/// `Pending`. Firing latches the lane and empties its slot. Clearing is the
/// only way out of the latched phase: it leads to idle if the slot is empty,
/// and to armed if a waker is still stored.
pub proof fn law_phase_cycle(lane: Lane, waker: Waker)
    ensures
        lane.phase() == Phase::Latched <==> lane.triggered,
        Lane::idle().phase() == Phase::Idle,
        lane.phase() != Phase::Latched ==> lane.armed(waker).phase() == Phase::Armed,
        lane.phase() == Phase::Latched ==> lane.armed(waker).phase() == Phase::Latched,
        lane.fired().phase() == Phase::Latched,
        lane.fired().cleared().phase() == Phase::Idle,
        lane.cleared().phase() == if lane.waker is Some {
            Phase::Armed
        } else {
            Phase::Idle
        },
{
}

/// Whether some report of `events` names `token` and reports `direction`.
pub open spec fn reported_for(events: Seq<Event>, token: Token, direction: Direction) -> bool {
    exists|i: int|
        0 <= i < events.len() && (#[trigger] events[i]).token == token && events[i].reports(
            direction,
        )
}

/// Whether delivering `events` to `sources` takes `waker` out of the lane of
/// `direction` of the source under `token`.
pub open spec fn wakes(
    sources: Map<Token, SourceView>,
    events: Seq<Event>,
    token: Token,
    direction: Direction,
    waker: Waker,
) -> bool {
    &&& sources.contains_key(token)
    &&& reported_for(events, token, direction)
    &&& sources[token].lane(direction).waker == Some(waker)
}

/// Event delivery neither adds nor removes a registration, and leaves every
/// source under its token.
pub proof fn law_delivery_keeps_registrations(sources: Map<Token, SourceView>, events: Seq<Event>)
    ensures
        delivered(sources, events).dom() == sources.dom(),
        forall|token: Token| #[trigger]
            sources.contains_key(token) ==> delivered(sources, events)[token].token
                == sources[token].token,
    decreases events.len(),
{
    if events.len() > 0 {
        law_delivery_keeps_registrations(sources, events.drop_last());
        let front = delivered(sources, events.drop_last());
        assert(deliver_one(front, events.last()).dom() =~= front.dom());
    }
}

/// What delivery does to one lane: if some report names the lane, the lane
/// is fired, which sets its latch and empties its slot; if none does, the
/// lane is as it was.
pub proof fn law_delivered_lane(
    sources: Map<Token, SourceView>,
    events: Seq<Event>,
    token: Token,
    direction: Direction,
)
    requires
        sources.contains_key(token),
    ensures
        delivered(sources, events).contains_key(token),
        delivered(sources, events)[token].lane(direction) == if reported_for(
            events,
            token,
            direction,
        ) {
            sources[token].lane(direction).fired()
        } else {
            sources[token].lane(direction)
        },
    decreases events.len(),
{
    law_delivery_keeps_registrations(sources, events);
    assert(delivered(sources, events).dom().contains(token));
    if events.len() > 0 {
        let front = events.drop_last();
        let last = events.last();
        law_delivered_lane(sources, front, token, direction);
        law_delivery_keeps_registrations(sources, front);
        assert(delivered(sources, front).dom().contains(last.token) <==> sources.contains_key(
            last.token,
        ));
        lemma_reported_for_split(events, token, direction);
    }
}

/// A lane is reported by a sequence of events if it is reported by all but
/// the last of them, or by the last.
proof fn lemma_reported_for_split(events: Seq<Event>, token: Token, direction: Direction)
    requires
        events.len() > 0,
    ensures
        reported_for(events, token, direction) <==> reported_for(
            events.drop_last(),
            token,
            direction,
        ) || (events.last().token == token && events.last().reports(direction)),
{
    let front = events.drop_last();
    if reported_for(front, token, direction) {
        let i = choose|i: int|
            0 <= i < front.len() && (#[trigger] front[i]).token == token && front[i].reports(
                direction,
            );
        assert(events[i] == front[i]);
    }
    if events.last().token == token && events.last().reports(direction) {
        assert(events[events.len() - 1] == events.last());
    }
    if reported_for(events, token, direction) {
        let i = choose|i: int|
            0 <= i < events.len() && (#[trigger] events[i]).token == token && events[i].reports(
                direction,
            );
        if i < front.len() {
            assert(front[i] == events[i]);
        }
    }
}

/// The batch of a delivery holds the wakers of the lanes that were armed
/// and are reported, and no others: no armed task misses its wakeup, and no
/// task is woken that no report names.
pub proof fn law_woken_exactly(sources: Map<Token, SourceView>, events: Seq<Event>, waker: Waker)
    ensures
        woken(sources, events).contains(waker) <==> exists|token: Token, direction: Direction|
            wakes(sources, events, token, direction, waker),
    decreases events.len(),
{
    if events.len() == 0 {
        assert(!woken(sources, events).contains(waker));
        assert forall|token: Token, direction: Direction|
            !wakes(sources, events, token, direction, waker) by {}
    } else {
        let front = events.drop_last();
        let last = events.last();
        let mid = delivered(sources, front);
        let tail = taken_by(mid, last);
        law_woken_exactly(sources, front, waker);
        law_delivery_keeps_registrations(sources, front);
        assert(mid.dom().contains(last.token) <==> sources.contains_key(last.token));
        lemma_contains_add(woken(sources, front), tail, waker);
        if sources.contains_key(last.token) {
            law_delivered_lane(sources, front, last.token, Direction::Read);
            law_delivered_lane(sources, front, last.token, Direction::Write);
        }
        assert forall|token: Token, direction: Direction|
            wakes(sources, events, token, direction, waker) <==> wakes(
                sources,
                front,
                token,
                direction,
                waker,
            ) || (sources.contains_key(token) && last.token == token && last.reports(direction)
                && sources[token].lane(direction).waker == Some(waker)) by {
            lemma_reported_for_split(events, token, direction);
        }
        if woken(sources, events).contains(waker) {
            if woken(sources, front).contains(waker) {
                let (token, direction) = choose|token: Token, direction: Direction|
                    wakes(sources, front, token, direction, waker);
                assert(wakes(sources, events, token, direction, waker));
            } else {
                assert(tail.contains(waker));
                let source = mid[last.token];
                if last.readable && source.read.waker == Some(waker) {
                    assert(wakes(sources, events, last.token, Direction::Read, waker));
                } else {
                    assert(last.writable && source.write.waker == Some(waker));
                    assert(wakes(sources, events, last.token, Direction::Write, waker));
                }
            }
        }
        if exists|token: Token, direction: Direction|
            wakes(sources, events, token, direction, waker) {
            let (token, direction) = choose|token: Token, direction: Direction|
                wakes(sources, events, token, direction, waker);
            if wakes(sources, front, token, direction, waker) {
                assert(woken(sources, front).contains(waker));
            } else {
                law_delivered_lane(sources, front, token, direction);
                lemma_reported_for_split(events, token, direction);
                assert(mid[token].lane(direction).waker == Some(waker));
                lemma_taken_contains(mid[token], last.readable, last.writable, direction);
                assert(tail.contains(waker));
            }
        }
    }
}

/// A suspended task is not forgotten: if its waker sits in a lane of a live
/// source and a delivery reports that lane, the batch of that delivery holds
/// the waker, and the lane is latched afterwards, so the retry of the task
/// finds it ready.
pub proof fn law_armed_task_is_woken(
    sources: Map<Token, SourceView>,
    events: Seq<Event>,
    token: Token,
    direction: Direction,
    waker: Waker,
)
    requires
        sources.contains_key(token),
        sources[token].lane(direction).waker == Some(waker),
        reported_for(events, token, direction),
    ensures
        woken(sources, events).contains(waker),
        delivered(sources, events).contains_key(token),
        delivered(sources, events)[token].lane(direction).triggered,
{
    law_woken_exactly(sources, events, waker);
    assert(wakes(sources, events, token, direction, waker));
    law_delivered_lane(sources, events, token, direction);
}

/// A waker is among the items of two sequences joined if it is among the
/// items of either.
proof fn lemma_contains_add(a: Seq<Waker>, b: Seq<Waker>, waker: Waker)
    ensures
        (a + b).contains(waker) <==> a.contains(waker) || b.contains(waker),
{
    if a.contains(waker) {
        let i = choose|i: int| 0 <= i < a.len() && a[i] == waker;
        assert((a + b)[i] == waker);
    }
    if b.contains(waker) {
        let i = choose|i: int| 0 <= i < b.len() && b[i] == waker;
        assert((a + b)[a.len() + i] == waker);
    }
    if (a + b).contains(waker) {
        let i = choose|i: int| 0 <= i < (a + b).len() && (a + b)[i] == waker;
        if i < a.len() {
            assert(a[i] == waker);
        } else {
            assert(b[i - a.len()] == waker);
        }
    }
}

/// An event that reports an armed direction takes that direction's waker.
proof fn lemma_taken_contains(
    source: SourceView,
    readable: bool,
    writable: bool,
    direction: Direction,
)
    requires
        source.lane(direction).waker is Some,
        match direction {
            Direction::Read => readable,
            Direction::Write => writable,
        },
    ensures
        source.taken(readable, writable).contains(source.lane(direction).waker->Some_0),
{
    let taken = source.taken(readable, writable);
    match direction {
        Direction::Read => {
            assert(taken[0] == source.read.waker->Some_0);
        },
        Direction::Write => {
            assert(taken[taken.len() - 1] == source.write.waker->Some_0);
        },
    }
}

/// Removing a registration twice is removing it once.
pub proof fn law_deregister_idempotent(sources: Map<Token, SourceView>, token: Token)
    ensures
        sources.remove(token).remove(token) == sources.remove(token),
        !sources.remove(token).contains_key(token),
{
    assert(sources.remove(token).remove(token) =~= sources.remove(token));
}

/// Once a registration is removed, no delivery finds it: a report for its
/// token changes nothing and wakes nobody, and the table after any delivery
/// is what it would have been with the removal made afterwards.
pub proof fn law_removed_source_unreachable(
    sources: Map<Token, SourceView>,
    token: Token,
    events: Seq<Event>,
)
    ensures
        !delivered(sources.remove(token), events).contains_key(token),
        delivered(sources.remove(token), events) == delivered(sources, events).remove(token),
        (forall|i: int| 0 <= i < events.len() ==> (#[trigger] events[i]).token == token) ==> {
            &&& delivered(sources.remove(token), events) == sources.remove(token)
            &&& woken(sources.remove(token), events) == Seq::<Waker>::empty()
        },
    decreases events.len(),
{
    let removed = sources.remove(token);
    if events.len() > 0 {
        let front = events.drop_last();
        let last = events.last();
        law_removed_source_unreachable(sources, token, front);
        assert(deliver_one(delivered(sources, front).remove(token), last) =~= deliver_one(
            delivered(sources, front),
            last,
        ).remove(token));
        if forall|i: int| 0 <= i < events.len() ==> (#[trigger] events[i]).token == token {
            assert(events[events.len() - 1].token == token);
            assert forall|i: int| 0 <= i < front.len() implies (#[trigger] front[i]).token
                == token by {
                assert(front[i] == events[i]);
            }
            assert(woken(removed, events) =~= Seq::<Waker>::empty());
        }
    } else {
        assert(delivered(sources, events).remove(token) =~= removed);
    }
}

} // verus!
