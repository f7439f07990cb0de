//! What the reactor relies on from `std::task`.
//!
//! A waker is opaque to the verifier. In contracts a `Waker` value stands for
//! the task it wakes: two wakers are the same value when waking either one
//! resumes the same task. What is said below of `Waker`'s methods is taken
//! from their documentation in std and is believed, not proved.

use std::task::Waker;
use vstd::prelude::*;

verus! {

/// Makes `std::task::Waker` known to the verifier as an opaque type.
#[verifier::external_type_specification]
#[verifier::external_body]
pub struct ExWaker(std::task::Waker);

/// Makes `std::task::Poll` known to the verifier, with its two variants.
#[verifier::external_type_specification]
#[verifier::reject_recursive_types(T)]
pub struct ExPoll<T>(std::task::Poll<T>);

/// `Waker::clone`: std asks of every waker that waking its clone wakes the
/// task that the waker itself would have woken, so in contracts the clone is
/// the same value.
pub assume_specification[ <std::task::Waker as Clone>::clone ](waker: &Waker) -> (copy: Waker)
    ensures
        copy == *waker,
;

/// `Waker::will_wake`: a `true` answer guarantees that both wakers wake the
/// same task, so in contracts they are then the same value. A `false` answer
/// guarantees nothing: std compares on a best-effort basis and may say
/// `false` of two wakers of one task.
pub assume_specification[ std::task::Waker::will_wake ](waker: &Waker, other: &Waker) -> (same:
    bool)
    ensures
        same ==> *waker == *other,
;

/// `Waker::wake`: consumes the waker. Its effect lies with the scheduler of
/// the task, outside this crate, so nothing is stated of it.
pub assume_specification[ std::task::Waker::wake ](waker: Waker)
;

/// Invokes every waker of `batch`, first to last.
///
/// This is the last act of an event-loop turn. Waking a task may lead it
/// straight back into the reactor, so the caller must have let go of every
/// lock on reactor state before it calls this. What waking does is up to the
/// scheduler of each task; no contract here can speak of it.
pub fn wake_all(batch: Vec<Waker>) {
    for waker in batch {
        waker.wake();
    }
}

} // verus!
