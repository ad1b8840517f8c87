//! The liveness counter of a completion group.
//!
//! The counter holds the number of live holders. It changes in two ways only,
//! [`CounterOp::Acquire`] and [`CounterOp::Release`], and each change is one
//! atomic read-modify-write whose new value [`CounterOp::step`] determines
//! from the value it replaces. Nothing ever raises the counter from zero, and
//! a counter that has reached `usize::MAX` stays there for good.

use std::sync::atomic::AtomicUsize;
use vstd::prelude::*;

verus! {

/// A change to the number of live holders.
#[derive(Clone, Copy, PartialEq, Eq, Structural, Debug)]
pub enum CounterOp {
    /// One more holder, provided that one is still alive.
    Acquire,
    /// One holder fewer.
    Release,
}

impl CounterOp {
    /// The value that this operation stores when it finds `cur`, or `None`
    /// where it leaves the counter as it is.
    ///
    /// `Acquire` fails on zero: a group that has completed stays complete.
    /// At `usize::MAX` the counter no longer tells how many holders there
    /// are, so `Acquire` keeps it there and `Release` does not touch it.
    pub open spec fn step(self, cur: usize) -> Option<usize> {
        match self {
            CounterOp::Acquire => if cur == 0 {
                None
            } else if cur == usize::MAX {
                Some(cur)
            } else {
                Some((cur + 1) as usize)
            },
            CounterOp::Release => if cur == 0 || cur == usize::MAX {
                None
            } else {
                Some((cur - 1) as usize)
            },
        }
    }

    /// The counter after this operation has met `cur`.
    pub open spec fn after(self, cur: usize) -> usize {
        match self.step(cur) {
            Some(next) => next,
            None => cur,
        }
    }

    /// What the atomic operation reports when it finds `cur`: `Ok(cur)` where
    /// it stores a value, `Err(cur)` where it leaves the counter as it is.
    pub open spec fn outcome(self, cur: usize) -> Outcome {
        if self.step(cur) is Some {
            Ok(cur)
        } else {
            Err(cur)
        }
    }

    /// Computes [`CounterOp::step`].
    pub fn apply(self, cur: usize) -> (next: Option<usize>)
        ensures
            next == self.step(cur),
    {
        match self {
            CounterOp::Acquire => if cur == 0 {
                None
            } else if cur == usize::MAX {
                Some(cur)
            } else {
                Some(cur + 1)
            },
            CounterOp::Release => if cur == 0 || cur == usize::MAX {
                None
            } else {
                Some(cur - 1)
            },
        }
    }
}

/// The counter of a new group: one holder is alive.
pub const INITIAL: usize = 1;

/// What an atomic [`CounterOp`] reports: `Ok` with the value it replaced, or
/// `Err` with the value it found and left alone.
pub type Outcome = Result<usize, usize>;

/// Whether an `Acquire` with this outcome made a new holder.
pub open spec fn spec_acquired(outcome: Outcome) -> bool {
    outcome is Ok
}

/// Whether a `Release` with this outcome was the one that completed the
/// group: it replaced the value one.
pub open spec fn spec_released_last(outcome: Outcome) -> bool {
    outcome == Ok::<usize, usize>(1)
}

/// Whether a counter read as `count` belongs to a completed group.
pub open spec fn spec_is_complete(count: usize) -> bool {
    count == 0
}

/// Computes [`spec_acquired`].
#[verifier::when_used_as_spec(spec_acquired)]
pub fn acquired(outcome: Outcome) -> (made: bool)
    ensures
        made == spec_acquired(outcome),
{
    outcome.is_ok()
}

/// Computes [`spec_released_last`].
#[verifier::when_used_as_spec(spec_released_last)]
pub fn released_last(outcome: Outcome) -> (last: bool)
    ensures
        last == spec_released_last(outcome),
    opens_invariants none
    no_unwind
{
    match outcome {
        Ok(prev) => prev == 1,
        Err(_) => false,
    }
}

/// Computes [`spec_is_complete`].
#[verifier::when_used_as_spec(spec_is_complete)]
pub fn is_complete(count: usize) -> (done: bool)
    ensures
        done == spec_is_complete(count),
{
    count == 0
}

/// `AtomicUsize::fetch_update`, with sequentially consistent ordering and
/// [`CounterOp::apply`] as the update: the closure does nothing else.
///
/// As std documents it, the result is `Ok` with the previous value where the
/// update gave `Some`, and `Err` with the previous value where it gave `None`;
/// the value is replaced in the first case only. Neither that loop nor the
/// closure can panic.
#[verifier::external_body]
fn fetch_update(strong: &AtomicUsize, op: CounterOp) -> (outcome: Outcome)
    ensures
        outcome matches Ok(prev) ==> op.step(prev) is Some,
        outcome matches Err(prev) ==> op.step(prev) is None,
    opens_invariants none
    no_unwind
{
    strong.fetch_update(
        std::sync::atomic::Ordering::SeqCst,
        std::sync::atomic::Ordering::SeqCst,
        |cur| op.apply(cur),
    )
}

/// The shared count of live holders of one group.
pub struct Counter {
    strong: AtomicUsize,
    start: Ghost<usize>,
}

impl Counter {
    /// The value that this counter was made with.
    pub closed spec fn started_at(&self) -> usize {
        self.start@
    }

    /// A counter for a group with one live holder: it starts at [`INITIAL`].
    pub fn new() -> (counter: Counter)
        ensures
            counter.started_at() == INITIAL,
    {
        let start: usize = INITIAL;
        Counter { strong: AtomicUsize::new(start), start: Ghost(start) }
    }

    /// Applies `Acquire` atomically and returns what it met.
    ///
    /// The counter is shared, so the value that the operation meets is not
    /// known beforehand. Whatever it is, the operation did to it what
    /// [`CounterOp::step`] says of `Acquire`: [`acquired`] tells from the
    /// outcome whether a holder was made.
    pub fn acquire(&self) -> (outcome: Outcome)
        ensures
            outcome matches Ok(prev) ==> CounterOp::Acquire.step(prev) is Some,
            outcome matches Err(prev) ==> CounterOp::Acquire.step(prev) is None,
    {
        fetch_update(&self.strong, CounterOp::Acquire)
    }

    /// Applies `Release` atomically and returns what it met.
    ///
    /// Reading and writing are one atomic step, so of all the releases that
    /// run at once exactly one meets the value one: [`released_last`] tells
    /// from the outcome whether this was the one.
    pub fn release(&self) -> (outcome: Outcome)
        ensures
            outcome matches Ok(prev) ==> CounterOp::Release.step(prev) is Some,
            outcome matches Err(prev) ==> CounterOp::Release.step(prev) is None,
        opens_invariants none
        no_unwind
    {
        fetch_update(&self.strong, CounterOp::Release)
    }

    /// Reads the counter. [`is_complete`] tells from the count whether the
    /// group was complete at that instant.
    pub fn read(&self) -> (count: usize) {
        self.strong.load(std::sync::atomic::Ordering::SeqCst)
    }
}

} // verus!
