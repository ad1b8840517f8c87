//! One completion group as a state machine.
//!
//! The handles of a group run on any number of threads, but each of them
//! changes the group in atomic steps only: a read-modify-write of the counter,
//! or a change to the registry under its mutex. So every run of a group is a
//! sequence of such steps, and what holds after every sequence holds of every
//! run. [`Step`] lists the steps, [`next`] says what each does, in the terms
//! in which [`crate::counter`] and [`crate::registry`] state their contracts,
//! and the `law_` functions prove what follows for every sequence.
//!
//! Two calls take two steps each, between which other threads may take
//! theirs: a poll is [`Step::Register`] and then [`Step::Check`], and the drop
//! of the last holder is [`Step::DropHolder`] and then [`Step::WakeAll`].
//!
//! The model leaves out a wait without a slot, which never sleeps. It knows a
//! wait by the identifier of its slot, and a new wait takes an identifier
//! that is neither in use nor retired. Once an identifier of the last version
//! has been freed, that may be one that an earlier wait still carries; the
//! model then follows the new wait.

use crate::counter::{
    spec_acquired, spec_is_complete, spec_released_last, CounterOp, INITIAL,
};
use crate::registry::{registered, retired_after};
use crate::slots::{last_version, lists, SlotId};
use std::task::Waker;
use vstd::prelude::*;

verus! {

/// Where a wait stands.
pub enum Phase {
    /// It has not been polled yet.
    Idle,
    /// A poll has stored this callback and has not read the counter yet.
    Registered(Waker),
    /// The latest poll stored this callback and reported "not yet".
    Pending(Waker),
    /// The latest poll reported completion.
    Ready,
}

/// The state of a group, with the record of what has happened to it.
pub struct State {
    /// The counter.
    pub count: usize,
    /// The registry.
    pub slots: Map<u64, Option<Waker>>,
    /// The identifiers of freed slots that the registry does not take again.
    pub retired: Set<u64>,
    /// The waits that exist, by the identifier of their slot.
    pub waits: Map<u64, Phase>,
    /// The holders made so far, the first one included.
    pub made: nat,
    /// The holders dropped so far.
    pub gone: nat,
    /// Whether a holder has found its release to be the last one and has not
    /// run its wake-all yet.
    pub wake_due: bool,
    /// How many wake-alls have run.
    pub fired: nat,
    /// The callbacks that have been invoked.
    pub woken: Set<Waker>,
}

/// An atomic step of some handle of the group.
pub enum Step {
    /// `Ref::clone`: an `Acquire` on behalf of a new holder.
    CloneHolder,
    /// `Weak::upgrade`: an `Acquire` that makes a holder if it succeeds.
    Upgrade,
    /// The `Release` of a holder that is dropped.
    DropHolder,
    /// The wake-all of the holder whose release was the last.
    WakeAll,
    /// `Waiter::wait`: a new wait takes the slot with this identifier.
    Wait(u64),
    /// The first half of a poll: the wait stores this callback in its slot.
    Register(u64, Waker),
    /// The second half of a poll: the wait reads the counter.
    Check(u64),
    /// The drop of a wait: it frees its slot.
    Cancel(u64),
}

/// The holders that are alive.
pub open spec fn holders(s: State) -> int {
    s.made - s.gone
}

/// The callbacks that a wake-all invokes when it finds these slots.
pub open spec fn callbacks_in(slots: Map<u64, Option<Waker>>) -> Set<Waker> {
    Set::new(|waker: Waker| exists|id: u64| #[trigger] slots.contains_pair(id, Some(waker)))
}

/// The retired identifiers after every slot has been freed. The registry
/// states what they are unless an identifier of the last version is among the
/// slots; for that case the model keeps none, which lets a new wait take any
/// identifier that is not in use.
pub open spec fn retired_after_all(retired: Set<u64>, slots: Map<u64, Option<Waker>>) -> Set<u64> {
    if exists|id: u64| #[trigger] slots.dom().contains(id) && last_version(id) {
        Set::empty()
    } else {
        retired.union(slots.dom())
    }
}

/// A group as `awaitdrop` makes it: one holder, no wait.
pub open spec fn init() -> State {
    State {
        count: INITIAL,
        slots: Map::empty(),
        retired: Set::empty(),
        waits: Map::empty(),
        made: 1,
        gone: 0,
        wake_due: false,
        fired: 0,
        woken: Set::empty(),
    }
}

/// Whether `step` can be the next step of a group in state `s`.
///
/// Only a holder that is alive can be cloned or dropped, only the holder
/// whose release was the last runs the wake-all, a new wait takes a slot that
/// is neither in use nor retired, and only a wait that exists can be polled
/// or dropped; a poll reads the counter after it has stored its callback and
/// before it stores another. Fewer than `usize::MAX` holders are
/// alive at any time.
pub open spec fn enabled(s: State, step: Step) -> bool {
    match step {
        Step::CloneHolder => 0 < holders(s) && holders(s) + 1 < usize::MAX,
        Step::Upgrade => holders(s) + 1 < usize::MAX,
        Step::DropHolder => 0 < holders(s),
        Step::WakeAll => s.wake_due,
        Step::Wait(id) => !s.slots.dom().contains(id) && !s.retired.contains(id),
        Step::Register(id, waker) => s.waits.dom().contains(id) && !(s.waits[id] is Registered),
        Step::Check(id) => s.waits.dom().contains(id) && s.waits[id] is Registered,
        Step::Cancel(id) => s.waits.dom().contains(id),
    }
}

/// The state after `step`.
pub open spec fn next(s: State, step: Step) -> State {
    match step {
        Step::CloneHolder => State {
            count: CounterOp::Acquire.after(s.count),
            made: s.made + 1,
            ..s
        },
        Step::Upgrade => if spec_acquired(CounterOp::Acquire.outcome(s.count)) {
            State { count: CounterOp::Acquire.after(s.count), made: s.made + 1, ..s }
        } else {
            s
        },
        Step::DropHolder => State {
            count: CounterOp::Release.after(s.count),
            gone: s.gone + 1,
            wake_due: s.wake_due || spec_released_last(CounterOp::Release.outcome(s.count)),
            ..s
        },
        Step::WakeAll => State {
            slots: Map::empty(),
            retired: retired_after_all(s.retired, s.slots),
            woken: s.woken.union(callbacks_in(s.slots)),
            wake_due: false,
            fired: s.fired + 1,
            ..s
        },
        Step::Wait(id) => State {
            slots: s.slots.insert(id, None),
            waits: s.waits.insert(id, Phase::Idle),
            ..s
        },
        Step::Register(id, waker) => State {
            slots: registered(s.slots, id, waker),
            waits: s.waits.insert(id, Phase::Registered(waker)),
            ..s
        },
        Step::Check(id) => State {
            waits: s.waits.insert(
                id,
                if spec_is_complete(s.count) {
                    Phase::Ready
                } else {
                    Phase::Pending(s.waits[id]->Registered_0)
                },
            ),
            ..s
        },
        Step::Cancel(id) => State {
            slots: s.slots.remove(id),
            retired: if s.slots.dom().contains(id) && last_version(id) {
                Set::empty()
            } else {
                retired_after(s.retired, s.slots, id)
            },
            waits: s.waits.remove(id),
            ..s
        },
    }
}

/// The state of a new group after `steps`, in order.
pub open spec fn run(steps: Seq<Step>) -> State
    decreases steps.len(),
{
    if steps.len() == 0 {
        init()
    } else {
        next(run(steps.drop_last()), steps.last())
    }
}

/// Whether `steps` is a run of a new group: each step can be taken where it
/// stands.
pub open spec fn valid(steps: Seq<Step>) -> bool
    decreases steps.len(),
{
    steps.len() == 0 || (valid(steps.drop_last()) && enabled(
        run(steps.drop_last()),
        steps.last(),
    ))
}

/// What holds of a group in every state it reaches.
pub open spec fn inv(s: State) -> bool {
    &&& s.gone <= s.made
    &&& holders(s) < usize::MAX
    &&& s.count == holders(s)
    &&& s.fired + (if s.wake_due { 1nat } else { 0nat }) == (if s.count == 0 { 1nat } else { 0nat })
    &&& forall|id: u64| s.fired == 0 && #[trigger] s.waits.dom().contains(id) ==> s.slots.dom().contains(id)
    &&& forall|id: u64|
        s.fired == 0 && #[trigger] s.waits.dom().contains(id) && s.waits[id] is Registered
            ==> s.slots[id] == Some(s.waits[id]->Registered_0)
    &&& forall|id: u64|
        #[trigger] s.waits.dom().contains(id) && s.waits[id] is Pending ==> (s.fired == 0
            && s.slots.dom().contains(id) && s.slots[id] == Some(s.waits[id]->Pending_0))
            || s.woken.contains(s.waits[id]->Pending_0)
}

proof fn lemma_init_holds()
    ensures
        inv(init()),
{
}

proof fn lemma_step_keeps(s: State, step: Step)
    requires
        inv(s),
        enabled(s, step),
    ensures
        inv(next(s, step)),
{
    let t = next(s, step);
    match step {
        Step::WakeAll => {
            assert forall|id: u64| #[trigger]
                t.waits.dom().contains(id) && t.waits[id] is Pending implies t.woken.contains(
                t.waits[id]->Pending_0,
            ) by {
                let waker = s.waits[id]->Pending_0;
                if !s.woken.contains(waker) {
                    assert(s.slots.contains_pair(id, Some(waker)));
                    assert(callbacks_in(s.slots).contains(waker));
                }
            }
        },
        _ => {},
    }
}

/// A run with one more step: the step is taken in the state that the run has
/// reached, and the longer run is a run if the shorter one is and the step
/// can be taken there.
pub proof fn lemma_push(steps: Seq<Step>, step: Step)
    ensures
        run(steps.push(step)) == next(run(steps), step),
        valid(steps.push(step)) <==> valid(steps) && enabled(run(steps), step),
{
    assert(steps.push(step).drop_last() =~= steps);
}

/// Every run of a new group ends in a state of which [`inv`] holds.
pub proof fn lemma_run_holds(steps: Seq<Step>)
    requires
        valid(steps),
    ensures
        inv(run(steps)),
    decreases steps.len(),
{
    if steps.len() == 0 {
        lemma_init_holds();
    } else {
        lemma_run_holds(steps.drop_last());
        lemma_step_keeps(run(steps.drop_last()), steps.last());
    }
}

/// Whether every holder that was made has been dropped.
pub open spec fn completed(s: State) -> bool {
    s.gone == s.made
}

/// The counter counts the holders that are alive, so a group reads as complete
/// exactly when every holder made has been dropped: the first one and each
/// clone and upgrade, in whatever order and on whatever thread they went.
pub proof fn law_complete_iff_all_holders_gone(steps: Seq<Step>)
    requires
        valid(steps),
    ensures
        run(steps).count == run(steps).made - run(steps).gone,
        spec_is_complete(run(steps).count) <==> completed(run(steps)),
{
    lemma_run_holds(steps);
}

/// A poll that reads the counter reports completion if and only if every
/// holder has been dropped by then: never earlier, and always from then on.
pub proof fn law_poll_ready_iff_all_holders_gone(steps: Seq<Step>, id: u64)
    requires
        valid(steps),
        enabled(run(steps), Step::Check(id)),
    ensures
        next(run(steps), Step::Check(id)).waits[id] is Ready <==> completed(run(steps)),
        !(next(run(steps), Step::Check(id)).waits[id] is Ready) ==> next(
            run(steps),
            Step::Check(id),
        ).waits[id] is Pending,
{
    lemma_run_holds(steps);
}

/// A group that has completed stays complete, whatever its handles do next:
/// nothing raises the counter from zero.
pub proof fn law_completion_is_final(steps: Seq<Step>, more: Seq<Step>)
    requires
        valid(steps + more),
        completed(run(steps)),
    ensures
        valid(steps),
        completed(run(steps + more)),
        run(steps + more).count == 0,
        run(steps + more).made == run(steps).made,
    decreases more.len(),
{
    let all = steps + more;
    if more.len() == 0 {
        assert(all =~= steps);
        lemma_run_holds(steps);
    } else {
        assert(all.drop_last() =~= steps + more.drop_last());
        law_completion_is_final(steps, more.drop_last());
        lemma_run_holds(all.drop_last());
    }
}

/// A wait that is made and polled after the group has completed is ready at
/// its first poll, and no callback is invoked for it.
pub proof fn law_wait_after_completion_is_ready(steps: Seq<Step>, id: u64, waker: Waker)
    requires
        valid(steps),
        completed(run(steps)),
        enabled(run(steps), Step::Wait(id)),
    ensures
        valid(steps.push(Step::Wait(id)).push(Step::Register(id, waker)).push(Step::Check(id))),
        run(
            steps.push(Step::Wait(id)).push(Step::Register(id, waker)).push(Step::Check(id)),
        ).waits[id] is Ready,
        run(
            steps.push(Step::Wait(id)).push(Step::Register(id, waker)).push(Step::Check(id)),
        ).woken == run(steps).woken,
{
    let one = steps.push(Step::Wait(id));
    let two = one.push(Step::Register(id, waker));
    lemma_run_holds(steps);
    lemma_push(steps, Step::Wait(id));
    lemma_push(one, Step::Register(id, waker));
    lemma_push(two, Step::Check(id));
}

/// A wait that is made and polled while the last holder is alive reports "not
/// yet"; the drop of that holder then is the last release, its wake-all
/// invokes the callback of that poll, and the next poll is ready.
pub proof fn law_wait_then_dispose_wakes(steps: Seq<Step>, id: u64, waker: Waker, again: Waker)
    requires
        valid(steps),
        holders(run(steps)) == 1,
        enabled(run(steps), Step::Wait(id)),
    ensures
        ({
            let polled = steps.push(Step::Wait(id)).push(Step::Register(id, waker)).push(
                Step::Check(id),
            );
            let dropped = polled.push(Step::DropHolder);
            let woken = dropped.push(Step::WakeAll);
            let repolled = woken.push(Step::Register(id, again)).push(Step::Check(id));
            &&& valid(repolled)
            &&& run(polled).waits[id] == Phase::Pending(waker)
            &&& run(polled).fired == 0 && !run(polled).wake_due
            &&& run(dropped).wake_due
            &&& run(woken).fired == 1
            &&& run(woken).woken.contains(waker)
            &&& run(woken).slots == Map::<u64, Option<Waker>>::empty()
            &&& run(repolled).waits[id] is Ready
        }),
{
    let one = steps.push(Step::Wait(id));
    let two = one.push(Step::Register(id, waker));
    let polled = two.push(Step::Check(id));
    let dropped = polled.push(Step::DropHolder);
    let woken = dropped.push(Step::WakeAll);
    let six = woken.push(Step::Register(id, again));
    lemma_run_holds(steps);
    lemma_push(steps, Step::Wait(id));
    lemma_push(one, Step::Register(id, waker));
    lemma_push(two, Step::Check(id));
    lemma_push(polled, Step::DropHolder);
    lemma_push(dropped, Step::WakeAll);
    assert(run(dropped).slots.contains_pair(id, Some(waker)));
    assert(callbacks_in(run(dropped).slots).contains(waker));
    lemma_push(woken, Step::Register(id, again));
    lemma_push(six, Step::Check(id));
}

/// No wakeup is lost. A wait whose latest poll reported "not yet" either still
/// has the callback of that poll in its slot, with the wake-all yet to come,
/// or that callback has been invoked. Once the wake-all has run, it has been
/// invoked.
pub proof fn law_pending_wait_is_woken(steps: Seq<Step>, id: u64)
    requires
        valid(steps),
        run(steps).waits.dom().contains(id),
        run(steps).waits[id] is Pending,
    ensures
        run(steps).woken.contains(run(steps).waits[id]->Pending_0) || (run(steps).fired == 0
            && run(steps).slots.contains_pair(id, Some(run(steps).waits[id]->Pending_0))),
        run(steps).fired > 0 ==> run(steps).woken.contains(run(steps).waits[id]->Pending_0),
        run(steps).wake_due ==> next(run(steps), Step::WakeAll).woken.contains(
            run(steps).waits[id]->Pending_0,
        ),
{
    lemma_run_holds(steps);
    let s = run(steps);
    let waker = s.waits[id]->Pending_0;
    if s.wake_due && !s.woken.contains(waker) {
        assert(s.slots.contains_pair(id, Some(waker)));
        assert(callbacks_in(s.slots).contains(waker));
    }
}

/// One wake-all per group. None runs or is due while a holder is alive; once
/// the last holder is gone, exactly one is due or has run; none runs twice.
pub proof fn law_one_wake_all(steps: Seq<Step>)
    requires
        valid(steps),
    ensures
        run(steps).fired <= 1,
        !(run(steps).fired == 1 && run(steps).wake_due),
        (run(steps).fired == 1 || run(steps).wake_due) <==> completed(run(steps)),
{
    lemma_run_holds(steps);
}

/// The wake-all leaves the registry empty and invokes every callback that it
/// found there.
pub proof fn law_wake_all_empties(s: State, id: u64, waker: Waker)
    requires
        s.slots.contains_pair(id, Some(waker)),
    ensures
        next(s, Step::WakeAll).slots == Map::<u64, Option<Waker>>::empty(),
        next(s, Step::WakeAll).woken.contains(waker),
{
    assert(callbacks_in(s.slots).contains(waker));
}

/// What `Wakers::drain` hands out holds the callbacks that the wake-all of
/// this model invokes, and no others.
pub proof fn law_drained_entries_hold_the_callbacks(
    entries: Seq<(SlotId, Option<Waker>)>,
    slots: Map<u64, Option<Waker>>,
)
    requires
        lists(entries, slots),
    ensures
        forall|waker: Waker|
            callbacks_in(slots).contains(waker) <==> exists|i: int|
                0 <= i < entries.len() && (#[trigger] entries[i]).1 == Some(waker),
{
    assert forall|waker: Waker| callbacks_in(slots).contains(waker) implies exists|i: int|
        0 <= i < entries.len() && (#[trigger] entries[i]).1 == Some(waker) by {
        let id = choose|id: u64| #[trigger] slots.contains_pair(id, Some(waker));
        assert(slots.dom().contains(id));
        let i = choose|i: int| 0 <= i < entries.len() && (#[trigger] entries[i]).0@ == id;
        assert(slots.contains_pair(entries[i].0@, entries[i].1));
    }
    assert forall|waker: Waker|
        (exists|i: int| 0 <= i < entries.len() && (#[trigger] entries[i]).1 == Some(
            waker,
        )) implies callbacks_in(slots).contains(waker) by {
        let i = choose|i: int| 0 <= i < entries.len() && (#[trigger] entries[i]).1 == Some(waker);
        assert(slots.contains_pair(entries[i].0@, Some(waker)));
    }
}

/// The identifiers that the waits of a run have taken.
pub open spec fn taken(steps: Seq<Step>) -> Set<u64>
    decreases steps.len(),
{
    if steps.len() == 0 {
        Set::empty()
    } else {
        match steps.last() {
            Step::Wait(id) => taken(steps.drop_last()).insert(id),
            _ => taken(steps.drop_last()),
        }
    }
}

/// As long as no identifier of the last version has been taken, the
/// identifiers taken so far are those in use and those retired.
proof fn lemma_taken_are_in_use_or_retired(steps: Seq<Step>)
    requires
        valid(steps),
        forall|id: u64| taken(steps).contains(id) ==> !last_version(id),
    ensures
        taken(steps) =~= run(steps).slots.dom().union(run(steps).retired),
    decreases steps.len(),
{
    if steps.len() > 0 {
        lemma_taken_are_in_use_or_retired(steps.drop_last());
    }
}

/// Every wait gets an identifier of its own: one that no earlier wait of the
/// group has had, whether that wait still exists, was dropped, or lost its
/// slot to the wake-all. This holds as long as no identifier of the last
/// version has been taken, after which the registry starts over with the
/// identifiers of one place.
pub proof fn law_new_wait_takes_a_new_identifier(steps: Seq<Step>, id: u64)
    requires
        valid(steps),
        enabled(run(steps), Step::Wait(id)),
        forall|earlier: u64| taken(steps).contains(earlier) ==> !last_version(earlier),
    ensures
        !taken(steps).contains(id),
{
    lemma_taken_are_in_use_or_retired(steps);
}

/// Dropping a wait touches that wait alone: the counter, the record of
/// holders and wake-alls, and every other wait with its slot stay as they
/// are. So the laws of this module hold of the waits made afterwards as of
/// any other.
pub proof fn law_cancel_touches_one_wait(s: State, id: u64)
    requires
        enabled(s, Step::Cancel(id)),
    ensures
        next(s, Step::Cancel(id)).count == s.count,
        next(s, Step::Cancel(id)).made == s.made,
        next(s, Step::Cancel(id)).gone == s.gone,
        next(s, Step::Cancel(id)).wake_due == s.wake_due,
        next(s, Step::Cancel(id)).fired == s.fired,
        next(s, Step::Cancel(id)).woken == s.woken,
        !next(s, Step::Cancel(id)).slots.dom().contains(id),
        !next(s, Step::Cancel(id)).waits.dom().contains(id),
        forall|other: u64|
            other != id ==> (#[trigger] next(s, Step::Cancel(id)).slots.dom().contains(other)
                <==> s.slots.dom().contains(other)) && next(s, Step::Cancel(id)).slots[other]
                == s.slots[other],
        forall|other: u64|
            other != id ==> (#[trigger] next(s, Step::Cancel(id)).waits.dom().contains(other)
                <==> s.waits.dom().contains(other)) && next(s, Step::Cancel(id)).waits[other]
                == s.waits[other],
{
}

/// An upgrade makes a holder if and only if a holder is alive at that
/// instant; after the last holder is gone it changes nothing.
pub proof fn law_upgrade_iff_alive(steps: Seq<Step>)
    requires
        valid(steps),
        enabled(run(steps), Step::Upgrade),
    ensures
        next(run(steps), Step::Upgrade).made == run(steps).made + 1 <==> !completed(run(steps)),
        completed(run(steps)) ==> next(run(steps), Step::Upgrade) == run(steps),
        !completed(run(steps)) ==> next(run(steps), Step::Upgrade).count == run(steps).count + 1,
{
    lemma_run_holds(steps);
}

} // verus!
