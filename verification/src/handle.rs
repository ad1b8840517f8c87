//! The handles of a completion group.
//!
//! Every handle holds the same [`Group`]: the counter of live holders and the
//! registry of pending waits. A [`Ref`] is a live holder. A [`Weak`] and a
//! [`Waiter`] hold the group without counting, and a [`WaitFuture`] is one
//! pending wait with its slot in the registry.
//!
//! What a call finds in the group depends on what other threads have done to
//! it, so the contracts here say which group a result belongs to, and the
//! functions of [`crate::counter`] and [`crate::registry`] say what each step
//! does to each state it may meet. [`crate::protocol`] puts the steps together.

use crate::counter::{
    acquired, is_complete, released_last, spec_acquired, spec_is_complete, spec_released_last,
    Counter, Outcome,
};
use crate::protocol::init;
use crate::registry::Registry;
use crate::slots::SlotId;
use std::pin::Pin;
use std::sync::Arc;
use std::task::{Context, Poll, Waker};
use vstd::prelude::*;

verus! {

/// What the handles of one completion group share.
pub struct Group {
    count: Counter,
    registry: Registry,
}

impl Group {
    /// The value that the counter of this group was made with.
    pub closed spec fn started_at(&self) -> usize {
        self.count.started_at()
    }

    /// The slots that the registry of this group was made with.
    pub closed spec fn started_with(&self) -> Map<u64, Option<Waker>> {
        self.registry.started_with()
    }
}

/// A reference whose drop can be awaited.
///
/// When cloned, creates a new reference attached to the same [`Waiter`].
///
/// The drop of the last reference invokes the callbacks of the waits that are
/// pending, and the drop of a [`WaitFuture`] drops the callback it has
/// stored. A callback is taken not to unwind when it is invoked or dropped:
/// one that panics panics out of that drop.
pub struct Ref {
    shared: Arc<Group>,
}

/// A handle that does not keep its group from completing, and that becomes a
/// [`Ref`] again for as long as the group has not completed.
pub struct Weak {
    shared: Arc<Group>,
}

/// An awaitable handle to some number of references that will eventually be
/// dropped.
pub struct Waiter {
    shared: Arc<Group>,
}

/// The future returned from [`Waiter::wait`].
///
/// Resolves when all connected [`Ref`]s have been dropped.
pub struct WaitFuture {
    shared: Arc<Group>,
    slot: Option<SlotId>,
}

/// Create a new [`Ref`] and [`Waiter`].
///
/// The [`Waiter`] will resolve when the [`Ref`] and all clones of it have been
/// dropped. The two belong to one group, which no earlier call has made: its
/// counter stands at one and its registry is empty.
pub fn awaitdrop() -> (pair: (Ref, Waiter))
    ensures
        pair.0.group() == pair.1.group(),
        pair.0.group().started_at() == init().count,
        pair.0.group().started_with() == init().slots,
{
    let shared = Arc::new(Group { count: Counter::new(), registry: Registry::new() });
    let wait = Waiter { shared: shared.clone() };
    (Ref { shared }, wait)
}

impl Ref {
    /// The group that this holder keeps from completing.
    pub closed spec fn group(&self) -> Group {
        *self.shared
    }

    /// The second half of the drop of a holder: what it does once its
    /// `Release` has met `outcome`. If that release was the last, it wakes
    /// every pending wait of the group and returns how many callbacks it
    /// invoked; otherwise it does nothing and returns `None`.
    ///
    /// Called with an outcome that no `Release` of this group gave, it may
    /// run a wake-all while holders are alive. The waits that it wakes find
    /// the group incomplete and their slots gone, so that nothing wakes them
    /// when the group does complete.
    pub fn released(&self, outcome: Outcome) -> (woken: Option<usize>)
        ensures
            woken is Some <==> spec_released_last(outcome),
        opens_invariants none
        no_unwind
    {
        if released_last(outcome) {
            Some(self.shared.registry.wake_all())
        } else {
            None
        }
    }

    /// Get a new [`Weak`] that doesn't contribute to the ref count.
    pub fn downgrade(&self) -> (weak: Weak)
        ensures
            weak.group() == self.group(),
    {
        Weak { shared: self.shared.clone() }
    }
}

impl Clone for Ref {
    /// One more holder of the same group: the counter takes an `Acquire`,
    /// which succeeds because this holder is alive. Nothing is decided on its
    /// outcome: the result is a holder of this group whatever it met.
    fn clone(&self) -> (copy: Self)
        ensures
            copy.group() == self.group(),
    {
        let _outcome: Outcome = self.shared.count.acquire();
        Ref { shared: self.shared.clone() }
    }
}

impl Drop for Ref {
    /// One holder fewer: the counter takes a `Release`, and [`Ref::released`]
    /// does what its outcome asks for. The handle itself stays as it is until
    /// it is gone.
    fn drop(&mut self)
        ensures
            final(self).group() == old(self).group(),
        opens_invariants none
        no_unwind
    {
        let _woken: Option<usize> = self.released(self.shared.count.release());
    }
}

impl Weak {
    /// The group that this handle observes.
    pub closed spec fn group(&self) -> Group {
        *self.shared
    }

    /// Attempt to upgrade to a strong [`Ref`].
    ///
    /// The counter takes an `Acquire`. It succeeds if and only if it meets a
    /// counter above zero, and the result is a holder of this group then and
    /// `None` otherwise.
    pub fn upgrade(&self) -> (holder: Option<Ref>)
        ensures
            holder matches Some(made) ==> made.group() == self.group(),
    {
        self.upgraded(self.shared.count.acquire())
    }

    /// The second half of [`Weak::upgrade`]: what it returns once its
    /// `Acquire` has met `outcome`. That is a holder of this group if the
    /// `Acquire` made one, which it did exactly if it met a counter above
    /// zero, and `None` otherwise.
    ///
    /// The holder stands for the one that the `Acquire` put on the counter.
    /// Called with an outcome that no `Acquire` on this group gave, it makes
    /// a holder whose drop takes off what nobody put on.
    pub fn upgraded(&self, outcome: Outcome) -> (holder: Option<Ref>)
        ensures
            holder is Some <==> spec_acquired(outcome),
            holder matches Some(made) ==> made.group() == self.group(),
    {
        if acquired(outcome) {
            Some(Ref { shared: self.shared.clone() })
        } else {
            None
        }
    }
}

impl Clone for Weak {
    fn clone(&self) -> (copy: Self)
        ensures
            copy.group() == self.group(),
    {
        Weak { shared: self.shared.clone() }
    }
}

impl Waiter {
    /// The group whose completion this handle waits for.
    pub closed spec fn group(&self) -> Group {
        *self.shared
    }

    /// Wait for all connected [`Ref`]s to be dropped.
    ///
    /// The wait takes a slot of its own in the registry. Where the registry
    /// has none left, the wait goes without: it then asks to be polled again
    /// at once instead of leaving a callback.
    pub fn wait(&self) -> (future: WaitFuture)
        ensures
            future.group() == self.group(),
    {
        self.wait_at(self.shared.registry.allocate())
    }

    /// The second half of [`Waiter::wait`]: the wait of this group that keeps
    /// its callback in `slot`, or that goes without a slot.
    ///
    /// The wait gives the slot back when it is dropped, so the slot is to be
    /// one that the registry of this group has handed out for it.
    pub fn wait_at(&self, slot: Option<SlotId>) -> (future: WaitFuture)
        ensures
            future.group() == self.group(),
            future.slot() == slot,
    {
        WaitFuture { shared: self.shared.clone(), slot }
    }
}

impl Clone for Waiter {
    fn clone(&self) -> (copy: Self)
        ensures
            copy.group() == self.group(),
    {
        Waiter { shared: self.shared.clone() }
    }
}

impl std::future::IntoFuture for Waiter {
    type IntoFuture = WaitFuture;

    type Output = ();

    /// The same as one call of [`Waiter::wait`]: the wait is for the group
    /// of this handle.
    fn into_future(self) -> (future: WaitFuture)
        ensures
            future.group() == self.group(),
    {
        self.wait()
    }
}

impl WaitFuture {
    /// The group whose completion this wait is for.
    pub closed spec fn group(&self) -> Group {
        *self.shared
    }

    /// The slot in which this wait keeps its callback, if it has one.
    pub closed spec fn slot(&self) -> Option<SlotId> {
        self.slot
    }

    /// One poll on behalf of the task that `waker` wakes.
    ///
    /// First the callback is left for the holder that completes the group: a
    /// clone of `waker` goes into this wait's slot, in place of what an
    /// earlier poll stored. Only then is the counter read, and [`readiness`]
    /// of the count is the result: ready if it reads zero and pending
    /// otherwise. A wait without a slot leaves no callback: it reads the
    /// counter and, where the poll is pending, invokes `waker` to be polled
    /// again. The wait itself keeps its group and its slot, so it may be
    /// polled again, also after it was ready.
    pub fn poll_with(&mut self, waker: &Waker) -> (poll: Poll<()>)
        ensures
            *final(self) == *old(self),
    {
        match self.slot {
            Some(id) => {
                self.shared.registry.insert(id, waker.clone());
                readiness(self.shared.count.read())
            },
            None => {
                let poll = readiness(self.shared.count.read());
                match poll {
                    Poll::Pending => waker.wake_by_ref(),
                    Poll::Ready(_) => {},
                }
                poll
            },
        }
    }
}

/// What a poll reports once it has read `count` off the counter: completion
/// if no holder was alive, and "not yet" otherwise.
pub fn readiness(count: usize) -> (poll: Poll<()>)
    ensures
        poll is Ready <==> spec_is_complete(count),
        poll is Pending <==> !spec_is_complete(count),
{
    if is_complete(count) {
        Poll::Ready(())
    } else {
        Poll::Pending
    }
}

impl Drop for WaitFuture {
    /// Gives the slot back, with whatever callback it holds. The wait itself
    /// stays as it is until it is gone.
    fn drop(&mut self)
        ensures
            *final(self) == *old(self),
        opens_invariants none
        no_unwind
    {
        match self.slot {
            Some(id) => self.shared.registry.remove(id),
            None => {},
        }
    }
}

/// `Pin::get_mut`: the future behind the pin. A [`WaitFuture`] may move, so
/// std offers this to every caller.
#[verifier::external_body]
fn unpinned<'a>(pinned: Pin<&'a mut WaitFuture>) -> (future: &'a mut WaitFuture) {
    pinned.get_mut()
}

impl std::future::Future for WaitFuture {
    type Output = ();

    /// [`WaitFuture::poll_with`], with the waker of `cx`.
    fn poll(self: Pin<&mut Self>, cx: &mut Context<'_>) -> (poll: Poll<()>) {
        let future = unpinned(self);
        future.poll_with(cx.waker())
    }
}

} // verus!
