//! The waker registry of a completion group.
//!
//! [`Wakers`] is the registry as a plain value: a map from slot identifier to
//! the callback that the slot holds, if any. Every change to it is stated
//! exactly over that map. [`Registry`] is one [`Wakers`] behind a mutex, as the
//! handles of a group share it. No callback is invoked or dropped while that
//! mutex is held: [`Registry`] carries each one out of the critical section
//! first.

use crate::slots::{
    last_version, lists, slot_contents, slot_retired, slots_drain, slots_get_mut, slots_insert,
    slots_len, slots_new, slots_remove, SlotId, Slots, CAPACITY,
};
use crate::task::wake;
use std::task::Waker;
use vstd::prelude::*;

verus! {

/// The registry after `waker` has been stored under `id`: the slot holds it if
/// the slot is still there, and nothing changes if it is gone.
pub open spec fn registered(
    contents: Map<u64, Option<Waker>>,
    id: u64,
    waker: Waker,
) -> Map<u64, Option<Waker>> {
    if contents.dom().contains(id) {
        contents.insert(id, Some(waker))
    } else {
        contents
    }
}

/// The freed identifiers after slot `id` has been freed: `id` is among them if
/// its slot was in use.
pub open spec fn retired_after(
    retired: Set<u64>,
    contents: Map<u64, Option<Waker>>,
    id: u64,
) -> Set<u64> {
    if contents.dom().contains(id) {
        retired.insert(id)
    } else {
        retired
    }
}

/// The callback of slot `id`, or `None` for a slot that holds none or is not
/// in use.
pub open spec fn callback_of(contents: Map<u64, Option<Waker>>, id: u64) -> Option<Waker> {
    if contents.dom().contains(id) {
        contents[id]
    } else {
        None
    }
}

/// The number of callbacks among `entries`.
pub open spec fn callbacks(entries: Seq<(SlotId, Option<Waker>)>) -> nat
    decreases entries.len(),
{
    if entries.len() == 0 {
        0
    } else {
        callbacks(entries.drop_last()) + if entries.last().1 is Some {
            1nat
        } else {
            0nat
        }
    }
}

/// The slots of pending waits, each with the callback it holds.
pub struct Wakers {
    wakers: Slots,
}

impl View for Wakers {
    type V = Map<u64, Option<Waker>>;

    closed spec fn view(&self) -> Map<u64, Option<Waker>> {
        slot_contents(self.wakers)
    }
}

impl Wakers {
    /// The identifiers of the slots that were freed and are not taken again.
    pub closed spec fn retired(&self) -> Set<u64> {
        slot_retired(self.wakers)
    }

    /// An empty registry.
    pub fn new() -> (wakers: Wakers)
        ensures
            wakers@ == Map::<u64, Option<Waker>>::empty(),
            wakers.retired() == Set::<u64>::empty(),
    {
        Wakers { wakers: slots_new() }
    }

    /// The number of slots in use.
    pub fn len(&self) -> (len: usize)
        ensures
            len == self@.len(),
    {
        slots_len(&self.wakers)
    }

    /// Takes a slot with no callback in it. Its identifier is new: it is not
    /// that of a slot in use, nor of one that was freed.
    pub fn allocate(&mut self) -> (id: SlotId)
        requires
            old(self)@.len() < CAPACITY,
        ensures
            !old(self)@.dom().contains(id@),
            !old(self).retired().contains(id@),
            final(self)@ == old(self)@.insert(id@, None),
            final(self).retired() == old(self).retired(),
    {
        slots_insert(&mut self.wakers, None)
    }

    /// Takes a slot as [`Wakers::allocate`] does, unless [`CAPACITY`] slots
    /// are in use: then it returns `None` and changes nothing.
    pub fn try_allocate(&mut self) -> (slot: Option<SlotId>)
        ensures
            slot is None <==> old(self)@.len() >= CAPACITY,
            slot is None ==> final(self)@ == old(self)@,
            slot matches Some(id) ==> !old(self)@.dom().contains(id@)
                && !old(self).retired().contains(id@)
                && final(self)@ == old(self)@.insert(id@, None),
            final(self).retired() == old(self).retired(),
    {
        if self.len() < CAPACITY {
            Some(self.allocate())
        } else {
            None
        }
    }

    /// Stores `waker` in slot `id`, in place of what the slot held; does
    /// nothing if the slot is no longer in use.
    ///
    /// The result is the callback that is left over: the one that the slot
    /// held before, or `waker` itself where the slot is gone.
    pub fn insert(&mut self, id: SlotId, waker: Waker) -> (displaced: Option<Waker>)
        ensures
            final(self)@ == registered(old(self)@, id@, waker),
            displaced == (if old(self)@.dom().contains(id@) {
                old(self)@[id@]
            } else {
                Some(waker)
            }),
            final(self).retired() == old(self).retired(),
    {
        match slots_get_mut(&mut self.wakers, id) {
            Some(place) => {
                let displaced = place.take();
                *place = Some(waker);
                displaced
            },
            None => Some(waker),
        }
    }

    /// Frees slot `id`, whatever it holds, and returns its callback. Does
    /// nothing if the slot is not in use. A slot that was freed is not taken
    /// again under its identifier, unless that carries the last version.
    pub fn remove(&mut self, id: SlotId) -> (removed: Option<Waker>)
        ensures
            final(self)@ == old(self)@.remove(id@),
            removed == callback_of(old(self)@, id@),
            !(old(self)@.dom().contains(id@) && last_version(id@)) ==> final(self).retired()
                == retired_after(old(self).retired(), old(self)@, id@),
        opens_invariants none
        no_unwind
    {
        match slots_remove(&mut self.wakers, id) {
            Some(callback) => callback,
            None => None,
        }
    }

    /// Empties the registry and returns what was in it: every slot once, with
    /// the callback it held. The slots are freed as by [`Wakers::remove`].
    pub fn drain(&mut self) -> (entries: Vec<(SlotId, Option<Waker>)>)
        ensures
            final(self)@ == Map::<u64, Option<Waker>>::empty(),
            lists(entries@, old(self)@),
            (forall|id: u64| old(self)@.dom().contains(id) ==> !last_version(id))
                ==> final(self).retired() == old(self).retired().union(old(self)@.dom()),
        opens_invariants none
        no_unwind
    {
        slots_drain(&mut self.wakers)
    }
}

impl Default for Wakers {
    /// An empty registry.
    fn default() -> (wakers: Self)
        ensures
            wakers@ == Map::<u64, Option<Waker>>::empty(),
            wakers.retired() == Set::<u64>::empty(),
    {
        Wakers::new()
    }
}

/// `Vec::pop`: takes the last entry off, or returns `None` and changes
/// nothing where there is none. It does not unwind.
#[verifier::external_body]
fn pop_entry(entries: &mut Vec<(SlotId, Option<Waker>)>) -> (last: Option<(SlotId, Option<Waker>)>)
    ensures
        last matches Some(entry) ==> old(entries)@.len() > 0 && entry == old(entries)@.last()
            && final(entries)@ == old(entries)@.drop_last(),
        last is None ==> old(entries)@.len() == 0 && final(entries)@ == old(entries)@,
    opens_invariants none
    no_unwind
{
    entries.pop()
}

/// Invokes every callback among `entries` once, last entry first, and returns
/// how many there were.
pub fn wake_each(entries: Vec<(SlotId, Option<Waker>)>) -> (woken: usize)
    ensures
        woken == callbacks(entries@),
    opens_invariants none
    no_unwind
{
    let ghost all = entries@;
    let mut rest = entries;
    let mut woken: usize = 0;
    assert(all.len() == rest.len());
    loop
        invariant
            woken + callbacks(rest@) == callbacks(all),
            woken + rest@.len() <= all.len(),
            all.len() <= usize::MAX,
        ensures
            woken == callbacks(all),
        decreases rest@.len(),
    {
        match pop_entry(&mut rest) {
            Some((_, Some(waker))) => {
                wake(waker);
                woken = woken + 1;
            },
            Some((_, None)) => {},
            None => {
                break ;
            },
        }
    }
    woken
}

/// The mutex of `lock_api`, which `parking_lot::Mutex` is with the raw mutex
/// of `parking_lot`; without its contents.
#[verifier::external_type_specification]
#[verifier::external_body]
#[verifier::reject_recursive_types(R)]
#[verifier::reject_recursive_types(T)]
pub struct ExMutex<R, T: ?Sized>(parking_lot::lock_api::Mutex<R, T>);

/// `parking_lot::RawMutex`, without its contents.
#[verifier::external_type_specification]
#[verifier::external_body]
pub struct ExRawMutex(parking_lot::RawMutex);

/// A `parking_lot::MutexGuard` over a [`Wakers`]: the mutex is held for as
/// long as this value lives.
#[verifier::external_body]
pub struct Locked<'a> {
    guard: parking_lot::MutexGuard<'a, Wakers>,
}

/// `Mutex::new`: a mutex that is not held, around `wakers`.
#[verifier::external_body]
fn mutex_new(wakers: Wakers) -> (mutex: parking_lot::Mutex<Wakers>) {
    parking_lot::Mutex::new(wakers)
}

/// `Mutex::lock`: waits until the mutex is free and takes it. The mutex of
/// `parking_lot` knows no poisoning, so the call does not fail. It does not
/// return if the calling thread holds the mutex already, which no function of
/// this module does when it calls.
#[verifier::external_body]
fn lock<'a>(mutex: &'a parking_lot::Mutex<Wakers>) -> (guard: Locked<'a>)
    opens_invariants none
    no_unwind
{
    Locked { guard: mutex.lock() }
}

/// The guard's `deref_mut`: the registry that the mutex protects. Other
/// holders of the mutex have changed it at will, so nothing is claimed of
/// what it holds.
#[verifier::external_body]
fn locked<'a, 'b>(guard: &'b mut Locked<'a>) -> (wakers: &'b mut Wakers)
    opens_invariants none
    no_unwind
{
    &mut *guard.guard
}

/// The registry that the handles of one group share.
pub struct Registry {
    slots: parking_lot::Mutex<Wakers>,
    start: Ghost<Map<u64, Option<Waker>>>,
}

impl Registry {
    /// The slots that this registry was made with.
    pub closed spec fn started_with(&self) -> Map<u64, Option<Waker>> {
        self.start@
    }

    /// An empty registry.
    pub fn new() -> (registry: Registry)
        ensures
            registry.started_with() == Map::<u64, Option<Waker>>::empty(),
    {
        let wakers = Wakers::new();
        let ghost start = wakers@;
        Registry { slots: mutex_new(wakers), start: Ghost(start) }
    }

    /// Takes a slot, by [`Wakers::try_allocate`] under the mutex.
    pub fn allocate(&self) -> (slot: Option<SlotId>) {
        let mut guard = lock(&self.slots);
        locked(&mut guard).try_allocate()
    }

    /// Stores `waker` in slot `id`, by [`Wakers::insert`] under the mutex.
    /// The callback that this leaves over is dropped once the mutex is free.
    pub fn insert(&self, id: SlotId, waker: Waker) {
        let _displaced = {
            let mut guard = lock(&self.slots);
            locked(&mut guard).insert(id, waker)
        };
    }

    /// Frees slot `id`, by [`Wakers::remove`] under the mutex. The callback
    /// that the slot held is dropped once the mutex is free.
    pub fn remove(&self, id: SlotId)
        opens_invariants none
        no_unwind
    {
        let _removed = {
            let mut guard = lock(&self.slots);
            locked(&mut guard).remove(id)
        };
    }

    /// Empties the registry, by [`Wakers::drain`] under the mutex, then
    /// invokes every callback that was in it, by [`wake_each`], once the mutex
    /// is free. Returns how many it invoked.
    pub fn wake_all(&self) -> (woken: usize)
        opens_invariants none
        no_unwind
    {
        let entries = {
            let mut guard = lock(&self.slots);
            locked(&mut guard).drain()
        };
        wake_each(entries)
    }
}

} // verus!
