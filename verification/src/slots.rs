//! The slot map that backs the registry, as the `slotmap` crate provides it.
//!
//! A [`Slots`] maps the identifiers it has given out and not yet taken back to
//! an optional waker each. [`slot_contents`] names that mapping, and
//! [`slot_retired`] the identifiers that it has taken back for good; the
//! functions of this module are the calls into the crate, each with what its
//! source shows of the two before and after.

use std::task::Waker;
use vstd::prelude::*;

verus! {

/// The identifier of a slot.
///
/// It is the `slotmap` key as the integer that `KeyData::as_ffi` gives for it.
/// Its view is the identifier under which the slot stands in the contents:
/// the same integer with the lowest bit of the key's version set, which is how
/// `KeyData::from_ffi` reads every integer.
#[derive(Clone, Copy, PartialEq, Eq, Structural, Debug)]
pub struct SlotId {
    raw: u64,
}

impl View for SlotId {
    type V = u64;

    closed spec fn view(&self) -> u64 {
        self.raw | 0x1_0000_0000u64
    }
}

/// A `slotmap::SlotMap` from `DefaultKey` to `Option<Waker>`.
#[verifier::external_body]
pub struct Slots {
    map: slotmap::SlotMap<slotmap::DefaultKey, Option<Waker>>,
}

/// The slots that are in use, by identifier, each with the waker it holds.
pub uninterp spec fn slot_contents(slots: Slots) -> Map<u64, Option<Waker>>;

/// The identifiers that the slot map has taken back and does not give out
/// again: for each place in the map, those of a lower version than the place
/// has now.
pub uninterp spec fn slot_retired(slots: Slots) -> Set<u64>;

/// Whether `id` carries the last version that a place in the map can have.
/// When such an identifier is taken back, the versions of its place start
/// over, and the identifiers that the place has had are given out again.
pub open spec fn last_version(id: u64) -> bool {
    (id >> 32u64) == 0xffff_ffffu64
}

/// The number of slots that a slot map takes: with this many in use,
/// `SlotMap::insert` panics.
pub const CAPACITY: usize = 0xffff_fffe;

/// Whether `entries` lists the slots of `contents`: every slot once, with the
/// waker it holds, and nothing else. The order is open.
pub open spec fn lists(
    entries: Seq<(SlotId, Option<Waker>)>,
    contents: Map<u64, Option<Waker>>,
) -> bool {
    &&& forall|i: int, j: int| 0 <= i < j < entries.len() ==> entries[i].0@ != entries[j].0@
    &&& forall|i: int|
        0 <= i < entries.len() ==> contents.contains_pair(
            (#[trigger] entries[i]).0@,
            entries[i].1,
        )
    &&& forall|id: u64| #[trigger]
        contents.dom().contains(id) ==> exists|i: int|
            0 <= i < entries.len() && (#[trigger] entries[i]).0@ == id
}

/// `SlotMap::new`: a slot map with no slot in use and none taken back.
#[verifier::external_body]
pub(crate) fn slots_new() -> (slots: Slots)
    ensures
        slot_contents(slots) =~= Map::empty(),
        slot_retired(slots) =~= Set::empty(),
{
    Slots { map: slotmap::SlotMap::new() }
}

/// `SlotMap::len`: the number of slots in use.
#[verifier::external_body]
pub(crate) fn slots_len(slots: &Slots) -> (len: usize)
    ensures
        len == slot_contents(*slots).len(),
{
    slots.map.len()
}

/// `SlotMap::insert`: takes a slot that was not in use, stores `held` in it
/// and returns its key. The key is of a higher version than any that the
/// place has had, so it is none of those taken back; taking a slot takes
/// none back.
///
/// The call panics where [`CAPACITY`] slots are in use, which `requires`
/// leaves out.
#[verifier::external_body]
pub(crate) fn slots_insert(slots: &mut Slots, held: Option<Waker>) -> (id: SlotId)
    requires
        slot_contents(*old(slots)).len() < CAPACITY,
    ensures
        !slot_contents(*old(slots)).dom().contains(id@),
        !slot_retired(*old(slots)).contains(id@),
        slot_contents(*final(slots)) == slot_contents(*old(slots)).insert(id@, held),
        slot_retired(*final(slots)) == slot_retired(*old(slots)),
{
    SlotId { raw: slotmap::Key::data(&slots.map.insert(held)).as_ffi() }
}

/// `SlotMap::get_mut`: the place of the waker of slot `id`, or `None` where
/// that slot is not in use. What the caller leaves in the place is what the
/// slot holds afterwards; no other slot changes, and none is taken back.
#[verifier::external_body]
pub(crate) fn slots_get_mut(slots: &mut Slots, id: SlotId) -> (place: Option<&mut Option<Waker>>)
    ensures
        place matches Some(held) ==> slot_contents(*old(slots)).dom().contains(id@) && *held
            == slot_contents(*old(slots))[id@] && slot_contents(*final(slots)) == slot_contents(
            *old(slots),
        ).insert(id@, *final(held)),
        place is None ==> !slot_contents(*old(slots)).dom().contains(id@) && slot_contents(
            *final(slots),
        ) == slot_contents(*old(slots)),
        slot_retired(*final(slots)) == slot_retired(*old(slots)),
{
    slots.map.get_mut(slotmap::DefaultKey::from(slotmap::KeyData::from_ffi(id.raw)))
}

/// `SlotMap::remove`: frees slot `id` and returns what it held, or returns
/// `None` and changes nothing where that slot is not in use. No other slot
/// changes. The place moves on to its next version, so `id` is taken back for
/// good, unless it carries the last version.
#[verifier::external_body]
pub(crate) fn slots_remove(slots: &mut Slots, id: SlotId) -> (held: Option<Option<Waker>>)
    ensures
        slot_contents(*final(slots)) == slot_contents(*old(slots)).remove(id@),
        held == (if slot_contents(*old(slots)).dom().contains(id@) {
            Some(slot_contents(*old(slots))[id@])
        } else {
            None
        }),
        slot_contents(*old(slots)).dom().contains(id@) && !last_version(id@) ==> slot_retired(
            *final(slots),
        ) == slot_retired(*old(slots)).insert(id@),
        !slot_contents(*old(slots)).dom().contains(id@) ==> slot_retired(*final(slots))
            == slot_retired(*old(slots)),
    opens_invariants none
    no_unwind
{
    slots.map.remove(slotmap::DefaultKey::from(slotmap::KeyData::from_ffi(id.raw)))
}

/// `SlotMap::drain`, run to its end: frees every slot, as `remove` would, and
/// returns what was in use, each slot once, in an order that the crate leaves
/// open. Every identifier that was in use is taken back for good, unless one
/// of them carries the last version.
#[verifier::external_body]
pub(crate) fn slots_drain(slots: &mut Slots) -> (entries: Vec<(SlotId, Option<Waker>)>)
    ensures
        slot_contents(*final(slots)) =~= Map::empty(),
        lists(entries@, slot_contents(*old(slots))),
        (forall|id: u64| slot_contents(*old(slots)).dom().contains(id) ==> !last_version(id))
            ==> slot_retired(*final(slots)) == slot_retired(*old(slots)).union(
            slot_contents(*old(slots)).dom(),
        ),
    opens_invariants none
    no_unwind
{
    slots.map
        .drain()
        .map(|(key, held)| (SlotId { raw: slotmap::Key::data(&key).as_ffi() }, held))
        .collect()
}

} // verus!
