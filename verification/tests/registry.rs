use awaitdrop::registry::{wake_each, Registry, Wakers};
use awaitdrop::slots::{SlotId, CAPACITY};
use std::sync::atomic::{AtomicUsize, Ordering};
use std::sync::Arc;
use std::task::{Wake, Waker};

struct Calls(AtomicUsize);

impl Wake for Calls {
    fn wake(self: Arc<Self>) {
        self.0.fetch_add(1, Ordering::SeqCst);
    }
}

fn callback() -> (Arc<Calls>, Waker) {
    let calls = Arc::new(Calls(AtomicUsize::new(0)));
    (calls.clone(), Waker::from(calls))
}

fn count(calls: &Arc<Calls>) -> usize {
    calls.0.load(Ordering::SeqCst)
}

#[test]
fn capacity_is_what_the_slot_map_takes() {
    assert_eq!(CAPACITY, 4294967294);
}

#[test]
fn new_registry_is_empty() {
    let mut wakers = Wakers::new();
    assert_eq!(wakers.len(), 0);
    assert!(wakers.drain().is_empty());
}

#[test]
fn allocate_gives_slots_that_differ() {
    let mut wakers = Wakers::new();
    let a = wakers.allocate();
    let b = wakers.allocate();
    let c = wakers.try_allocate().unwrap();
    assert_ne!(a, b);
    assert_ne!(a, c);
    assert_ne!(b, c);
    assert_eq!(wakers.len(), 3);
}

#[test]
fn allocated_slot_holds_no_callback() {
    let mut wakers = Wakers::new();
    let a = wakers.allocate();
    assert!(wakers.remove(a).is_none());
    assert_eq!(wakers.len(), 0);
}

#[test]
fn insert_stores_the_callback() {
    let mut wakers = Wakers::new();
    let a = wakers.allocate();
    let (calls, waker) = callback();
    assert!(wakers.insert(a, waker).is_none());
    assert_eq!(wakers.len(), 1);
    let held = wakers.remove(a).unwrap();
    held.wake();
    assert_eq!(count(&calls), 1);
}

#[test]
fn insert_displaces_the_earlier_callback() {
    let mut wakers = Wakers::new();
    let a = wakers.allocate();
    let (first, first_waker) = callback();
    let (second, second_waker) = callback();
    assert!(wakers.insert(a, first_waker).is_none());
    let displaced = wakers.insert(a, second_waker).unwrap();
    displaced.wake();
    assert_eq!(count(&first), 1);
    assert_eq!(count(&second), 0);
    assert_eq!(wakers.len(), 1);
    wakers.remove(a).unwrap().wake();
    assert_eq!(count(&first), 1);
    assert_eq!(count(&second), 1);
}

#[test]
fn insert_into_a_freed_slot_does_nothing() {
    let mut wakers = Wakers::new();
    let a = wakers.allocate();
    let b = wakers.allocate();
    assert!(wakers.remove(a).is_none());
    let (calls, waker) = callback();
    let left_over = wakers.insert(a, waker).unwrap();
    left_over.wake();
    assert_eq!(count(&calls), 1);
    assert_eq!(wakers.len(), 1);
    assert!(wakers.remove(b).is_none());
    assert_eq!(wakers.len(), 0);
}

#[test]
fn insert_leaves_other_slots_alone() {
    let mut wakers = Wakers::new();
    let a = wakers.allocate();
    let b = wakers.allocate();
    let (first, first_waker) = callback();
    let (second, second_waker) = callback();
    assert!(wakers.insert(a, first_waker).is_none());
    assert!(wakers.insert(b, second_waker).is_none());
    wakers.remove(a).unwrap().wake();
    assert_eq!(count(&first), 1);
    assert_eq!(count(&second), 0);
    wakers.remove(b).unwrap().wake();
    assert_eq!(count(&second), 1);
}

#[test]
fn remove_twice_is_harmless() {
    let mut wakers = Wakers::new();
    let a = wakers.allocate();
    let (_calls, waker) = callback();
    assert!(wakers.insert(a, waker).is_none());
    assert!(wakers.remove(a).is_some());
    assert!(wakers.remove(a).is_none());
    assert_eq!(wakers.len(), 0);
}

#[test]
fn a_freed_slot_does_not_come_back_under_its_old_name() {
    let mut wakers = Wakers::new();
    let a = wakers.allocate();
    assert!(wakers.remove(a).is_none());
    let b = wakers.allocate();
    assert_ne!(a, b);
    let (_calls, waker) = callback();
    assert!(wakers.insert(a, waker).is_some());
    assert!(wakers.remove(a).is_none());
    assert_eq!(wakers.len(), 1);
}

#[test]
fn drain_hands_out_every_slot_once() {
    let mut wakers = Wakers::new();
    let a = wakers.allocate();
    let b = wakers.allocate();
    let c = wakers.allocate();
    let (_first, first_waker) = callback();
    let (_second, second_waker) = callback();
    assert!(wakers.insert(a, first_waker).is_none());
    assert!(wakers.insert(c, second_waker).is_none());
    let entries = wakers.drain();
    assert_eq!(wakers.len(), 0);
    assert_eq!(entries.len(), 3);
    let ids: Vec<SlotId> = entries.iter().map(|entry| entry.0).collect();
    assert!(ids.contains(&a));
    assert!(ids.contains(&b));
    assert!(ids.contains(&c));
    for (id, held) in entries.iter() {
        assert_eq!(held.is_some(), *id != b);
    }
}

#[test]
fn drained_slots_stay_out_of_use() {
    let mut wakers = Wakers::new();
    let a = wakers.allocate();
    let entries = wakers.drain();
    assert_eq!(entries.len(), 1);
    let b = wakers.allocate();
    assert_ne!(a, b);
    let (_calls, waker) = callback();
    assert!(wakers.insert(a, waker).is_some());
    assert!(wakers.remove(a).is_none());
    assert_eq!(wakers.len(), 1);
}

#[test]
fn wake_each_invokes_every_callback_once() {
    let mut wakers = Wakers::new();
    let a = wakers.allocate();
    let _b = wakers.allocate();
    let c = wakers.allocate();
    let (first, first_waker) = callback();
    let (second, second_waker) = callback();
    assert!(wakers.insert(a, first_waker).is_none());
    assert!(wakers.insert(c, second_waker).is_none());
    assert_eq!(wake_each(wakers.drain()), 2);
    assert_eq!(count(&first), 1);
    assert_eq!(count(&second), 1);
}

#[test]
fn wake_each_of_nothing() {
    assert_eq!(wake_each(Vec::new()), 0);
    let mut wakers = Wakers::new();
    let _a = wakers.allocate();
    assert_eq!(wake_each(wakers.drain()), 0);
}

#[test]
fn shared_registry_wakes_and_empties() {
    let registry = Registry::new();
    let a = registry.allocate().unwrap();
    let b = registry.allocate().unwrap();
    assert_ne!(a, b);
    let (first, first_waker) = callback();
    let (second, second_waker) = callback();
    registry.insert(a, first_waker);
    registry.insert(b, second_waker);
    assert_eq!(registry.wake_all(), 2);
    assert_eq!(count(&first), 1);
    assert_eq!(count(&second), 1);
    assert_eq!(registry.wake_all(), 0);
    assert_eq!(count(&first), 1);
    assert_eq!(count(&second), 1);
}

#[test]
fn shared_registry_forgets_a_removed_slot() {
    let registry = Registry::new();
    let a = registry.allocate().unwrap();
    let b = registry.allocate().unwrap();
    let (first, first_waker) = callback();
    let (second, second_waker) = callback();
    registry.insert(a, first_waker);
    registry.insert(b, second_waker);
    registry.remove(a);
    registry.remove(a);
    assert_eq!(registry.wake_all(), 1);
    assert_eq!(count(&first), 0);
    assert_eq!(count(&second), 1);
}

#[test]
fn shared_registry_keeps_the_latest_callback() {
    let registry = Registry::new();
    let a = registry.allocate().unwrap();
    let (first, first_waker) = callback();
    let (second, second_waker) = callback();
    registry.insert(a, first_waker);
    registry.insert(a, second_waker);
    assert_eq!(registry.wake_all(), 1);
    assert_eq!(count(&first), 0);
    assert_eq!(count(&second), 1);
}
