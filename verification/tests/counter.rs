use awaitdrop::counter::{acquired, is_complete, released_last, Counter, CounterOp, INITIAL};

#[test]
fn acquire_adds_one_holder() {
    assert_eq!(CounterOp::Acquire.apply(1), Some(2));
    assert_eq!(CounterOp::Acquire.apply(41), Some(42));
}

#[test]
fn acquire_fails_on_zero() {
    assert_eq!(CounterOp::Acquire.apply(0), None);
}

#[test]
fn acquire_stays_at_the_top() {
    assert_eq!(CounterOp::Acquire.apply(usize::MAX - 1), Some(usize::MAX));
    assert_eq!(CounterOp::Acquire.apply(usize::MAX), Some(usize::MAX));
}

#[test]
fn release_takes_one_holder_off() {
    assert_eq!(CounterOp::Release.apply(1), Some(0));
    assert_eq!(CounterOp::Release.apply(5), Some(4));
    assert_eq!(CounterOp::Release.apply(usize::MAX - 1), Some(usize::MAX - 2));
}

#[test]
fn release_leaves_zero_and_the_top_alone() {
    assert_eq!(CounterOp::Release.apply(0), None);
    assert_eq!(CounterOp::Release.apply(usize::MAX), None);
}

#[test]
fn outcome_of_acquire() {
    assert!(acquired(Ok(3)));
    assert!(acquired(Ok(usize::MAX)));
    assert!(!acquired(Err(0)));
}

#[test]
fn outcome_of_release() {
    assert!(released_last(Ok(1)));
    assert!(!released_last(Ok(2)));
    assert!(!released_last(Ok(0)));
    assert!(!released_last(Err(0)));
    assert!(!released_last(Err(1)));
    assert!(!released_last(Err(usize::MAX)));
}

#[test]
fn completion_is_a_count_of_zero() {
    assert!(is_complete(0));
    assert!(!is_complete(1));
    assert!(!is_complete(usize::MAX));
}

#[test]
fn new_counter_has_one_holder() {
    assert_eq!(INITIAL, 1);
    let counter = Counter::new();
    assert_eq!(counter.read(), 1);
    assert_eq!(counter.release(), Ok(1));
    assert_eq!(counter.read(), 0);
}

#[test]
fn only_the_last_release_reports_it() {
    let counter = Counter::new();
    assert_eq!(counter.acquire(), Ok(1));
    assert_eq!(counter.acquire(), Ok(2));
    assert_eq!(counter.acquire(), Ok(3));
    assert_eq!(counter.read(), 4);
    assert!(!released_last(counter.release()));
    assert!(!released_last(counter.release()));
    assert!(!released_last(counter.release()));
    assert_eq!(counter.read(), 1);
    assert!(released_last(counter.release()));
    assert_eq!(counter.read(), 0);
}

#[test]
fn nothing_revives_a_counter_at_zero() {
    let counter = Counter::new();
    assert!(released_last(counter.release()));
    assert_eq!(counter.acquire(), Err(0));
    assert_eq!(counter.read(), 0);
    assert!(!acquired(counter.acquire()));
    assert!(is_complete(counter.read()));
}

#[test]
fn a_release_at_zero_is_not_a_second_last_one() {
    let counter = Counter::new();
    assert_eq!(counter.release(), Ok(1));
    assert_eq!(counter.release(), Err(0));
    assert!(!released_last(counter.release()));
    assert_eq!(counter.read(), 0);
}

#[test]
fn releases_and_acquires_in_any_order() {
    let counter = Counter::new();
    assert!(acquired(counter.acquire()));
    assert_eq!(counter.release(), Ok(2));
    assert!(acquired(counter.acquire()));
    assert!(acquired(counter.acquire()));
    assert_eq!(counter.release(), Ok(3));
    assert_eq!(counter.release(), Ok(2));
    assert!(!is_complete(counter.read()));
    assert_eq!(counter.release(), Ok(1));
    assert!(is_complete(counter.read()));
}
