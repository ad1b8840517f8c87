//! The types of `std::task` and `std::pin` that the library handles, and the
//! calls it makes on them.
//!
//! A `Waker` is the callback of a suspended task. The library stores, clones,
//! invokes and drops wakers and never looks inside one, so the types are
//! declared without their contents. `Poll` is declared with its two variants.

use vstd::prelude::*;

verus! {

/// `std::task::Waker`, without its contents.
#[verifier::external_type_specification]
#[verifier::external_body]
pub struct ExWaker(std::task::Waker);

/// `std::task::Context`, without its contents.
#[verifier::external_type_specification]
#[verifier::external_body]
pub struct ExContext<'a>(std::task::Context<'a>);

/// `std::pin::Pin`, without its contents.
#[verifier::external_type_specification]
#[verifier::external_body]
#[verifier::reject_recursive_types(Ptr)]
pub struct ExPin<Ptr>(std::pin::Pin<Ptr>);

/// `std::task::Poll`, as std defines it: `Ready` with a value, or `Pending`.
#[verifier::external_type_specification]
#[verifier::reject_recursive_types(T)]
pub struct ExPoll<T>(std::task::Poll<T>);

/// `Context::waker`: the waker of the task that is being polled. Nothing is
/// claimed of it.
pub assume_specification<'a, 'b>[ std::task::Context::<'a>::waker ](
    cx: &'b std::task::Context<'a>,
) -> (waker: &'a std::task::Waker)
;

/// `Waker::clone`: another waker for the same task. Nothing is claimed of it.
pub assume_specification[ <std::task::Waker as Clone>::clone ](
    waker: &std::task::Waker,
) -> (copy: std::task::Waker)
;

/// `Waker::wake_by_ref`: invokes the callback and keeps the waker. It returns
/// nothing, and nothing is claimed of what the callback does.
pub assume_specification[ std::task::Waker::wake_by_ref ](waker: &std::task::Waker)
;

/// `Waker::wake`: invokes the callback and gives the waker up.
///
/// It returns nothing. The call is made while a holder is dropped, where Verus
/// admits no unwinding, so this states that the callback does not unwind: a
/// waker is expected to schedule its task and return, and one that panics
/// instead panics out of the drop, as it would without this library.
#[verifier::external_body]
pub(crate) fn wake(waker: std::task::Waker)
    opens_invariants none
    no_unwind
{
    waker.wake()
}

} // verus!
