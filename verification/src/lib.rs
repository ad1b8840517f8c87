//! A wait group over handles rather than tasks.
//!
//! [`awaitdrop`] makes a completion group: one [`Ref`] and one [`Waiter`].
//! A [`Ref`] may be cloned, downgraded to a [`Weak`] and upgraded again; the
//! group is complete once every [`Ref`] of it has been dropped. A [`Waiter`]
//! hands out any number of [`WaitFuture`]s, each of which resolves exactly
//! then.
//!
//! The pieces, leaves first:
//!
//! * [`counter`]: the count of live holders and its two transitions;
//! * [`registry`]: the slots in which pending waits keep their callback;
//! * [`handle`]: the handles themselves;
//! * [`protocol`]: a model of one group, in which the guarantees that span
//!   several calls are stated and proved.

pub mod counter;
pub mod slots;
pub mod task;
pub mod registry;
pub mod handle;
pub mod protocol;

pub use handle::{awaitdrop, Ref, WaitFuture, Waiter, Weak};
