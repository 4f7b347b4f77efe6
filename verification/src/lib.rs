//! Generators built on a single-slot rendezvous between a driver and a
//! suspendable computation.
//!
//! A computation is any state machine that can be polled one suspension
//! point at a time. For each step it is lent an [`engine::Co`], through
//! which it hands a value to whoever drives it; the driver takes the value
//! out of the slot and may put a resume value back in before the next step.
//! [`protocol`] states what holds of that exchange over any number of
//! steps.

pub mod engine;
pub mod ops;
pub mod protocol;
pub mod rc;
pub mod stack;
pub mod testing;
