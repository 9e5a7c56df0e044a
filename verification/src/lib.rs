//! Cooperative, stackful coroutines.
//!
//! A coroutine runs on a stack of its own and gives control back only where
//! it asks to. This library holds every decision of such a system: how a
//! fresh stack is laid out for each calling convention, which transfers of
//! control a handle allows in each state of its life, and which handle a
//! round-robin scheduler turns to next. The transfer itself is a few machine
//! instructions that the caller of this library supplies.

pub mod coroutine;

pub use crate::coroutine::platform::{
    resume_coroutine, return_from_coroutine, Control, Direction, StackSpace, Store, Switch,
};
pub use crate::coroutine::{schedule, yield_now, Coroutine, State};
