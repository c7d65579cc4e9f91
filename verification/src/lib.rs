//! Synchronization primitives for lazy and one-time initialization, with a
//! clear distinction between blocking and non-blocking operations.
//!
//! The non-blocking operations of [`OnceCell`](cell::OnceCell) and
//! [`Lazy`](lazy::Lazy) are here; the blocking strategies decide, through the
//! functions of [`spin`] and [`park`], what a waiting thread does next.
pub mod cell;
pub mod lazy;
pub mod noblock;
pub mod park;
pub mod protocol;
pub mod spin;
pub mod state;

pub use crate::cell::{TryGetError, TryInitError, WouldBlockError};
pub use crate::state::PoisonError;

use vstd::prelude::*;

verus! {

/// The message with which blocking operations panic on a poisoned cell.
pub const POISON_PANIC_MSG: &'static str = "OnceCell instance has been poisoned.";

} // verus!
