//! Synchronized one-time and lazy initialization primitives that permit only
//! non-blocking synchronized initialization operations.
use vstd::prelude::*;

use crate::cell::Unblock;

verus! {

/// "Blocking" strategy which does not actually allow blocking.
#[derive(Copy, Clone, Debug, PartialEq, Eq, PartialOrd, Ord)]
pub struct NoBlock;

impl Unblock for NoBlock {
}

/// A lazily initialized value that permits only non-blocking operations.
pub type Lazy<T, F> = crate::lazy::Lazy<T, NoBlock, F>;

/// A one-time initialized cell that permits only non-blocking operations.
pub type OnceCell<T> = crate::cell::OnceCell<T, NoBlock>;

/// A one-time global initialization that permits only non-blocking
/// operations.
pub type Once = crate::cell::OnceCell<(), NoBlock>;

} // verus!
