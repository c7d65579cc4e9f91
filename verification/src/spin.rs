//! Synchronized one-time and lazy initialization primitives that use
//! spin-locks in case of concurrent accesses under contention.
use vstd::prelude::*;

use crate::cell::Unblock;
use crate::state::{OnceState, PoisonError};

verus! {

/// Thread blocking (locking) strategy using spin-locks.
#[derive(Copy, Clone, Debug, Default, PartialEq, Eq, PartialOrd, Ord)]
pub struct Spin;

/// Waiters spin on their own; releasing the lock wakes nobody.
impl Unblock for Spin {
}

/// A lazily initialized value that spins under contention.
pub type Lazy<T, F> = crate::lazy::Lazy<T, Spin, F>;

/// A one-time initialized cell that spins under contention.
pub type OnceCell<T> = crate::cell::OnceCell<T, Spin>;

/// A one-time global initialization that spins under contention.
pub type Once = crate::cell::OnceCell<(), Spin>;

/// Decides, from the state a spinning waiter observed, whether it keeps
/// spinning (`Ok(true)`: the cell is still being initialized) or stops
/// (`Ok(false)`); a poisoned cell is an error.
pub fn spin_step(obs: Result<OnceState, PoisonError>) -> (r: Result<bool, PoisonError>)
    ensures
        r == (match obs {
            Err(e) => Err(e),
            Ok(OnceState::WouldBlock(_)) => Ok(true),
            Ok(_) => Ok(false),
        }),
{
    match obs {
        Err(e) => Err(e),
        Ok(OnceState::WouldBlock(_)) => Ok(true),
        Ok(_) => Ok(false),
    }
}

} // verus!
