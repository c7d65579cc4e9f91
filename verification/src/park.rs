//! The decisions of the blocking strategy that parks waiting threads.
//!
//! A waiter first spins with back-off; once the back-off advises yielding, it
//! pushes a node for itself onto the queue whose head the state word holds,
//! and parks until the initializing thread wakes it. The spinning, the queue
//! nodes and the parking are the caller's; what it does next, given what it
//! observed, is decided here.
use vstd::prelude::*;

use crate::state::{BlockedState, OnceState, PoisonError};

verus! {

/// What a spinning waiter does next.
#[derive(Copy, Clone, Debug, PartialEq, Eq, Structural)]
pub enum SpinPhase {
    /// The cell is initialized: stop waiting.
    Ready,
    /// Stop spinning and enqueue behind the given queue head.
    Park(BlockedState),
    /// Spin once more.
    Spin,
}

/// Decides the next step of a spinning waiter from the state it observed and
/// from whether the back-off advises yielding; a poisoned cell is an error.
pub fn spin_phase(obs: Result<OnceState, PoisonError>, advise_yield: bool) -> (r: Result<
    SpinPhase,
    PoisonError,
>)
    ensures
        r == (match obs {
            Err(e) => Err(e),
            Ok(OnceState::Ready) => Ok(SpinPhase::Ready),
            Ok(OnceState::WouldBlock(b)) => if advise_yield {
                Ok(SpinPhase::Park(b))
            } else {
                Ok(SpinPhase::Spin)
            },
            Ok(OnceState::Uninit) => Ok(SpinPhase::Spin),
        }),
{
    match obs {
        Err(e) => Err(e),
        Ok(OnceState::Ready) => Ok(SpinPhase::Ready),
        Ok(OnceState::WouldBlock(b)) => if advise_yield {
            Ok(SpinPhase::Park(b))
        } else {
            Ok(SpinPhase::Spin)
        },
        Ok(OnceState::Uninit) => Ok(SpinPhase::Spin),
    }
}

/// What a waiter does after its attempt to become the queue head failed.
#[derive(Copy, Clone, Debug, PartialEq, Eq, Structural)]
pub enum EnqueueRetry {
    /// Another waiter became the head: link behind it and try again.
    Retry(BlockedState),
    /// The cell was initialized meanwhile: stop waiting.
    Ready,
}

/// Decides what a waiter does when the queue head it tried to replace was
/// replaced by `found` first. The cell never becomes uninitialized again, so
/// `found` is never the uninitialized state.
pub fn enqueue_retry(found: OnceState) -> (r: EnqueueRetry)
    requires
        found != OnceState::Uninit,
    ensures
        r == (match found {
            OnceState::WouldBlock(b) => EnqueueRetry::Retry(b),
            _ => EnqueueRetry::Ready,
        }),
{
    match found {
        OnceState::WouldBlock(b) => EnqueueRetry::Retry(b),
        _ => EnqueueRetry::Ready,
    }
}

} // verus!
