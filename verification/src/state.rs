//! The atomically shared status word of a once-cell and its interpretation.
//!
//! The word holds one of three reserved values (`UNINIT`, `READY`,
//! `POISONED`) or any other value, which stands for "initialization in
//! progress" and, for the parking strategy, carries the address of the head of
//! the queue of waiting threads (`WOULD_BLOCK`, i.e. zero, is the empty queue).
use std::convert::TryFrom;
use std::sync::atomic::{AtomicUsize, Ordering};
use vstd::prelude::*;

verus! {

/// The word of a cell that is being initialized and has no parked waiter.
pub const WOULD_BLOCK: usize = 0;

/// The word of a cell that has not been initialized.
pub const UNINIT: usize = 1;

/// The word of a cell whose initialization has completed.
pub const READY: usize = 2;

/// The word of a cell whose initialization closure has panicked.
pub const POISONED: usize = 3;

/// The state word as it was observed by a thread that found the cell busy.
///
/// For the parking strategy the word is the address of the head of the queue
/// of parked threads.
#[derive(Copy, Clone, Debug, PartialEq, Eq, Structural, PartialOrd, Ord)]
pub struct BlockedState(pub usize);

/// A decoded, non-poisoned state word.
#[derive(Copy, Clone, Debug, PartialEq, Eq, Structural, PartialOrd, Ord)]
pub enum OnceState {
    /// Initial (uninitialized) state.
    Uninit,
    /// Ready (initialized) state.
    Ready,
    /// Blocked state, with the queue of waiting threads.
    WouldBlock(BlockedState),
}

/// The reason why an attempt to take the initialization lock failed.
#[derive(Copy, Clone, Debug, PartialEq, Eq, Structural)]
pub enum TryBlockError {
    /// The cell is already initialized.
    AlreadyInit,
    /// Another thread holds the initialization lock.
    WouldBlock(BlockedState),
}

/// The state word says that the cell has been poisoned.
#[derive(Copy, Clone, Debug, PartialEq, Eq, Structural, PartialOrd, Ord)]
pub struct PoisonError;

/// The final word that releases the initialization lock.
#[derive(Copy, Clone, Debug, PartialEq, Eq, Structural)]
pub enum SwapState {
    /// The initialization completed.
    Ready,
    /// The initialization closure panicked.
    Poisoned,
}

/// The word that encodes a swap state.
pub open spec fn swap_word(s: SwapState) -> usize {
    match s {
        SwapState::Ready => READY,
        SwapState::Poisoned => POISONED,
    }
}

/// The state with which an initialization guard releases the lock.
pub open spec fn guard_release(poison: bool) -> SwapState {
    if poison {
        SwapState::Poisoned
    } else {
        SwapState::Ready
    }
}

/// What a status word means.
pub open spec fn decode(word: usize) -> Result<OnceState, PoisonError> {
    if word == POISONED {
        Err(PoisonError)
    } else if word == UNINIT {
        Ok(OnceState::Uninit)
    } else if word == READY {
        Ok(OnceState::Ready)
    } else {
        Ok(OnceState::WouldBlock(BlockedState(word)))
    }
}

/// The word that stands for a state.
pub open spec fn encode(state: OnceState) -> usize {
    match state {
        OnceState::Ready => READY,
        OnceState::Uninit => UNINIT,
        OnceState::WouldBlock(b) => b.0,
    }
}

/// A word that stands for a cell being initialized (none of the reserved
/// words, `WOULD_BLOCK` included).
pub open spec fn is_blocked_word(word: usize) -> bool {
    word != UNINIT && word != READY && word != POISONED
}

impl OnceState {
    /// A state that some word decodes to: a blocked state carries a word that
    /// is none of the reserved ones.
    pub open spec fn wf(self) -> bool {
        match self {
            OnceState::WouldBlock(b) => is_blocked_word(b.0),
            _ => true,
        }
    }

    /// Decodes a status word, failing exactly on the poisoned word.
    pub fn try_from_word(value: usize) -> (r: Result<OnceState, PoisonError>)
        ensures
            r == decode(value),
    {
        if value == POISONED {
            Err(PoisonError)
        } else if value == UNINIT {
            Ok(OnceState::Uninit)
        } else if value == READY {
            Ok(OnceState::Ready)
        } else {
            Ok(OnceState::WouldBlock(BlockedState(value)))
        }
    }

    /// Encodes the state as its status word.
    pub fn to_word(self) -> (r: usize)
        ensures
            r == encode(self),
    {
        match self {
            OnceState::Ready => READY,
            OnceState::Uninit => UNINIT,
            OnceState::WouldBlock(b) => b.0,
        }
    }
}

impl TryFrom<usize> for OnceState {
    type Error = PoisonError;

    fn try_from(value: usize) -> (r: Result<OnceState, PoisonError>) {
        OnceState::try_from_word(value)
    }
}

impl vstd::std_specs::convert::TryFromSpecImpl<usize> for OnceState {
    open spec fn obeys_try_from_spec() -> bool {
        true
    }

    open spec fn try_from_spec(v: usize) -> Result<OnceState, PoisonError> {
        decode(v)
    }
}

impl From<OnceState> for usize {
    fn from(state: OnceState) -> (r: usize) {
        state.to_word()
    }
}

impl vstd::std_specs::convert::FromSpecImpl<OnceState> for usize {
    open spec fn obeys_from_spec() -> bool {
        true
    }

    open spec fn from_spec(v: OnceState) -> usize {
        encode(v)
    }
}

impl From<BlockedState> for usize {
    fn from(state: BlockedState) -> (r: usize) {
        state.0
    }
}

impl vstd::std_specs::convert::FromSpecImpl<BlockedState> for usize {
    open spec fn obeys_from_spec() -> bool {
        true
    }

    open spec fn from_spec(v: BlockedState) -> usize {
        v.0
    }
}

impl SwapState {
    /// The word that releases the initialization lock in this way.
    pub fn word(self) -> (r: usize)
        ensures
            r == swap_word(self),
        opens_invariants none
        no_unwind
    {
        match self {
            SwapState::Ready => READY,
            SwapState::Poisoned => POISONED,
        }
    }

    /// The final state chosen by an initialization guard: poisoned while the
    /// guard is still armed, ready once it was disarmed.
    pub fn for_guard(poison: bool) -> (r: SwapState)
        ensures
            r == guard_release(poison),
        opens_invariants none
        no_unwind
    {
        if poison {
            SwapState::Poisoned
        } else {
            SwapState::Ready
        }
    }
}

/// What an attempt to take the initialization lock yields, given the word that
/// the compare-and-swap of `UNINIT` to `WOULD_BLOCK` found.
pub open spec fn block_outcome(prev: usize) -> Result<Result<(), TryBlockError>, PoisonError> {
    match decode(prev) {
        Err(e) => Err(e),
        Ok(OnceState::Uninit) => Ok(Ok(())),
        Ok(OnceState::Ready) => Ok(Err(TryBlockError::AlreadyInit)),
        Ok(OnceState::WouldBlock(b)) => Ok(Err(TryBlockError::WouldBlock(b))),
    }
}

/// Decides the outcome of an attempt to take the initialization lock from the
/// word that its compare-and-swap found.
pub fn try_block_outcome(prev: usize) -> (r: Result<Result<(), TryBlockError>, PoisonError>)
    ensures
        r == block_outcome(prev),
{
    match OnceState::try_from_word(prev) {
        Err(e) => Err(e),
        Ok(OnceState::Uninit) => Ok(Ok(())),
        Ok(OnceState::Ready) => Ok(Err(TryBlockError::AlreadyInit)),
        Ok(OnceState::WouldBlock(state)) => Ok(Err(TryBlockError::WouldBlock(state))),
    }
}

/// What an attempt to replace the head of the waiter queue `current` yields,
/// given the word that its compare-and-swap found.
pub open spec fn enqueue_outcome(prev: usize, current: BlockedState) -> Result<
    Result<(), OnceState>,
    PoisonError,
> {
    if prev == current.0 {
        Ok(Ok(()))
    } else {
        match decode(prev) {
            Err(e) => Err(e),
            Ok(s) => Ok(Err(s)),
        }
    }
}

/// Decides the outcome of an attempt to replace the head of the waiter queue
/// from the word that its compare-and-swap found.
pub fn try_enqueue_outcome(prev: usize, current: BlockedState) -> (r: Result<
    Result<(), OnceState>,
    PoisonError,
>)
    ensures
        r == enqueue_outcome(prev, current),
{
    if prev == current.0 {
        Ok(Ok(()))
    } else {
        match OnceState::try_from_word(prev) {
            Err(e) => Err(e),
            Ok(s) => Ok(Err(s)),
        }
    }
}

/// The compare-and-swaps of the protocol: taking the initialization lock
/// (`UNINIT` to `WOULD_BLOCK`), and replacing the head of the waiter queue by
/// another one (a blocked word by a different blocked word).
pub open spec fn is_protocol_cas(current: usize, new: usize) -> bool {
    ||| current == UNINIT && new == WOULD_BLOCK
    ||| is_blocked_word(current) && is_blocked_word(new) && current != new
}

/// The words that release the initialization lock.
pub open spec fn is_release_word(word: usize) -> bool {
    word == READY || word == POISONED
}

/// The word that an atomic was created with. It is fixed when the atomic is
/// made and no later operation changes it.
pub uninterp spec fn created_word(atomic: AtomicUsize) -> usize;

/// `AtomicUsize::new`: an atomic created with `val`.
#[verifier::external_body]
fn atomic_new(val: usize) -> (r: AtomicUsize)
    ensures
        created_word(r) == val,
{
    AtomicUsize::new(val)
}

/// `AtomicUsize::compare_exchange`: stores `new` if the word is `current`, and
/// returns the word it found, as `Ok` exactly when that word was `current`.
/// Only the protocol's compare-and-swaps are admitted, and std's panicking
/// failure orderings are left out.
#[verifier::external_body]
fn atomic_compare_exchange(
    word: &AtomicUsize,
    current: usize,
    new: usize,
    success: Ordering,
    failure: Ordering,
) -> (r: Result<usize, usize>)
    requires
        is_protocol_cas(current, new),
        failure != Ordering::Release,
        failure != Ordering::AcqRel,
    ensures
        r matches Ok(prev) ==> prev == current,
        r matches Err(prev) ==> prev != current,
{
    word.compare_exchange(current, new, success, failure)
}

/// `AtomicUsize::swap`, which never unwinds; it returns the word it replaced
/// (which depends on the other threads). Only the words that release the
/// initialization lock are admitted.
#[verifier::external_body]
fn atomic_swap(word: &AtomicUsize, val: usize, order: Ordering) -> usize
    requires
        is_release_word(val),
    opens_invariants none
    no_unwind
{
    word.swap(val, order)
}

/// The concurrently and atomically mutable internal state of a once-cell.
///
/// What a load or a read-modify-write finds depends on the other threads that
/// share the word; each operation is therefore stated as the decision it makes
/// on the word it found (see [`try_block_outcome`], [`try_enqueue_outcome`]).
/// Every write goes through a compare-and-swap or swap that admits only the
/// protocol's transitions ([`is_protocol_cas`], [`is_release_word`]).
#[derive(Debug)]
pub struct AtomicOnceState(AtomicUsize);

impl AtomicOnceState {
    /// The word that this state was created with.
    pub closed spec fn initial_word(&self) -> usize {
        created_word(self.0)
    }

    /// Creates a new `UNINIT` state.
    pub fn new() -> (r: Self)
        ensures
            r.initial_word() == UNINIT,
    {
        AtomicOnceState(atomic_new(UNINIT))
    }

    /// Creates a new `READY` state.
    pub fn ready() -> (r: Self)
        ensures
            r.initial_word() == READY,
    {
        AtomicOnceState(atomic_new(READY))
    }

    /// Loads and decodes the current word; a poisoned word is an error.
    /// Which word it finds depends on the other threads; the result is the
    /// decoding of that word. The orderings on which std's load panics are
    /// left out.
    pub fn load(&self, order: Ordering) -> (r: Result<OnceState, PoisonError>)
        requires
            order != Ordering::Release,
            order != Ordering::AcqRel,
        ensures
            exists|word: usize| r == #[trigger] decode(word),
            r matches Ok(s) ==> s.wf(),
    {
        let word: usize = self.0.load(order);
        OnceState::try_from_word(word)
    }

    /// Attempts to take the initialization lock by a compare-and-swap of
    /// `UNINIT` to `WOULD_BLOCK`; fails if the cell is already initialized or
    /// blocked, and reports a poisoned cell.
    ///
    /// The result is [`block_outcome`] of the word that the compare-and-swap
    /// found, which depends on the other threads.
    pub(crate) fn try_block(&self, order: Ordering) -> (r: Result<Result<(), TryBlockError>, PoisonError>)
        ensures
            exists|prev: usize| r == #[trigger] block_outcome(prev),
            r matches Ok(Err(TryBlockError::WouldBlock(b))) ==> is_blocked_word(b.0),
    {
        let prev: usize = match atomic_compare_exchange(&self.0, UNINIT, WOULD_BLOCK, order, Ordering::Relaxed) {
            Ok(prev) => prev,
            Err(prev) => prev,
        };
        try_block_outcome(prev)
    }

    /// Releases the initialization lock by swapping in the word of `state`
    /// (`READY` or `POISONED`) and returns the word that it replaced.
    pub(crate) fn unblock(&self, state: SwapState, order: Ordering) -> (r: BlockedState)
        opens_invariants none
        no_unwind
    {
        let word: usize = state.word();
        BlockedState(atomic_swap(&self.0, word, order))
    }

    /// Attempts to replace the head `current` of the waiter queue with `new`
    /// (a different blocked word); on failure reports the state found
    /// instead. The result is [`enqueue_outcome`] of the word that the
    /// compare-and-swap found, which depends on the other threads.
    pub fn try_enqueue_waiter(
        &self,
        current: BlockedState,
        new: BlockedState,
        success: Ordering,
    ) -> (r: Result<Result<(), OnceState>, PoisonError>)
        requires
            is_blocked_word(current.0),
            is_blocked_word(new.0),
            current != new,
        ensures
            exists|prev: usize| r == #[trigger] enqueue_outcome(prev, current),
            r matches Ok(Err(s)) ==> s.wf() && s != OnceState::WouldBlock(current),
    {
        let prev: usize = match atomic_compare_exchange(&self.0, current.0, new.0, success, Ordering::Relaxed) {
            Ok(prev) => prev,
            Err(prev) => prev,
        };
        try_enqueue_outcome(prev, current)
    }
}

} // verus!
