//! Generic definition and implementation of the [`OnceCell`] type.
//!
//! Every operation first reads the shared state word (which other threads may
//! change at any time) and then decides what to do with what it read. The
//! decisions are the public functions [`observed_ready`],
//! [`observed_poisoned`], [`get_outcome`] and [`init_outcome`], each verified
//! for every possible observation.
use std::marker::PhantomData;
use std::sync::atomic::Ordering;
use std::sync::OnceLock;
use vstd::prelude::*;

use crate::state::{
    block_outcome, AtomicOnceState, BlockedState, OnceState, PoisonError, SwapState, TryBlockError,
    READY, UNINIT,
};

verus! {

/// `std::sync::OnceLock`, the write-once slot that holds a cell's value. Its
/// contents are not modelled.
#[verifier::external_type_specification]
#[verifier::external_body]
#[verifier::reject_recursive_types(T)]
pub struct ExOnceLock<T>(OnceLock<T>);

/// `OnceLock::new`: an empty slot (nothing is stated of its contents, which
/// other threads may fill).
pub assume_specification<T>[ OnceLock::<T>::new ]() -> OnceLock<T>;

/// `OnceLock::from`: a slot that holds `value`. Nothing is stated of the
/// result, whose contents are not modelled.
#[verifier::external_body]
fn slot_from<T>(value: T) -> OnceLock<T> {
    OnceLock::from(value)
}

/// `OnceLock::get`: the slot's value, if it has been set. Which of the two
/// comes back depends on the other threads, so nothing is stated.
#[verifier::external_body]
fn slot_get<T>(slot: &OnceLock<T>) -> Option<&T> {
    slot.get()
}

/// `OnceLock::get_or_init`, handed a closure that gives back `value`: fills an
/// empty slot with `value` and returns a reference to the slot's value. Which
/// value the reference shows (`value`, or one stored earlier) depends on the
/// slot's history and is not stated.
#[verifier::external_body]
fn slot_fill<T>(slot: &OnceLock<T>, value: T) -> &T {
    slot.get_or_init(move || value)
}

/// `OnceLock::into_inner`: the value of a slot that is owned, if it was set.
/// Nothing is stated, since the contents are not modelled.
#[verifier::external_body]
fn slot_into_inner<T>(slot: OnceLock<T>) -> Option<T> {
    slot.into_inner()
}

/// The unblocking mechanism of a cell locking strategy: it is told about the
/// word that the initialization lock held when it was released (for parked
/// waiters, the head of their queue). The default does nothing.
pub trait Unblock {
    /// Unblocks all waiting threads after the cell was set to `READY` or
    /// `POISONED`; `state` is the word that was replaced.
    fn on_unblock(state: BlockedState)
        opens_invariants none
        no_unwind
    {
    }
}

/// Possible error variants of non-blocking initialization calls.
#[derive(Copy, Clone, Debug, Hash, PartialEq, Eq, Structural, PartialOrd, Ord)]
pub enum TryInitError {
    /// The cell is already initialized and the initialization procedure was
    /// not called.
    AlreadyInit,
    /// The cell is currently being initialized by another thread and the
    /// current thread would have to block.
    WouldBlock,
}

/// Possible error variants of non-blocking fallible get calls.
#[derive(Copy, Clone, Debug, Hash, PartialEq, Eq, Structural, PartialOrd, Ord)]
pub enum TryGetError {
    /// The cell is currently not initialized.
    Uninit,
    /// The cell is currently being initialized by another thread and the
    /// current thread would have to block.
    WouldBlock,
}

/// An error indicating that a cell would have to block.
#[derive(Copy, Clone, Debug, Hash, PartialEq, Eq, PartialOrd, Ord)]
pub struct WouldBlockError(());

/// The message describing an uninitialized cell.
pub const UNINIT_MSG: &'static str = "the `OnceCell` is uninitialized";

/// The message describing an initialized cell.
pub const ALREADY_INIT_MSG: &'static str = "the `OnceCell` has already been initialized";

/// The message describing a cell being initialized.
pub const WOULD_BLOCK_MSG: &'static str = "the `OnceCell` is currently being initialized";

impl TryInitError {
    /// The human-readable description of the error.
    pub fn message(&self) -> (r: &'static str)
        ensures
            r == (match *self {
                TryInitError::AlreadyInit => ALREADY_INIT_MSG,
                TryInitError::WouldBlock => WOULD_BLOCK_MSG,
            }),
    {
        match self {
            TryInitError::AlreadyInit => ALREADY_INIT_MSG,
            TryInitError::WouldBlock => WOULD_BLOCK_MSG,
        }
    }
}

impl TryGetError {
    /// The human-readable description of the error.
    pub fn message(&self) -> (r: &'static str)
        ensures
            r == (match *self {
                TryGetError::Uninit => UNINIT_MSG,
                TryGetError::WouldBlock => WOULD_BLOCK_MSG,
            }),
    {
        match self {
            TryGetError::Uninit => UNINIT_MSG,
            TryGetError::WouldBlock => WOULD_BLOCK_MSG,
        }
    }
}

impl WouldBlockError {
    /// The human-readable description of the error.
    pub fn message(&self) -> (r: &'static str)
        ensures
            r == WOULD_BLOCK_MSG,
    {
        WOULD_BLOCK_MSG
    }

    /// The error of a lock attempt that found another thread initializing.
    /// A lock attempt that found the cell initialized is no such error. (The
    /// type has a single value, so the result needs no clause.)
    pub fn from(err: TryBlockError) -> (r: WouldBlockError)
        requires
            err is WouldBlock,
    {
        WouldBlockError(())
    }
}

/// The public error of a failed attempt to take the initialization lock.
pub open spec fn init_error_of(err: TryBlockError) -> TryInitError {
    match err {
        TryBlockError::AlreadyInit => TryInitError::AlreadyInit,
        TryBlockError::WouldBlock(_) => TryInitError::WouldBlock,
    }
}

impl From<TryBlockError> for TryInitError {
    fn from(err: TryBlockError) -> (r: TryInitError) {
        match err {
            TryBlockError::AlreadyInit => TryInitError::AlreadyInit,
            TryBlockError::WouldBlock(_) => TryInitError::WouldBlock,
        }
    }
}

impl vstd::std_specs::convert::FromSpecImpl<TryBlockError> for TryInitError {
    open spec fn obeys_from_spec() -> bool {
        true
    }

    open spec fn from_spec(v: TryBlockError) -> TryInitError {
        init_error_of(v)
    }
}

/// Whether an observed state says that the cell is initialized.
pub fn observed_ready(obs: Result<OnceState, PoisonError>) -> (r: bool)
    ensures
        r == (obs == Ok::<OnceState, PoisonError>(OnceState::Ready)),
{
    match obs {
        Ok(OnceState::Ready) => true,
        _ => false,
    }
}

/// Whether an observed state says that the cell is poisoned.
pub fn observed_poisoned(obs: Result<OnceState, PoisonError>) -> (r: bool)
    ensures
        r == obs is Err,
{
    obs.is_err()
}

/// What a non-blocking read yields in a given (non-poisoned) state.
pub open spec fn get_result(state: OnceState) -> Result<(), TryGetError> {
    match state {
        OnceState::Ready => Ok(()),
        OnceState::Uninit => Err(TryGetError::Uninit),
        OnceState::WouldBlock(_) => Err(TryGetError::WouldBlock),
    }
}

/// Decides what a non-blocking read yields in the state it observed: the
/// value (`Ok`) only in the ready state.
pub fn get_outcome(state: OnceState) -> (r: Result<(), TryGetError>)
    ensures
        r == get_result(state),
{
    match state {
        OnceState::Ready => Ok(()),
        OnceState::Uninit => Err(TryGetError::Uninit),
        OnceState::WouldBlock(_) => Err(TryGetError::WouldBlock),
    }
}

/// Why a non-blocking initialization does not run its closure in a given
/// state (`None`: it goes on to take the initialization lock).
pub open spec fn init_result(state: OnceState) -> Option<TryInitError> {
    match state {
        OnceState::Ready => Some(TryInitError::AlreadyInit),
        OnceState::WouldBlock(_) => Some(TryInitError::WouldBlock),
        OnceState::Uninit => None,
    }
}

/// Decides, from the state it observed, whether a non-blocking
/// initialization goes on to take the initialization lock (`None`) or fails.
pub fn init_outcome(state: OnceState) -> (r: Option<TryInitError>)
    ensures
        r == init_result(state),
{
    match state {
        OnceState::Ready => Some(TryInitError::AlreadyInit),
        OnceState::WouldBlock(_) => Some(TryInitError::WouldBlock),
        OnceState::Uninit => None,
    }
}

/// What consuming a cell yields, given the state its load found and what the
/// slot held: the slot's value in the ready state, nothing in the other
/// states, and the poisoning as an error.
pub fn into_inner_outcome<T>(obs: Result<OnceState, PoisonError>, slot: Option<T>) -> (r: Result<
    Option<T>,
    PoisonError,
>)
    ensures
        r == (match obs {
            Err(p) => Err(p),
            Ok(OnceState::Ready) => Ok(slot),
            Ok(_) => Ok(None::<T>),
        }),
{
    match obs {
        Err(e) => Err(e),
        Ok(OnceState::Ready) => Ok(slot),
        Ok(_) => Ok(None),
    }
}

/// What a read-or-initialize does after its read found no value.
#[derive(Copy, Clone, Debug, PartialEq, Eq, Structural)]
pub enum AfterRead {
    /// The cell is uninitialized: take the initialization lock.
    TakeLock,
    /// Another thread is initializing the cell: report that it would block.
    WouldBlock,
}

/// Decides what a read-or-initialize does after its read found no value.
pub fn after_read(e: TryGetError) -> (r: AfterRead)
    ensures
        r == (match e {
            TryGetError::Uninit => AfterRead::TakeLock,
            TryGetError::WouldBlock => AfterRead::WouldBlock,
        }),
{
    match e {
        TryGetError::Uninit => AfterRead::TakeLock,
        TryGetError::WouldBlock => AfterRead::WouldBlock,
    }
}

/// What a read-or-initialize does after its lock attempt failed.
#[derive(Copy, Clone, Debug, PartialEq, Eq, Structural)]
pub enum AfterLockFailed {
    /// Another thread completed the initialization: read its value.
    ReadSlot,
    /// Another thread is initializing the cell: report that it would block.
    WouldBlock,
}

/// Decides what a read-or-initialize does after its lock attempt failed.
pub fn after_lock_failed(e: TryBlockError) -> (r: AfterLockFailed)
    ensures
        r == (match e {
            TryBlockError::AlreadyInit => AfterLockFailed::ReadSlot,
            TryBlockError::WouldBlock(_) => AfterLockFailed::WouldBlock,
        }),
{
    match e {
        TryBlockError::AlreadyInit => AfterLockFailed::ReadSlot,
        TryBlockError::WouldBlock(_) => AfterLockFailed::WouldBlock,
    }
}

/// A guard that holds the initialization lock while the initialization
/// closure runs. Dropping it releases the lock: as poisoned while it is still
/// armed (the closure panicked), as ready once it has been disarmed.
struct PanicGuard<'a, B: Unblock> {
    /// The state of the associated cell.
    state: &'a AtomicOnceState,
    /// Whether the closure has not yet returned.
    poison: bool,
    /// The cell's blocking strategy.
    _marker: PhantomData<B>,
}

impl<'a, B: Unblock> PanicGuard<'a, B> {
    /// Attempts to take the initialization lock and returns an armed guard on
    /// success.
    ///
    /// The outcome is that of the lock attempt on the word it found: an armed
    /// guard for this state where the attempt succeeded, its error otherwise.
    fn try_block(state: &'a AtomicOnceState) -> (r: Result<Result<Self, TryBlockError>, PoisonError>)
        ensures
            exists|prev: usize|
                match #[trigger] block_outcome(prev) {
                    Err(p) => r == Err::<Result<Self, TryBlockError>, PoisonError>(p),
                    Ok(Err(e)) => r == Ok::<Result<Self, TryBlockError>, PoisonError>(Err(e)),
                    Ok(Ok(())) => r matches Ok(Ok(g)) && g.poison && g.state == state,
                },
    {
        let lock = state.try_block(Ordering::Acquire);
        let ghost prev = choose|prev: usize| lock == block_outcome(prev);
        let r = match lock {
            Err(e) => Err(e),
            Ok(Err(e)) => Ok(Err(e)),
            Ok(Ok(())) => Ok(Ok(PanicGuard { state, poison: true, _marker: PhantomData })),
        };
        proof {
            assert(lock == block_outcome(prev));
        }
        r
    }

    /// Consumes the guard after the closure returned, so that dropping it
    /// releases the lock as ready.
    fn disarm(&mut self)
        ensures
            final(self).poison == false,
            final(self).state == old(self).state,
    {
        self.poison = false;
    }
}

impl<'a, B: Unblock> Drop for PanicGuard<'a, B> {
    fn drop(&mut self)
        opens_invariants none
        no_unwind
    {
        let swap = SwapState::for_guard(self.poison);
        let prev = self.state.unblock(swap, Ordering::AcqRel);
        B::on_unblock(prev);
    }
}

/// An interior mutability cell type which allows synchronized one-time
/// initialization and read-only access exclusively after initialization.
///
/// A thread that panics in the course of executing its initialization closure
/// poisons the cell; every later access reports it (`PoisonError`).
#[derive(Debug)]
#[verifier::reject_recursive_types(T)]
pub struct OnceCell<T, B> {
    /// The current initialization status.
    state: AtomicOnceState,
    /// The slot that the initializing thread fills.
    inner: OnceLock<T>,
    /// The blocking strategy.
    _marker: PhantomData<B>,
}

impl<T, B> OnceCell<T, B> {
    /// The cell's shared state word.
    pub closed spec fn shared_state(&self) -> AtomicOnceState {
        self.state
    }

    /// Creates a new uninitialized cell: its word is created `UNINIT`.
    pub fn uninit() -> (r: Self)
        ensures
            r.shared_state().initial_word() == UNINIT,
    {
        OnceCell { state: AtomicOnceState::new(), inner: OnceLock::new(), _marker: PhantomData }
    }

    /// Creates a new cell pre-initialized with `value`: its word is created
    /// `READY` and its slot holds `value`.
    pub fn new(value: T) -> (r: Self)
        ensures
            r.shared_state().initial_word() == READY,
    {
        OnceCell { state: AtomicOnceState::ready(), inner: slot_from(value), _marker: PhantomData }
    }

    /// Consumes the cell and returns its value if it has been successfully
    /// initialized, or `None` otherwise; a poisoned cell is an error. The
    /// state the load finds and what the slot holds decide
    /// ([`into_inner_outcome`]).
    pub fn into_inner(self) -> Result<Option<T>, PoisonError> {
        let OnceCell { state, inner, _marker } = self;
        let obs = state.load(Ordering::Relaxed);
        let slot = slot_into_inner(inner);
        into_inner_outcome(obs, slot)
    }

    /// The cell's shared state word, on which a blocking strategy waits for
    /// the initialization to finish.
    pub fn state(&self) -> (r: &AtomicOnceState)
        ensures
            *r == self.shared_state(),
    {
        &self.state
    }

    /// Returns true if the cell has been successfully initialized (the load
    /// finds the `READY` word). Never blocks.
    pub fn is_initialized(&self) -> bool {
        observed_ready(self.state.load(Ordering::Acquire))
    }

    /// Returns true if the cell has been poisoned during initialization (the
    /// load finds the `POISONED` word). Never blocks.
    pub fn is_poisoned(&self) -> bool {
        observed_poisoned(self.state.load(Ordering::Relaxed))
    }

    /// Returns a reference to the cell's value, or why there is none yet:
    /// the cell is uninitialized, or another thread is initializing it.
    /// Never blocks; a poisoned cell is an error. The state the load finds
    /// decides ([`get_outcome`]). Should the state read ready while the value
    /// is not yet visible in the slot, the cell is reported uninitialized.
    pub fn try_get(&self) -> Result<Result<&T, TryGetError>, PoisonError> {
        match self.state.load(Ordering::Acquire) {
            Err(e) => Err(e),
            Ok(state) => match get_outcome(state) {
                Err(e) => Ok(Err(e)),
                Ok(()) => match slot_get(&self.inner) {
                    Some(value) => Ok(Ok(value)),
                    None => Ok(Err(TryGetError::Uninit)),
                },
            },
        }
    }
}

impl<T, B: Unblock> OnceCell<T, B> {
    /// Attempts to initialize the cell with `func` if it is uninitialized.
    ///
    /// Fails with `AlreadyInit` if the cell was initialized before, and with
    /// `WouldBlock` if another thread is initializing it; a poisoned cell is
    /// an error. Never blocks. The state the load finds decides whether the
    /// lock is attempted ([`init_outcome`]); the word the lock attempt finds
    /// decides the rest ([`try_block_outcome`]). On success `func` has run.
    pub fn try_init_once(&self, func: impl FnOnce() -> T) -> (r: Result<Result<(), TryInitError>, PoisonError>)
        requires
            func.requires(()),
        ensures
            r == Ok::<Result<(), TryInitError>, PoisonError>(Ok(())) ==> exists|v: T| call_ensures(func, (), v),
    {
        match self.state.load(Ordering::Acquire) {
            Err(e) => Err(e),
            Ok(state) => match init_outcome(state) {
                Some(e) => Ok(Err(e)),
                None => match self.try_init_inner(func) {
                    Err(e) => Err(e),
                    Ok(Err(e)) => Ok(Err(TryInitError::from(e))),
                    Ok(Ok(_)) => Ok(Ok(())),
                },
            },
        }
    }

    /// Takes the initialization lock, runs `func`, stores its value and
    /// releases the lock as ready (as poisoned if `func` panics).
    ///
    /// The outcome is that of the lock attempt on the word it found; where
    /// the lock was taken, `func` has run.
    fn try_init_inner(&self, func: impl FnOnce() -> T) -> (r: Result<Result<&T, TryBlockError>, PoisonError>)
        requires
            func.requires(()),
        ensures
            exists|prev: usize|
                match #[trigger] block_outcome(prev) {
                    Err(p) => r == Err::<Result<&T, TryBlockError>, PoisonError>(p),
                    Ok(Err(e)) => r == Ok::<Result<&T, TryBlockError>, PoisonError>(Err(e)),
                    Ok(Ok(())) => r is Ok && r->Ok_0 is Ok && exists|v: T| call_ensures(func, (), v),
                },
    {
        match PanicGuard::<B>::try_block(&self.state) {
            Err(e) => Err(e),
            Ok(Err(e)) => Ok(Err(e)),
            Ok(Ok(guard)) => {
                let mut guard = guard;
                let value = func();
                let stored = slot_fill(&self.inner, value);
                // the guard is dropped disarmed: the lock is released as ready
                guard.disarm();
                Ok(Ok(stored))
            },
        }
    }

    /// Returns a reference to the cell's value, or first initializes it with
    /// `func` if it is uninitialized.
    ///
    /// Fails only if another thread is initializing the cell; a poisoned cell
    /// is an error. Never blocks. The read decides first ([`get_outcome`],
    /// then [`after_read`]); on an uninitialized cell the lock attempt decides
    /// ([`try_block_outcome`], then [`after_lock_failed`]). Should another
    /// thread complete the initialization between the read and the lock
    /// attempt, its value is returned; should that value not yet be visible
    /// in the slot, the call reports that it would block.
    pub fn try_get_or_init(&self, func: impl FnOnce() -> T) -> Result<Result<&T, WouldBlockError>, PoisonError>
        requires
            func.requires(()),
    {
        match self.try_get() {
            Err(e) => Err(e),
            Ok(Ok(value)) => Ok(Ok(value)),
            Ok(Err(e)) => match after_read(e) {
                AfterRead::WouldBlock => Ok(Err(WouldBlockError(()))),
                AfterRead::TakeLock => match self.try_init_inner(func) {
                    Err(e) => Err(e),
                    Ok(Ok(value)) => Ok(Ok(value)),
                    Ok(Err(e)) => match after_lock_failed(e) {
                        AfterLockFailed::WouldBlock => Ok(Err(WouldBlockError::from(e))),
                        AfterLockFailed::ReadSlot => match slot_get(&self.inner) {
                            Some(value) => Ok(Ok(value)),
                            None => Ok(Err(WouldBlockError(()))),
                        },
                    },
                },
            },
        }
    }
}

} // verus!
