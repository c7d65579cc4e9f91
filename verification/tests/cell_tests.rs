use std::cell::Cell;

use conquer_once::cell::{
    after_lock_failed, after_read, into_inner_outcome, AfterLockFailed, AfterRead,
    get_outcome, init_outcome, observed_poisoned, observed_ready, ALREADY_INIT_MSG, UNINIT_MSG,
    WOULD_BLOCK_MSG,
};
use conquer_once::noblock::{Lazy, OnceCell};
use conquer_once::park::{enqueue_retry, spin_phase, EnqueueRetry, SpinPhase};
use conquer_once::spin::spin_step;
use conquer_once::state::{BlockedState, OnceState, PoisonError, TryBlockError};
use conquer_once::{TryGetError, TryInitError, WouldBlockError};

struct DropGuard<'a>(&'a Cell<u32>);

impl Drop for DropGuard<'_> {
    fn drop(&mut self) {
        self.0.set(self.0.get() + 1);
    }
}

#[test]
fn once_cell_uninit() {
    let cell: OnceCell<i32> = OnceCell::uninit();
    assert!(!cell.is_initialized());
    assert!(!cell.is_poisoned());
    assert_eq!(cell.try_get(), Ok(Err(TryGetError::Uninit)));
    assert_eq!(cell.into_inner(), Ok(None));
}

#[test]
fn once_cell_new() {
    let cell = OnceCell::new(1);
    assert!(cell.is_initialized());
    assert!(!cell.is_poisoned());
    assert_eq!(cell.try_get(), Ok(Ok(&1)));
    assert_eq!(cell.into_inner(), Ok(Some(1)));
}

#[test]
fn try_init_once_single_thread() {
    let cell = OnceCell::uninit();
    assert_eq!(cell.try_init_once(|| 1), Ok(Ok(())));
    assert!(cell.is_initialized());
    assert_eq!(cell.try_get(), Ok(Ok(&1)));
    // a second initialization does not run its closure
    let ran = Cell::new(false);
    assert_eq!(
        cell.try_init_once(|| {
            ran.set(true);
            2
        }),
        Ok(Err(TryInitError::AlreadyInit))
    );
    assert!(!ran.get());
    assert_eq!(cell.into_inner(), Ok(Some(1)));
}

#[test]
fn recursive() {
    let cell = OnceCell::uninit();
    let res = cell.try_init_once(|| {
        let res = cell.try_init_once(|| 1);
        assert_eq!(res, Ok(Err(TryInitError::WouldBlock)));
        assert_eq!(cell.try_get(), Ok(Err(TryGetError::WouldBlock)));
        assert!(matches!(cell.try_get_or_init(|| 3), Ok(Err(WouldBlockError { .. }))));
        1
    });

    assert_eq!(res, Ok(Ok(())));
    assert_eq!(cell.try_get(), Ok(Ok(&1)));
}

#[test]
fn once_cell_try_get_or_init() {
    let cell = OnceCell::uninit();
    assert_eq!(cell.try_get_or_init(|| 5), Ok(Ok(&5)));
    assert_eq!(cell.try_get_or_init(|| 6), Ok(Ok(&5)));
}

#[test]
fn once_cell_into_inner() {
    let count = Cell::new(0);
    let cell = OnceCell::uninit();
    assert_eq!(cell.try_init_once(|| DropGuard(&count)), Ok(Ok(())));
    let inner = cell.into_inner().unwrap().unwrap();
    assert_eq!(count.get(), 0);
    drop(inner);
    assert_eq!(count.get(), 1);
}

#[test]
fn once_cell_drop() {
    let count = Cell::new(0);
    let cell = OnceCell::uninit();
    assert_eq!(cell.try_init_once(|| DropGuard(&count)), Ok(Ok(())));
    drop(cell);
    assert_eq!(count.get(), 1);
}

#[test]
fn lazy_initializes_once() {
    let calls = Cell::new(0);
    let lazy = Lazy::new(|| {
        calls.set(calls.get() + 1);
        vec![1, 2, 3]
    });
    assert!(!Lazy::is_initialized(&lazy));
    assert!(!Lazy::is_poisoned(&lazy));
    assert_eq!(Lazy::try_get_or_init(&lazy), Ok(Ok(&vec![1, 2, 3])));
    assert_eq!(Lazy::try_get_or_init(&lazy), Ok(Ok(&vec![1, 2, 3])));
    assert!(Lazy::is_initialized(&lazy));
    assert_eq!(calls.get(), 1);
}

#[test]
fn observations() {
    assert!(observed_ready(Ok(OnceState::Ready)));
    assert!(!observed_ready(Ok(OnceState::Uninit)));
    assert!(!observed_ready(Err(PoisonError)));
    assert!(observed_poisoned(Err(PoisonError)));
    assert!(!observed_poisoned(Ok(OnceState::WouldBlock(BlockedState(0)))));
}

#[test]
fn outcomes() {
    assert_eq!(get_outcome(OnceState::Ready), Ok(()));
    assert_eq!(get_outcome(OnceState::Uninit), Err(TryGetError::Uninit));
    assert_eq!(get_outcome(OnceState::WouldBlock(BlockedState(0))), Err(TryGetError::WouldBlock));
    assert_eq!(init_outcome(OnceState::Ready), Some(TryInitError::AlreadyInit));
    assert_eq!(init_outcome(OnceState::Uninit), None);
    assert_eq!(
        init_outcome(OnceState::WouldBlock(BlockedState(8))),
        Some(TryInitError::WouldBlock)
    );
}

#[test]
fn error_conversions_and_messages() {
    assert_eq!(TryInitError::from(TryBlockError::AlreadyInit), TryInitError::AlreadyInit);
    assert_eq!(
        TryInitError::from(TryBlockError::WouldBlock(BlockedState(0))),
        TryInitError::WouldBlock
    );
    let e = WouldBlockError::from(TryBlockError::WouldBlock(BlockedState(0)));
    assert_eq!(e.message(), WOULD_BLOCK_MSG);
    assert_eq!(TryInitError::AlreadyInit.message(), ALREADY_INIT_MSG);
    assert_eq!(TryInitError::WouldBlock.message(), WOULD_BLOCK_MSG);
    assert_eq!(TryGetError::Uninit.message(), "the `OnceCell` is uninitialized");
    assert_eq!(TryGetError::Uninit.message(), UNINIT_MSG);
    assert_eq!(TryGetError::WouldBlock.message(), WOULD_BLOCK_MSG);
}

#[test]
fn waiting_decisions() {
    assert_eq!(spin_step(Ok(OnceState::WouldBlock(BlockedState(0)))), Ok(true));
    assert_eq!(spin_step(Ok(OnceState::Ready)), Ok(false));
    assert_eq!(spin_step(Err(PoisonError)), Err(PoisonError));

    assert_eq!(spin_phase(Ok(OnceState::Ready), false), Ok(SpinPhase::Ready));
    assert_eq!(
        spin_phase(Ok(OnceState::WouldBlock(BlockedState(64))), true),
        Ok(SpinPhase::Park(BlockedState(64)))
    );
    assert_eq!(spin_phase(Ok(OnceState::WouldBlock(BlockedState(64))), false), Ok(SpinPhase::Spin));
    assert_eq!(spin_phase(Ok(OnceState::Uninit), true), Ok(SpinPhase::Spin));
    assert_eq!(spin_phase(Err(PoisonError), true), Err(PoisonError));

    assert_eq!(
        enqueue_retry(OnceState::WouldBlock(BlockedState(8))),
        EnqueueRetry::Retry(BlockedState(8))
    );
    assert_eq!(enqueue_retry(OnceState::Ready), EnqueueRetry::Ready);
}


#[test]
fn read_or_init_decisions() {
    assert_eq!(after_read(TryGetError::Uninit), AfterRead::TakeLock);
    assert_eq!(after_read(TryGetError::WouldBlock), AfterRead::WouldBlock);
    assert_eq!(after_lock_failed(TryBlockError::AlreadyInit), AfterLockFailed::ReadSlot);
    assert_eq!(
        after_lock_failed(TryBlockError::WouldBlock(BlockedState(0))),
        AfterLockFailed::WouldBlock
    );
    assert_eq!(into_inner_outcome(Ok(OnceState::Ready), Some(3)), Ok(Some(3)));
    assert_eq!(into_inner_outcome(Ok(OnceState::Uninit), Some(3)), Ok(None));
    assert_eq!(into_inner_outcome::<i32>(Err(PoisonError), None), Err(PoisonError));
}

#[test]
fn second_read_or_init_reuses_first_value() {
    let cell = OnceCell::uninit();
    let first = cell.try_get_or_init(|| 10).unwrap().unwrap();
    let called = Cell::new(false);
    let second = cell
        .try_get_or_init(|| {
            called.set(true);
            11
        })
        .unwrap()
        .unwrap();
    assert!(std::ptr::eq(first, second));
    assert_eq!(*second, 10);
    assert!(!called.get());
}
