use std::convert::TryFrom;
use std::sync::atomic::Ordering;

use conquer_once::noblock::OnceCell;
use conquer_once::state::{
    try_block_outcome, try_enqueue_outcome, AtomicOnceState, BlockedState, OnceState,
    PoisonError, SwapState, TryBlockError, POISONED, READY, UNINIT, WOULD_BLOCK,
};
use conquer_once::TryInitError;

#[test]
fn decode_reserved_words() {
    assert_eq!(OnceState::try_from_word(UNINIT), Ok(OnceState::Uninit));
    assert_eq!(OnceState::try_from_word(READY), Ok(OnceState::Ready));
    assert_eq!(OnceState::try_from_word(POISONED), Err(PoisonError));
    assert_eq!(
        OnceState::try_from_word(WOULD_BLOCK),
        Ok(OnceState::WouldBlock(BlockedState(0)))
    );
    assert_eq!(
        OnceState::try_from_word(0x1000),
        Ok(OnceState::WouldBlock(BlockedState(0x1000)))
    );
}

#[test]
fn try_from_trait_agrees() {
    for w in 0usize..8 {
        assert_eq!(OnceState::try_from(w), OnceState::try_from_word(w));
    }
}

#[test]
fn encode_round_trip() {
    for w in [0usize, 1, 2, 4, 8, 0xdead_bee0] {
        let s = OnceState::try_from_word(w).unwrap();
        assert_eq!(usize::from(s), w);
        assert_eq!(s.to_word(), w);
    }
    assert_eq!(usize::from(BlockedState(12)), 12);
}

#[test]
fn swap_state_words() {
    assert_eq!(SwapState::Ready.word(), READY);
    assert_eq!(SwapState::Poisoned.word(), POISONED);
    assert_eq!(SwapState::for_guard(true), SwapState::Poisoned);
    assert_eq!(SwapState::for_guard(false), SwapState::Ready);
}

#[test]
fn block_outcomes() {
    assert_eq!(try_block_outcome(UNINIT), Ok(Ok(())));
    assert_eq!(try_block_outcome(READY), Ok(Err(TryBlockError::AlreadyInit)));
    assert_eq!(try_block_outcome(POISONED), Err(PoisonError));
    assert_eq!(
        try_block_outcome(WOULD_BLOCK),
        Ok(Err(TryBlockError::WouldBlock(BlockedState(0))))
    );
    assert_eq!(
        try_block_outcome(64),
        Ok(Err(TryBlockError::WouldBlock(BlockedState(64))))
    );
}

#[test]
fn enqueue_outcomes() {
    assert_eq!(try_enqueue_outcome(64, BlockedState(64)), Ok(Ok(())));
    assert_eq!(try_enqueue_outcome(READY, BlockedState(64)), Ok(Err(OnceState::Ready)));
    assert_eq!(
        try_enqueue_outcome(128, BlockedState(64)),
        Ok(Err(OnceState::WouldBlock(BlockedState(128))))
    );
    assert_eq!(try_enqueue_outcome(POISONED, BlockedState(64)), Err(PoisonError));
}

#[test]
fn atomic_state_initial_words() {
    assert_eq!(AtomicOnceState::new().load(Ordering::Acquire), Ok(OnceState::Uninit));
    assert_eq!(AtomicOnceState::ready().load(Ordering::Relaxed), Ok(OnceState::Ready));
}

#[test]
fn lock_excludes_and_release_settles() {
    let cell: OnceCell<i32> = OnceCell::uninit();
    let res = cell.try_init_once(|| {
        // the lock is held: the word is the empty queue
        assert_eq!(
            cell.state().load(Ordering::Acquire),
            Ok(OnceState::WouldBlock(BlockedState(WOULD_BLOCK)))
        );
        // a second attempt is excluded while the lock is held
        assert_eq!(cell.try_init_once(|| 2), Ok(Err(TryInitError::WouldBlock)));
        1
    });
    assert_eq!(res, Ok(Ok(())));
    assert_eq!(cell.state().load(Ordering::Acquire), Ok(OnceState::Ready));
    assert_eq!(cell.try_init_once(|| 3), Ok(Err(TryInitError::AlreadyInit)));
}

#[test]
fn atomic_state_enqueue() {
    let cell: OnceCell<i32> = OnceCell::uninit();
    let res = cell.try_init_once(|| {
        let state = cell.state();
        // the empty queue (word 0) is replaced by a waiter at address 64
        assert_eq!(
            state.try_enqueue_waiter(BlockedState(0), BlockedState(64), Ordering::AcqRel),
            Ok(Ok(()))
        );
        assert_eq!(state.load(Ordering::Acquire), Ok(OnceState::WouldBlock(BlockedState(64))));
        // a waiter that still saw the empty queue finds the new head
        assert_eq!(
            state.try_enqueue_waiter(BlockedState(0), BlockedState(128), Ordering::AcqRel),
            Ok(Err(OnceState::WouldBlock(BlockedState(64))))
        );
        7
    });
    assert_eq!(res, Ok(Ok(())));
    // once released, an enqueue attempt finds the cell ready
    assert_eq!(
        cell.state().try_enqueue_waiter(BlockedState(64), BlockedState(128), Ordering::AcqRel),
        Ok(Err(OnceState::Ready))
    );
    assert_eq!(cell.try_get(), Ok(Ok(&7)));
}
