//! The laws of the state-word protocol.
//!
//! A cell's word changes only through the compare-and-swaps and swaps of
//! `AtomicOnceState`, whose wrappers admit exactly the protocol's writes: a
//! compare-and-swap satisfying [`is_protocol_cas`] (taking the lock, or
//! replacing the queue head by a different one) and a swap of a word
//! satisfying [`is_release_word`]. The functions below describe the word each
//! such write leaves behind, as std documents compare-and-swap and swap, and
//! the proofs show what every admitted write keeps. What a shared word holds
//! at a given moment cannot be stated, so the laws are about the writes, not
//! about a particular cell.
use vstd::prelude::*;

use crate::cell::{get_result, init_result, TryGetError, TryInitError};
use crate::state::{
    block_outcome, decode, encode, enqueue_outcome, guard_release, is_blocked_word, is_protocol_cas,
    is_release_word, swap_word, BlockedState, OnceState, PoisonError, SwapState, TryBlockError,
    POISONED, READY, UNINIT, WOULD_BLOCK,
};

verus! {

/// The word after a compare-and-swap of `current` to `new` on `word`.
pub open spec fn after_cas(word: usize, current: usize, new: usize) -> usize {
    if word == current {
        new
    } else {
        word
    }
}

/// The word after a lock attempt.
pub open spec fn after_try_block(word: usize) -> usize {
    after_cas(word, UNINIT, WOULD_BLOCK)
}

/// The word after an attempt to replace the waiter-queue head `current` by
/// `new`.
pub open spec fn after_enqueue(word: usize, current: BlockedState, new: BlockedState) -> usize {
    after_cas(word, current.0, new.0)
}

/// The word after the lock is released as `s`.
pub open spec fn after_unblock(s: SwapState) -> usize {
    swap_word(s)
}

/// Decoding undoes encoding: every state that a word can stand for is given
/// back by decoding its word.
pub proof fn lemma_decode_encode(s: OnceState)
    requires
        s.wf(),
    ensures
        decode(encode(s)) == Ok::<OnceState, PoisonError>(s),
{
}

/// Encoding undoes decoding: every word but `POISONED` decodes to a
/// well-formed state whose word it is, and `POISONED` decodes to the poison
/// error.
pub proof fn lemma_encode_decode(word: usize)
    ensures
        word == POISONED <==> decode(word) is Err,
        decode(word) matches Ok(s) ==> s.wf() && encode(s) == word,
{
}

/// Exactly the reserved words decode to the uninitialized and the ready
/// state; every other non-poisoned word is a blocked state.
pub proof fn lemma_decode_cases(word: usize)
    ensures
        decode(word) == Ok::<OnceState, PoisonError>(OnceState::Uninit) <==> word == UNINIT,
        decode(word) == Ok::<OnceState, PoisonError>(OnceState::Ready) <==> word == READY,
        (decode(word) matches Ok(OnceState::WouldBlock(_))) <==> is_blocked_word(word),
{
}

/// Mutual exclusion: a lock attempt (an admitted compare-and-swap) succeeds
/// exactly on the uninitialized word, and a second attempt on the word that
/// a successful one leaves behind finds the cell blocked.
pub proof fn lemma_try_block_exclusive(word: usize)
    ensures
        is_protocol_cas(UNINIT, WOULD_BLOCK),
        block_outcome(word) == Ok::<Result<(), TryBlockError>, PoisonError>(Ok(())) <==> word
            == UNINIT,
        word == UNINIT ==> block_outcome(after_try_block(word)) == Ok::<
            Result<(), TryBlockError>,
            PoisonError,
        >(Err(TryBlockError::WouldBlock(BlockedState(WOULD_BLOCK)))),
{
}

/// A settled cell stays settled: on the ready or the poisoned word, no
/// admitted compare-and-swap changes the word; a lock attempt reports the
/// cell initialized, an enqueue attempt reports it ready, and on the poisoned
/// word both report the poisoning.
pub proof fn lemma_settled_absorbing(word: usize, current: usize, new: usize)
    requires
        word == READY || word == POISONED,
        is_protocol_cas(current, new),
    ensures
        after_cas(word, current, new) == word,
        word == READY ==> block_outcome(word) == Ok::<Result<(), TryBlockError>, PoisonError>(
            Err(TryBlockError::AlreadyInit),
        ),
        word == POISONED ==> block_outcome(word) == Err::<Result<(), TryBlockError>, PoisonError>(
            PoisonError,
        ),
        is_blocked_word(current) && word == READY ==> enqueue_outcome(word, BlockedState(current))
            == Ok::<Result<(), OnceState>, PoisonError>(Err(OnceState::Ready)),
        is_blocked_word(current) && word == POISONED ==> enqueue_outcome(
            word,
            BlockedState(current),
        ) == Err::<Result<(), OnceState>, PoisonError>(PoisonError),
{
}

/// A cell never becomes uninitialized again: from any other word, every
/// admitted compare-and-swap and every admitted release leaves a word other
/// than `UNINIT`.
pub proof fn lemma_never_uninit_again(word: usize, current: usize, new: usize, release: usize)
    requires
        word != UNINIT,
        is_protocol_cas(current, new),
        is_release_word(release),
    ensures
        after_cas(word, current, new) != UNINIT,
        release != UNINIT,
{
}

/// The only admitted write that leaves the uninitialized word is the lock
/// attempt, and it leaves `WOULD_BLOCK`.
pub proof fn lemma_only_lock_leaves_uninit(current: usize, new: usize)
    requires
        is_protocol_cas(current, new),
    ensures
        after_cas(UNINIT, current, new) != UNINIT ==> current == UNINIT && new == WOULD_BLOCK,
{
}

/// Every way of releasing the lock is an admitted release.
pub proof fn lemma_releases_admitted(s: SwapState)
    ensures
        is_release_word(swap_word(s)),
        is_release_word(after_unblock(s)),
{
}

/// Releasing the lock settles the cell: as ready it decodes to the ready
/// state, as poisoned to the poison error.
pub proof fn lemma_unblock_settles(s: SwapState)
    ensures
        s == SwapState::Ready ==> decode(after_unblock(s)) == Ok::<OnceState, PoisonError>(
            OnceState::Ready,
        ),
        s == SwapState::Poisoned ==> decode(after_unblock(s)) == Err::<OnceState, PoisonError>(
            PoisonError,
        ),
{
}

/// An enqueue attempt succeeds exactly when the word still is the queue head
/// that the waiter saw; then the new head is in place, and it is an admitted
/// compare-and-swap whenever both heads are different blocked words.
pub proof fn lemma_enqueue_exact(word: usize, current: BlockedState, new: BlockedState)
    ensures
        is_blocked_word(current.0) && is_blocked_word(new.0) && current != new ==> is_protocol_cas(
            current.0,
            new.0,
        ),
        enqueue_outcome(word, current) == Ok::<Result<(), OnceState>, PoisonError>(Ok(()))
            <==> word == current.0,
        word == current.0 ==> after_enqueue(word, current, new) == new.0,
{
}

/// Reading and initializing agree: in every state, a non-blocking read yields
/// the value exactly when a non-blocking initialization reports the cell as
/// already initialized, reports the cell busy exactly when the initialization
/// does, and finds it uninitialized exactly when the initialization goes on
/// to take the lock.
pub proof fn lemma_get_init_agree(state: OnceState)
    ensures
        get_result(state) is Ok <==> init_result(state) == Some(TryInitError::AlreadyInit),
        get_result(state) == Err::<(), TryGetError>(TryGetError::WouldBlock) <==> init_result(
            state,
        ) == Some(TryInitError::WouldBlock),
        get_result(state) == Err::<(), TryGetError>(TryGetError::Uninit) <==> init_result(
            state,
        ) is None,
{
}

/// The observation made before a lock attempt and the lock attempt itself
/// agree: where the word is unchanged in between, the lock is taken exactly
/// when the initialization decided to go on.
pub proof fn lemma_init_then_block(word: usize)
    requires
        word != POISONED,
    ensures
        decode(word) matches Ok(s) && (init_result(s) is None <==> block_outcome(word) == Ok::<
            Result<(), TryBlockError>,
            PoisonError,
        >(Ok(()))),
{
}

/// An initialization is read back: from the uninitialized word, the lock
/// attempt succeeds, and once the holder releases the lock as ready, a read
/// yields the value and every later initialization reports the cell as
/// already initialized; released as poisoned, both report the poisoning.
pub proof fn lemma_init_then_read(word: usize, s: SwapState)
    requires
        word == UNINIT,
    ensures
        block_outcome(word) == Ok::<Result<(), TryBlockError>, PoisonError>(Ok(())),
        decode(after_try_block(word)) == Ok::<OnceState, PoisonError>(
            OnceState::WouldBlock(BlockedState(WOULD_BLOCK)),
        ),
        s == SwapState::Ready ==> (decode(after_unblock(s)) matches Ok(st) && get_result(st) is Ok
            && init_result(st) == Some(TryInitError::AlreadyInit)),
        s == SwapState::Poisoned ==> decode(after_unblock(s)) is Err && block_outcome(
            after_unblock(s),
        ) is Err,
{
}

/// A guard releases the lock with the poisoned word exactly when it is still
/// armed (its closure did not return), and with the ready word once it was
/// disarmed; so after a closure panicked every later read reports the
/// poisoning, and after it returned every later read finds the cell ready.
pub proof fn lemma_guard_release(poison: bool)
    ensures
        swap_word(guard_release(poison)) == POISONED <==> poison,
        swap_word(guard_release(poison)) == READY <==> !poison,
        decode(swap_word(guard_release(poison))) is Err <==> poison,
        block_outcome(swap_word(guard_release(poison))) is Err <==> poison,
        !poison ==> get_result(OnceState::Ready) is Ok && decode(swap_word(guard_release(poison)))
            == Ok::<OnceState, PoisonError>(OnceState::Ready),
{
}

/// What a read and an initialization decide, state by state: only the ready
/// state yields the value and reports the cell as already initialized; every
/// blocked state, whatever queue head it carries, reports that the caller
/// would block; only the uninitialized state reports the cell uninitialized
/// and lets the initialization take the lock.
pub proof fn lemma_read_init_per_state(s: OnceState)
    ensures
        get_result(s) == Ok::<(), TryGetError>(()) <==> s == OnceState::Ready,
        get_result(s) == Err::<(), TryGetError>(TryGetError::Uninit) <==> s == OnceState::Uninit,
        get_result(s) == Err::<(), TryGetError>(TryGetError::WouldBlock) <==> s is WouldBlock,
        init_result(s) == Some(TryInitError::AlreadyInit) <==> s == OnceState::Ready,
        init_result(s) == Some(TryInitError::WouldBlock) <==> s is WouldBlock,
        init_result(s) is None <==> s == OnceState::Uninit,
{
}

/// The same decisions stated on the status word: a read yields the value
/// exactly on `READY`, reports a blocked cell exactly on the blocked words,
/// reports an uninitialized cell exactly on `UNINIT`, and the poison error
/// exactly on `POISONED`.
pub proof fn lemma_read_per_word(word: usize)
    ensures
        decode(word) is Err <==> word == POISONED,
        decode(word) == Ok::<OnceState, PoisonError>(OnceState::Ready) <==> word == READY,
        (decode(word) matches Ok(s) && get_result(s) is Ok) <==> word == READY,
        (decode(word) matches Ok(s) && get_result(s) == Err::<(), TryGetError>(
            TryGetError::WouldBlock,
        )) <==> is_blocked_word(word),
        (decode(word) matches Ok(s) && get_result(s) == Err::<(), TryGetError>(
            TryGetError::Uninit,
        )) <==> word == UNINIT,
        (decode(word) matches Ok(s) && init_result(s) == Some(TryInitError::WouldBlock))
            <==> is_blocked_word(word),
{
}

/// A failed enqueue reports the word it found: the ready state exactly on
/// `READY`, the blocked state carrying that very word exactly on a blocked
/// word (so the waiter links behind the new head), the uninitialized state
/// exactly on `UNINIT`, and the poisoning exactly on `POISONED`.
pub proof fn lemma_enqueue_failure_reports_found(prev: usize, current: BlockedState)
    requires
        prev != current.0,
    ensures
        enqueue_outcome(prev, current) == Ok::<Result<(), OnceState>, PoisonError>(
            Err(OnceState::Ready),
        ) <==> prev == READY,
        enqueue_outcome(prev, current) == Ok::<Result<(), OnceState>, PoisonError>(
            Err(OnceState::Uninit),
        ) <==> prev == UNINIT,
        enqueue_outcome(prev, current) is Err <==> prev == POISONED,
        (enqueue_outcome(prev, current) matches Ok(Err(OnceState::WouldBlock(b))) && b.0 == prev)
            <==> is_blocked_word(prev),
        enqueue_outcome(prev, current) != Ok::<Result<(), OnceState>, PoisonError>(Ok(())),
{
}

} // verus!
