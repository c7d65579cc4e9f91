# conquer_once

Synchronization primitives for lazy and one-time initialization, with a clear
distinction between blocking and non-blocking operations.

## Layout

- `src/` is the verified library (Verus).
  - `state.rs`: the atomically shared status word of a cell, its encoding and
    decoding, and the decisions taken on each word a read or read-modify-write
    finds (lock attempt, waiter enqueueing, release).
  - `cell.rs`: `OnceCell` with its non-blocking operations (`try_get`,
    `try_init_once`, `try_get_or_init`, `into_inner`, ...), the guard that
    releases the initialization lock as ready or as poisoned, and the error
    types.
  - `lazy.rs`: `Lazy`, a cell together with its initialization function.
  - `noblock.rs`, `spin.rs`, `park.rs`: the locking strategies and the
    decisions that a waiting thread takes.
  - `protocol.rs`: the laws of the state-word protocol (mutual exclusion of
    the lock, no admitted compare-and-swap changes a ready or poisoned word,
    every release writes `READY` or `POISONED`, no return to the
    uninitialized state, encoding round trips). They are stated of the writes that the
    atomic wrappers in `state.rs` admit (their `requires` allow only the
    protocol's compare-and-swaps and release words), not of the word a
    particular cell holds at a given moment, which cannot be stated.
- `app/` holds the blocking side: the `Block` strategies (spinning, and
  parking threads on a queue of stack nodes), and the blocking `get`,
  `init_once` and `get_or_init`, which panic on a poisoned cell.
- `tests/` exercises both.

Operations that can observe a poisoned cell return `Err(PoisonError)` in the
library; the blocking operations turn that into a panic.
