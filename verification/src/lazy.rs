//! Generic definition and implementation of the [`Lazy`] type.
use vstd::prelude::*;

use crate::cell::{OnceCell, Unblock, WouldBlockError};
use crate::state::PoisonError;

verus! {

/// A type for lazy initialization of e.g. global variables: a cell together
/// with the function that computes its value on first access.
#[verifier::reject_recursive_types(T)]
pub struct Lazy<T, B, F> {
    /// The cell storing the lazily initialized value.
    cell: OnceCell<T, B>,
    /// The initialization function or closure.
    init: F,
}

impl<T, B, F> Lazy<T, B, F> {
    /// The initialization function that the value is computed with.
    pub closed spec fn init_fn(&self) -> F {
        self.init
    }

    /// Creates a new uninitialized `Lazy` with the given `init` function.
    pub fn new(init: F) -> (r: Self)
        ensures
            r.init_fn() == init,
            r.value_cell().shared_state().initial_word() == crate::state::UNINIT,
    {
        Lazy { cell: OnceCell::uninit(), init }
    }

    /// The cell that stores the lazily initialized value.
    pub fn cell(lazy: &Self) -> (r: &OnceCell<T, B>)
        ensures
            *r == lazy.value_cell(),
    {
        &lazy.cell
    }

    /// The cell storing the lazily initialized value.
    pub closed spec fn value_cell(&self) -> OnceCell<T, B> {
        self.cell
    }

    /// Returns `true` if the `Lazy` has been successfully initialized.
    pub fn is_initialized(lazy: &Self) -> bool {
        lazy.cell.is_initialized()
    }

    /// Returns `true` if the `Lazy` has been poisoned.
    pub fn is_poisoned(lazy: &Self) -> bool {
        lazy.cell.is_poisoned()
    }
}

impl<T, B: Unblock, F: Fn() -> T> Lazy<T, B, F> {
    /// Returns a reference to the already initialized value, or first
    /// initializes it with the `init` function; fails only if another thread
    /// is initializing it, and reports a poisoned `Lazy`. Never blocks.
    ///
    /// The outcome is that of the cell's read-or-initialize with the `init`
    /// function.
    pub fn try_get_or_init(lazy: &Self) -> Result<Result<&T, WouldBlockError>, PoisonError>
        requires
            lazy.init_fn().requires(()),
    {
        lazy.cell.try_get_or_init(&lazy.init)
    }
}

} // verus!
