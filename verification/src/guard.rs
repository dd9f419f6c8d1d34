//! The per-account reentrancy guard: a mutex flag that every mutating entry
//! point acquires first and releases on every exit path.

use vstd::prelude::*;
use crate::errors::DaoError;

verus! {

/// One boolean per governed account. While a mutating operation runs,
/// `in_progress` is true; a second, nested call then fails instead of
/// observing intermediate state.
#[derive(Clone, Copy, Debug, PartialEq, Eq, Structural)]
pub struct ReentrancyGuard {
    pub in_progress: bool,
}

impl ReentrancyGuard {
    /// A fresh guard: no operation in progress.
    pub fn new() -> (g: ReentrancyGuard)
        ensures
            !g.in_progress,
    {
        ReentrancyGuard { in_progress: false }
    }

    /// Acquire the guard. Fails, leaving the flag set, when an operation is
    /// already in progress.
    pub fn start(&mut self) -> (r: Result<(), DaoError>)
        ensures
            old(self).in_progress ==> r == Err::<(), DaoError>(DaoError::ReentrancyAttempt)
                && final(self).in_progress,
            !old(self).in_progress ==> r == Ok::<(), DaoError>(())
                && final(self).in_progress,
    {
        if self.in_progress {
            return Err(DaoError::ReentrancyAttempt);
        }
        self.in_progress = true;
        Ok(())
    }

    /// Release the guard unconditionally. Runs on both the success and the
    /// failure path of every guarded operation, so a failed operation can
    /// never leave the account wedged.
    pub fn complete(&mut self)
        ensures
            !final(self).in_progress,
    {
        self.in_progress = false;
    }
}

} // verus!
