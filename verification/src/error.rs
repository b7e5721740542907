//! Errors that the session layer reports to the host.
use vstd::prelude::*;

verus! {

/// A failed read of the thread store.
#[derive(Clone, Debug, PartialEq, Eq)]
pub struct ThreadStoreError {
    pub message: String,
}

/// An error reported to the host.
#[derive(Clone, Debug, PartialEq, Eq)]
pub enum CodexErr {
    /// An unrecoverable error, with its message.
    Fatal(String),
    /// The thread is not known to the thread store, with its message.
    ThreadNotFound(String),
    /// A thread's rollout could not be read from the thread store.
    RolloutRead(ThreadStoreError),
}

} // verus!
