//! The outcome of asking a suspended computation to make progress.

use vstd::prelude::*;

verus! {

/// Either the computation has finished with a value, or it has to be asked
/// again later.
#[derive(Debug, PartialEq, Eq)]
pub enum Polled<T> {
    /// The computation finished with this value.
    Ready(T),
    /// The computation has not finished yet.
    Pending,
}

impl<T> Polled<T> {
    /// Whether the computation has finished.
    pub fn is_ready(&self) -> (r: bool)
        ensures
            r == (*self is Ready),
    {
        match self {
            Polled::Ready(_) => true,
            Polled::Pending => false,
        }
    }

    /// Whether the computation has to be asked again.
    pub fn is_pending(&self) -> (r: bool)
        ensures
            r == (*self is Pending),
    {
        match self {
            Polled::Ready(_) => false,
            Polled::Pending => true,
        }
    }
}

} // verus!
