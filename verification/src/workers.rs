//! Decisions of the watcher workers, written as step functions: a worker's
//! handler is a value that, given the outcome of the last outside operation,
//! says what to record and which operation to perform next.

pub mod deletion_watcher;
pub mod file_watcher;

use vstd::prelude::*;

verus! {

/// The outcome of asking the local database for an asset's age in whole
/// days: the age is absent when no creation date is recorded.
#[derive(Debug, Clone, Copy, PartialEq, Eq, Structural)]
pub enum AgeLookup {
    Failed,
    Known(Option<i64>),
}

/// What one step of a handler asks for: an optional notice to record, then
/// the next operation.
pub struct Reaction<N, R> {
    pub notice: Option<N>,
    pub request: R,
}

impl<N: View, R: View> View for Reaction<N, R> {
    type V = Reaction<N::V, R::V>;

    open spec fn view(&self) -> Reaction<N::V, R::V> {
        Reaction {
            notice: match self.notice {
                Some(n) => Some(n@),
                None => None,
            },
            request: self.request@,
        }
    }
}

} // verus!
