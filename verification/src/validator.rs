//! The capability that every validator offers.
use crate::error::Error;
use vstd::prelude::*;

verus! {

/// Anything that can check a borrowed JSON value.
pub trait Validator {
    /// The outcomes that `validate` may report for `value`.
    spec fn admits(&self, value: &serde_json::Value, outcome: Result<(), Error<'_>>) -> bool;

    /// Checks `value`, which is neither changed nor kept. A failure borrows
    /// the value that it is about.
    fn validate<'a>(&self, value: &'a serde_json::Value) -> (outcome: Result<(), Error<'a>>)
        ensures
            self.admits(value, outcome),
    ;
}

} // verus!
