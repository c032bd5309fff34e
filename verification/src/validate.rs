//! The capability of a type to test its own invariant.

use vstd::prelude::*;

use crate::violation::InvariantViolation;

verus! {

/// Defines the invariant of a type and how to test it.
///
/// `is_valid` is the invariant itself, a predicate on the value. It is ghost: nothing ever
/// runs it. `validate` is its test at run time: it succeeds exactly on the values on which the
/// invariant holds. The outcome is thus a function of the value alone, so that testing twice
/// without a change in between gives the same answer twice.
///
/// What the description of a failure says is left to the implementation; the functions of
/// [`crate::macros`] write one that names the failed expectation and its values.
pub trait Validate {
    /// The invariant.
    spec fn is_valid(&self) -> bool;

    /// Tests the invariant, and describes the failure where it does not hold.
    fn validate(&self) -> (outcome: Result<(), InvariantViolation>)
        ensures
            outcome is Ok <==> self.is_valid(),
    ;
}

} // verus!
