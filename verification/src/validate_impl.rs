//! The invariant of a borrowed value is that of the value.

use vstd::prelude::*;

use crate::validate::Validate;
use crate::violation::InvariantViolation;

verus! {

impl<T: Validate> Validate for &T {
    open spec fn is_valid(&self) -> bool {
        (**self).is_valid()
    }

    fn validate(&self) -> (outcome: Result<(), InvariantViolation>) {
        (**self).validate()
    }
}

} // verus!
