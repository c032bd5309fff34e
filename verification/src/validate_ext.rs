//! Wrapping by a method call.

use vstd::prelude::*;

use crate::valid::Valid;
use crate::validate::Validate;

verus! {

/// Gives every type with an invariant the method `valid`.
pub trait ValidateExt: Validate {
    /// Wraps the value, with checking enabled, untested: what `Valid::new` returns.
    fn valid(self) -> (wrapper: Valid<Self>) where Self: Sized
        ensures
            wrapper.inner() == self,
            wrapper.enabled(),
            wrapper.accessible() <==> self.is_valid(),
    ;
}

impl<T: Validate> ValidateExt for T {
    fn valid(self) -> (wrapper: Valid<Self>) where Self: Sized {
        Valid::new(self)
    }
}

} // verus!
