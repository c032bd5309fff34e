//! The one kind of failure that a check of an invariant reports.

use vstd::prelude::*;
use vstd::string::StringExecFns;

verus! {

/// An invariant does not hold. The value carries a description for a human reader: which
/// expectation failed, and on what values.
///
/// The view of a violation is its description.
#[derive(Debug)]
pub struct InvariantViolation {
    message: String,
}

impl View for InvariantViolation {
    type V = Seq<char>;

    closed spec fn view(&self) -> Seq<char> {
        self.message@
    }
}

impl InvariantViolation {
    /// A violation described by `message`.
    pub fn new(message: String) -> (violation: Self)
        ensures
            violation@ == message@,
    {
        InvariantViolation { message }
    }

    /// The description.
    pub fn message(&self) -> (message: &str)
        ensures
            message@ == self@,
    {
        self.message.as_str()
    }

    /// The description as an owned string.
    pub fn to_string(&self) -> (text: String)
        ensures
            text@ == self@,
    {
        String::from_str(self.message.as_str())
    }
}

impl Clone for InvariantViolation {
    fn clone(&self) -> (copy: Self)
        ensures
            copy@ == self@,
    {
        InvariantViolation { message: self.message.clone() }
    }
}

} // verus!
