//! Values that are checked against their own invariant every time they are accessed.
//!
//! - [`Validate`] is implemented by a type to say what its invariant is and how to test it.
//! - [`Valid<T>`] owns a `T` and guards every access to it with that test.
//! - [`macros`] holds the expectations that such a test is made of, with failures that
//!   describe themselves.
//!
//! The invariant of a type is a specification predicate, so a verified caller proves
//! before each access that the test passes; the test that still runs at the access protects
//! callers that are not verified.

pub mod macros;
mod valid;
mod validate;
mod validate_ext;
mod validate_impl;
mod violation;

pub use valid::Valid;
pub use validate::Validate;
pub use validate_ext::ValidateExt;
pub use violation::InvariantViolation;
