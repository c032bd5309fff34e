//! The wrapper that checks a value against its invariant on every access.

use std::cmp::Ordering;
use std::fmt::Display;
use std::hash::Hash;
use std::hash::Hasher;

use vstd::pervasive::unreached;
use vstd::prelude::*;
use vstd::std_specs::cmp::OrdSpec;
use vstd::std_specs::cmp::PartialEqSpec;
use vstd::std_specs::cmp::PartialOrdSpec;
use vstd::string::to_string_from_display_ensures;

use crate::validate::Validate;
use crate::violation::InvariantViolation;

verus! {

/// Feeds `value` to `state` through `Hash::hash` of std. Nothing is claimed of the hasher
/// afterwards: what a value feeds is up to the `Hash` impl of its type.
#[verifier::external_body]
fn feed<T: Hash, H: Hasher>(value: &T, state: &mut H) {
    value.hash(state)
}

/// A `T` that is tested against its invariant every time it is accessed.
///
/// The test runs before the access, never at a write: a wrapper may hold a value that breaks
/// the invariant, from the write that broke it until the next access. That access is the one
/// that is refused.
///
/// A wrapper is [`accessible`](Valid::accessible) when the test of an access passes: it does
/// not check at all, or the value it holds is valid. The operations that count for an access
/// require it:
/// - `deref` and `deref_mut`, the two ways to the value,
/// - `as_ref`,
/// - `clone`,
/// - `eq`, `partial_cmp`, `cmp`, of both sides,
/// - `hash`.
///
/// A caller that is verified proves it. One that is not can ask [`check`](Valid::check) first;
/// if it accesses a broken value nevertheless, the access panics. These operations are
/// methods of the wrapper and not impls of the traits of std that they are named after,
/// because a method of such a trait cannot state a precondition.
///
/// The operations that show or move the value without looking into it require nothing:
/// - a copy of a `Copy` value, which duplicates the bytes (the impl of `Clone` is there for
///   `Copy` and does the same; the method `clone` is the checked one),
/// - `Debug` and `to_string`, so that a broken value can be examined,
/// - `into_inner`, which ends the guarding.
#[derive(Debug)]
pub struct Valid<T> where T: Validate {
    enabled: bool,
    inner: T,
}

#[allow(clippy::should_implement_trait)]
impl<T: Validate> Valid<T> {
    /// The value that the wrapper holds.
    pub closed spec fn inner(&self) -> T {
        self.inner
    }

    /// Whether accesses are checked.
    pub closed spec fn enabled(&self) -> bool {
        self.enabled
    }

    /// Whether the test of an access passes: nothing is checked, or the value is valid.
    pub open spec fn accessible(&self) -> bool {
        self.enabled() ==> self.inner().is_valid()
    }

    /// Wraps `inner`, with checking enabled. The value is not tested here: the wrapper is
    /// accessible exactly if `inner` is valid.
    pub fn new(inner: T) -> (wrapper: Self)
        ensures
            wrapper.inner() == inner,
            wrapper.enabled(),
            wrapper.accessible() <==> inner.is_valid(),
    {
        Valid { enabled: true, inner }
    }

    /// Sets whether accesses are checked. The call itself tests nothing. Without checking the
    /// wrapper is accessible whatever it holds; with checking, exactly if the value is valid.
    pub fn enable_validation(&mut self, enabled: bool)
        ensures
            final(self).enabled() == enabled,
            final(self).inner() == old(self).inner(),
            final(self).accessible() <==> (enabled ==> old(self).inner().is_valid()),
    {
        self.enabled = enabled;
    }

    /// Whether accesses are checked.
    pub fn is_enabled(&self) -> (enabled: bool)
        ensures
            enabled == self.enabled(),
    {
        self.enabled
    }

    /// Runs the test of an access, and reports its outcome where an access would be refused:
    /// the failure is the one that `validate` reported of the value.
    pub fn check(&self) -> (outcome: Result<(), InvariantViolation>)
        ensures
            outcome is Ok <==> self.accessible(),
            outcome is Err ==> call_ensures(T::validate, (&self.inner(),), outcome),
    {
        if self.enabled {
            self.inner.validate()
        } else {
            Ok(())
        }
    }

    /// Access for reading.
    pub fn deref(&self) -> (inner: &T)
        requires
            self.accessible(),
        ensures
            *inner == self.inner(),
    {
        if self.check().is_err() {
            unreached::<()>();
        }
        &self.inner
    }

    /// Access for writing. The test is made of the value before the write. What is written
    /// is not tested: afterwards the wrapper holds it, and is accessible exactly if it does
    /// not check or the written value is valid.
    pub fn deref_mut(&mut self) -> (inner: &mut T)
        requires
            old(self).accessible(),
        ensures
            *inner == old(self).inner(),
            final(self).inner() == *final(inner),
            final(self).enabled() == old(self).enabled(),
            final(self).accessible() <==> (old(self).enabled() ==> (*final(inner)).is_valid()),
    {
        if self.check().is_err() {
            unreached::<()>();
        }
        &mut self.inner
    }

    /// A wrapper of a reference to the value, which checks exactly if this one does.
    pub fn as_ref(&self) -> (view: Valid<&T>)
        requires
            self.accessible(),
        ensures
            view.enabled() == self.enabled(),
            *view.inner() == self.inner(),
            view.accessible(),
    {
        Valid { enabled: self.enabled, inner: self.deref() }
    }

    /// Gives the value back, tested or not, and ends the guarding.
    pub fn into_inner(self) -> (inner: T)
        ensures
            inner == self.inner(),
    {
        self.inner
    }

    /// Whether the two values are equal, by `T`'s own `==`.
    pub fn eq(&self, other: &Self) -> (equal: bool) where T: PartialEq
        requires
            self.accessible(),
            other.accessible(),
        ensures
            call_ensures(T::eq, (&self.inner(), &other.inner()), equal),
            T::obeys_eq_spec() ==> equal == self.inner().eq_spec(&other.inner()),
    {
        self.deref().eq(other.deref())
    }

    /// How the two values compare, by `T`'s own partial order.
    pub fn partial_cmp(&self, other: &Self) -> (order: Option<Ordering>) where T: PartialOrd
        requires
            self.accessible(),
            other.accessible(),
        ensures
            call_ensures(T::partial_cmp, (&self.inner(), &other.inner()), order),
            T::obeys_partial_cmp_spec() ==> order == self.inner().partial_cmp_spec(&other.inner()),
    {
        self.deref().partial_cmp(other.deref())
    }

    /// How the two values compare, by `T`'s own total order.
    pub fn cmp(&self, other: &Self) -> (order: Ordering) where T: Ord
        requires
            self.accessible(),
            other.accessible(),
        ensures
            call_ensures(T::cmp, (&self.inner(), &other.inner()), order),
            T::obeys_cmp_spec() ==> order == self.inner().cmp_spec(&other.inner()),
    {
        self.deref().cmp(other.deref())
    }

    /// A wrapper of a clone of the value, which checks exactly if this one does. The clone
    /// is made by `T`'s own `clone` and is not tested: where it equals the value, the new
    /// wrapper is accessible too.
    pub fn clone(&self) -> (copy: Self) where T: Clone
        requires
            self.accessible(),
        ensures
            copy.enabled() == self.enabled(),
            cloned(self.inner(), copy.inner()),
            copy.inner() == self.inner() ==> copy.accessible(),
    {
        Valid { enabled: self.enabled, inner: self.deref().clone() }
    }

    /// Feeds the value to a hasher, by `T`'s own `hash`.
    pub fn hash<H: Hasher>(&self, state: &mut H) where T: Hash
        requires
            self.accessible(),
    {
        feed(self.deref(), state)
    }

    /// The value in `T`'s own `Display` form, tested or not.
    pub fn to_string(&self) -> (text: String) where T: Display
        ensures
            to_string_from_display_ensures::<T>(&self.inner(), text),
    {
        self.inner.to_string()
    }
}

/// The wrapper of `T`'s default value, with checking enabled. The value is not tested.
impl<T: Validate + Default> Default for Valid<T> {
    fn default() -> (wrapper: Self)
        ensures
            wrapper.enabled(),
            call_ensures(T::default, (), wrapper.inner()),
    {
        Valid { enabled: true, inner: T::default() }
    }
}

/// The duplicate of a wrapper of a `Copy` value: the same bytes, with no test.
impl<T: Validate + Copy> Clone for Valid<T> {
    fn clone(&self) -> (copy: Self)
        ensures
            copy == *self,
    {
        *self
    }
}

impl<T: Validate + Copy> Copy for Valid<T> {}

} // verus!
