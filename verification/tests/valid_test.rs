use std::cmp::Ordering;
use std::collections::hash_map::DefaultHasher;
use std::fmt::Debug;
use std::fmt::Display;
use std::fmt::Formatter;
use std::hash::Hash;
use std::hash::Hasher;

use validit::macros::less_equal;
use validit::InvariantViolation;
use validit::Valid;
use validit::Validate;
use validit::ValidateExt;

#[derive(Debug, Clone, Default, PartialEq, Eq, PartialOrd, Ord, Hash, Copy)]
struct Foo {
    le_10: u64,
}

impl Foo {
    fn new_valid(le_10: u64) -> Valid<Self> {
        Self { le_10 }.valid()
    }
}

impl Validate for Foo {
    fn is_valid(&self) -> bool {
        self.le_10 <= 10
    }

    fn validate(&self) -> Result<(), InvariantViolation> {
        less_equal("self.le_10", self.le_10, "10", 10, "src/foo.rs", 27)?;
        Ok(())
    }
}

impl Display for Foo {
    fn fmt(&self, f: &mut Formatter<'_>) -> std::fmt::Result {
        f.write_str(&format!("Foo:{}", self.le_10))
    }
}

fn assert_debug<T: Debug>(_t: &T) {}

fn assert_copy<T: Copy>(_t: &T) {}

fn hash_of<T: Hash>(value: &T) -> u64 {
    let mut hasher = DefaultHasher::new();
    value.hash(&mut hasher);
    hasher.finish()
}

#[test]
#[allow(clippy::redundant_clone)]
#[allow(clippy::clone_on_copy)]
#[allow(clippy::bool_assert_comparison)]
fn test_valid_derived_trait() {
    let a = Valid::new(Foo { le_10: 3 });
    let b = Valid::new(Foo { le_10: 4 });

    // Debug
    assert_debug(&a);

    // Display
    println!("Display: {}", Valid::new(Foo { le_10: 3 }).to_string());

    // Default
    assert_eq!(
        true,
        Valid::eq(&Valid::new(Foo { le_10: 0 }), &Valid::<Foo>::default()),
        "impl Default"
    );

    // Clone
    let _clone = Valid::new(Foo { le_10: 3 }).clone();

    // Copy
    let c = &a;
    let d = *c;
    assert_eq!(true, Valid::eq(&a, &d));

    // PartialEq
    assert_eq!(false, Valid::eq(&a, &b));

    // PartialOrd
    assert_eq!(Some(Ordering::Less), Valid::partial_cmp(&a, &b));

    // Ord
    assert_eq!(Ordering::Less, Valid::cmp(&a, &b));

    // Hash
    let mut state = DefaultHasher::new();
    a.hash(&mut state);
    assert_eq!(hash_of(&Foo { le_10: 3 }), state.finish());
}

#[test]
#[allow(clippy::clone_on_copy)]
#[allow(clippy::deref_addrof)]
fn test_valid_trigger_validation() {
    // Debug does not look at the invariant
    assert_eq!(
        "Valid { enabled: true, inner: Foo { le_10: 20 } }",
        format!("{:?}", Foo::new_valid(20))
    );

    // Display does not look at the invariant
    assert_eq!("Foo:20", Foo::new_valid(20).to_string());

    // Copy does not look at the invariant
    let copy = *&Foo::new_valid(20);
    assert_eq!(Foo { le_10: 20 }, copy.into_inner());

    // Every checked operation is guarded by the same test, which fails here
    assert!(Foo::new_valid(20).check().is_err());
    assert!(Foo::new_valid(1).check().is_ok());
}

#[test]
fn test_valid_deref() {
    // an invalid state is refused
    let f = Valid::new(Foo { le_10: 20 });
    assert!(f.check().is_err());

    // Disable validation
    let mut f = Valid::new(Foo { le_10: 20 });
    f.enable_validation(false);
    assert!(f.check().is_ok());
    assert_eq!(20, f.deref().le_10);

    // valid state
    let f = Valid::new(Foo { le_10: 10 });
    assert_eq!(10, f.deref().le_10);

    // nothing is refused when the state just becomes invalid
    let mut f = Valid::new(Foo { le_10: 10 });
    assert!(f.check().is_ok());
    f.deref_mut().le_10 += 3;

    // the next write access is refused
    assert!(f.check().is_err());
}

#[test]
fn test_valid_impl_for_ref() {
    // Valid
    let f = Foo { le_10: 5 };
    let f = Valid::new(&f);
    assert!(f.check().is_ok());
    assert_eq!(5, f.deref().le_10);

    // Invalid
    let f = Foo { le_10: 20 };
    let f = Valid::new(&f);
    assert!(f.check().is_err());
}

#[test]
fn test_valid_as_ref() {
    // Invalid
    let f = Foo { le_10: 20 };
    let f = Valid::new(f);
    assert!(f.check().is_err());

    // Check `enabled` is inherited
    let mut f = Foo::new_valid(10);

    let r = f.as_ref();
    assert!(r.is_enabled());
    assert_eq!(10, r.deref().le_10);

    f.enable_validation(false);
    let r = f.as_ref();
    assert!(!r.is_enabled());

    // a disabled wrapper of an invalid value hands out a disabled view
    let mut f = Foo::new_valid(20);
    f.enable_validation(false);
    let r = f.as_ref();
    assert!(!r.is_enabled());
    assert_eq!(20, r.deref().le_10);
}

#[test]
fn test_set_validation() {
    let mut f = Foo::new_valid(10);
    assert!(f.is_enabled());

    f.enable_validation(false);
    assert!(!f.is_enabled());

    f.enable_validation(true);
    assert!(f.is_enabled());
}

#[test]
fn test_valid_into_inner() {
    let f = Foo { le_10: 20 };
    let f = Valid::new(f);
    let got = f.into_inner();
    assert_eq!(Foo { le_10: 20 }, got);
}

#[test]
fn valid_value_is_always_accessible() {
    for v in 0..=10u64 {
        let mut f = Foo::new_valid(v);
        assert!(f.check().is_ok());
        assert_eq!(v, f.deref().le_10);
        assert_eq!(v, f.deref_mut().le_10);
        assert_eq!(v, f.as_ref().deref().le_10);
        assert_eq!(v, f.clone().into_inner().le_10);
        assert!(f.eq(&Foo::new_valid(v)));
        f.enable_validation(false);
        assert!(f.check().is_ok());
        assert_eq!(v, f.deref().le_10);
    }
}

#[test]
fn invalid_value_is_refused_with_its_description() {
    let f = Foo::new_valid(20);
    let violation = f.check().unwrap_err();
    assert_eq!("expect: self.le_10(20) <= 10(10) at src/foo.rs:27", violation.message());
    assert_eq!("expect: self.le_10(20) <= 10(10) at src/foo.rs:27", violation.to_string());
    assert_eq!(violation.message(), violation.clone().message());
}

#[test]
fn write_is_not_tested_until_the_next_access() {
    let mut f = Valid::new(Foo { le_10: 10 });
    assert!(f.check().is_ok());
    f.deref_mut().le_10 += 3;
    assert!(f.check().is_err());
    assert_eq!(Foo { le_10: 13 }, f.into_inner());

    // a write that repairs the value makes it accessible again
    let mut f = Valid::new(Foo { le_10: 20 });
    f.enable_validation(false);
    f.deref_mut().le_10 = 7;
    f.enable_validation(true);
    assert!(f.check().is_ok());
    assert_eq!(7, f.deref().le_10);
}

#[test]
fn disabling_allows_access_and_enabling_refuses_again() {
    let mut f = Foo::new_valid(20);
    assert!(f.check().is_err());

    f.enable_validation(false);
    assert!(f.check().is_ok());
    assert_eq!(20, f.deref().le_10);

    f.enable_validation(true);
    assert!(f.check().is_err());
}

#[test]
#[allow(clippy::clone_on_copy)]
fn clone_keeps_value_and_flag() {
    let mut f = Foo::new_valid(3);
    let mut c = f.clone();
    assert!(c.is_enabled());
    assert!(c.check().is_ok());
    assert_eq!(3, c.deref().le_10);

    // the two are independent
    c.deref_mut().le_10 = 30;
    assert!(c.check().is_err());
    assert!(f.check().is_ok());
    assert_eq!(3, f.deref().le_10);

    f.enable_validation(false);
    let c = f.clone();
    assert!(!c.is_enabled());
}

#[test]
fn comparisons_are_those_of_the_values() {
    for a in 0..=10u64 {
        for b in 0..=10u64 {
            let x = Foo::new_valid(a);
            let y = Foo::new_valid(b);
            assert_eq!(a == b, x.eq(&y));
            assert_eq!(a.partial_cmp(&b), x.partial_cmp(&y));
            assert_eq!(a.cmp(&b), x.cmp(&y));
        }
    }
    assert_eq!(Ordering::Less, Foo::new_valid(3).cmp(&Foo::new_valid(4)));
    assert_eq!(Ordering::Greater, Foo::new_valid(4).cmp(&Foo::new_valid(3)));
    assert_eq!(Ordering::Equal, Foo::new_valid(4).cmp(&Foo::new_valid(4)));

    // the flag takes no part in a comparison
    let mut x = Foo::new_valid(4);
    x.enable_validation(false);
    assert!(x.eq(&Foo::new_valid(4)));
}

#[test]
fn hash_is_that_of_the_value() {
    let mut state = DefaultHasher::new();
    Foo::new_valid(7).hash(&mut state);
    assert_eq!(hash_of(&Foo { le_10: 7 }), state.finish());
    assert_ne!(hash_of(&Foo { le_10: 8 }), state.finish());

    // a hasher that was fed before is fed further
    let mut state = DefaultHasher::new();
    1u8.hash(&mut state);
    let before = state.finish();
    Foo::new_valid(7).hash(&mut state);
    assert_ne!(before, state.finish());
}

#[test]
fn default_wraps_the_default_value() {
    let f = Valid::<Foo>::default();
    assert!(f.is_enabled());
    assert_eq!(Foo::default(), f.into_inner());
}

#[test]
fn copy_duplicates_without_a_test() {
    let mut f = Foo::new_valid(20);
    assert_copy(&f);
    let g = f;
    assert!(g.is_enabled());
    assert_eq!(20, g.into_inner().le_10);
    let h = Clone::clone(&f);
    assert_eq!(20, h.into_inner().le_10);
    f.enable_validation(false);
    let k = f;
    assert!(!k.is_enabled());
}

#[test]
fn into_inner_returns_the_stored_value() {
    for v in [0u64, 10, 11, 20, u64::MAX] {
        assert_eq!(Foo { le_10: v }, Foo::new_valid(v).into_inner());
        let mut f = Foo::new_valid(v);
        f.enable_validation(false);
        assert_eq!(Foo { le_10: v }, f.into_inner());
    }
}
