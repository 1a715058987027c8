//! The wrapper type end to end: construction, arithmetic, capabilities.

use constrained::Clamped;
use constrained::ClampedPositive;
use constrained::ClampedSignedUnit;
use constrained::NOneOne;
use constrained::OneTo16;
use constrained::Wrapped;
use constrained::WrappedSignedUnit;
use constrained::ZeroTo16;
use constrained::ZeroTo32;
use constrained::IntoPrimitive;
use constrained::ProxyExt;

#[test]
fn clamped_macro_types() {
    let x = Clamped::<ZeroTo16>::from(0);
    let y = x.add_inner(32);
    let z = x.sub_inner(32);

    assert_eq!(y, 16);
    assert_eq!(z, 0);
}

#[test]
fn wrapped_macro_types() {
    let x = Wrapped::<OneTo16>::from(1);
    let y = x.add_inner(33);
    let z = x.sub_inner(1);

    assert_eq!(y, 4);
    assert_eq!(z, 16);
}

#[test]
fn clamp_foo() {
    let _ = Clamped::<ZeroTo16>::from(0);
    let _ = Clamped::<ZeroTo32>::from(0);
}

#[test]
fn clamped_foo() {
    let _ = Clamped::<ZeroTo16>::from(0);
    let _ = Clamped::<ZeroTo32>::from(0);
}

#[test]
fn construction_validates() {
    assert_eq!(Clamped::<ZeroTo16>::from(100).into_inner(), 16);
    assert_eq!(Clamped::<ZeroTo16>::from(-100).into_inner(), 0);
    assert_eq!(Clamped::<ZeroTo16>::from(7).into_inner(), 7);
    assert_eq!(Wrapped::<OneTo16>::from(34).into_inner(), 4);
    assert_eq!(Wrapped::<OneTo16>::from(-5).into_inner(), 16);
}

#[test]
fn construction_is_idempotent() {
    // Feeding a validated value back through construction changes nothing.
    for raw in [-100i64, -1, 0, 5, 16, 17, 1000] {
        let once = Clamped::<ZeroTo16>::from(raw).into_inner();
        assert_eq!(Clamped::<ZeroTo16>::from(once).into_inner(), once);
        let once = Wrapped::<OneTo16>::from(raw).into_inner();
        assert_eq!(Wrapped::<OneTo16>::from(once).into_inner(), once);
    }
}

#[test]
fn try_from_inner_accepts_everything_for_total_policies() {
    let p = Clamped::<ZeroTo16>::try_from_inner(1000).unwrap();
    assert_eq!(p, 16);
    let w = Wrapped::<OneTo16>::try_from_inner(-3).unwrap();
    assert_eq!(w, 16);
}

#[test]
fn arithmetic_closure() {
    // Results of arithmetic always satisfy the policy, with no clamp after.
    let a = Clamped::<ZeroTo16>::from(10);
    let b = Clamped::<ZeroTo16>::from(9);
    for v in [
        a.add(b).into_inner(),
        a.sub(b).into_inner(),
        a.mul(b).into_inner(),
        a.div(b).into_inner(),
        a.rem(b).into_inner(),
    ] {
        assert!((0..=16).contains(&v));
    }
    assert_eq!(a.add(b), 16);
    assert_eq!(a.sub(b), 1);
    assert_eq!(a.mul(b), 16);
    assert_eq!(a.div(b), 1);
    assert_eq!(a.rem(b), 1);

    let c = Wrapped::<OneTo16>::from(12);
    let d = Wrapped::<OneTo16>::from(9);
    for v in [
        c.add(d).into_inner(),
        c.sub(d).into_inner(),
        c.mul(d).into_inner(),
    ] {
        assert!((1..=16).contains(&v));
    }
    // 12 * 9 = 108 = 1 + 107; 107 mod 15 = 2.
    assert_eq!(c.mul(d), 3);
}

#[test]
fn in_place_arithmetic() {
    let mut x = Clamped::<ZeroTo16>::from(10);
    x.add_assign(Clamped::from(9));
    assert_eq!(x, 16);
    x.sub_assign_inner(30);
    assert_eq!(x, 0);
    let mut y = Wrapped::<OneTo16>::from(12);
    y.mul_assign_inner(9);
    assert_eq!(y, 3);
    y.div_assign_inner(2);
    assert_eq!(y, 1);
    y.add_assign_inner(6);
    y.rem_assign_inner(4);
    assert_eq!(y, 3);
}

#[test]
fn division_truncates_toward_zero() {
    let a = ClampedSignedUnit::from(-1);
    let b = ClampedSignedUnit::from(1);
    // -1 / 1 = -1 stays in range; likewise the remainder.
    assert_eq!(a.div(b), -1);
    assert_eq!(a.rem(b), 0);
    let c = Clamped::<ZeroTo16>::from(7);
    assert_eq!(c.div_inner(2), 3);
    assert_eq!(c.rem_inner(2), 1);
    assert_eq!(c.div_inner(-2), 0);
}

#[test]
fn capability_identities() {
    assert_eq!(ClampedSignedUnit::zero().into_inner(), 0);
    assert_eq!(ClampedSignedUnit::one().into_inner(), 1);
    assert_eq!(WrappedSignedUnit::zero().into_inner(), 0);
    assert_eq!(WrappedSignedUnit::one().into_inner(), 1);
    assert!(ClampedSignedUnit::zero().is_zero());
    assert!(!ClampedSignedUnit::one().is_zero());
}

#[test]
fn capability_negation() {
    let p = ClampedSignedUnit::from(25);
    assert_eq!(p.into_inner(), 1);
    assert_eq!(p.neg().into_inner(), -1);
    assert_eq!(p.neg().neg(), p);
    assert_eq!(ClampedSignedUnit::zero().neg().into_inner(), 0);
}

#[test]
fn capability_signed_operations() {
    let m = ClampedSignedUnit::from(-9);
    assert_eq!(m.into_inner(), -1);
    assert_eq!(m.abs().into_inner(), 1);
    assert_eq!(m.signum().into_inner(), -1);
    assert!(m.is_negative());
    assert!(!m.is_positive());

    let z = ClampedSignedUnit::zero();
    assert_eq!(z.signum().into_inner(), 0);
    assert!(!z.is_negative());
    assert!(!z.is_positive());

    let p = ClampedSignedUnit::one();
    assert_eq!(p.abs_sub(&m).into_inner(), 1);
    assert_eq!(m.abs_sub(&p).into_inner(), 0);
    assert_eq!(p.signum().into_inner(), 1);
}

#[test]
fn policy_bounds_as_wrappers() {
    assert_eq!(Clamped::<ZeroTo16>::min_value().into_inner(), 0);
    assert_eq!(Clamped::<ZeroTo16>::max_value().into_inner(), 16);
    assert_eq!(Wrapped::<OneTo16>::min_value().into_inner(), 1);
    assert_eq!(Wrapped::<OneTo16>::max_value().into_inner(), 16);
    assert_eq!(Clamped::<NOneOne>::min_value().into_inner(), -1);
    assert_eq!(ClampedPositive::min_value().into_inner(), 0);
    assert_eq!(ClampedPositive::max_value().into_inner(), i64::MAX);
}

#[test]
fn positive_policy_saturates_at_the_top() {
    let big = ClampedPositive::from(i64::MAX);
    let bigger = big.add_inner(i64::MAX);
    assert_eq!(bigger.into_inner(), i64::MAX);
    let below = ClampedPositive::from(-17);
    assert_eq!(below.into_inner(), 0);
}

#[test]
fn primitive_conversions() {
    let x = Clamped::<ZeroTo16>::from(9);
    assert_eq!(x.to_i64(), Some(9));
    assert_eq!(x.to_u64(), Some(9));
    assert_eq!(x.into_primitive(), 9);
    assert_eq!(9i64.into_primitive(), 9);
    let m = ClampedSignedUnit::from(-4);
    assert_eq!(m.to_i64(), Some(-1));
    assert_eq!(m.to_u64(), None);

    let y = Clamped::<ZeroTo16>::from_i64(100).unwrap();
    assert_eq!(y, 16);
    let z = Clamped::<ZeroTo16>::from_u64(3).unwrap();
    assert_eq!(z, 3);
    assert!(Clamped::<ZeroTo16>::from_u64(u64::MAX).is_none());
}

#[test]
fn observation_and_comparison() {
    let a = Clamped::<ZeroTo16>::from(5);
    let b = a;
    assert_eq!(a, b);
    assert_eq!(*a.as_ref(), 5);
    assert_eq!(a.clone(), a);
    let c = Clamped::<ZeroTo16>::from(6);
    assert!(a < c);
    assert!(a < 6);
    assert!(c > 5);
    assert_eq!(format!("{:?}", a.as_ref()), "5");
}

#[test]
fn kinds_share_bounds_but_not_behaviour() {
    // The same range under the two policies treats the same raw value
    // differently.
    let clamped = Clamped::<OneTo16>::from(34);
    let wrapped = Wrapped::<OneTo16>::from(34);
    assert_eq!(clamped.into_inner(), 16);
    assert_eq!(wrapped.into_inner(), 4);
}
