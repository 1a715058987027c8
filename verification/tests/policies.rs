//! The constraint policies as plain functions: saturation, wrapping, and
//! the laws both obey.

use constrained::clamp;
use constrained::wrap;

#[test]
fn clamp_saturates_below() {
    assert_eq!(clamp(-5, 0, 16), 0);
    assert_eq!(clamp(i64::MIN, 0, 16), 0);
}

#[test]
fn clamp_saturates_above() {
    assert_eq!(clamp(20, 0, 16), 16);
    assert_eq!(clamp(i64::MAX, 0, 16), 16);
}

#[test]
fn clamp_keeps_in_range_values() {
    assert_eq!(clamp(0, 0, 16), 0);
    assert_eq!(clamp(7, 0, 16), 7);
    assert_eq!(clamp(16, 0, 16), 16);
    assert_eq!(clamp(-1, -1, 1), -1);
}

#[test]
fn clamp_is_idempotent() {
    let once = clamp(300, -7, 23);
    assert_eq!(clamp(once, -7, 23), once);
    let once = clamp(-300, -7, 23);
    assert_eq!(clamp(once, -7, 23), once);
    let once = clamp(11, -7, 23);
    assert_eq!(clamp(once, -7, 23), once);
}

#[test]
fn wrap_reduces_above_the_range() {
    // Width 15: 34 is congruent to 4.
    assert_eq!(wrap(34, 1, 16), 4);
    // 17 is congruent to 2.
    assert_eq!(wrap(17, 1, 16), 2);
    // A value congruent to the minimum comes back as the minimum.
    assert_eq!(wrap(31, 1, 16), 1);
}

#[test]
fn wrap_saturates_below_the_range() {
    assert_eq!(wrap(0, 1, 16), 16);
    assert_eq!(wrap(-14, 1, 16), 16);
    assert_eq!(wrap(-1000, 1, 16), 16);
}

#[test]
fn wrap_keeps_in_range_values() {
    assert_eq!(wrap(1, 1, 16), 1);
    assert_eq!(wrap(9, 1, 16), 9);
    assert_eq!(wrap(16, 1, 16), 16);
    // A width of zero is fine for a value already in range.
    assert_eq!(wrap(3, 3, 3), 3);
}

#[test]
fn wrap_is_idempotent() {
    let once = wrap(500, 1, 16);
    assert_eq!(wrap(once, 1, 16), once);
    let once = wrap(-500, 1, 16);
    assert_eq!(wrap(once, 1, 16), once);
}

#[test]
fn wrap_congruent_above_the_range() {
    // Shifting by whole multiples of the width (15) does not change the
    // wrapped value, as long as the value stays above the range.
    let w = 15;
    assert_eq!(wrap(34 + w, 1, 16), wrap(34, 1, 16));
    assert_eq!(wrap(34 + 7 * w, 1, 16), wrap(34, 1, 16));
    assert_eq!(wrap(32 - w, 1, 16), wrap(32, 1, 16));
}

#[test]
fn wrap_stays_in_range() {
    for v in [-100i64, -16, -1, 0, 1, 8, 16, 17, 100, 12345] {
        let r = wrap(v, 1, 16);
        assert!((1..=16).contains(&r));
        let c = clamp(v, 1, 16);
        assert!((1..=16).contains(&c));
    }
}
