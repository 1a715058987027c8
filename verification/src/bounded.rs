//! Range policies: inclusive bounds for a numeric domain, and the built-in
//! policies that enforce them by clamping or wrapping.

use vstd::prelude::*;

use crate::proxy::Member;
use crate::proxy::NegativeSet;
use crate::proxy::OneSet;
use crate::proxy::ZeroSet;

pub mod clamped;
pub mod wrapped;

verus! {

/// A range policy: the inclusive minimum and maximum of a numeric domain.
///
/// An implementation fixes the two bounds once, at compile time; `ordered`
/// obliges every implementation to prove `min <= max`, so a malformed policy
/// is rejected before the program can run.
pub trait Bounds: Sized {
    /// The inclusive minimum of the domain.
    spec fn min_spec() -> int;

    /// The inclusive maximum of the domain.
    spec fn max_spec() -> int;

    /// Every policy's minimum is at most its maximum.
    proof fn ordered()
        ensures
            Self::min_spec() <= Self::max_spec(),
    ;

    fn min_value() -> (r: i64)
        ensures
            r as int == Self::min_spec(),
    ;

    fn max_value() -> (r: i64)
        ensures
            r as int == Self::max_spec(),
    ;
}

/// The symmetric unit range `[-1, 1]`.
#[derive(Debug)]
pub struct NOneOne;

impl Bounds for NOneOne {
    open spec fn min_spec() -> int {
        -1
    }

    open spec fn max_spec() -> int {
        1
    }

    proof fn ordered() {
    }

    fn min_value() -> (r: i64) {
        -1
    }

    fn max_value() -> (r: i64) {
        1
    }
}

impl Member<NegativeSet> for NOneOne {
    proof fn member() {
    }
}

impl Member<OneSet> for NOneOne {
    proof fn member() {
    }
}

impl Member<ZeroSet> for NOneOne {
    proof fn member() {
    }
}

/// The non-negative range `[0, i64::MAX]`.
#[derive(Debug)]
pub struct ZeroMax;

impl Bounds for ZeroMax {
    open spec fn min_spec() -> int {
        0
    }

    open spec fn max_spec() -> int {
        i64::MAX as int
    }

    proof fn ordered() {
    }

    fn min_value() -> (r: i64) {
        0
    }

    fn max_value() -> (r: i64) {
        i64::MAX
    }
}

/// The unit range `[0, 1]`.
#[derive(Debug)]
pub struct ZeroOne;

impl Bounds for ZeroOne {
    open spec fn min_spec() -> int {
        0
    }

    open spec fn max_spec() -> int {
        1
    }

    proof fn ordered() {
    }

    fn min_value() -> (r: i64) {
        0
    }

    fn max_value() -> (r: i64) {
        1
    }
}

impl Member<OneSet> for ZeroOne {
    proof fn member() {
    }
}

impl Member<ZeroSet> for ZeroOne {
    proof fn member() {
    }
}

/// An ad-hoc range declared inline for one call site: `[0, 16]`.
///
/// Declaring a range is writing a zero-size struct with a [`Bounds`]
/// impl whose bounds are literals.  The `ordered` obligation stands in for
/// a compile-time assertion: a range whose minimum exceeds its maximum has
/// no proof, so it is rejected before the program can run.
#[derive(Debug)]
pub struct ZeroTo16;

impl Bounds for ZeroTo16 {
    open spec fn min_spec() -> int {
        0
    }

    open spec fn max_spec() -> int {
        16
    }

    proof fn ordered() {
    }

    fn min_value() -> (r: i64) {
        0
    }

    fn max_value() -> (r: i64) {
        16
    }
}

/// An ad-hoc range declared inline for one call site: `[0, 32]`.
#[derive(Debug)]
pub struct ZeroTo32;

impl Bounds for ZeroTo32 {
    open spec fn min_spec() -> int {
        0
    }

    open spec fn max_spec() -> int {
        32
    }

    proof fn ordered() {
    }

    fn min_value() -> (r: i64) {
        0
    }

    fn max_value() -> (r: i64) {
        32
    }
}

/// An ad-hoc range declared inline for one call site: `[1, 16]`.
#[derive(Debug)]
pub struct OneTo16;

impl Bounds for OneTo16 {
    open spec fn min_spec() -> int {
        1
    }

    open spec fn max_spec() -> int {
        16
    }

    proof fn ordered() {
    }

    fn min_value() -> (r: i64) {
        1
    }

    fn max_value() -> (r: i64) {
        16
    }
}

} // verus!
