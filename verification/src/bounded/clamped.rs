//! The clamping policy: raw values saturate to the nearest bound.

use vstd::prelude::*;

use crate::bounded::Bounds;
use crate::bounded::NOneOne;
use crate::bounded::ZeroMax;
use crate::bounded::ZeroOne;
use crate::proxy::Constraint;
use crate::proxy::Proxy;
use crate::proxy::ProxyExt;

verus! {

/// Kind marker of the clamped wrapper family.
#[derive(Debug)]
pub struct ClampedKind;

/// A wrapper whose raw inputs saturate into the range of the policy `B`.
pub type Clamped<B> = Proxy<ClampedKind, B>;

/// A clamped non-negative value.
pub type ClampedPositive = Clamped<ZeroMax>;

/// A clamped value in the unit range `[0, 1]`.
pub type ClampedUnit = Clamped<ZeroOne>;

/// A clamped value in the symmetric unit range `[-1, 1]`.
pub type ClampedSignedUnit = Clamped<NOneOne>;

/// The value `v` saturated into `[min, max]`: the smaller of `max` and the
/// larger of `v` and `min`.
pub open spec fn spec_clamp(v: int, min: int, max: int) -> int {
    vstd::math::min(vstd::math::max(v, min), max)
}

/// Clamp saturation: below the range the result is `min`, above it `max`,
/// and within the range the value itself.
pub proof fn lemma_clamp_saturates(v: int, min: int, max: int)
    requires
        min <= max,
    ensures
        v < min ==> spec_clamp(v, min, max) == min,
        v > max ==> spec_clamp(v, min, max) == max,
        min <= v <= max ==> spec_clamp(v, min, max) == v,
{
}

impl<B: Bounds> Constraint<ClampedKind> for B {
    open spec fn spec_map(inner: int) -> Option<int> {
        Some(spec_clamp(inner, B::min_spec(), B::max_spec()))
    }

    proof fn map_in_range(inner: int) {
        B::ordered();
    }

    proof fn map_fixes_in_range(inner: int) {
    }

    fn map(inner: i128) -> (r: Option<i64>) {
        Some(clamp_wide(inner, B::min_value(), B::max_value()))
    }
}

/// Saturates a wide intermediate value into `[min, max]`.
pub(crate) fn clamp_wide(value: i128, min: i64, max: i64) -> (r: i64)
    ensures
        r as int == spec_clamp(value as int, min as int, max as int),
{
    let lower = if value >= min as i128 {
        value
    } else {
        min as i128
    };
    let upper = if lower <= max as i128 {
        lower
    } else {
        max as i128
    };
    upper as i64
}

/// Saturates `value` into `[min, max]`: the smaller of `max` and the larger
/// of `value` and `min`.
pub fn clamp(value: i64, min: i64, max: i64) -> (r: i64)
    ensures
        r as int == spec_clamp(value as int, min as int, max as int),
{
    let lower = if value >= min {
        value
    } else {
        min
    };
    if lower <= max {
        lower
    } else {
        max
    }
}

impl<B: Bounds> PartialEq for Proxy<ClampedKind, B> {
    fn eq(&self, other: &Self) -> (r: bool) {
        *self.as_ref() == *other.as_ref()
    }
}

impl<B: Bounds> vstd::std_specs::cmp::PartialEqSpecImpl for Proxy<ClampedKind, B> {
    open spec fn obeys_eq_spec() -> bool {
        true
    }

    open spec fn eq_spec(&self, other: &Self) -> bool {
        self@ == other@
    }
}

impl<B: Bounds> Eq for Proxy<ClampedKind, B> {

}

impl<B: Bounds> PartialEq<i64> for Proxy<ClampedKind, B> {
    fn eq(&self, other: &i64) -> (r: bool) {
        *self.as_ref() == *other
    }
}

impl<B: Bounds> vstd::std_specs::cmp::PartialEqSpecImpl<i64> for Proxy<ClampedKind, B> {
    open spec fn obeys_eq_spec() -> bool {
        true
    }

    open spec fn eq_spec(&self, other: &i64) -> bool {
        self@ == *other
    }
}

impl<B: Bounds> PartialOrd for Proxy<ClampedKind, B> {
    fn partial_cmp(&self, other: &Self) -> (r: Option<core::cmp::Ordering>) {
        let a = *self.as_ref();
        let b = *other.as_ref();
        if a < b {
            Some(core::cmp::Ordering::Less)
        } else if a == b {
            Some(core::cmp::Ordering::Equal)
        } else {
            Some(core::cmp::Ordering::Greater)
        }
    }
}

impl<B: Bounds> vstd::std_specs::cmp::PartialOrdSpecImpl for Proxy<ClampedKind, B> {
    open spec fn obeys_partial_cmp_spec() -> bool {
        true
    }

    open spec fn partial_cmp_spec(&self, other: &Self) -> Option<core::cmp::Ordering> {
        if self@ < other@ {
            Some(core::cmp::Ordering::Less)
        } else if self@ == other@ {
            Some(core::cmp::Ordering::Equal)
        } else {
            Some(core::cmp::Ordering::Greater)
        }
    }
}

impl<B: Bounds> PartialOrd<i64> for Proxy<ClampedKind, B> {
    fn partial_cmp(&self, other: &i64) -> (r: Option<core::cmp::Ordering>) {
        let a = *self.as_ref();
        if a < *other {
            Some(core::cmp::Ordering::Less)
        } else if a == *other {
            Some(core::cmp::Ordering::Equal)
        } else {
            Some(core::cmp::Ordering::Greater)
        }
    }
}

impl<B: Bounds> vstd::std_specs::cmp::PartialOrdSpecImpl<i64> for Proxy<ClampedKind, B> {
    open spec fn obeys_partial_cmp_spec() -> bool {
        true
    }

    open spec fn partial_cmp_spec(&self, other: &i64) -> Option<core::cmp::Ordering> {
        if self@ < *other {
            Some(core::cmp::Ordering::Less)
        } else if self@ == *other {
            Some(core::cmp::Ordering::Equal)
        } else {
            Some(core::cmp::Ordering::Greater)
        }
    }
}

impl<B: Bounds> Proxy<ClampedKind, B> {
    /// The policy's minimum as a wrapper; valid by construction of the
    /// policy itself, so no validation is needed.
    pub fn min_value() -> (r: Self)
        ensures
            r@ == B::min_spec(),
    {
        proof {
            B::ordered();
        }
        Proxy::from_inner_unchecked(B::min_value())
    }

    /// The policy's maximum as a wrapper; valid by construction of the
    /// policy itself.
    pub fn max_value() -> (r: Self)
        ensures
            r@ == B::max_spec(),
    {
        proof {
            B::ordered();
        }
        Proxy::from_inner_unchecked(B::max_value())
    }
}

} // verus!
