//! The wrapping policy: values above the range reduce modulo the range
//! width; residual error at the boundary saturates.

use vstd::prelude::*;

use vstd::arithmetic::div_mod::lemma_mod_bound;
use vstd::arithmetic::div_mod::lemma_mod_multiples_vanish;

use crate::bounded::Bounds;
use crate::bounded::NOneOne;
use crate::bounded::ZeroMax;
use crate::bounded::ZeroOne;
use crate::proxy::Constraint;
use crate::proxy::Proxy;
use crate::proxy::ProxyExt;
use crate::proxy::fits_candidate;

verus! {

/// Kind marker of the wrapped wrapper family.
#[derive(Debug)]
pub struct WrappedKind;

/// A wrapper whose raw inputs wrap around the range of the policy `B`.
pub type Wrapped<B> = Proxy<WrappedKind, B>;

/// A wrapped non-negative value.
pub type WrappedPositive = Wrapped<ZeroMax>;

/// A wrapped value in the unit range `[0, 1]`.
pub type WrappedUnit = Wrapped<ZeroOne>;

/// A wrapped value in the symmetric unit range `[-1, 1]`.
pub type WrappedSignedUnit = Wrapped<NOneOne>;

/// The wrapped value of `v` for the range `[min, max]`, whose width is
/// `max - min`: above the range, the congruent value in `[min, max)`; below
/// the range, `max` (the correction term overshoots the top of the range
/// and the residual clamp saturates it there); within the range, `v`
/// itself.
pub open spec fn spec_wrap(v: int, min: int, max: int) -> int {
    if v > max {
        min + (v - min) % (max - min)
    } else if v < min {
        max
    } else {
        v
    }
}

/// The wrapped value always lies within the range.
pub proof fn lemma_wrap_in_range(v: int, min: int, max: int)
    requires
        min <= max,
        v < min || v > max ==> min < max,
    ensures
        min <= spec_wrap(v, min, max) <= max,
{
    if v > max {
        lemma_mod_bound(v - min, max - min);
    }
}

/// Wrapping is invariant under shifts by whole multiples of the range
/// width, as long as the shift keeps the value on the same side of the
/// range: strictly above it, or strictly below it.
pub proof fn lemma_wrap_congruence(v: int, k: int, min: int, max: int)
    requires
        min < max,
        (v > max && v + k * (max - min) > max) || (v < min && v + k * (max - min) < min),
    ensures
        spec_wrap(v + k * (max - min), min, max) == spec_wrap(v, min, max),
{
    if v > max {
        lemma_mod_multiples_vanish(k, v - min, max - min);
    }
}

/// Within or above the range, wrapping behaves like modular reduction: the
/// wrapped value is congruent to the raw value modulo the range width.
pub proof fn lemma_wrap_residue(v: int, min: int, max: int)
    requires
        min < max,
        v >= min,
    ensures
        (spec_wrap(v, min, max) - v) % (max - min) == 0,
{
    let w = max - min;
    if v > max {
        vstd::arithmetic::div_mod::lemma_fundamental_div_mod(v - min, w);
        let q = (v - min) / w;
        let r = (v - min) % w;
        assert(spec_wrap(v, min, max) - v == (-q) * w) by (nonlinear_arith)
            requires
                v - min == w * q + r,
                spec_wrap(v, min, max) == min + r,
        ;
        vstd::arithmetic::div_mod::lemma_mod_multiples_basic(-q, w);
    } else {
        vstd::arithmetic::div_mod::lemma_mod_multiples_basic(0, w);
    }
}

impl<B: Bounds> Constraint<WrappedKind> for B {
    // A range of width zero leaves nothing to reduce an out-of-range value
    // by, so such a candidate is rejected; every other candidate wraps.
    open spec fn spec_map(inner: int) -> Option<int> {
        if B::min_spec() <= inner <= B::max_spec() || B::min_spec() < B::max_spec() {
            Some(spec_wrap(inner, B::min_spec(), B::max_spec()))
        } else {
            None
        }
    }

    proof fn map_in_range(inner: int) {
        B::ordered();
        if <B as Constraint<WrappedKind>>::spec_map(inner) is Some {
            lemma_wrap_in_range(inner, B::min_spec(), B::max_spec());
        }
    }

    proof fn map_fixes_in_range(inner: int) {
    }

    fn map(inner: i128) -> (r: Option<i64>) {
        let min = B::min_value();
        let max = B::max_value();
        if min < max {
            Some(wrap_wide(inner, min, max))
        } else if min as i128 <= inner && inner <= max as i128 {
            Some(inner as i64)
        } else {
            None
        }
    }
}

/// Wraps a wide intermediate value into `[min, max]`.
pub(crate) fn wrap_wide(value: i128, min: i64, max: i64) -> (r: i64)
    requires
        min < max,
        fits_candidate(value as int),
    ensures
        r as int == spec_wrap(value as int, min as int, max as int),
{
    if value > max as i128 {
        let w = max as i128 - min as i128;
        let rem = (value - min as i128) % w;
        proof {
            lemma_mod_bound(value as int - min as int, max as int - min as int);
        }
        (min as i128 + rem) as i64
    } else if value < min as i128 {
        max
    } else {
        value as i64
    }
}

/// Wraps `value` into `[min, max]`.  A value above the range reduces to the
/// congruent value in `[min, max)`; one below the range saturates to `max`;
/// a width of zero leaves nothing to reduce by, so the value must already
/// be in range.
pub fn wrap(value: i64, min: i64, max: i64) -> (r: i64)
    requires
        min <= max,
        value < min || value > max ==> min < max,
    ensures
        r as int == spec_wrap(value as int, min as int, max as int),
{
    if min < max {
        wrap_wide(value as i128, min, max)
    } else {
        value
    }
}

impl<B: Bounds> PartialEq for Proxy<WrappedKind, B> {
    fn eq(&self, other: &Self) -> (r: bool) {
        *self.as_ref() == *other.as_ref()
    }
}

impl<B: Bounds> vstd::std_specs::cmp::PartialEqSpecImpl for Proxy<WrappedKind, B> {
    open spec fn obeys_eq_spec() -> bool {
        true
    }

    open spec fn eq_spec(&self, other: &Self) -> bool {
        self@ == other@
    }
}

impl<B: Bounds> Eq for Proxy<WrappedKind, B> {

}

impl<B: Bounds> PartialEq<i64> for Proxy<WrappedKind, B> {
    fn eq(&self, other: &i64) -> (r: bool) {
        *self.as_ref() == *other
    }
}

impl<B: Bounds> vstd::std_specs::cmp::PartialEqSpecImpl<i64> for Proxy<WrappedKind, B> {
    open spec fn obeys_eq_spec() -> bool {
        true
    }

    open spec fn eq_spec(&self, other: &i64) -> bool {
        self@ == *other
    }
}

impl<B: Bounds> PartialOrd for Proxy<WrappedKind, B> {
    fn partial_cmp(&self, other: &Self) -> (r: Option<core::cmp::Ordering>) {
        let a = *self.as_ref();
        let b = *other.as_ref();
        if a < b {
            Some(core::cmp::Ordering::Less)
        } else if a == b {
            Some(core::cmp::Ordering::Equal)
        } else {
            Some(core::cmp::Ordering::Greater)
        }
    }
}

impl<B: Bounds> vstd::std_specs::cmp::PartialOrdSpecImpl for Proxy<WrappedKind, B> {
    open spec fn obeys_partial_cmp_spec() -> bool {
        true
    }

    open spec fn partial_cmp_spec(&self, other: &Self) -> Option<core::cmp::Ordering> {
        if self@ < other@ {
            Some(core::cmp::Ordering::Less)
        } else if self@ == other@ {
            Some(core::cmp::Ordering::Equal)
        } else {
            Some(core::cmp::Ordering::Greater)
        }
    }
}

impl<B: Bounds> PartialOrd<i64> for Proxy<WrappedKind, B> {
    fn partial_cmp(&self, other: &i64) -> (r: Option<core::cmp::Ordering>) {
        let a = *self.as_ref();
        if a < *other {
            Some(core::cmp::Ordering::Less)
        } else if a == *other {
            Some(core::cmp::Ordering::Equal)
        } else {
            Some(core::cmp::Ordering::Greater)
        }
    }
}

impl<B: Bounds> vstd::std_specs::cmp::PartialOrdSpecImpl<i64> for Proxy<WrappedKind, B> {
    open spec fn obeys_partial_cmp_spec() -> bool {
        true
    }

    open spec fn partial_cmp_spec(&self, other: &i64) -> Option<core::cmp::Ordering> {
        if self@ < *other {
            Some(core::cmp::Ordering::Less)
        } else if self@ == *other {
            Some(core::cmp::Ordering::Equal)
        } else {
            Some(core::cmp::Ordering::Greater)
        }
    }
}

impl<B: Bounds> Proxy<WrappedKind, B> {
    /// The policy's minimum as a wrapper; valid by construction of the
    /// policy itself, so no validation is needed.
    pub fn min_value() -> (r: Self)
        ensures
            r@ == B::min_spec(),
    {
        proof {
            B::ordered();
        }
        Proxy::from_inner_unchecked(B::min_value())
    }

    /// The policy's maximum as a wrapper; valid by construction of the
    /// policy itself.
    pub fn max_value() -> (r: Self)
        ensures
            r@ == B::max_spec(),
    {
        proof {
            B::ordered();
        }
        Proxy::from_inner_unchecked(B::max_value())
    }
}

} // verus!
