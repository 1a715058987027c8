//! Range-constrained numeric values.
//!
//! A [`Proxy`](proxy::Proxy) wraps one `i64` and guarantees, at every
//! observable moment, that the wrapped value is a fixed point of its
//! governing constraint policy: validating the stored value returns it
//! unchanged.  Two total policies are provided: clamping ([`Clamped`]),
//! which saturates out-of-range values to the nearest bound, and wrapping
//! ([`Wrapped`]), which reduces values above the range modulo the range
//! width and saturates values below it.  Algebraic operations such as the
//! additive identity or negation are exposed only on policies whose
//! declared capabilities license them; misuse is a build-time error.

use vstd::prelude::*;

mod bounded;
mod proxy;

pub use proxy::Capability;
pub use proxy::Constraint;
pub use proxy::Member;
pub use proxy::NegativeSet;
pub use proxy::OneSet;
pub use proxy::Proxy;
pub use proxy::ProxyExt;
pub use proxy::ZeroSet;
pub use proxy::lemma_arithmetic_closure;
pub use proxy::lemma_negation_capability_sound;
pub use proxy::lemma_one_capability_sound;
pub use proxy::lemma_validate_idempotent;
pub use proxy::lemma_zero_capability_sound;
pub use proxy::spec_div_trunc;
pub use proxy::spec_rem_trunc;
pub use proxy::fits_candidate;
pub use bounded::Bounds;
pub use bounded::NOneOne;
pub use bounded::ZeroMax;
pub use bounded::ZeroOne;
pub use bounded::ZeroTo16;
pub use bounded::ZeroTo32;
pub use bounded::OneTo16;
pub use bounded::clamped::Clamped;
pub use bounded::clamped::ClampedKind;
pub use bounded::clamped::ClampedPositive;
pub use bounded::clamped::ClampedSignedUnit;
pub use bounded::clamped::ClampedUnit;
pub use bounded::clamped::clamp;
pub use bounded::clamped::lemma_clamp_saturates;
pub use bounded::clamped::spec_clamp;
pub use bounded::wrapped::Wrapped;
pub use bounded::wrapped::WrappedKind;
pub use bounded::wrapped::WrappedPositive;
pub use bounded::wrapped::WrappedSignedUnit;
pub use bounded::wrapped::WrappedUnit;
pub use bounded::wrapped::lemma_wrap_congruence;
pub use bounded::wrapped::lemma_wrap_in_range;
pub use bounded::wrapped::lemma_wrap_residue;
pub use bounded::wrapped::spec_wrap;
pub use bounded::wrapped::wrap;

verus! {

/// A plain numeric carrier type that a wrapper can hand its value back to.
pub trait Primitive {

}

impl Primitive for isize {

}

impl Primitive for usize {

}

impl Primitive for i8 {

}

impl Primitive for i16 {

}

impl Primitive for i32 {

}

impl Primitive for i64 {

}

impl Primitive for u8 {

}

impl Primitive for u16 {

}

impl Primitive for u32 {

}

impl Primitive for u64 {

}

/// Conversion into the plain numeric carrier behind a value.
pub trait IntoPrimitive: Sized {
    /// The carrier type the value unwraps to.
    type Primitive: Primitive;

    fn into_primitive(self) -> Self::Primitive;
}

impl<T: Primitive> IntoPrimitive for T {
    type Primitive = Self;

    fn into_primitive(self) -> (r: Self::Primitive)
        ensures
            r == self,
    {
        self
    }
}

} // verus!
