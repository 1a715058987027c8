//! The generic constrained-value wrapper and its policy abstraction.

use vstd::prelude::*;

use core::marker::PhantomData;

use crate::bounded::Bounds;

verus! {

/// Whether a raw candidate is narrow enough to hand to a policy: any sum,
/// difference, product, quotient or remainder of two values of the
/// underlying domain stays within this width, with room to spare.
pub open spec fn fits_candidate(inner: int) -> bool {
    -(0x4000_0000_0000_0000_0000_0000_0000_0000int) <= inner
        <= 0x4000_0000_0000_0000_0000_0000_0000_0000int
}

/// A constraint policy for wrappers of kind `K`: validation either maps a
/// raw candidate value to a value within the policy's bounds or rejects it.
///
/// `map_in_range` and `map_fixes_in_range` together make validation
/// idempotent: an accepted result lies in range, and an in-range value is
/// accepted unchanged (see [`lemma_validate_idempotent`]).
pub trait Constraint<K>: Bounds {
    /// What validation returns for a candidate, or `None` when the
    /// candidate is rejected.
    spec fn spec_map(inner: int) -> Option<int>;

    /// An accepted result always lies within the policy's bounds.
    proof fn map_in_range(inner: int)
        ensures
            Self::spec_map(inner) matches Some(v) ==> Self::min_spec() <= v <= Self::max_spec(),
    ;

    /// A value already within the bounds is accepted unchanged.
    proof fn map_fixes_in_range(inner: int)
        requires
            Self::min_spec() <= inner <= Self::max_spec(),
        ensures
            Self::spec_map(inner) == Some(inner),
    ;

    /// Runs the policy on a raw candidate.  The wide argument type leaves
    /// room for the intermediate result of arithmetic on in-range values.
    fn map(inner: i128) -> (r: Option<i64>)
        requires
            fits_candidate(inner as int),
        ensures
            match r {
                Some(v) => Self::spec_map(inner as int) == Some(v as int),
                None => Self::spec_map(inner as int) is None,
            },
    ;
}

/// Rust's truncating division on the mathematical integers: Euclidean
/// division of the non-negative dividend, negated back for a negative one.
pub open spec fn spec_div_trunc(a: int, b: int) -> int {
    if a >= 0 {
        a / b
    } else {
        -((-a) / b)
    }
}

/// Rust's truncating remainder on the mathematical integers: it satisfies
/// `a == b * spec_div_trunc(a, b) + spec_rem_trunc(a, b)` and takes the
/// dividend's sign.
pub open spec fn spec_rem_trunc(a: int, b: int) -> int {
    if a >= 0 {
        a % b
    } else {
        -((-a) % b)
    }
}

/// Euclidean division and remainder are insensitive to the divisor's sign,
/// up to the quotient's own sign.
proof fn lemma_div_negated_divisor(a: int, d: int)
    requires
        0 < d,
    ensures
        a / (-d) == -(a / d),
        a % (-d) == a % d,
{
    let q1 = a / d;
    let r1 = a % d;
    let q2 = a / (-d);
    let r2 = a % (-d);
    vstd::arithmetic::div_mod::lemma_fundamental_div_mod(a, d);
    vstd::arithmetic::div_mod::lemma_fundamental_div_mod(a, -d);
    vstd::arithmetic::div_mod::lemma_mod_bound(a, d);
    assert(q2 == -q1 && r2 == r1) by (nonlinear_arith)
        requires
            d > 0,
            d * q1 + r1 == a,
            (-d) * q2 + r2 == a,
            0 <= r1 < d,
            0 <= r2 < d,
    ;
}

/// The truncating quotient's magnitude never exceeds the dividend's.
proof fn lemma_div_trunc_bound(a: int, b: int)
    requires
        b != 0,
    ensures
        -vstd::math::abs(a) <= spec_div_trunc(a, b) <= vstd::math::abs(a),
{
    let m = if a >= 0 {
        a
    } else {
        -a
    };
    let d = if b > 0 {
        b
    } else {
        -b
    };
    vstd::arithmetic::div_mod::lemma_div_pos_is_pos(m, d);
    vstd::arithmetic::div_mod::lemma_div_nonincreasing(m, d);
    if b < 0 {
        lemma_div_negated_divisor(a, d);
        lemma_div_negated_divisor(-a, d);
    }
}

/// The truncating remainder's magnitude stays below the divisor's.
proof fn lemma_rem_trunc_bound(a: int, b: int)
    requires
        b != 0,
    ensures
        -vstd::math::abs(b) < spec_rem_trunc(a, b) < vstd::math::abs(b),
{
    let m = if a >= 0 {
        a
    } else {
        -a
    };
    let d = if b > 0 {
        b
    } else {
        -b
    };
    vstd::arithmetic::div_mod::lemma_mod_bound(m, d);
    if b < 0 {
        lemma_div_negated_divisor(a, d);
        lemma_div_negated_divisor(-a, d);
    }
}

/// The product of two values of the underlying domain fits a candidate.
proof fn lemma_mul_fits(a: int, b: int)
    requires
        i64::MIN <= a <= i64::MAX,
        i64::MIN <= b <= i64::MAX,
    ensures
        fits_candidate(a * b),
{
    assert(-(0x4000_0000_0000_0000_0000_0000_0000_0000int) <= a * b
        <= 0x4000_0000_0000_0000_0000_0000_0000_0000int) by (nonlinear_arith)
        requires
            -0x8000_0000_0000_0000 <= a <= 0x7FFF_FFFF_FFFF_FFFF,
            -0x8000_0000_0000_0000 <= b <= 0x7FFF_FFFF_FFFF_FFFF,
    ;
}

/// Idempotence of validation: whatever value a policy accepts, validating
/// that value again returns it unchanged.
pub proof fn lemma_validate_idempotent<K, C: Constraint<K>>(v: int)
    ensures
        C::spec_map(v) matches Some(w) ==> C::spec_map(w) == Some(w),
{
    if C::spec_map(v) is Some {
        C::map_in_range(v);
        C::map_fixes_in_range(C::spec_map(v)->0);
    }
}

/// Arithmetic closure: a sum, difference or product of two policy-accepted
/// values, once re-validated, is itself a fixed point of the policy, so no
/// second clamp is ever needed after an operation.
pub proof fn lemma_arithmetic_closure<K, C: Constraint<K>>(a: int, b: int)
    requires
        C::spec_map(a) == Some(a),
        C::spec_map(b) == Some(b),
    ensures
        C::spec_map(a + b) matches Some(w) ==> C::spec_map(w) == Some(w),
        C::spec_map(a - b) matches Some(w) ==> C::spec_map(w) == Some(w),
        C::spec_map(a * b) matches Some(w) ==> C::spec_map(w) == Some(w),
{
    lemma_validate_idempotent::<K, C>(a + b);
    lemma_validate_idempotent::<K, C>(a - b);
    lemma_validate_idempotent::<K, C>(a * b);
}

/// Capability: the range supports meaningful negation (it is symmetric
/// about zero).
#[derive(Debug)]
pub struct NegativeSet;

/// Capability: the multiplicative identity lies within the range.
#[derive(Debug)]
pub struct OneSet;

/// Capability: the additive identity lies within the range.
#[derive(Debug)]
pub struct ZeroSet;

/// An algebraic capability: a static fact about a range that licenses an
/// operation on the wrappers governed by it.
pub trait Capability {
    /// Whether the range `[min, max]` supports the capability.
    spec fn admits(min: int, max: int) -> bool;
}

impl Capability for NegativeSet {
    open spec fn admits(min: int, max: int) -> bool {
        min == -max
    }
}

impl Capability for OneSet {
    open spec fn admits(min: int, max: int) -> bool {
        min <= 1 <= max
    }
}

impl Capability for ZeroSet {
    open spec fn admits(min: int, max: int) -> bool {
        min <= 0 <= max
    }
}

/// Declares a range policy a member of capability set `E`.  Membership is
/// declared once per concrete policy and carries the proof that the
/// policy's range supports the capability; an operation gated on a
/// capability simply does not exist on wrappers whose policy lacks it.
pub trait Member<E: Capability>: Bounds {
    /// The policy's range supports the capability.
    proof fn member()
        ensures
            E::admits(Self::min_spec(), Self::max_spec()),
    ;
}

/// Capability soundness for the additive identity: a policy declared a
/// member of [`ZeroSet`] validates zero to itself, so `zero()` needs no
/// validation; a policy without the membership offers no `zero()` at all.
pub proof fn lemma_zero_capability_sound<K, C: Constraint<K> + Member<ZeroSet>>()
    ensures
        C::spec_map(0) == Some(0int),
{
    <C as Member<ZeroSet>>::member();
    C::map_fixes_in_range(0);
}

/// Capability soundness for the multiplicative identity: a policy declared
/// a member of [`OneSet`] validates one to itself.
pub proof fn lemma_one_capability_sound<K, C: Constraint<K> + Member<OneSet>>()
    ensures
        C::spec_map(1) == Some(1int),
{
    <C as Member<OneSet>>::member();
    C::map_fixes_in_range(1);
}

/// Capability soundness for negation: under a range declared a member of
/// [`NegativeSet`], the negation of any value the policy fixes is itself
/// fixed, so negating never leaves the range.
pub proof fn lemma_negation_capability_sound<K, C: Constraint<K> + Member<NegativeSet>>(v: int)
    ensures
        C::spec_map(v) == Some(v) ==> C::spec_map(-v) == Some(-v),
{
    if C::spec_map(v) == Some(v) {
        C::map_in_range(v);
        <C as Member<NegativeSet>>::member();
        C::map_fixes_in_range(-v);
    }
}

/// The constructors and raw-operation plumbing shared by every wrapper
/// family, stated over a spec hook that each family fills in with its own
/// policy's validation.
pub trait ProxyExt: Sized + View<V = int> {
    /// What the family's policy returns for a candidate.
    spec fn validate_spec(inner: int) -> Option<int>;

    /// Construction that bypasses validation.  The caller must prove that
    /// the value already satisfies the policy, so no unvalidated value can
    /// enter through this path.
    fn from_inner_unchecked(inner: i64) -> (r: Self)
        requires
            Self::validate_spec(inner as int) == Some(inner as int),
        ensures
            r@ == inner as int,
    ;

    /// Fallible construction: `None` exactly when the policy rejects the
    /// raw value.
    fn try_from_inner(inner: i64) -> (r: Option<Self>)
        ensures
            match r {
                Some(p) => Self::validate_spec(inner as int) == Some(p@),
                None => Self::validate_spec(inner as int) is None,
            },
    ;

    /// Consumes the wrapper, applies a raw operation to the value, and
    /// re-validates the result under the same policy.  The policy must
    /// accept every result the operation can produce for the stored value.
    fn map<F: FnOnce(i64) -> i128>(self, f: F) -> (r: Self)
        requires
            call_requires(f, ((self@) as i64,)),
            forall|y: i128|
                call_ensures(f, ((self@) as i64,), y) ==> fits_candidate(y as int)
                    && Self::validate_spec(y as int) is Some,
        ensures
            exists|y: i128|
                call_ensures(f, ((self@) as i64,), y) && Some(r@) == Self::validate_spec(y as int),
    ;

    /// Consumes two wrappers of one family, applies a raw binary operation
    /// to their values, and re-validates the result under the policy.
    fn zip_map<F: FnOnce(i64, i64) -> i128>(self, other: Self, f: F) -> (r: Self)
        requires
            call_requires(f, ((self@) as i64, (other@) as i64)),
            forall|y: i128|
                call_ensures(f, ((self@) as i64, (other@) as i64), y) ==> fits_candidate(y as int)
                    && Self::validate_spec(y as int) is Some,
        ensures
            exists|y: i128|
                call_ensures(f, ((self@) as i64, (other@) as i64), y) && Some(r@)
                    == Self::validate_spec(y as int),
    ;
}

/// A value of the underlying numeric domain that is guaranteed, at every
/// observable moment, to be a fixed point of the constraint policy `C`:
/// validating the stored value returns it unchanged.
///
/// `K` is a zero-size kind marker.  It keeps wrappers of distinct semantic
/// families apart even when the underlying policy logic coincides.
#[derive(Debug)]
pub struct Proxy<K, C> where C: Constraint<K> {
    inner: i64,
    phantom: PhantomData<(K, C)>,
}

impl<K, C: Constraint<K>> View for Proxy<K, C> {
    type V = int;

    closed spec fn view(&self) -> int {
        self.inner as int
    }
}

impl<K, C: Constraint<K>> Proxy<K, C> {
    /// The wrapper invariant: the stored value is a fixed point of the
    /// governing policy.
    #[verifier::type_invariant]
    spec fn validated(self) -> bool {
        C::spec_map(self.inner as int) == Some(self.inner as int)
    }

    /// Validated construction: runs the policy on a raw value.  The policy
    /// must accept the value; the two built-in policies accept every value.
    pub fn from(inner: i64) -> (r: Self)
        requires
            C::spec_map(inner as int) is Some,
        ensures
            Some(r@) == C::spec_map(inner as int),
            C::spec_map(r@) == Some(r@),
            C::min_spec() <= r@ <= C::max_spec(),
    {
        match C::map(inner as i128) {
            Some(v) => {
                proof {
                    C::map_in_range(inner as int);
                    C::map_fixes_in_range(v as int);
                }
                Proxy { inner: v, phantom: PhantomData }
            },
            None => vstd::pervasive::unreached(),
        }
    }

    /// Consumes the wrapper and returns the validated value.
    pub fn into_inner(self) -> (r: i64)
        ensures
            r as int == self@,
            C::spec_map(self@) == Some(self@),
            C::min_spec() <= self@ <= C::max_spec(),
    {
        proof {
            use_type_invariant(&self);
            C::map_in_range(self@);
        }
        self.inner
    }

    /// Adds two wrappers: the raw sum, re-validated under the policy.
    pub fn add(self, other: Self) -> (r: Self)
        requires
            C::spec_map(self@ + other@) is Some,
        ensures
            Some(r@) == C::spec_map(self@ + other@),
    {
        self.zip_map(
            other,
            (|x: i64, y: i64| -> (c: i128)
                ensures
                    c == x + y,
                {
                    x as i128 + y as i128
                }),
        )
    }

    /// Adds a raw value: the raw sum, re-validated under the policy.
    pub fn add_inner(self, y: i64) -> (r: Self)
        requires
            C::spec_map(self@ + y) is Some,
        ensures
            Some(r@) == C::spec_map(self@ + y),
    {
        self.map(
            (|x: i64| -> (c: i128)
                ensures
                    c == x + y,
                {
                    x as i128 + y as i128
                }),
        )
    }

    /// Subtracts two wrappers: the raw difference, re-validated under the
    /// policy.
    pub fn sub(self, other: Self) -> (r: Self)
        requires
            C::spec_map(self@ - other@) is Some,
        ensures
            Some(r@) == C::spec_map(self@ - other@),
    {
        self.zip_map(
            other,
            (|x: i64, y: i64| -> (c: i128)
                ensures
                    c == x - y,
                {
                    x as i128 - y as i128
                }),
        )
    }

    /// Subtracts a raw value: the raw difference, re-validated under the
    /// policy.
    pub fn sub_inner(self, y: i64) -> (r: Self)
        requires
            C::spec_map(self@ - y) is Some,
        ensures
            Some(r@) == C::spec_map(self@ - y),
    {
        self.map(
            (|x: i64| -> (c: i128)
                ensures
                    c == x - y,
                {
                    x as i128 - y as i128
                }),
        )
    }

    /// Multiplies two wrappers: the raw product, re-validated under the
    /// policy.
    pub fn mul(self, other: Self) -> (r: Self)
        requires
            C::spec_map(self@ * other@) is Some,
        ensures
            Some(r@) == C::spec_map(self@ * other@),
    {
        proof {
            use_type_invariant(&self);
            use_type_invariant(&other);
            lemma_mul_fits(self@, other@);
        }
        self.zip_map(
            other,
            (|x: i64, y: i64| -> (c: i128)
                ensures
                    c == x * y,
                {
                    proof {
                        lemma_mul_fits(x as int, y as int);
                    }
                    x as i128 * y as i128
                }),
        )
    }

    /// Multiplies by a raw value: the raw product, re-validated under the
    /// policy.
    pub fn mul_inner(self, y: i64) -> (r: Self)
        requires
            C::spec_map(self@ * y) is Some,
        ensures
            Some(r@) == C::spec_map(self@ * y),
    {
        proof {
            use_type_invariant(&self);
            lemma_mul_fits(self@, y as int);
        }
        self.map(
            (|x: i64| -> (c: i128)
                ensures
                    c == x * y,
                {
                    proof {
                        lemma_mul_fits(x as int, y as int);
                    }
                    x as i128 * y as i128
                }),
        )
    }

    /// Divides two wrappers, truncating toward zero: the raw quotient,
    /// re-validated under the policy.
    pub fn div(self, other: Self) -> (r: Self)
        requires
            other@ != 0,
            C::spec_map(spec_div_trunc(self@, other@)) is Some,
        ensures
            Some(r@) == C::spec_map(spec_div_trunc(self@, other@)),
    {
        proof {
            use_type_invariant(&self);
            use_type_invariant(&other);
            lemma_div_trunc_bound(self@, other@);
        }
        self.zip_map(
            other,
            (|x: i64, y: i64| -> (c: i128)
                requires
                    y != 0,
                ensures
                    c == spec_div_trunc(x as int, y as int),
                {
                    proof {
                        lemma_div_trunc_bound(x as int, y as int);
                    }
                    x as i128 / y as i128
                }),
        )
    }

    /// Divides by a raw value, truncating toward zero: the raw quotient,
    /// re-validated under the policy.
    pub fn div_inner(self, y: i64) -> (r: Self)
        requires
            y != 0,
            C::spec_map(spec_div_trunc(self@, y as int)) is Some,
        ensures
            Some(r@) == C::spec_map(spec_div_trunc(self@, y as int)),
    {
        proof {
            use_type_invariant(&self);
            lemma_div_trunc_bound(self@, y as int);
        }
        self.map(
            (|x: i64| -> (c: i128)
                ensures
                    c == spec_div_trunc(x as int, y as int),
                {
                    proof {
                        lemma_div_trunc_bound(x as int, y as int);
                    }
                    x as i128 / y as i128
                }),
        )
    }

    /// The truncating remainder of two wrappers, re-validated under the
    /// policy.
    pub fn rem(self, other: Self) -> (r: Self)
        requires
            other@ != 0,
            C::spec_map(spec_rem_trunc(self@, other@)) is Some,
        ensures
            Some(r@) == C::spec_map(spec_rem_trunc(self@, other@)),
    {
        proof {
            use_type_invariant(&self);
            use_type_invariant(&other);
            lemma_rem_trunc_bound(self@, other@);
        }
        self.zip_map(
            other,
            (|x: i64, y: i64| -> (c: i128)
                requires
                    y != 0,
                ensures
                    c == spec_rem_trunc(x as int, y as int),
                {
                    proof {
                        lemma_rem_trunc_bound(x as int, y as int);
                    }
                    x as i128 % y as i128
                }),
        )
    }

    /// The truncating remainder by a raw value, re-validated under the
    /// policy.
    pub fn rem_inner(self, y: i64) -> (r: Self)
        requires
            y != 0,
            C::spec_map(spec_rem_trunc(self@, y as int)) is Some,
        ensures
            Some(r@) == C::spec_map(spec_rem_trunc(self@, y as int)),
    {
        proof {
            use_type_invariant(&self);
            lemma_rem_trunc_bound(self@, y as int);
        }
        self.map(
            (|x: i64| -> (c: i128)
                ensures
                    c == spec_rem_trunc(x as int, y as int),
                {
                    proof {
                        lemma_rem_trunc_bound(x as int, y as int);
                    }
                    x as i128 % y as i128
                }),
        )
    }

    /// Adds in place: the stored value becomes the validated raw sum.
    pub fn add_assign(&mut self, other: Self)
        requires
            C::spec_map(old(self)@ + other@) is Some,
        ensures
            Some(final(self)@) == C::spec_map(old(self)@ + other@),
    {
        let s = *self;
        *self = s.add(other);
    }

    /// Adds a raw value in place.
    pub fn add_assign_inner(&mut self, y: i64)
        requires
            C::spec_map(old(self)@ + y) is Some,
        ensures
            Some(final(self)@) == C::spec_map(old(self)@ + y),
    {
        let s = *self;
        *self = s.add_inner(y);
    }

    /// Subtracts in place: the stored value becomes the validated raw
    /// difference.
    pub fn sub_assign(&mut self, other: Self)
        requires
            C::spec_map(old(self)@ - other@) is Some,
        ensures
            Some(final(self)@) == C::spec_map(old(self)@ - other@),
    {
        let s = *self;
        *self = s.sub(other);
    }

    /// Subtracts a raw value in place.
    pub fn sub_assign_inner(&mut self, y: i64)
        requires
            C::spec_map(old(self)@ - y) is Some,
        ensures
            Some(final(self)@) == C::spec_map(old(self)@ - y),
    {
        let s = *self;
        *self = s.sub_inner(y);
    }

    /// Multiplies in place: the stored value becomes the validated raw
    /// product.
    pub fn mul_assign(&mut self, other: Self)
        requires
            C::spec_map(old(self)@ * other@) is Some,
        ensures
            Some(final(self)@) == C::spec_map(old(self)@ * other@),
    {
        let s = *self;
        *self = s.mul(other);
    }

    /// Multiplies by a raw value in place.
    pub fn mul_assign_inner(&mut self, y: i64)
        requires
            C::spec_map(old(self)@ * y) is Some,
        ensures
            Some(final(self)@) == C::spec_map(old(self)@ * y),
    {
        let s = *self;
        *self = s.mul_inner(y);
    }

    /// Divides in place: the stored value becomes the validated raw
    /// quotient.
    pub fn div_assign(&mut self, other: Self)
        requires
            other@ != 0,
            C::spec_map(spec_div_trunc(old(self)@, other@)) is Some,
        ensures
            Some(final(self)@) == C::spec_map(spec_div_trunc(old(self)@, other@)),
    {
        let s = *self;
        *self = s.div(other);
    }

    /// Divides by a raw value in place.
    pub fn div_assign_inner(&mut self, y: i64)
        requires
            y != 0,
            C::spec_map(spec_div_trunc(old(self)@, y as int)) is Some,
        ensures
            Some(final(self)@) == C::spec_map(spec_div_trunc(old(self)@, y as int)),
    {
        let s = *self;
        *self = s.div_inner(y);
    }

    /// Takes the remainder in place.
    pub fn rem_assign(&mut self, other: Self)
        requires
            other@ != 0,
            C::spec_map(spec_rem_trunc(old(self)@, other@)) is Some,
        ensures
            Some(final(self)@) == C::spec_map(spec_rem_trunc(old(self)@, other@)),
    {
        let s = *self;
        *self = s.rem(other);
    }

    /// Takes the remainder by a raw value in place.
    pub fn rem_assign_inner(&mut self, y: i64)
        requires
            y != 0,
            C::spec_map(spec_rem_trunc(old(self)@, y as int)) is Some,
        ensures
            Some(final(self)@) == C::spec_map(spec_rem_trunc(old(self)@, y as int)),
    {
        let s = *self;
        *self = s.rem_inner(y);
    }

    /// Borrows the validated value without consuming the wrapper.
    pub fn as_ref(&self) -> (r: &i64)
        ensures
            *r as int == self@,
            C::spec_map(self@) == Some(self@),
            C::min_spec() <= self@ <= C::max_spec(),
    {
        proof {
            use_type_invariant(self);
            C::map_in_range(self@);
        }
        &self.inner
    }
}

impl<K, C: Constraint<K>> Proxy<K, C> {
    /// The wrapped value, when it fits the target: always, for this
    /// domain.
    pub fn to_i64(&self) -> (r: Option<i64>)
        ensures
            r == Some((self@) as i64),
    {
        proof {
            use_type_invariant(self);
        }
        Some(self.inner)
    }

    /// The wrapped value, when it is non-negative; `None` otherwise.
    pub fn to_u64(&self) -> (r: Option<u64>)
        ensures
            self@ >= 0 ==> r == Some((self@) as u64),
            self@ < 0 ==> r is None,
    {
        proof {
            use_type_invariant(self);
        }
        if self.inner >= 0 {
            Some(self.inner as u64)
        } else {
            None
        }
    }

    /// Validated construction from a signed raw value; `None` exactly when
    /// the policy rejects it.
    pub fn from_i64(inner: i64) -> (r: Option<Self>)
        ensures
            match r {
                Some(p) => C::spec_map(inner as int) == Some(p@),
                None => C::spec_map(inner as int) is None,
            },
    {
        Self::try_from_inner(inner)
    }

    /// Validated construction from an unsigned raw value; `None` when the
    /// value does not fit the domain or the policy rejects it.
    pub fn from_u64(inner: u64) -> (r: Option<Self>)
        ensures
            match r {
                Some(p) => inner <= i64::MAX && C::spec_map(inner as int) == Some(p@),
                None => inner > i64::MAX || C::spec_map(inner as int) is None,
            },
    {
        if inner <= i64::MAX as u64 {
            Self::try_from_inner(inner as i64)
        } else {
            None
        }
    }
}

impl<K, C: Constraint<K> + Member<NegativeSet>> Proxy<K, C> {
    /// Negation, licensed by the symmetric range: the negated value falls
    /// back inside the range, so re-validation returns it exactly.
    pub fn neg(self) -> (r: Self)
        ensures
            r@ == -self@,
    {
        proof {
            use_type_invariant(&self);
            C::map_in_range(self@);
            <C as Member<NegativeSet>>::member();
            C::map_fixes_in_range(-self@);
        }
        self.map(
            (|x: i64| -> (c: i128)
                ensures
                    c == -x,
                {
                    -(x as i128)
                }),
        )
    }
}

impl<K, C: Constraint<K> + Member<ZeroSet>> Proxy<K, C> {
    /// The additive identity, licensed by the range that contains it; the
    /// membership contract makes validation unnecessary.
    pub fn zero() -> (r: Self)
        ensures
            r@ == 0,
    {
        proof {
            <C as Member<ZeroSet>>::member();
            C::map_fixes_in_range(0);
        }
        Proxy::from_inner_unchecked(0)
    }

    /// Whether the wrapped value is the additive identity.
    pub fn is_zero(&self) -> (r: bool)
        ensures
            r == (self@ == 0),
    {
        proof {
            use_type_invariant(self);
        }
        self.inner == 0
    }
}

impl<K, C: Constraint<K> + Member<OneSet>> Proxy<K, C> {
    /// The multiplicative identity, licensed by the range that contains
    /// it; the membership contract makes validation unnecessary.
    pub fn one() -> (r: Self)
        ensures
            r@ == 1,
    {
        proof {
            <C as Member<OneSet>>::member();
            C::map_fixes_in_range(1);
        }
        Proxy::from_inner_unchecked(1)
    }
}

impl<K, C: Constraint<K> + Member<NegativeSet> + Member<OneSet> + Member<ZeroSet>> Proxy<K, C> {
    /// The absolute value: the symmetric range keeps it in range, so
    /// re-validation returns it exactly.
    pub fn abs(&self) -> (r: Self)
        ensures
            r@ == vstd::math::abs(self@) as int,
    {
        proof {
            use_type_invariant(self);
            C::map_in_range(self@);
            <C as Member<NegativeSet>>::member();
            C::map_fixes_in_range(vstd::math::abs(self@) as int);
        }
        (*self).map(
            (|x: i64| -> (c: i128)
                ensures
                    c == vstd::math::abs(x as int) as int,
                {
                    if x >= 0 {
                        x as i128
                    } else {
                        -(x as i128)
                    }
                }),
        )
    }

    /// The positive difference: the additive identity when `self` does not
    /// exceed `other`, otherwise the difference, re-validated under the
    /// policy.
    pub fn abs_sub(&self, other: &Self) -> (r: Self)
        requires
            C::spec_map(
                if self@ <= other@ {
                    0int
                } else {
                    self@ - other@
                },
            ) is Some,
        ensures
            Some(r@) == C::spec_map(
                if self@ <= other@ {
                    0int
                } else {
                    self@ - other@
                },
            ),
    {
        (*self).zip_map(
            *other,
            (|x: i64, y: i64| -> (c: i128)
                ensures
                    (c == if x <= y {
                        0int
                    } else {
                        x - y
                    }),
                {
                    if x <= y {
                        0
                    } else {
                        x as i128 - y as i128
                    }
                }),
        )
    }

    /// The sign of the wrapped value, as a wrapper: the capabilities put
    /// all three signs inside the range, so the result is exact.
    pub fn signum(&self) -> (r: Self)
        ensures
            r@ == (if self@ > 0 {
                1int
            } else if self@ < 0 {
                -1int
            } else {
                0int
            }),
    {
        proof {
            use_type_invariant(self);
            <C as Member<NegativeSet>>::member();
            <C as Member<OneSet>>::member();
            <C as Member<ZeroSet>>::member();
            C::map_fixes_in_range(1);
            C::map_fixes_in_range(-1);
            C::map_fixes_in_range(0);
        }
        (*self).map(
            (|x: i64| -> (c: i128)
                ensures
                    (c == if x > 0 {
                        1int
                    } else if x < 0 {
                        -1int
                    } else {
                        0int
                    }),
                {
                    if x > 0 {
                        1
                    } else if x < 0 {
                        -1
                    } else {
                        0
                    }
                }),
        )
    }

    /// Whether the wrapped value is strictly positive.
    pub fn is_positive(&self) -> (r: bool)
        ensures
            r == (self@ > 0),
    {
        proof {
            use_type_invariant(self);
        }
        self.inner > 0
    }

    /// Whether the wrapped value is strictly negative.
    pub fn is_negative(&self) -> (r: bool)
        ensures
            r == (self@ < 0),
    {
        proof {
            use_type_invariant(self);
        }
        self.inner < 0
    }
}

impl<K, C: Constraint<K>> ProxyExt for Proxy<K, C> {
    open spec fn validate_spec(inner: int) -> Option<int> {
        C::spec_map(inner)
    }

    fn from_inner_unchecked(inner: i64) -> (r: Self) {
        Proxy { inner, phantom: PhantomData }
    }

    fn try_from_inner(inner: i64) -> (r: Option<Self>) {
        match C::map(inner as i128) {
            Some(v) => {
                proof {
                    C::map_in_range(inner as int);
                    C::map_fixes_in_range(v as int);
                }
                Some(Proxy { inner: v, phantom: PhantomData })
            },
            None => None,
        }
    }

    fn map<F: FnOnce(i64) -> i128>(self, f: F) -> (r: Self) {
        proof {
            use_type_invariant(&self);
        }
        let y = f(self.inner);
        match C::map(y) {
            Some(v) => {
                proof {
                    C::map_in_range(y as int);
                    C::map_fixes_in_range(v as int);
                }
                Proxy { inner: v, phantom: PhantomData }
            },
            None => vstd::pervasive::unreached(),
        }
    }

    fn zip_map<F: FnOnce(i64, i64) -> i128>(self, other: Self, f: F) -> (r: Self) {
        proof {
            use_type_invariant(&self);
            use_type_invariant(&other);
        }
        let y = f(self.inner, other.inner);
        match C::map(y) {
            Some(v) => {
                proof {
                    C::map_in_range(y as int);
                    C::map_fixes_in_range(v as int);
                }
                Proxy { inner: v, phantom: PhantomData }
            },
            None => vstd::pervasive::unreached(),
        }
    }
}

impl<K, C: Constraint<K>> crate::IntoPrimitive for Proxy<K, C> {
    type Primitive = i64;

    fn into_primitive(self) -> (r: Self::Primitive)
        ensures
            r as int == self@,
    {
        self.into_inner()
    }
}

impl<K, C: Constraint<K>> Clone for Proxy<K, C> {
    fn clone(&self) -> (r: Self)
        ensures
            r == *self,
    {
        proof {
            use_type_invariant(self);
        }
        Proxy { inner: self.inner, phantom: PhantomData }
    }
}

impl<K, C: Constraint<K>> Copy for Proxy<K, C> {

}

} // verus!
