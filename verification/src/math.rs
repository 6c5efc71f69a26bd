//! Real numbers as the library holds them, the arithmetic it depends on, and
//! the elementary functions built on it.
//!
//! A real number is carried as the bit pattern of an IEEE-754 single. The
//! library stores, copies and compares such patterns; every operation that
//! interprets one is a method of [`Arithmetic`], supplied by the caller.
//! Contracts therefore speak of results relatively: `sum_is(ops, a, b, r)`
//! reads "`r` is what `ops` answers for `a + b`". A formula is stated as the
//! chain of such answers, in the order in which it is evaluated.

use vstd::prelude::*;
use vstd::std_specs::cmp::PartialOrdIs;
use vstd::std_specs::cmp::PartialOrdSpec;

verus! {

/// Bit pattern of the real number zero.
pub const ZERO_BITS: u32 = 0;

/// Bit pattern of the real number one.
pub const ONE_BITS: u32 = 0x3F80_0000;

/// Bit pattern of the real number minus one.
pub const NEG_ONE_BITS: u32 = 0xBF80_0000;

/// Bit pattern of the real number two.
pub const TWO_BITS: u32 = 0x4000_0000;

/// Bit pattern of 180, the degrees of half a turn.
pub const HALF_TURN_BITS: u32 = 0x4334_0000;

/// Bit pattern of pi.
pub const PI_BITS: u32 = 0x4049_0FDB;

/// Bit pattern of two pi.
pub const TWO_PI_BITS: u32 = 0x40C9_0FDB;

/// Bit pattern of half of pi.
pub const PI_OVER_2_BITS: u32 = 0x3FC9_0FDB;

/// Bit pattern of positive infinity.
pub const INFINITY_BITS: u32 = 0x7F80_0000;

/// Bit pattern of negative infinity.
pub const NEG_INFINITY_BITS: u32 = 0xFF80_0000;

/// A real number, held by its bit pattern.
#[derive(Clone, Copy, PartialEq, Eq, Structural, Debug)]
pub struct Scalar {
    pub bits: u32,
}

impl Scalar {
    pub open spec fn spec_zero() -> Scalar {
        Scalar { bits: ZERO_BITS }
    }

    pub open spec fn spec_one() -> Scalar {
        Scalar { bits: ONE_BITS }
    }

    pub open spec fn spec_two() -> Scalar {
        Scalar { bits: TWO_BITS }
    }

    pub fn from_bits(bits: u32) -> (r: Scalar)
        ensures
            r == (Scalar { bits }),
    {
        Scalar { bits }
    }

    pub fn to_bits(&self) -> (bits: u32)
        ensures
            bits == self.bits,
    {
        self.bits
    }

    #[verifier::when_used_as_spec(spec_zero)]
    pub fn zero() -> (r: Scalar)
        ensures
            r == Scalar::spec_zero(),
    {
        Scalar { bits: ZERO_BITS }
    }

    #[verifier::when_used_as_spec(spec_one)]
    pub fn one() -> (r: Scalar)
        ensures
            r == Scalar::spec_one(),
    {
        Scalar { bits: ONE_BITS }
    }

    #[verifier::when_used_as_spec(spec_two)]
    pub fn two() -> (r: Scalar)
        ensures
            r == Scalar::spec_two(),
    {
        Scalar { bits: TWO_BITS }
    }
}

/// The operations on real numbers that the library calls but does not
/// define. No method promises anything: whatever an implementation answers,
/// the library's own contracts hold relative to those answers.
pub trait Arithmetic {
    /// `a + b`
    fn sum(&self, a: Scalar, b: Scalar) -> Scalar;

    /// `a - b`
    fn difference(&self, a: Scalar, b: Scalar) -> Scalar;

    /// `a * b`
    fn product(&self, a: Scalar, b: Scalar) -> Scalar;

    /// `a / b`
    fn quotient(&self, a: Scalar, b: Scalar) -> Scalar;

    /// The remainder of `a / b`, with the sign of `a`.
    fn remainder(&self, a: Scalar, b: Scalar) -> Scalar;

    /// `-a`
    fn negation(&self, a: Scalar) -> Scalar;

    /// `|a|`
    fn magnitude(&self, a: Scalar) -> Scalar;

    /// The square root of `a`.
    fn square_root(&self, a: Scalar) -> Scalar;

    /// Cosine of an angle in radians.
    fn cosine(&self, angle: Scalar) -> Scalar;

    /// Sine of an angle in radians.
    fn sine(&self, angle: Scalar) -> Scalar;

    /// Tangent of an angle in radians.
    fn tangent(&self, angle: Scalar) -> Scalar;

    /// The angle in radians whose cosine is `a`.
    fn arc_cosine(&self, a: Scalar) -> Scalar;

    /// The angle in radians of the point `(x, y)`, from all four quadrants.
    fn arc_tangent(&self, y: Scalar, x: Scalar) -> Scalar;

    /// `a < b`
    fn less(&self, a: Scalar, b: Scalar) -> bool;

    /// `a <= b`
    fn at_most(&self, a: Scalar, b: Scalar) -> bool;
}

/// `r` is an answer of `ops` for `a + b`.
pub open spec fn sum_is<A: Arithmetic>(ops: &A, a: Scalar, b: Scalar, r: Scalar) -> bool {
    call_ensures(A::sum, (ops, a, b), r)
}

/// `r` is an answer of `ops` for `a - b`.
pub open spec fn difference_is<A: Arithmetic>(ops: &A, a: Scalar, b: Scalar, r: Scalar) -> bool {
    call_ensures(A::difference, (ops, a, b), r)
}

/// `r` is an answer of `ops` for `a * b`.
pub open spec fn product_is<A: Arithmetic>(ops: &A, a: Scalar, b: Scalar, r: Scalar) -> bool {
    call_ensures(A::product, (ops, a, b), r)
}

/// `r` is an answer of `ops` for `a / b`.
pub open spec fn quotient_is<A: Arithmetic>(ops: &A, a: Scalar, b: Scalar, r: Scalar) -> bool {
    call_ensures(A::quotient, (ops, a, b), r)
}

/// `r` is an answer of `ops` for the remainder of `a / b`.
pub open spec fn remainder_is<A: Arithmetic>(ops: &A, a: Scalar, b: Scalar, r: Scalar) -> bool {
    call_ensures(A::remainder, (ops, a, b), r)
}

/// `r` is an answer of `ops` for `-a`.
pub open spec fn negation_is<A: Arithmetic>(ops: &A, a: Scalar, r: Scalar) -> bool {
    call_ensures(A::negation, (ops, a), r)
}

/// `r` is an answer of `ops` for `|a|`.
pub open spec fn magnitude_is<A: Arithmetic>(ops: &A, a: Scalar, r: Scalar) -> bool {
    call_ensures(A::magnitude, (ops, a), r)
}

/// `r` is an answer of `ops` for the square root of `a`.
pub open spec fn square_root_is<A: Arithmetic>(ops: &A, a: Scalar, r: Scalar) -> bool {
    call_ensures(A::square_root, (ops, a), r)
}

/// `r` is an answer of `ops` for the cosine of `angle`.
pub open spec fn cosine_is<A: Arithmetic>(ops: &A, angle: Scalar, r: Scalar) -> bool {
    call_ensures(A::cosine, (ops, angle), r)
}

/// `r` is an answer of `ops` for the sine of `angle`.
pub open spec fn sine_is<A: Arithmetic>(ops: &A, angle: Scalar, r: Scalar) -> bool {
    call_ensures(A::sine, (ops, angle), r)
}

/// `r` is an answer of `ops` for the tangent of `angle`.
pub open spec fn tangent_is<A: Arithmetic>(ops: &A, angle: Scalar, r: Scalar) -> bool {
    call_ensures(A::tangent, (ops, angle), r)
}

/// `r` is an answer of `ops` for the angle whose cosine is `a`.
pub open spec fn arc_cosine_is<A: Arithmetic>(ops: &A, a: Scalar, r: Scalar) -> bool {
    call_ensures(A::arc_cosine, (ops, a), r)
}

/// `r` is an answer of `ops` for the angle of the point `(x, y)`.
pub open spec fn arc_tangent_is<A: Arithmetic>(ops: &A, y: Scalar, x: Scalar, r: Scalar) -> bool {
    call_ensures(A::arc_tangent, (ops, y, x), r)
}

/// `r` is an answer of `ops` for `a < b`.
pub open spec fn less_is<A: Arithmetic>(ops: &A, a: Scalar, b: Scalar, r: bool) -> bool {
    call_ensures(A::less, (ops, a, b), r)
}

/// `r` is an answer of `ops` for `a <= b`.
pub open spec fn at_most_is<A: Arithmetic>(ops: &A, a: Scalar, b: Scalar, r: bool) -> bool {
    call_ensures(A::at_most, (ops, a, b), r)
}

/// `r` is an answer of `ops` for `a0 * b0 + a1 * b1`.
pub open spec fn products2_is<A: Arithmetic>(
    ops: &A,
    a0: Scalar,
    b0: Scalar,
    a1: Scalar,
    b1: Scalar,
    r: Scalar,
) -> bool {
    exists|p0: Scalar, p1: Scalar|
        product_is(ops, a0, b0, p0) && product_is(ops, a1, b1, p1) && #[trigger] sum_is(ops, p0, p1, r)
}

/// `r` is an answer of `ops` for `a0 * b0 + a1 * b1 + a2 * b2`, summed from
/// the left.
pub open spec fn products3_is<A: Arithmetic>(
    ops: &A,
    a0: Scalar,
    b0: Scalar,
    a1: Scalar,
    b1: Scalar,
    a2: Scalar,
    b2: Scalar,
    r: Scalar,
) -> bool {
    exists|s: Scalar, p2: Scalar|
        products2_is(ops, a0, b0, a1, b1, s) && product_is(ops, a2, b2, p2) && #[trigger] sum_is(
            ops,
            s,
            p2,
            r,
        )
}

/// `r` is an answer of `ops` for `a0 * b0 + a1 * b1 + a2 * b2 + a3 * b3`,
/// summed from the left.
pub open spec fn products4_is<A: Arithmetic>(
    ops: &A,
    a0: Scalar,
    b0: Scalar,
    a1: Scalar,
    b1: Scalar,
    a2: Scalar,
    b2: Scalar,
    a3: Scalar,
    b3: Scalar,
    r: Scalar,
) -> bool {
    exists|s: Scalar, p3: Scalar|
        products3_is(ops, a0, b0, a1, b1, a2, b2, s) && product_is(ops, a3, b3, p3)
            && #[trigger] sum_is(ops, s, p3, r)
}

/// `r` is an answer of `ops` for `a0 * b0 - a1 * b1`.
pub open spec fn products_apart_is<A: Arithmetic>(
    ops: &A,
    a0: Scalar,
    b0: Scalar,
    a1: Scalar,
    b1: Scalar,
    r: Scalar,
) -> bool {
    exists|p0: Scalar, p1: Scalar|
        product_is(ops, a0, b0, p0) && product_is(ops, a1, b1, p1) && #[trigger] difference_is(
            ops,
            p0,
            p1,
            r,
        )
}

/// `a0 * b0 + a1 * b1`
pub fn products2<A: Arithmetic>(a0: Scalar, b0: Scalar, a1: Scalar, b1: Scalar, ops: &A) -> (r: Scalar)
    ensures
        products2_is(ops, a0, b0, a1, b1, r),
{
    let p0 = ops.product(a0, b0);
    let p1 = ops.product(a1, b1);
    let r = ops.sum(p0, p1);
    assert(sum_is(ops, p0, p1, r));
    r
}

/// `a0 * b0 + a1 * b1 + a2 * b2`, summed from the left.
pub fn products3<A: Arithmetic>(
    a0: Scalar,
    b0: Scalar,
    a1: Scalar,
    b1: Scalar,
    a2: Scalar,
    b2: Scalar,
    ops: &A,
) -> (r: Scalar)
    ensures
        products3_is(ops, a0, b0, a1, b1, a2, b2, r),
{
    let s = products2(a0, b0, a1, b1, ops);
    let p2 = ops.product(a2, b2);
    let r = ops.sum(s, p2);
    assert(sum_is(ops, s, p2, r));
    r
}

/// `a0 * b0 + a1 * b1 + a2 * b2 + a3 * b3`, summed from the left.
pub fn products4<A: Arithmetic>(
    a0: Scalar,
    b0: Scalar,
    a1: Scalar,
    b1: Scalar,
    a2: Scalar,
    b2: Scalar,
    a3: Scalar,
    b3: Scalar,
    ops: &A,
) -> (r: Scalar)
    ensures
        products4_is(ops, a0, b0, a1, b1, a2, b2, a3, b3, r),
{
    let s = products3(a0, b0, a1, b1, a2, b2, ops);
    let p3 = ops.product(a3, b3);
    let r = ops.sum(s, p3);
    assert(sum_is(ops, s, p3, r));
    r
}

/// `a0 * b0 - a1 * b1`
pub fn products_apart<A: Arithmetic>(
    a0: Scalar,
    b0: Scalar,
    a1: Scalar,
    b1: Scalar,
    ops: &A,
) -> (r: Scalar)
    ensures
        products_apart_is(ops, a0, b0, a1, b1, r),
{
    let p0 = ops.product(a0, b0);
    let p1 = ops.product(a1, b1);
    let r = ops.difference(p0, p1);
    assert(difference_is(ops, p0, p1, r));
    r
}

/// `r` is an answer of `ops` for `degrees * pi / 180`.
pub open spec fn to_radians_is<A: Arithmetic>(ops: &A, degrees: Scalar, r: Scalar) -> bool {
    exists|scaled: Scalar| #[trigger]
        product_is(ops, degrees, Scalar { bits: PI_BITS }, scaled) && quotient_is(
            ops,
            scaled,
            Scalar { bits: HALF_TURN_BITS },
            r,
        )
}

/// `r` is an answer of `ops` for `radians * 180 / pi`.
pub open spec fn to_degrees_is<A: Arithmetic>(ops: &A, radians: Scalar, r: Scalar) -> bool {
    exists|scaled: Scalar| #[trigger]
        product_is(ops, radians, Scalar { bits: HALF_TURN_BITS }, scaled) && quotient_is(
            ops,
            scaled,
            Scalar { bits: PI_BITS },
            r,
        )
}

/// `r` is an answer of `ops` for `|val| <= epsilon`.
pub open spec fn near_zero_is<A: Arithmetic>(ops: &A, val: Scalar, epsilon: Scalar, r: bool) -> bool {
    exists|m: Scalar| #[trigger] magnitude_is(ops, val, m) && at_most_is(ops, m, epsilon, r)
}

/// `r` is an answer of `ops` for `1 / tan(angle)`.
pub open spec fn cot_is<A: Arithmetic>(ops: &A, angle: Scalar, r: Scalar) -> bool {
    exists|t: Scalar| #[trigger] tangent_is(ops, angle, t) && quotient_is(ops, Scalar::spec_one(), t, r)
}

/// `r` is an answer of `ops` for `a + f * (b - a)`.
pub open spec fn lerp_is<A: Arithmetic>(ops: &A, a: Scalar, b: Scalar, f: Scalar, r: Scalar) -> bool {
    exists|span: Scalar, part: Scalar|
        difference_is(ops, b, a, span) && #[trigger] product_is(ops, f, span, part) && sum_is(
            ops,
            a,
            part,
            r,
        )
}

/// Degrees as radians: `degrees * pi / 180`.
pub fn to_radians<A: Arithmetic>(degrees: Scalar, ops: &A) -> (r: Scalar)
    ensures
        to_radians_is(ops, degrees, r),
{
    let scaled = ops.product(degrees, Scalar::from_bits(PI_BITS));
    assert(product_is(ops, degrees, Scalar { bits: PI_BITS }, scaled));
    ops.quotient(scaled, Scalar::from_bits(HALF_TURN_BITS))
}

/// Radians as degrees: `radians * 180 / pi`.
pub fn to_degrees<A: Arithmetic>(radians: Scalar, ops: &A) -> (r: Scalar)
    ensures
        to_degrees_is(ops, radians, r),
{
    let scaled = ops.product(radians, Scalar::from_bits(HALF_TURN_BITS));
    assert(product_is(ops, radians, Scalar { bits: HALF_TURN_BITS }, scaled));
    ops.quotient(scaled, Scalar::from_bits(PI_BITS))
}

/// Whether `val` lies within `epsilon` of zero: `|val| <= epsilon`.
pub fn near_zero<A: Arithmetic>(val: Scalar, epsilon: Scalar, ops: &A) -> (r: bool)
    ensures
        near_zero_is(ops, val, epsilon, r),
{
    let m = ops.magnitude(val);
    let r = ops.at_most(m, epsilon);
    assert(magnitude_is(ops, val, m) && at_most_is(ops, m, epsilon, r));
    r
}

/// The greater of two values by `<`; the first where neither is less.
pub open spec fn max_of<T: PartialOrd>(a: T, b: T) -> T {
    if a.is_lt(&b) {
        b
    } else {
        a
    }
}

/// The lesser of two values by `<`; the second where the first is not less.
pub open spec fn min_of<T: PartialOrd>(a: T, b: T) -> T {
    if a.is_lt(&b) {
        a
    } else {
        b
    }
}

/// `b` where `a < b`, else `a`.
pub fn max<T: PartialOrd>(a: T, b: T) -> (r: T)
    ensures
        T::obeys_partial_cmp_spec() ==> r == max_of(a, b),
        exists|lt: bool| #[trigger] call_ensures(T::lt, (&a, &b), lt) && r == (if lt { b } else { a }),
{
    if a < b {
        b
    } else {
        a
    }
}

/// `a` where `a < b`, else `b`.
pub fn min<T: PartialOrd>(a: T, b: T) -> (r: T)
    ensures
        T::obeys_partial_cmp_spec() ==> r == min_of(a, b),
        exists|lt: bool| #[trigger] call_ensures(T::lt, (&a, &b), lt) && r == (if lt { a } else { b }),
{
    if a < b {
        a
    } else {
        b
    }
}

/// `value` held between `lower` and `upper`: `min(upper, max(lower, value))`.
pub fn clamp<T: PartialOrd>(value: T, lower: T, upper: T) -> (r: T)
    ensures
        T::obeys_partial_cmp_spec() ==> r == min_of(upper, max_of(lower, value)),
        exists|below: bool, inner: T, above: bool|
            {
                &&& #[trigger] call_ensures(T::lt, (&lower, &value), below)
                &&& inner == (if below { value } else { lower })
                &&& #[trigger] call_ensures(T::lt, (&upper, &inner), above)
                &&& r == (if above { upper } else { inner })
            },
{
    min(upper, max(lower, value))
}

/// `|value|`
pub fn abs<A: Arithmetic>(value: Scalar, ops: &A) -> (r: Scalar)
    ensures
        magnitude_is(ops, value, r),
{
    ops.magnitude(value)
}

/// The cosine of `angle`.
pub fn cos<A: Arithmetic>(angle: Scalar, ops: &A) -> (r: Scalar)
    ensures
        cosine_is(ops, angle, r),
{
    ops.cosine(angle)
}

/// The sine of `angle`.
pub fn sin<A: Arithmetic>(angle: Scalar, ops: &A) -> (r: Scalar)
    ensures
        sine_is(ops, angle, r),
{
    ops.sine(angle)
}

/// The tangent of `angle`.
pub fn tan<A: Arithmetic>(angle: Scalar, ops: &A) -> (r: Scalar)
    ensures
        tangent_is(ops, angle, r),
{
    ops.tangent(angle)
}

/// The angle whose cosine is `value`.
pub fn acos<A: Arithmetic>(value: Scalar, ops: &A) -> (r: Scalar)
    ensures
        arc_cosine_is(ops, value, r),
{
    ops.arc_cosine(value)
}

/// The angle of the point `(x, y)`.
pub fn atan2<A: Arithmetic>(y: Scalar, x: Scalar, ops: &A) -> (r: Scalar)
    ensures
        arc_tangent_is(ops, y, x, r),
{
    ops.arc_tangent(y, x)
}

/// The cotangent of `angle`: `1 / tan(angle)`.
pub fn cot<A: Arithmetic>(angle: Scalar, ops: &A) -> (r: Scalar)
    ensures
        cot_is(ops, angle, r),
{
    let t = tan(angle, ops);
    ops.quotient(Scalar::one(), t)
}

/// The point between `a` and `b` at the fraction `f`: `a + f * (b - a)`.
pub fn lerp<A: Arithmetic>(a: Scalar, b: Scalar, f: Scalar, ops: &A) -> (r: Scalar)
    ensures
        lerp_is(ops, a, b, f, r),
{
    let span = ops.difference(b, a);
    let part = ops.product(f, span);
    assert(product_is(ops, f, span, part));
    ops.sum(a, part)
}

/// The square root of `value`.
pub fn sqrt<A: Arithmetic>(value: Scalar, ops: &A) -> (r: Scalar)
    ensures
        square_root_is(ops, value, r),
{
    ops.square_root(value)
}

/// The remainder of `numer / denom`, with the sign of `numer`.
pub fn fmod<A: Arithmetic>(numer: Scalar, denom: Scalar, ops: &A) -> (r: Scalar)
    ensures
        remainder_is(ops, numer, denom, r),
{
    ops.remainder(numer, denom)
}

} // verus!
