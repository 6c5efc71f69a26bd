//! Points and directions in the plane and in space.

use vstd::prelude::*;
use crate::math::difference_is;
use crate::math::less_is;
use crate::math::magnitude_is;
use crate::math::product_is;
use crate::math::products2;
use crate::math::products2_is;
use crate::math::products3;
use crate::math::products3_is;
use crate::math::products4;
use crate::math::products4_is;
use crate::math::products_apart;
use crate::math::products_apart_is;
use crate::math::quotient_is;
use crate::math::square_root_is;
use crate::math::sum_is;
use crate::math::Arithmetic;
use crate::math::Scalar;
use crate::math::NEG_ONE_BITS;
use crate::math::ONE_BITS;
use crate::math::ZERO_BITS;
use crate::matrix::Matrix3;
use crate::matrix::Matrix4;

verus! {

/// Bit pattern of the least difference between one and the next greater
/// number, the magnitude up to which a divisor counts as zero.
pub const DIVISOR_EPSILON_BITS: u32 = 0x3400_0000;

/// A point or direction in the plane.
#[derive(Clone, Copy, PartialEq, Eq, Structural, Debug)]
pub struct Vector2 {
    pub x: Scalar,
    pub y: Scalar,
}

impl Vector2 {
    pub open spec fn spec_zero() -> Vector2 {
        Vector2 { x: Scalar::spec_zero(), y: Scalar::spec_zero() }
    }

    /// `r` is an answer of `ops` for `a + b`, coordinate by coordinate.
    pub open spec fn plus_is<A: Arithmetic>(ops: &A, a: Vector2, b: Vector2, r: Vector2) -> bool {
        sum_is(ops, a.x, b.x, r.x) && sum_is(ops, a.y, b.y, r.y)
    }

    /// `r` is an answer of `ops` for `a - b`, coordinate by coordinate.
    pub open spec fn minus_is<A: Arithmetic>(ops: &A, a: Vector2, b: Vector2, r: Vector2) -> bool {
        difference_is(ops, a.x, b.x, r.x) && difference_is(ops, a.y, b.y, r.y)
    }

    /// `r` is an answer of `ops` for `a * b`, coordinate by coordinate.
    pub open spec fn times_is<A: Arithmetic>(ops: &A, a: Vector2, b: Vector2, r: Vector2) -> bool {
        product_is(ops, a.x, b.x, r.x) && product_is(ops, a.y, b.y, r.y)
    }

    /// `r` is an answer of `ops` for `v * s`.
    pub open spec fn scaled_is<A: Arithmetic>(ops: &A, v: Vector2, s: Scalar, r: Vector2) -> bool {
        product_is(ops, v.x, s, r.x) && product_is(ops, v.y, s, r.y)
    }

    /// `r` is an answer of `ops` for `v / s`.
    pub open spec fn divided_is<A: Arithmetic>(ops: &A, v: Vector2, s: Scalar, r: Vector2) -> bool {
        quotient_is(ops, v.x, s, r.x) && quotient_is(ops, v.y, s, r.y)
    }

    /// `r` is an answer of `ops` for the row vector `(vec.x, vec.y, w)`
    /// times `mat`, its first two coordinates.
    pub open spec fn transform_is<A: Arithmetic>(
        ops: &A,
        vec: Vector2,
        mat: Matrix3,
        w: Scalar,
        r: Vector2,
    ) -> bool {
        &&& products3_is(ops, vec.x, mat.at(0, 0), vec.y, mat.at(1, 0), w, mat.at(2, 0), r.x)
        &&& products3_is(ops, vec.x, mat.at(0, 1), vec.y, mat.at(1, 1), w, mat.at(2, 1), r.y)
    }

    /// `r` is an answer of `ops` for `v.x * v.x + v.y * v.y`.
    pub open spec fn length_sq_is<A: Arithmetic>(ops: &A, v: Vector2, r: Scalar) -> bool {
        products2_is(ops, v.x, v.x, v.y, v.y, r)
    }

    /// `r` is an answer of `ops` for the square root of the squared length.
    pub open spec fn length_is<A: Arithmetic>(ops: &A, v: Vector2, r: Scalar) -> bool {
        exists|sq: Scalar| #[trigger] Vector2::length_sq_is(ops, v, sq) && square_root_is(ops, sq, r)
    }

    /// `r` is an answer of `ops` for `v` divided by its length.
    pub open spec fn normalized_is<A: Arithmetic>(ops: &A, v: Vector2, r: Vector2) -> bool {
        exists|length: Scalar| #[trigger]
            Vector2::length_is(ops, v, length) && Vector2::divided_is(ops, v, length, r)
    }

    /// `r` is an answer of `ops` for `a.x * b.x + a.y * b.y`.
    pub open spec fn dot_is<A: Arithmetic>(ops: &A, a: Vector2, b: Vector2, r: Scalar) -> bool {
        products2_is(ops, a.x, b.x, a.y, b.y, r)
    }

    /// `r` is an answer of `ops` for `a + (b - a) * f`.
    pub open spec fn lerp_is<A: Arithmetic>(
        ops: &A,
        a: Vector2,
        b: Vector2,
        f: Scalar,
        r: Vector2,
    ) -> bool {
        exists|span: Vector2, part: Vector2|
            Vector2::minus_is(ops, b, a, span) && #[trigger] Vector2::scaled_is(ops, span, f, part)
                && Vector2::plus_is(ops, a, part, r)
    }

    /// `r` is an answer of `ops` for `v - 2 * dot(v, n) * n`.
    pub open spec fn reflect_is<A: Arithmetic>(ops: &A, v: Vector2, n: Vector2, r: Vector2) -> bool {
        exists|d: Scalar, twice: Scalar, part: Vector2|
            #![trigger
                product_is(ops, Scalar::spec_two(), d, twice),
                Vector2::scaled_is(ops, n, twice, part)]
            {
                &&& Vector2::dot_is(ops, v, n, d)
                &&& product_is(ops, Scalar::spec_two(), d, twice)
                &&& Vector2::scaled_is(ops, n, twice, part)
                &&& Vector2::minus_is(ops, v, part, r)
            }
    }

    pub fn new(x: Scalar, y: Scalar) -> (v: Vector2)
        ensures
            v == (Vector2 { x, y }),
    {
        Vector2 { x, y }
    }

    #[verifier::when_used_as_spec(spec_zero)]
    pub fn zero() -> (v: Vector2)
        ensures
            v == Vector2::spec_zero(),
    {
        Vector2 { x: Scalar::zero(), y: Scalar::zero() }
    }

    /// The unit vector along x.
    pub fn unit_x() -> (v: Vector2)
        ensures
            v == (Vector2 { x: Scalar { bits: ONE_BITS }, y: Scalar { bits: ZERO_BITS } }),
    {
        Vector2 { x: Scalar::one(), y: Scalar::zero() }
    }

    /// The unit vector along y.
    pub fn unit_y() -> (v: Vector2)
        ensures
            v == (Vector2 { x: Scalar { bits: ZERO_BITS }, y: Scalar { bits: ONE_BITS } }),
    {
        Vector2 { x: Scalar::zero(), y: Scalar::one() }
    }

    /// The unit vector against x.
    pub fn neg_unit_x() -> (v: Vector2)
        ensures
            v == (Vector2 { x: Scalar { bits: NEG_ONE_BITS }, y: Scalar { bits: ZERO_BITS } }),
    {
        Vector2 { x: Scalar::from_bits(NEG_ONE_BITS), y: Scalar::zero() }
    }

    /// The unit vector against y.
    pub fn neg_unit_y() -> (v: Vector2)
        ensures
            v == (Vector2 { x: Scalar { bits: ZERO_BITS }, y: Scalar { bits: NEG_ONE_BITS } }),
    {
        Vector2 { x: Scalar::zero(), y: Scalar::from_bits(NEG_ONE_BITS) }
    }

    /// Sets both coordinates.
    pub fn set(&mut self, x: Scalar, y: Scalar)
        ensures
            *final(self) == (Vector2 { x, y }),
    {
        self.x = x;
        self.y = y;
    }

    /// `a + b`
    pub fn plus<A: Arithmetic>(a: Vector2, b: Vector2, ops: &A) -> (r: Vector2)
        ensures
            Vector2::plus_is(ops, a, b, r),
    {
        Vector2 { x: ops.sum(a.x, b.x), y: ops.sum(a.y, b.y) }
    }

    /// `a - b`
    pub fn minus<A: Arithmetic>(a: Vector2, b: Vector2, ops: &A) -> (r: Vector2)
        ensures
            Vector2::minus_is(ops, a, b, r),
    {
        Vector2 { x: ops.difference(a.x, b.x), y: ops.difference(a.y, b.y) }
    }

    /// `a * b`, coordinate by coordinate.
    pub fn times<A: Arithmetic>(a: Vector2, b: Vector2, ops: &A) -> (r: Vector2)
        ensures
            Vector2::times_is(ops, a, b, r),
    {
        Vector2 { x: ops.product(a.x, b.x), y: ops.product(a.y, b.y) }
    }

    /// `v * s`
    pub fn scaled<A: Arithmetic>(v: Vector2, s: Scalar, ops: &A) -> (r: Vector2)
        ensures
            Vector2::scaled_is(ops, v, s, r),
    {
        Vector2 { x: ops.product(v.x, s), y: ops.product(v.y, s) }
    }

    /// `v / s`
    pub fn divided<A: Arithmetic>(v: Vector2, s: Scalar, ops: &A) -> (r: Vector2)
        ensures
            Vector2::divided_is(ops, v, s, r),
    {
        Vector2 { x: ops.quotient(v.x, s), y: ops.quotient(v.y, s) }
    }

    /// The row vector `(vec.x, vec.y, w)` times `mat`, its first two
    /// coordinates.
    pub fn transform<A: Arithmetic>(vec: Vector2, mat: Matrix3, w: Scalar, ops: &A) -> (r: Vector2)
        ensures
            Vector2::transform_is(ops, vec, mat, w, r),
    {
        Vector2 {
            x: products3(vec.x, mat.get(0, 0), vec.y, mat.get(1, 0), w, mat.get(2, 0), ops),
            y: products3(vec.x, mat.get(0, 1), vec.y, mat.get(1, 1), w, mat.get(2, 1), ops),
        }
    }

    /// The squared length `x * x + y * y`.
    pub fn length_sq<A: Arithmetic>(&self, ops: &A) -> (r: Scalar)
        ensures
            Vector2::length_sq_is(ops, *self, r),
    {
        products2(self.x, self.x, self.y, self.y, ops)
    }

    /// The length: the square root of the squared length.
    pub fn length<A: Arithmetic>(&self, ops: &A) -> (r: Scalar)
        ensures
            Vector2::length_is(ops, *self, r),
    {
        let sq = self.length_sq(ops);
        ops.square_root(sq)
    }

    /// Divides the vector by its length.
    pub fn normalize<A: Arithmetic>(&mut self, ops: &A)
        ensures
            Vector2::normalized_is(ops, *old(self), *final(self)),
    {
        let length = self.length(ops);
        self.x = ops.quotient(self.x, length);
        self.y = ops.quotient(self.y, length);
    }

    /// `vec` divided by its length.
    pub fn normalized<A: Arithmetic>(vec: Vector2, ops: &A) -> (r: Vector2)
        ensures
            Vector2::normalized_is(ops, vec, r),
    {
        let mut temp = vec;
        temp.normalize(ops);
        temp
    }

    /// The dot product `a.x * b.x + a.y * b.y`.
    pub fn dot<A: Arithmetic>(a: Vector2, b: Vector2, ops: &A) -> (r: Scalar)
        ensures
            Vector2::dot_is(ops, a, b, r),
    {
        products2(a.x, b.x, a.y, b.y, ops)
    }

    /// The point between `a` and `b` at the fraction `f`: `a + (b - a) * f`.
    pub fn lerp<A: Arithmetic>(a: Vector2, b: Vector2, f: Scalar, ops: &A) -> (r: Vector2)
        ensures
            Vector2::lerp_is(ops, a, b, f, r),
    {
        let span = Vector2::minus(b, a, ops);
        let part = Vector2::scaled(span, f, ops);
        Vector2::plus(a, part, ops)
    }

    /// `v` reflected about the normal `n`: `v - 2 * dot(v, n) * n`.
    pub fn reflect<A: Arithmetic>(v: Vector2, n: Vector2, ops: &A) -> (r: Vector2)
        ensures
            Vector2::reflect_is(ops, v, n, r),
    {
        let d = Vector2::dot(v, n, ops);
        let twice = ops.product(Scalar::two(), d);
        let part = Vector2::scaled(n, twice, ops);
        assert(product_is(ops, Scalar::spec_two(), d, twice) && Vector2::scaled_is(ops, n, twice, part));
        Vector2::minus(v, part, ops)
    }
}

/// A point or direction in space.
#[derive(Clone, Copy, PartialEq, Eq, Structural, Debug)]
pub struct Vector3 {
    pub x: Scalar,
    pub y: Scalar,
    pub z: Scalar,
}

impl Vector3 {
    pub open spec fn spec_zero() -> Vector3 {
        Vector3 { x: Scalar::spec_zero(), y: Scalar::spec_zero(), z: Scalar::spec_zero() }
    }

    /// The magnitude up to which a divisor counts as zero.
    pub open spec fn divisor_epsilon() -> Scalar {
        Scalar { bits: DIVISOR_EPSILON_BITS }
    }

    /// `r` is an answer of `ops` for `a + b`, coordinate by coordinate.
    pub open spec fn plus_is<A: Arithmetic>(ops: &A, a: Vector3, b: Vector3, r: Vector3) -> bool {
        sum_is(ops, a.x, b.x, r.x) && sum_is(ops, a.y, b.y, r.y) && sum_is(ops, a.z, b.z, r.z)
    }

    /// `r` is an answer of `ops` for `a - b`, coordinate by coordinate.
    pub open spec fn minus_is<A: Arithmetic>(ops: &A, a: Vector3, b: Vector3, r: Vector3) -> bool {
        difference_is(ops, a.x, b.x, r.x) && difference_is(ops, a.y, b.y, r.y) && difference_is(
            ops,
            a.z,
            b.z,
            r.z,
        )
    }

    /// `r` is an answer of `ops` for `a * b`, coordinate by coordinate.
    pub open spec fn times_is<A: Arithmetic>(ops: &A, a: Vector3, b: Vector3, r: Vector3) -> bool {
        product_is(ops, a.x, b.x, r.x) && product_is(ops, a.y, b.y, r.y) && product_is(
            ops,
            a.z,
            b.z,
            r.z,
        )
    }

    /// `r` is an answer of `ops` for `v * s`.
    pub open spec fn scaled_is<A: Arithmetic>(ops: &A, v: Vector3, s: Scalar, r: Vector3) -> bool {
        product_is(ops, v.x, s, r.x) && product_is(ops, v.y, s, r.y) && product_is(ops, v.z, s, r.z)
    }

    /// `r` is an answer of `ops` for `v / s`.
    pub open spec fn divided_is<A: Arithmetic>(ops: &A, v: Vector3, s: Scalar, r: Vector3) -> bool {
        quotient_is(ops, v.x, s, r.x) && quotient_is(ops, v.y, s, r.y) && quotient_is(
            ops,
            v.z,
            s,
            r.z,
        )
    }

    /// `r` is an answer of `ops` for the row vector `(vec.x, vec.y, vec.z,
    /// w)` times column `col` of `mat`.
    pub open spec fn transform_entry_is<A: Arithmetic>(
        ops: &A,
        vec: Vector3,
        mat: Matrix4,
        w: Scalar,
        col: int,
        r: Scalar,
    ) -> bool {
        products4_is(
            ops,
            vec.x,
            mat.at(0, col),
            vec.y,
            mat.at(1, col),
            vec.z,
            mat.at(2, col),
            w,
            mat.at(3, col),
            r,
        )
    }

    /// `r` is an answer of `ops` for the row vector `(vec.x, vec.y, vec.z,
    /// w)` times `mat`, its first three coordinates.
    pub open spec fn transform_is<A: Arithmetic>(
        ops: &A,
        vec: Vector3,
        mat: Matrix4,
        w: Scalar,
        r: Vector3,
    ) -> bool {
        &&& Vector3::transform_entry_is(ops, vec, mat, w, 0, r.x)
        &&& Vector3::transform_entry_is(ops, vec, mat, w, 1, r.y)
        &&& Vector3::transform_entry_is(ops, vec, mat, w, 2, r.z)
    }

    /// `r` is an answer of `ops` for the row vector `(vec.x, vec.y, vec.z,
    /// w)` times `mat`, its first three coordinates divided by the fourth
    /// unless the magnitude of the fourth is at most the divisor epsilon.
    pub open spec fn transform_with_persp_div_is<A: Arithmetic>(
        ops: &A,
        vec: Vector3,
        mat: Matrix4,
        w: Scalar,
        r: Vector3,
    ) -> bool {
        exists|plain: Vector3, fourth: Scalar, size: Scalar, divides: bool|
            #![trigger
                Vector3::transform_is(ops, vec, mat, w, plain),
                magnitude_is(ops, fourth, size),
                less_is(ops, Vector3::divisor_epsilon(), size, divides)]
            {
                &&& Vector3::transform_is(ops, vec, mat, w, plain)
                &&& Vector3::transform_entry_is(ops, vec, mat, w, 3, fourth)
                &&& magnitude_is(ops, fourth, size)
                &&& less_is(ops, Vector3::divisor_epsilon(), size, divides)
                &&& if divides {
                    Vector3::divided_is(ops, plain, fourth, r)
                } else {
                    r == plain
                }
            }
    }

    /// `r` is an answer of `ops` for `v.x * v.x + v.y * v.y + v.z * v.z`.
    pub open spec fn length_sq_is<A: Arithmetic>(ops: &A, v: Vector3, r: Scalar) -> bool {
        products3_is(ops, v.x, v.x, v.y, v.y, v.z, v.z, r)
    }

    /// `r` is an answer of `ops` for the square root of the squared length.
    pub open spec fn length_is<A: Arithmetic>(ops: &A, v: Vector3, r: Scalar) -> bool {
        exists|sq: Scalar| #[trigger] Vector3::length_sq_is(ops, v, sq) && square_root_is(ops, sq, r)
    }

    /// `r` is an answer of `ops` for `v` divided by its length where the
    /// length is greater than zero, and `v` itself where it is not.
    pub open spec fn normalized_is<A: Arithmetic>(ops: &A, v: Vector3, r: Vector3) -> bool {
        exists|length: Scalar, positive: bool|
            #![trigger
                Vector3::length_is(ops, v, length),
                less_is(ops, Scalar::spec_zero(), length, positive)]
            {
                &&& Vector3::length_is(ops, v, length)
                &&& less_is(ops, Scalar::spec_zero(), length, positive)
                &&& if positive {
                    Vector3::divided_is(ops, v, length, r)
                } else {
                    r == v
                }
            }
    }

    /// `r` is an answer of `ops` for `a.x * b.x + a.y * b.y + a.z * b.z`.
    pub open spec fn dot_is<A: Arithmetic>(ops: &A, a: Vector3, b: Vector3, r: Scalar) -> bool {
        products3_is(ops, a.x, b.x, a.y, b.y, a.z, b.z, r)
    }

    /// `r` is an answer of `ops` for the cross product `a x b`.
    pub open spec fn cross_is<A: Arithmetic>(ops: &A, a: Vector3, b: Vector3, r: Vector3) -> bool {
        &&& products_apart_is(ops, a.y, b.z, a.z, b.y, r.x)
        &&& products_apart_is(ops, a.z, b.x, a.x, b.z, r.y)
        &&& products_apart_is(ops, a.x, b.y, a.y, b.x, r.z)
    }

    /// `r` is an answer of `ops` for `a + (b - a) * f`.
    pub open spec fn lerp_is<A: Arithmetic>(
        ops: &A,
        a: Vector3,
        b: Vector3,
        f: Scalar,
        r: Vector3,
    ) -> bool {
        exists|span: Vector3, part: Vector3|
            Vector3::minus_is(ops, b, a, span) && #[trigger] Vector3::scaled_is(ops, span, f, part)
                && Vector3::plus_is(ops, a, part, r)
    }

    /// `r` is an answer of `ops` for `v - 2 * dot(v, n) * n`.
    pub open spec fn reflect_is<A: Arithmetic>(ops: &A, v: Vector3, n: Vector3, r: Vector3) -> bool {
        exists|d: Scalar, twice: Scalar, part: Vector3|
            #![trigger
                product_is(ops, Scalar::spec_two(), d, twice),
                Vector3::scaled_is(ops, n, twice, part)]
            {
                &&& Vector3::dot_is(ops, v, n, d)
                &&& product_is(ops, Scalar::spec_two(), d, twice)
                &&& Vector3::scaled_is(ops, n, twice, part)
                &&& Vector3::minus_is(ops, v, part, r)
            }
    }

    pub fn new(x: Scalar, y: Scalar, z: Scalar) -> (v: Vector3)
        ensures
            v == (Vector3 { x, y, z }),
    {
        Vector3 { x, y, z }
    }

    #[verifier::when_used_as_spec(spec_zero)]
    pub fn zero() -> (v: Vector3)
        ensures
            v == Vector3::spec_zero(),
    {
        Vector3 { x: Scalar::zero(), y: Scalar::zero(), z: Scalar::zero() }
    }

    /// Sets all three coordinates.
    pub fn set(&mut self, x: Scalar, y: Scalar, z: Scalar)
        ensures
            *final(self) == (Vector3 { x, y, z }),
    {
        self.x = x;
        self.y = y;
        self.z = z;
    }

    /// `a + b`
    pub fn plus<A: Arithmetic>(a: Vector3, b: Vector3, ops: &A) -> (r: Vector3)
        ensures
            Vector3::plus_is(ops, a, b, r),
    {
        Vector3 { x: ops.sum(a.x, b.x), y: ops.sum(a.y, b.y), z: ops.sum(a.z, b.z) }
    }

    /// `a - b`
    pub fn minus<A: Arithmetic>(a: Vector3, b: Vector3, ops: &A) -> (r: Vector3)
        ensures
            Vector3::minus_is(ops, a, b, r),
    {
        Vector3 {
            x: ops.difference(a.x, b.x),
            y: ops.difference(a.y, b.y),
            z: ops.difference(a.z, b.z),
        }
    }

    /// `a * b`, coordinate by coordinate.
    pub fn times<A: Arithmetic>(a: Vector3, b: Vector3, ops: &A) -> (r: Vector3)
        ensures
            Vector3::times_is(ops, a, b, r),
    {
        Vector3 { x: ops.product(a.x, b.x), y: ops.product(a.y, b.y), z: ops.product(a.z, b.z) }
    }

    /// `v * s`
    pub fn scaled<A: Arithmetic>(v: Vector3, s: Scalar, ops: &A) -> (r: Vector3)
        ensures
            Vector3::scaled_is(ops, v, s, r),
    {
        Vector3 { x: ops.product(v.x, s), y: ops.product(v.y, s), z: ops.product(v.z, s) }
    }

    /// `v / s`
    pub fn divided<A: Arithmetic>(v: Vector3, s: Scalar, ops: &A) -> (r: Vector3)
        ensures
            Vector3::divided_is(ops, v, s, r),
    {
        Vector3 { x: ops.quotient(v.x, s), y: ops.quotient(v.y, s), z: ops.quotient(v.z, s) }
    }

    /// The row vector `(vec.x, vec.y, vec.z, w)` times column `col` of
    /// `mat`.
    fn transform_entry<A: Arithmetic>(
        vec: Vector3,
        mat: &Matrix4,
        w: Scalar,
        col: usize,
        ops: &A,
    ) -> (r: Scalar)
        requires
            col < 4,
        ensures
            Vector3::transform_entry_is(ops, vec, *mat, w, col as int, r),
    {
        products4(
            vec.x,
            mat.get(0, col),
            vec.y,
            mat.get(1, col),
            vec.z,
            mat.get(2, col),
            w,
            mat.get(3, col),
            ops,
        )
    }

    /// The row vector `(vec.x, vec.y, vec.z, w)` times `mat`, its first
    /// three coordinates.
    pub fn transform<A: Arithmetic>(vec: Vector3, mat: Matrix4, w: Scalar, ops: &A) -> (r: Vector3)
        ensures
            Vector3::transform_is(ops, vec, mat, w, r),
    {
        Vector3 {
            x: Vector3::transform_entry(vec, &mat, w, 0, ops),
            y: Vector3::transform_entry(vec, &mat, w, 1, ops),
            z: Vector3::transform_entry(vec, &mat, w, 2, ops),
        }
    }

    /// The row vector `(vec.x, vec.y, vec.z, w)` times `mat`, its first
    /// three coordinates divided by the fourth unless the magnitude of the
    /// fourth is at most the divisor epsilon.
    pub fn transform_with_persp_div<A: Arithmetic>(
        vec: Vector3,
        mat: Matrix4,
        w: Scalar,
        ops: &A,
    ) -> (r: Vector3)
        ensures
            Vector3::transform_with_persp_div_is(ops, vec, mat, w, r),
    {
        let plain = Vector3::transform(vec, mat, w, ops);
        let fourth = Vector3::transform_entry(vec, &mat, w, 3, ops);
        let size = ops.magnitude(fourth);
        let divides = ops.less(Scalar::from_bits(DIVISOR_EPSILON_BITS), size);
        assert(Vector3::transform_is(ops, vec, mat, w, plain) && magnitude_is(ops, fourth, size)
            && less_is(ops, Vector3::divisor_epsilon(), size, divides));
        if divides {
            Vector3::divided(plain, fourth, ops)
        } else {
            plain
        }
    }

    /// The squared length `x * x + y * y + z * z`.
    pub fn length_sq<A: Arithmetic>(&self, ops: &A) -> (r: Scalar)
        ensures
            Vector3::length_sq_is(ops, *self, r),
    {
        products3(self.x, self.x, self.y, self.y, self.z, self.z, ops)
    }

    /// The length: the square root of the squared length.
    pub fn length<A: Arithmetic>(&self, ops: &A) -> (r: Scalar)
        ensures
            Vector3::length_is(ops, *self, r),
    {
        let sq = self.length_sq(ops);
        ops.square_root(sq)
    }

    /// Divides the vector by its length, unless the length is not greater
    /// than zero.
    pub fn normalize<A: Arithmetic>(&mut self, ops: &A)
        ensures
            Vector3::normalized_is(ops, *old(self), *final(self)),
    {
        let length = self.length(ops);
        let positive = ops.less(Scalar::zero(), length);
        assert(Vector3::length_is(ops, *old(self), length) && less_is(
            ops,
            Scalar::spec_zero(),
            length,
            positive,
        ));
        if positive {
            self.x = ops.quotient(self.x, length);
            self.y = ops.quotient(self.y, length);
            self.z = ops.quotient(self.z, length);
        }
    }

    /// `vec` divided by its length, unless the length is not greater than
    /// zero.
    pub fn normalized<A: Arithmetic>(vec: Vector3, ops: &A) -> (r: Vector3)
        ensures
            Vector3::normalized_is(ops, vec, r),
    {
        let mut temp = vec;
        temp.normalize(ops);
        temp
    }

    /// The dot product `a.x * b.x + a.y * b.y + a.z * b.z`.
    pub fn dot<A: Arithmetic>(a: Vector3, b: Vector3, ops: &A) -> (r: Scalar)
        ensures
            Vector3::dot_is(ops, a, b, r),
    {
        products3(a.x, b.x, a.y, b.y, a.z, b.z, ops)
    }

    /// The cross product `a x b`.
    pub fn cross<A: Arithmetic>(a: Vector3, b: Vector3, ops: &A) -> (r: Vector3)
        ensures
            Vector3::cross_is(ops, a, b, r),
    {
        Vector3 {
            x: products_apart(a.y, b.z, a.z, b.y, ops),
            y: products_apart(a.z, b.x, a.x, b.z, ops),
            z: products_apart(a.x, b.y, a.y, b.x, ops),
        }
    }

    /// The point between `a` and `b` at the fraction `f`: `a + (b - a) * f`.
    pub fn lerp<A: Arithmetic>(a: Vector3, b: Vector3, f: Scalar, ops: &A) -> (r: Vector3)
        ensures
            Vector3::lerp_is(ops, a, b, f, r),
    {
        let span = Vector3::minus(b, a, ops);
        let part = Vector3::scaled(span, f, ops);
        Vector3::plus(a, part, ops)
    }

    /// `v` reflected about the normal `n`: `v - 2 * dot(v, n) * n`.
    pub fn reflect<A: Arithmetic>(v: Vector3, n: Vector3, ops: &A) -> (r: Vector3)
        ensures
            Vector3::reflect_is(ops, v, n, r),
    {
        let d = Vector3::dot(v, n, ops);
        let twice = ops.product(Scalar::two(), d);
        let part = Vector3::scaled(n, twice, ops);
        assert(product_is(ops, Scalar::spec_two(), d, twice) && Vector3::scaled_is(ops, n, twice, part));
        Vector3::minus(v, part, ops)
    }
}

} // verus!
