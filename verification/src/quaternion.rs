//! Quaternions, for rotations in space.

use vstd::prelude::*;
use crate::math::arc_cosine_is;
use crate::math::at_most_is;
use crate::math::cosine_is;
use crate::math::difference_is;
use crate::math::lerp;
use crate::math::lerp_is;
use crate::math::less_is;
use crate::math::negation_is;
use crate::math::product_is;
use crate::math::products2;
use crate::math::products2_is;
use crate::math::products4;
use crate::math::products4_is;
use crate::math::quotient_is;
use crate::math::sine_is;
use crate::math::square_root_is;
use crate::math::Arithmetic;
use crate::math::Scalar;
use crate::math::NEG_ONE_BITS;
use crate::vector::Vector3;

verus! {

/// Bit pattern of 0.9999, the cosine from which on two quaternions are
/// blended along the straight line.
pub const NEARLY_ALIGNED_BITS: u32 = 0x3F7F_F972;

/// A quaternion `w + x i + y j + z k`.
#[derive(Clone, Copy, PartialEq, Eq, Structural, Debug)]
pub struct Quaternion {
    pub x: Scalar,
    pub y: Scalar,
    pub z: Scalar,
    pub w: Scalar,
}

impl Quaternion {
    /// The quaternion of no rotation.
    pub open spec fn spec_identity() -> Quaternion {
        Quaternion {
            x: Scalar::spec_zero(),
            y: Scalar::spec_zero(),
            z: Scalar::spec_zero(),
            w: Scalar::spec_one(),
        }
    }

    /// The vector part.
    pub open spec fn vector(self) -> Vector3 {
        Vector3 { x: self.x, y: self.y, z: self.z }
    }

    /// `q` is an answer of `ops` for the rotation about `axis` by `angle`:
    /// the axis times `sin(angle / 2)`, and `cos(angle / 2)`.
    pub open spec fn from_axis_angle_is<A: Arithmetic>(
        ops: &A,
        axis: Vector3,
        angle: Scalar,
        q: Quaternion,
    ) -> bool {
        exists|half: Scalar, scalar: Scalar, half_again: Scalar|
            #![trigger sine_is(ops, half, scalar), cosine_is(ops, half_again, q.w)]
            {
                &&& quotient_is(ops, angle, Scalar::spec_two(), half)
                &&& sine_is(ops, half, scalar)
                &&& Vector3::scaled_is(ops, axis, scalar, q.vector())
                &&& quotient_is(ops, angle, Scalar::spec_two(), half_again)
                &&& cosine_is(ops, half_again, q.w)
            }
    }

    /// `r` is an answer of `ops` for `q` with its vector part times minus
    /// one.
    pub open spec fn conjugate_is<A: Arithmetic>(ops: &A, q: Quaternion, r: Quaternion) -> bool {
        &&& Vector3::scaled_is(ops, q.vector(), Scalar { bits: NEG_ONE_BITS }, r.vector())
        &&& r.w == q.w
    }

    /// `r` is an answer of `ops` for `x * x + y * y + z * z + w * w`.
    pub open spec fn length_sq_is<A: Arithmetic>(ops: &A, q: Quaternion, r: Scalar) -> bool {
        products4_is(ops, q.x, q.x, q.y, q.y, q.z, q.z, q.w, q.w, r)
    }

    /// `r` is an answer of `ops` for the square root of the squared length.
    pub open spec fn length_is<A: Arithmetic>(ops: &A, q: Quaternion, r: Scalar) -> bool {
        exists|sq: Scalar| #[trigger] Quaternion::length_sq_is(ops, q, sq) && square_root_is(ops, sq, r)
    }

    /// `r` is an answer of `ops` for `q / s`.
    pub open spec fn divided_is<A: Arithmetic>(
        ops: &A,
        q: Quaternion,
        s: Scalar,
        r: Quaternion,
    ) -> bool {
        &&& quotient_is(ops, q.x, s, r.x)
        &&& quotient_is(ops, q.y, s, r.y)
        &&& quotient_is(ops, q.z, s, r.z)
        &&& quotient_is(ops, q.w, s, r.w)
    }

    /// `r` is an answer of `ops` for `q` divided by its length.
    pub open spec fn normalized_is<A: Arithmetic>(ops: &A, q: Quaternion, r: Quaternion) -> bool {
        exists|length: Scalar| #[trigger]
            Quaternion::length_is(ops, q, length) && Quaternion::divided_is(ops, q, length, r)
    }

    /// `r` is an answer of `ops` for the four parts of `a` and `b` blended
    /// at the fraction `f`, then normalized.
    pub open spec fn lerp_is<A: Arithmetic>(
        ops: &A,
        a: Quaternion,
        b: Quaternion,
        f: Scalar,
        r: Quaternion,
    ) -> bool {
        exists|mixed: Quaternion|
            {
                &&& lerp_is(ops, a.x, b.x, f, mixed.x)
                &&& lerp_is(ops, a.y, b.y, f, mixed.y)
                &&& lerp_is(ops, a.z, b.z, f, mixed.z)
                &&& lerp_is(ops, a.w, b.w, f, mixed.w)
                &&& #[trigger] Quaternion::normalized_is(ops, mixed, r)
            }
    }

    /// `r` is an answer of `ops` for `a.x * b.x + a.y * b.y + a.z * b.z +
    /// a.w * b.w`.
    pub open spec fn dot_is<A: Arithmetic>(ops: &A, a: Quaternion, b: Quaternion, r: Scalar) -> bool {
        products4_is(ops, a.x, b.x, a.y, b.y, a.z, b.z, a.w, b.w, r)
    }

    /// `r` is an answer of `ops` for `sin(share * omega) * inv_sin`.
    pub open spec fn arc_weight_is<A: Arithmetic>(
        ops: &A,
        share: Scalar,
        omega: Scalar,
        inv_sin: Scalar,
        r: Scalar,
    ) -> bool {
        exists|angle: Scalar, s: Scalar|
            product_is(ops, share, omega, angle) && #[trigger] sine_is(ops, angle, s) && product_is(
                ops,
                s,
                inv_sin,
                r,
            )
    }

    /// `(w0, w1)` is an answer of `ops` for the weights of two quaternions
    /// whose dot product has the magnitude `cosom`, at the fraction `f`:
    /// along the arc, `sin((1 - f) * omega) / sin(omega)` and `sin(f *
    /// omega) / sin(omega)` with `omega = acos(cosom)`, where `cosom <
    /// 0.9999`; else along the straight line, `1 - f` and `f`.
    pub open spec fn weights_is<A: Arithmetic>(
        ops: &A,
        cosom: Scalar,
        f: Scalar,
        w0: Scalar,
        w1: Scalar,
    ) -> bool {
        exists|apart: bool| #[trigger]
            less_is(ops, cosom, Scalar { bits: NEARLY_ALIGNED_BITS }, apart) && if apart {
                exists|omega: Scalar, s: Scalar, inv_sin: Scalar, rest: Scalar|
                    #![trigger
                        sine_is(ops, omega, s),
                        quotient_is(ops, Scalar::spec_one(), s, inv_sin),
                        difference_is(ops, Scalar::spec_one(), f, rest)]
                    {
                        &&& arc_cosine_is(ops, cosom, omega)
                        &&& sine_is(ops, omega, s)
                        &&& quotient_is(ops, Scalar::spec_one(), s, inv_sin)
                        &&& difference_is(ops, Scalar::spec_one(), f, rest)
                        &&& Quaternion::arc_weight_is(ops, rest, omega, inv_sin, w0)
                        &&& Quaternion::arc_weight_is(ops, f, omega, inv_sin, w1)
                    }
            } else {
                difference_is(ops, Scalar::spec_one(), f, w0) && w1 == f
            }
    }

    /// `r` is an answer of `ops` for `w0 * a + w1 * b`, part by part.
    pub open spec fn blend_is<A: Arithmetic>(
        ops: &A,
        a: Quaternion,
        b: Quaternion,
        w0: Scalar,
        w1: Scalar,
        r: Quaternion,
    ) -> bool {
        &&& products2_is(ops, w0, a.x, w1, b.x, r.x)
        &&& products2_is(ops, w0, a.y, w1, b.y, r.y)
        &&& products2_is(ops, w0, a.z, w1, b.z, r.z)
        &&& products2_is(ops, w0, a.w, w1, b.w, r.w)
    }

    /// `r` is an answer of `ops` for `a` and `b` blended along the arc
    /// between them at the fraction `f`: weighted as `weights_is` says for
    /// the magnitude of their dot product, the weight of `b` negated where
    /// the dot product is less than zero, and normalized.
    pub open spec fn slerp_is<A: Arithmetic>(
        ops: &A,
        a: Quaternion,
        b: Quaternion,
        f: Scalar,
        r: Quaternion,
    ) -> bool {
        exists|
            raw: Scalar,
            facing: bool,
            cosom: Scalar,
            w0: Scalar,
            w1: Scalar,
            averse: bool,
            signed: Scalar,
            mixed: Quaternion,
        |
            #![trigger
                at_most_is(ops, Scalar::spec_zero(), raw, facing),
                Quaternion::weights_is(ops, cosom, f, w0, w1),
                less_is(ops, raw, Scalar::spec_zero(), averse),
                Quaternion::blend_is(ops, a, b, w0, signed, mixed)]
            {
                &&& Quaternion::dot_is(ops, a, b, raw)
                &&& at_most_is(ops, Scalar::spec_zero(), raw, facing)
                &&& if facing {
                    cosom == raw
                } else {
                    negation_is(ops, raw, cosom)
                }
                &&& Quaternion::weights_is(ops, cosom, f, w0, w1)
                &&& less_is(ops, raw, Scalar::spec_zero(), averse)
                &&& if averse {
                    negation_is(ops, w1, signed)
                } else {
                    signed == w1
                }
                &&& Quaternion::blend_is(ops, a, b, w0, signed, mixed)
                &&& Quaternion::normalized_is(ops, mixed, r)
            }
    }

    /// `r` is an answer of `ops` for the rotation `q` followed by `p`: the
    /// vector part `p.w * qv + q.w * pv + pv x qv`, and `p.w * q.w - pv .
    /// qv`.
    pub open spec fn concatenate_is<A: Arithmetic>(
        ops: &A,
        q: Quaternion,
        p: Quaternion,
        r: Quaternion,
    ) -> bool {
        exists|first: Vector3, second: Vector3, both: Vector3, across: Vector3, ww: Scalar, d: Scalar|
            #![trigger
                Vector3::plus_is(ops, first, second, both),
                Vector3::plus_is(ops, both, across, r.vector()),
                difference_is(ops, ww, d, r.w)]
            {
                &&& Vector3::scaled_is(ops, q.vector(), p.w, first)
                &&& Vector3::scaled_is(ops, p.vector(), q.w, second)
                &&& Vector3::plus_is(ops, first, second, both)
                &&& Vector3::cross_is(ops, p.vector(), q.vector(), across)
                &&& Vector3::plus_is(ops, both, across, r.vector())
                &&& product_is(ops, p.w, q.w, ww)
                &&& Vector3::dot_is(ops, p.vector(), q.vector(), d)
                &&& difference_is(ops, ww, d, r.w)
            }
    }

    pub fn new(x: Scalar, y: Scalar, z: Scalar, w: Scalar) -> (q: Quaternion)
        ensures
            q == (Quaternion { x, y, z, w }),
    {
        Quaternion { x, y, z, w }
    }

    /// The quaternion of no rotation.
    #[verifier::when_used_as_spec(spec_identity)]
    pub fn identity() -> (q: Quaternion)
        ensures
            q == Quaternion::spec_identity(),
    {
        Quaternion { x: Scalar::zero(), y: Scalar::zero(), z: Scalar::zero(), w: Scalar::one() }
    }

    /// The rotation about `axis` by `angle`.
    pub fn from_axis_angle<A: Arithmetic>(axis: Vector3, angle: Scalar, ops: &A) -> (q: Quaternion)
        ensures
            Quaternion::from_axis_angle_is(ops, axis, angle, q),
    {
        let half = ops.quotient(angle, Scalar::two());
        let scalar = ops.sine(half);
        let v = Vector3::scaled(axis, scalar, ops);
        let half_again = ops.quotient(angle, Scalar::two());
        let w = ops.cosine(half_again);
        let q = Quaternion { x: v.x, y: v.y, z: v.z, w };
        assert(sine_is(ops, half, scalar) && cosine_is(ops, half_again, q.w));
        q
    }

    /// Sets all four parts.
    pub fn set(&mut self, x: Scalar, y: Scalar, z: Scalar, w: Scalar)
        ensures
            *final(self) == (Quaternion { x, y, z, w }),
    {
        self.x = x;
        self.y = y;
        self.z = z;
        self.w = w;
    }

    /// Multiplies the vector part by minus one.
    pub fn conjugate<A: Arithmetic>(&mut self, ops: &A)
        ensures
            Quaternion::conjugate_is(ops, *old(self), *final(self)),
    {
        let minus_one = Scalar::from_bits(NEG_ONE_BITS);
        self.x = ops.product(self.x, minus_one);
        self.y = ops.product(self.y, minus_one);
        self.z = ops.product(self.z, minus_one);
    }

    /// The squared length `x * x + y * y + z * z + w * w`.
    pub fn length_sq<A: Arithmetic>(&self, ops: &A) -> (r: Scalar)
        ensures
            Quaternion::length_sq_is(ops, *self, r),
    {
        products4(self.x, self.x, self.y, self.y, self.z, self.z, self.w, self.w, ops)
    }

    /// The length: the square root of the squared length.
    pub fn length<A: Arithmetic>(&self, ops: &A) -> (r: Scalar)
        ensures
            Quaternion::length_is(ops, *self, r),
    {
        let sq = self.length_sq(ops);
        ops.square_root(sq)
    }

    /// Divides the quaternion by its length.
    pub fn normalize<A: Arithmetic>(&mut self, ops: &A)
        ensures
            Quaternion::normalized_is(ops, *old(self), *final(self)),
    {
        let length = self.length(ops);
        self.x = ops.quotient(self.x, length);
        self.y = ops.quotient(self.y, length);
        self.z = ops.quotient(self.z, length);
        self.w = ops.quotient(self.w, length);
    }

    /// `q` divided by its length.
    pub fn normalized<A: Arithmetic>(q: Quaternion, ops: &A) -> (r: Quaternion)
        ensures
            Quaternion::normalized_is(ops, q, r),
    {
        let mut q = q;
        q.normalize(ops);
        q
    }

    /// The four parts of `a` and `b` blended at the fraction `f`, then
    /// normalized.
    pub fn lerp<A: Arithmetic>(a: Quaternion, b: Quaternion, f: Scalar, ops: &A) -> (r: Quaternion)
        ensures
            Quaternion::lerp_is(ops, a, b, f, r),
    {
        let mut ret_val = Quaternion {
            x: Quaternion::lerp_f32(a.x, b.x, f, ops),
            y: Quaternion::lerp_f32(a.y, b.y, f, ops),
            z: Quaternion::lerp_f32(a.z, b.z, f, ops),
            w: Quaternion::lerp_f32(a.w, b.w, f, ops),
        };
        ret_val.normalize(ops);
        ret_val
    }

    /// The number between `a` and `b` at the fraction `f`: `a + f * (b -
    /// a)`.
    pub fn lerp_f32<A: Arithmetic>(a: Scalar, b: Scalar, f: Scalar, ops: &A) -> (r: Scalar)
        ensures
            lerp_is(ops, a, b, f, r),
    {
        lerp(a, b, f, ops)
    }

    /// The dot product of the four parts.
    pub fn dot<A: Arithmetic>(a: Quaternion, b: Quaternion, ops: &A) -> (r: Scalar)
        ensures
            Quaternion::dot_is(ops, a, b, r),
    {
        products4(a.x, b.x, a.y, b.y, a.z, b.z, a.w, b.w, ops)
    }

    /// `sin(share * omega) * inv_sin`
    fn arc_weight<A: Arithmetic>(share: Scalar, omega: Scalar, inv_sin: Scalar, ops: &A) -> (r: Scalar)
        ensures
            Quaternion::arc_weight_is(ops, share, omega, inv_sin, r),
    {
        let angle = ops.product(share, omega);
        let s = ops.sine(angle);
        assert(sine_is(ops, angle, s));
        ops.product(s, inv_sin)
    }

    /// The weights of two quaternions whose dot product has the magnitude
    /// `cosom`, at the fraction `f`.
    fn weights<A: Arithmetic>(cosom: Scalar, f: Scalar, ops: &A) -> (w: (Scalar, Scalar))
        ensures
            Quaternion::weights_is(ops, cosom, f, w.0, w.1),
    {
        let apart = ops.less(cosom, Scalar::from_bits(NEARLY_ALIGNED_BITS));
        if apart {
            let omega = ops.arc_cosine(cosom);
            let s = ops.sine(omega);
            let inv_sin = ops.quotient(Scalar::one(), s);
            let rest = ops.difference(Scalar::one(), f);
            let w0 = Quaternion::arc_weight(rest, omega, inv_sin, ops);
            let w1 = Quaternion::arc_weight(f, omega, inv_sin, ops);
            assert(sine_is(ops, omega, s) && quotient_is(ops, Scalar::spec_one(), s, inv_sin)
                && difference_is(ops, Scalar::spec_one(), f, rest));
            assert(less_is(ops, cosom, Scalar { bits: NEARLY_ALIGNED_BITS }, apart));
            (w0, w1)
        } else {
            let w0 = ops.difference(Scalar::one(), f);
            assert(less_is(ops, cosom, Scalar { bits: NEARLY_ALIGNED_BITS }, apart));
            (w0, f)
        }
    }

    /// `a` and `b` blended along the arc between them at the fraction `f`.
    pub fn slerp<A: Arithmetic>(a: Quaternion, b: Quaternion, f: Scalar, ops: &A) -> (r: Quaternion)
        ensures
            Quaternion::slerp_is(ops, a, b, f, r),
    {
        let raw_cosom = Quaternion::dot(a, b, ops);
        let facing = ops.at_most(Scalar::zero(), raw_cosom);
        let cosom = if facing {
            raw_cosom
        } else {
            ops.negation(raw_cosom)
        };
        let (scale0, scale1) = Quaternion::weights(cosom, f, ops);
        let averse = ops.less(raw_cosom, Scalar::zero());
        let signed = if averse {
            ops.negation(scale1)
        } else {
            scale1
        };
        let mut ret_val = Quaternion {
            x: products2(scale0, a.x, signed, b.x, ops),
            y: products2(scale0, a.y, signed, b.y, ops),
            z: products2(scale0, a.z, signed, b.z, ops),
            w: products2(scale0, a.w, signed, b.w, ops),
        };
        let ghost mixed = ret_val;
        ret_val.normalize(ops);
        assert(at_most_is(ops, Scalar::spec_zero(), raw_cosom, facing) && Quaternion::weights_is(
            ops,
            cosom,
            f,
            scale0,
            scale1,
        ) && less_is(ops, raw_cosom, Scalar::spec_zero(), averse) && Quaternion::blend_is(
            ops,
            a,
            b,
            scale0,
            signed,
            mixed,
        ));
        ret_val
    }

    /// The rotation `q` followed by `p`.
    pub fn concatenate<A: Arithmetic>(q: Quaternion, p: Quaternion, ops: &A) -> (r: Quaternion)
        ensures
            Quaternion::concatenate_is(ops, q, p, r),
    {
        let qv = Vector3::new(q.x, q.y, q.z);
        let pv = Vector3::new(p.x, p.y, p.z);
        let first = Vector3::scaled(qv, p.w, ops);
        let second = Vector3::scaled(pv, q.w, ops);
        let both = Vector3::plus(first, second, ops);
        let across = Vector3::cross(pv, qv, ops);
        let new_vec = Vector3::plus(both, across, ops);
        let ww = ops.product(p.w, q.w);
        let d = Vector3::dot(pv, qv, ops);
        let w = ops.difference(ww, d);
        let r = Quaternion { x: new_vec.x, y: new_vec.y, z: new_vec.z, w };
        assert(Vector3::plus_is(ops, first, second, both) && Vector3::plus_is(ops, both, across, r.vector())
            && difference_is(ops, ww, d, r.w));
        r
    }
}

impl Default for Quaternion {
    fn default() -> (q: Quaternion)
        ensures
            q == Quaternion::spec_identity(),
    {
        Quaternion::identity()
    }
}

} // verus!
