//! Matrices in row-major order, applied to row vectors: a transform that is
//! to act first stands on the left of a product.

use vstd::prelude::*;
use crate::math::cosine_is;
use crate::math::difference_is;
use crate::math::negation_is;
use crate::math::product_is;
use crate::math::products3;
use crate::math::products3_is;
use crate::math::products4;
use crate::math::products4_is;
use crate::math::quotient_is;
use crate::math::sine_is;
use crate::math::sum_is;
use crate::math::tangent_is;
use crate::math::Arithmetic;
use crate::math::Scalar;
use crate::quaternion::Quaternion;
use crate::vector::Vector2;
use crate::vector::Vector3;

verus! {

/// A 3x3 matrix.
#[derive(Clone, Copy, Debug)]
pub struct Matrix3 {
    pub mat: [[Scalar; 3]; 3],
}

impl Matrix3 {
    /// The entry in row `row`, column `col`.
    pub open spec fn at(self, row: int, col: int) -> Scalar {
        self.mat@[row]@[col]
    }

    /// The identity matrix.
    pub open spec fn spec_identity() -> Matrix3 {
        Matrix3::spec_scale(Scalar::spec_one(), Scalar::spec_one())
    }

    /// The matrix that scales the two axes by `x` and `y`.
    pub open spec fn spec_scale(x: Scalar, y: Scalar) -> Matrix3 {
        let o = Scalar::spec_zero();
        let i = Scalar::spec_one();
        Matrix3 { mat: [[x, o, o], [o, y, o], [o, o, i]] }
    }

    /// The matrix that turns, given the cosine, the sine and the negated
    /// sine of the angle.
    pub open spec fn spec_rotation(cos: Scalar, sin: Scalar, neg_sin: Scalar) -> Matrix3 {
        let o = Scalar::spec_zero();
        let i = Scalar::spec_one();
        Matrix3 { mat: [[cos, sin, o], [neg_sin, cos, o], [o, o, i]] }
    }

    /// The matrix that moves by `t`.
    pub open spec fn spec_translation(t: Vector2) -> Matrix3 {
        let o = Scalar::spec_zero();
        let i = Scalar::spec_one();
        Matrix3 { mat: [[i, o, o], [o, i, o], [t.x, t.y, i]] }
    }

    /// `m` is an answer of `ops` for the rotation by `theta`.
    pub open spec fn rotation_is<A: Arithmetic>(ops: &A, theta: Scalar, m: Matrix3) -> bool {
        exists|cos: Scalar, sin: Scalar, neg_sin: Scalar|
            {
                &&& cosine_is(ops, theta, cos)
                &&& sine_is(ops, theta, sin)
                &&& negation_is(ops, sin, neg_sin)
                &&& m == #[trigger] Matrix3::spec_rotation(cos, sin, neg_sin)
            }
    }

    /// `out` is an answer of `ops` for row `row` of `a` times column `col`
    /// of `b`: the three products, summed from the left.
    pub open spec fn entry_product_is<A: Arithmetic>(
        ops: &A,
        a: Matrix3,
        b: Matrix3,
        row: int,
        col: int,
        out: Scalar,
    ) -> bool {
        products3_is(
            ops,
            a.at(row, 0),
            b.at(0, col),
            a.at(row, 1),
            b.at(1, col),
            a.at(row, 2),
            b.at(2, col),
            out,
        )
    }

    /// `out` is an answer of `ops` for the matrix product `a * b`.
    pub open spec fn product_is<A: Arithmetic>(ops: &A, a: Matrix3, b: Matrix3, out: Matrix3) -> bool {
        forall|row: int, col: int|
            0 <= row < 3 && 0 <= col < 3 ==> Matrix3::entry_product_is(
                ops,
                a,
                b,
                row,
                col,
                #[trigger] out.at(row, col),
            )
    }

    pub fn new(mat: [[Scalar; 3]; 3]) -> (m: Matrix3)
        ensures
            m.mat == mat,
    {
        Matrix3 { mat }
    }

    /// The entry in row `row`, column `col`.
    pub fn get(&self, row: usize, col: usize) -> (s: Scalar)
        requires
            row < 3,
            col < 3,
        ensures
            s == self.at(row as int, col as int),
    {
        self.mat[row][col]
    }

    #[verifier::when_used_as_spec(spec_identity)]
    pub fn identity() -> (m: Matrix3)
        ensures
            m == Matrix3::spec_identity(),
    {
        let o = Scalar::zero();
        let i = Scalar::one();
        Matrix3 { mat: [[i, o, o], [o, i, o], [o, o, i]] }
    }

    /// Row `row` of `self` times column `col` of `other`.
    fn entry_product<A: Arithmetic>(
        &self,
        other: &Matrix3,
        row: usize,
        col: usize,
        ops: &A,
    ) -> (out: Scalar)
        requires
            row < 3,
            col < 3,
        ensures
            Matrix3::entry_product_is(ops, *self, *other, row as int, col as int, out),
    {
        products3(
            self.mat[row][0],
            other.mat[0][col],
            self.mat[row][1],
            other.mat[1][col],
            self.mat[row][2],
            other.mat[2][col],
            ops,
        )
    }

    /// Row `row` of `self * other`.
    fn row_product<A: Arithmetic>(&self, other: &Matrix3, row: usize, ops: &A) -> (out: [Scalar; 3])
        requires
            row < 3,
        ensures
            forall|col: int|
                0 <= col < 3 ==> Matrix3::entry_product_is(
                    ops,
                    *self,
                    *other,
                    row as int,
                    col,
                    #[trigger] out@[col],
                ),
    {
        [
            self.entry_product(other, row, 0, ops),
            self.entry_product(other, row, 1, ops),
            self.entry_product(other, row, 2, ops),
        ]
    }

    /// The matrix product `self * other`: each entry a row of `self` times
    /// a column of `other`.
    pub fn mul<A: Arithmetic>(self, other: Matrix3, ops: &A) -> (out: Matrix3)
        ensures
            Matrix3::product_is(ops, self, other, out),
    {
        let out = Matrix3 {
            mat: [
                self.row_product(&other, 0, ops),
                self.row_product(&other, 1, ops),
                self.row_product(&other, 2, ops),
            ],
        };
        out
    }

    /// Puts `self * other` in the place of `self`.
    pub fn mul_assign<A: Arithmetic>(&mut self, other: Matrix3, ops: &A)
        ensures
            Matrix3::product_is(ops, *old(self), other, *final(self)),
    {
        *self = self.mul(other, ops);
    }

    #[verifier::when_used_as_spec(spec_scale)]
    pub fn create_scale(x_scale: Scalar, y_scale: Scalar) -> (m: Matrix3)
        ensures
            m == Matrix3::spec_scale(x_scale, y_scale),
    {
        let o = Scalar::zero();
        let i = Scalar::one();
        Matrix3 { mat: [[x_scale, o, o], [o, y_scale, o], [o, o, i]] }
    }

    pub fn create_uniform_scale(scale: Scalar) -> (m: Matrix3)
        ensures
            m == Matrix3::spec_scale(scale, scale),
    {
        Matrix3::create_scale(scale, scale)
    }

    pub fn create_rotation<A: Arithmetic>(theta: Scalar, ops: &A) -> (m: Matrix3)
        ensures
            Matrix3::rotation_is(ops, theta, m),
    {
        let cos = ops.cosine(theta);
        let sin = ops.sine(theta);
        let neg_sin = ops.negation(sin);
        let o = Scalar::zero();
        let i = Scalar::one();
        let m = Matrix3 { mat: [[cos, sin, o], [neg_sin, cos, o], [o, o, i]] };
        assert(m == Matrix3::spec_rotation(cos, sin, neg_sin));
        m
    }

    #[verifier::when_used_as_spec(spec_translation)]
    pub fn create_translation(translation: Vector2) -> (m: Matrix3)
        ensures
            m == Matrix3::spec_translation(translation),
    {
        let o = Scalar::zero();
        let i = Scalar::one();
        Matrix3 { mat: [[i, o, o], [o, i, o], [translation.x, translation.y, i]] }
    }
}

/// A 4x4 matrix.
#[derive(Clone, Copy, Debug)]
pub struct Matrix4 {
    pub mat: [[Scalar; 4]; 4],
}

impl Matrix4 {
    /// The entry in row `row`, column `col`.
    pub open spec fn at(self, row: int, col: int) -> Scalar {
        self.mat@[row]@[col]
    }

    /// The identity matrix.
    pub open spec fn spec_identity() -> Matrix4 {
        Matrix4::spec_scale(Scalar::spec_one(), Scalar::spec_one(), Scalar::spec_one())
    }

    /// The matrix that scales the three axes by `x`, `y`, `z`.
    pub open spec fn spec_scale(x: Scalar, y: Scalar, z: Scalar) -> Matrix4 {
        let o = Scalar::spec_zero();
        let i = Scalar::spec_one();
        Matrix4 { mat: [[x, o, o, o], [o, y, o, o], [o, o, z, o], [o, o, o, i]] }
    }

    /// The matrix that turns about the x axis, given the cosine, the sine
    /// and the negated sine of the angle.
    pub open spec fn spec_rotation_x(cos: Scalar, sin: Scalar, neg_sin: Scalar) -> Matrix4 {
        let o = Scalar::spec_zero();
        let i = Scalar::spec_one();
        Matrix4 { mat: [[i, o, o, o], [o, cos, sin, o], [o, neg_sin, cos, o], [o, o, o, i]] }
    }

    /// The matrix that turns about the y axis, given the cosine, the sine
    /// and the negated sine of the angle.
    pub open spec fn spec_rotation_y(cos: Scalar, sin: Scalar, neg_sin: Scalar) -> Matrix4 {
        let o = Scalar::spec_zero();
        let i = Scalar::spec_one();
        Matrix4 { mat: [[cos, o, neg_sin, o], [o, i, o, o], [sin, o, cos, o], [o, o, o, i]] }
    }

    /// The matrix that turns about the z axis, given the cosine, the sine
    /// and the negated sine of the angle.
    pub open spec fn spec_rotation_z(cos: Scalar, sin: Scalar, neg_sin: Scalar) -> Matrix4 {
        let o = Scalar::spec_zero();
        let i = Scalar::spec_one();
        Matrix4 { mat: [[cos, sin, o, o], [neg_sin, cos, o, o], [o, o, i, o], [o, o, o, i]] }
    }

    /// The matrix that moves by `t`.
    pub open spec fn spec_translation(t: Vector3) -> Matrix4 {
        let o = Scalar::spec_zero();
        let i = Scalar::spec_one();
        Matrix4 { mat: [[i, o, o, o], [o, i, o, o], [o, o, i, o], [t.x, t.y, t.z, i]] }
    }

    /// The matrix whose first three columns are `x`, `y` and `z` and whose
    /// last row starts with `t`.
    pub open spec fn spec_frame(x: Vector3, y: Vector3, z: Vector3, t: Vector3) -> Matrix4 {
        let o = Scalar::spec_zero();
        let i = Scalar::spec_one();
        Matrix4 { mat: [[x.x, y.x, z.x, o], [x.y, y.y, z.y, o], [x.z, y.z, z.z, o], [t.x, t.y, t.z, i]] }
    }

    /// The matrix with `x`, `y`, `z` on the diagonal, `below` under `z`,
    /// and `corner_above` and `corner` in the last column of the last two
    /// rows.
    pub open spec fn spec_projection(
        x: Scalar,
        y: Scalar,
        z: Scalar,
        corner_above: Scalar,
        below: Scalar,
        corner: Scalar,
    ) -> Matrix4 {
        let o = Scalar::spec_zero();
        Matrix4 { mat: [[x, o, o, o], [o, y, o, o], [o, o, z, corner_above], [o, o, below, corner]] }
    }

    /// `m` is an answer of `ops` for the rotation about the x axis by
    /// `theta`.
    pub open spec fn rotation_x_is<A: Arithmetic>(ops: &A, theta: Scalar, m: Matrix4) -> bool {
        exists|cos: Scalar, sin: Scalar, neg_sin: Scalar|
            {
                &&& cosine_is(ops, theta, cos)
                &&& sine_is(ops, theta, sin)
                &&& negation_is(ops, sin, neg_sin)
                &&& m == #[trigger] Matrix4::spec_rotation_x(cos, sin, neg_sin)
            }
    }

    /// `m` is an answer of `ops` for the rotation about the y axis by
    /// `theta`.
    pub open spec fn rotation_y_is<A: Arithmetic>(ops: &A, theta: Scalar, m: Matrix4) -> bool {
        exists|cos: Scalar, sin: Scalar, neg_sin: Scalar|
            {
                &&& cosine_is(ops, theta, cos)
                &&& sine_is(ops, theta, sin)
                &&& negation_is(ops, sin, neg_sin)
                &&& m == #[trigger] Matrix4::spec_rotation_y(cos, sin, neg_sin)
            }
    }

    /// `m` is an answer of `ops` for the rotation about the z axis by
    /// `theta`.
    pub open spec fn rotation_z_is<A: Arithmetic>(ops: &A, theta: Scalar, m: Matrix4) -> bool {
        exists|cos: Scalar, sin: Scalar, neg_sin: Scalar|
            {
                &&& cosine_is(ops, theta, cos)
                &&& sine_is(ops, theta, sin)
                &&& negation_is(ops, sin, neg_sin)
                &&& m == #[trigger] Matrix4::spec_rotation_z(cos, sin, neg_sin)
            }
    }

    /// `out` is an answer of `ops` for row `row` of `a` times column `col`
    /// of `b`: the four products, summed from the left.
    pub open spec fn entry_product_is<A: Arithmetic>(
        ops: &A,
        a: Matrix4,
        b: Matrix4,
        row: int,
        col: int,
        out: Scalar,
    ) -> bool {
        products4_is(
            ops,
            a.at(row, 0),
            b.at(0, col),
            a.at(row, 1),
            b.at(1, col),
            a.at(row, 2),
            b.at(2, col),
            a.at(row, 3),
            b.at(3, col),
            out,
        )
    }

    /// `out` is an answer of `ops` for the matrix product `a * b`.
    pub open spec fn product_is<A: Arithmetic>(ops: &A, a: Matrix4, b: Matrix4, out: Matrix4) -> bool {
        forall|row: int, col: int|
            0 <= row < 4 && 0 <= col < 4 ==> Matrix4::entry_product_is(
                ops,
                a,
                b,
                row,
                col,
                #[trigger] out.at(row, col),
            )
    }

    /// `r` is an answer of `ops` for `2 * a * b`, multiplied from the left.
    pub open spec fn twice_is<A: Arithmetic>(ops: &A, a: Scalar, b: Scalar, r: Scalar) -> bool {
        exists|double: Scalar| #[trigger]
            product_is(ops, Scalar::spec_two(), a, double) && product_is(ops, double, b, r)
    }

    /// `r` is an answer of `ops` for `1 - 2 * a * a - 2 * b * b`.
    pub open spec fn one_less_squares_is<A: Arithmetic>(
        ops: &A,
        a: Scalar,
        b: Scalar,
        r: Scalar,
    ) -> bool {
        exists|aa: Scalar, bb: Scalar, rest: Scalar|
            #![trigger
                difference_is(ops, Scalar::spec_one(), aa, rest),
                difference_is(ops, rest, bb, r)]
            {
                &&& Matrix4::twice_is(ops, a, a, aa)
                &&& Matrix4::twice_is(ops, b, b, bb)
                &&& difference_is(ops, Scalar::spec_one(), aa, rest)
                &&& difference_is(ops, rest, bb, r)
            }
    }

    /// `r` is an answer of `ops` for `2 * a * b + 2 * c * d`.
    pub open spec fn twice_plus_is<A: Arithmetic>(
        ops: &A,
        a: Scalar,
        b: Scalar,
        c: Scalar,
        d: Scalar,
        r: Scalar,
    ) -> bool {
        exists|ab: Scalar, cd: Scalar|
            Matrix4::twice_is(ops, a, b, ab) && Matrix4::twice_is(ops, c, d, cd) && #[trigger] sum_is(
                ops,
                ab,
                cd,
                r,
            )
    }

    /// `r` is an answer of `ops` for `2 * a * b - 2 * c * d`.
    pub open spec fn twice_minus_is<A: Arithmetic>(
        ops: &A,
        a: Scalar,
        b: Scalar,
        c: Scalar,
        d: Scalar,
        r: Scalar,
    ) -> bool {
        exists|ab: Scalar, cd: Scalar|
            Matrix4::twice_is(ops, a, b, ab) && Matrix4::twice_is(ops, c, d, cd)
                && #[trigger] difference_is(ops, ab, cd, r)
    }

    /// `m` is an answer of `ops` for the rotation that the quaternion `q`
    /// stands for.
    pub open spec fn from_quaternion_is<A: Arithmetic>(ops: &A, q: Quaternion, m: Matrix4) -> bool {
        let o = Scalar::spec_zero();
        let i = Scalar::spec_one();
        &&& Matrix4::one_less_squares_is(ops, q.y, q.z, m.at(0, 0))
        &&& Matrix4::twice_plus_is(ops, q.x, q.y, q.w, q.z, m.at(0, 1))
        &&& Matrix4::twice_minus_is(ops, q.x, q.z, q.w, q.y, m.at(0, 2))
        &&& Matrix4::twice_minus_is(ops, q.x, q.y, q.w, q.z, m.at(1, 0))
        &&& Matrix4::one_less_squares_is(ops, q.x, q.z, m.at(1, 1))
        &&& Matrix4::twice_plus_is(ops, q.y, q.z, q.w, q.x, m.at(1, 2))
        &&& Matrix4::twice_plus_is(ops, q.x, q.z, q.w, q.y, m.at(2, 0))
        &&& Matrix4::twice_minus_is(ops, q.y, q.z, q.w, q.x, m.at(2, 1))
        &&& Matrix4::one_less_squares_is(ops, q.x, q.y, m.at(2, 2))
        &&& m.at(0, 3) == o && m.at(1, 3) == o && m.at(2, 3) == o
        &&& m.at(3, 0) == o && m.at(3, 1) == o && m.at(3, 2) == o && m.at(3, 3) == i
    }

    /// `m` is an answer of `ops` for the view of an eye at `eye` that looks
    /// at `target`, with `up` upwards: the axes are the normalized
    /// `target - eye`, `up x z` and `z x x`, and the last row holds the
    /// negated dot products of the axes with `eye`.
    pub open spec fn look_at_is<A: Arithmetic>(
        ops: &A,
        eye: Vector3,
        target: Vector3,
        up: Vector3,
        m: Matrix4,
    ) -> bool {
        exists|
            ahead: Vector3,
            z: Vector3,
            side: Vector3,
            x: Vector3,
            over: Vector3,
            y: Vector3,
            dots: Vector3,
            t: Vector3,
        |
            #![trigger
                Vector3::normalized_is(ops, ahead, z),
                Vector3::normalized_is(ops, side, x),
                Vector3::normalized_is(ops, over, y),
                Matrix4::negated_is(ops, dots, t)]
            {
                &&& Vector3::minus_is(ops, target, eye, ahead)
                &&& Vector3::normalized_is(ops, ahead, z)
                &&& Vector3::cross_is(ops, up, z, side)
                &&& Vector3::normalized_is(ops, side, x)
                &&& Vector3::cross_is(ops, z, x, over)
                &&& Vector3::normalized_is(ops, over, y)
                &&& Vector3::dot_is(ops, x, eye, dots.x)
                &&& Vector3::dot_is(ops, y, eye, dots.y)
                &&& Vector3::dot_is(ops, z, eye, dots.z)
                &&& Matrix4::negated_is(ops, dots, t)
                &&& m == Matrix4::spec_frame(x, y, z, t)
            }
    }

    /// `r` is an answer of `ops` for `-v`, coordinate by coordinate.
    pub open spec fn negated_is<A: Arithmetic>(ops: &A, v: Vector3, r: Vector3) -> bool {
        negation_is(ops, v.x, r.x) && negation_is(ops, v.y, r.y) && negation_is(ops, v.z, r.z)
    }

    /// `m` is an answer of `ops` for the orthographic projection of a view
    /// `width` wide and `height` high between the depths `near` and `far`:
    /// `2 / width`, `2 / height` and `1 / (far - near)` on the diagonal,
    /// `near / (near - far)` below.
    pub open spec fn ortho_is<A: Arithmetic>(
        ops: &A,
        width: Scalar,
        height: Scalar,
        near: Scalar,
        far: Scalar,
        m: Matrix4,
    ) -> bool {
        exists|x: Scalar, y: Scalar, depth: Scalar, z: Scalar, back: Scalar, below: Scalar|
            #![trigger
                quotient_is(ops, Scalar::spec_two(), width, x),
                quotient_is(ops, Scalar::spec_two(), height, y),
                quotient_is(ops, Scalar::spec_one(), depth, z),
                quotient_is(ops, near, back, below)]
            {
                &&& quotient_is(ops, Scalar::spec_two(), width, x)
                &&& quotient_is(ops, Scalar::spec_two(), height, y)
                &&& difference_is(ops, far, near, depth)
                &&& quotient_is(ops, Scalar::spec_one(), depth, z)
                &&& difference_is(ops, near, far, back)
                &&& quotient_is(ops, near, back, below)
                &&& m == Matrix4::spec_projection(
                    x,
                    y,
                    z,
                    Scalar::spec_zero(),
                    below,
                    Scalar::spec_one(),
                )
            }
    }

    /// `r` is an answer of `ops` for `1 / tan(fov_y / 2)`.
    pub open spec fn fov_scale_is<A: Arithmetic>(ops: &A, fov_y: Scalar, r: Scalar) -> bool {
        exists|half: Scalar, t: Scalar|
            quotient_is(ops, fov_y, Scalar::spec_two(), half) && #[trigger] tangent_is(ops, half, t)
                && quotient_is(ops, Scalar::spec_one(), t, r)
    }

    /// `m` is an answer of `ops` for the perspective projection with the
    /// vertical field of view `fov_y`: `y = 1 / tan(fov_y / 2)` and
    /// `x = y * height / width` on the diagonal, then `far / (far - near)`
    /// with a one beside it, and `-near * far / (far - near)` below.
    pub open spec fn perspective_fov_is<A: Arithmetic>(
        ops: &A,
        fov_y: Scalar,
        width: Scalar,
        height: Scalar,
        near: Scalar,
        far: Scalar,
        m: Matrix4,
    ) -> bool {
        exists|
            y: Scalar,
            tall: Scalar,
            x: Scalar,
            depth: Scalar,
            z: Scalar,
            neg_near: Scalar,
            through: Scalar,
            depth_again: Scalar,
            below: Scalar,
        |
            #![trigger
                product_is(ops, y, height, tall),
                quotient_is(ops, tall, width, x),
                quotient_is(ops, far, depth, z),
                product_is(ops, neg_near, far, through),
                quotient_is(ops, through, depth_again, below)]
            {
                &&& Matrix4::fov_scale_is(ops, fov_y, y)
                &&& product_is(ops, y, height, tall)
                &&& quotient_is(ops, tall, width, x)
                &&& difference_is(ops, far, near, depth)
                &&& quotient_is(ops, far, depth, z)
                &&& negation_is(ops, near, neg_near)
                &&& product_is(ops, neg_near, far, through)
                &&& difference_is(ops, far, near, depth_again)
                &&& quotient_is(ops, through, depth_again, below)
                &&& m == Matrix4::spec_projection(
                    x,
                    y,
                    z,
                    Scalar::spec_one(),
                    below,
                    Scalar::spec_zero(),
                )
            }
    }

    /// `m` is an answer of `ops` for the simple view projection of a view
    /// `width` wide and `height` high: `2 / width`, `2 / height` and one on
    /// the diagonal, and a one below.
    pub open spec fn simple_view_proj_is<A: Arithmetic>(
        ops: &A,
        width: Scalar,
        height: Scalar,
        m: Matrix4,
    ) -> bool {
        exists|x: Scalar, y: Scalar|
            #![trigger
                quotient_is(ops, Scalar::spec_two(), width, x),
                quotient_is(ops, Scalar::spec_two(), height, y)]
            {
                &&& quotient_is(ops, Scalar::spec_two(), width, x)
                &&& quotient_is(ops, Scalar::spec_two(), height, y)
                &&& m == Matrix4::spec_projection(
                    x,
                    y,
                    Scalar::spec_one(),
                    Scalar::spec_zero(),
                    Scalar::spec_one(),
                    Scalar::spec_one(),
                )
            }
    }

    pub fn new(mat: [[Scalar; 4]; 4]) -> (m: Matrix4)
        ensures
            m.mat == mat,
    {
        Matrix4 { mat }
    }

    /// The entry in row `row`, column `col`.
    pub fn get(&self, row: usize, col: usize) -> (s: Scalar)
        requires
            row < 4,
            col < 4,
        ensures
            s == self.at(row as int, col as int),
    {
        self.mat[row][col]
    }

    /// `2 * a * b`, multiplied from the left.
    fn twice<A: Arithmetic>(a: Scalar, b: Scalar, ops: &A) -> (r: Scalar)
        ensures
            Matrix4::twice_is(ops, a, b, r),
    {
        let double = ops.product(Scalar::two(), a);
        assert(product_is(ops, Scalar::spec_two(), a, double));
        ops.product(double, b)
    }

    /// `1 - 2 * a * a - 2 * b * b`
    fn one_less_squares<A: Arithmetic>(a: Scalar, b: Scalar, ops: &A) -> (r: Scalar)
        ensures
            Matrix4::one_less_squares_is(ops, a, b, r),
    {
        let aa = Matrix4::twice(a, a, ops);
        let rest = ops.difference(Scalar::one(), aa);
        let bb = Matrix4::twice(b, b, ops);
        let r = ops.difference(rest, bb);
        assert(difference_is(ops, Scalar::spec_one(), aa, rest) && difference_is(ops, rest, bb, r));
        r
    }

    /// `2 * a * b + 2 * c * d`
    fn twice_plus<A: Arithmetic>(a: Scalar, b: Scalar, c: Scalar, d: Scalar, ops: &A) -> (r: Scalar)
        ensures
            Matrix4::twice_plus_is(ops, a, b, c, d, r),
    {
        let ab = Matrix4::twice(a, b, ops);
        let cd = Matrix4::twice(c, d, ops);
        let r = ops.sum(ab, cd);
        assert(sum_is(ops, ab, cd, r));
        r
    }

    /// `2 * a * b - 2 * c * d`
    fn twice_minus<A: Arithmetic>(a: Scalar, b: Scalar, c: Scalar, d: Scalar, ops: &A) -> (r: Scalar)
        ensures
            Matrix4::twice_minus_is(ops, a, b, c, d, r),
    {
        let ab = Matrix4::twice(a, b, ops);
        let cd = Matrix4::twice(c, d, ops);
        let r = ops.difference(ab, cd);
        assert(difference_is(ops, ab, cd, r));
        r
    }

    /// The rotation that the quaternion `q` stands for.
    pub fn create_from_quaternion<A: Arithmetic>(q: Quaternion, ops: &A) -> (m: Matrix4)
        ensures
            Matrix4::from_quaternion_is(ops, q, m),
    {
        let o = Scalar::zero();
        let i = Scalar::one();
        Matrix4 {
            mat: [
                [
                    Matrix4::one_less_squares(q.y, q.z, ops),
                    Matrix4::twice_plus(q.x, q.y, q.w, q.z, ops),
                    Matrix4::twice_minus(q.x, q.z, q.w, q.y, ops),
                    o,
                ],
                [
                    Matrix4::twice_minus(q.x, q.y, q.w, q.z, ops),
                    Matrix4::one_less_squares(q.x, q.z, ops),
                    Matrix4::twice_plus(q.y, q.z, q.w, q.x, ops),
                    o,
                ],
                [
                    Matrix4::twice_plus(q.x, q.z, q.w, q.y, ops),
                    Matrix4::twice_minus(q.y, q.z, q.w, q.x, ops),
                    Matrix4::one_less_squares(q.x, q.y, ops),
                    o,
                ],
                [o, o, o, i],
            ],
        }
    }

    #[verifier::when_used_as_spec(spec_identity)]
    pub fn identity() -> (m: Matrix4)
        ensures
            m == Matrix4::spec_identity(),
    {
        let o = Scalar::zero();
        let i = Scalar::one();
        Matrix4 { mat: [[i, o, o, o], [o, i, o, o], [o, o, i, o], [o, o, o, i]] }
    }

    /// Row `row` of `self` times column `col` of `other`.
    fn entry_product<A: Arithmetic>(
        &self,
        other: &Matrix4,
        row: usize,
        col: usize,
        ops: &A,
    ) -> (out: Scalar)
        requires
            row < 4,
            col < 4,
        ensures
            Matrix4::entry_product_is(ops, *self, *other, row as int, col as int, out),
    {
        products4(
            self.mat[row][0],
            other.mat[0][col],
            self.mat[row][1],
            other.mat[1][col],
            self.mat[row][2],
            other.mat[2][col],
            self.mat[row][3],
            other.mat[3][col],
            ops,
        )
    }

    /// Row `row` of `self * other`.
    fn row_product<A: Arithmetic>(&self, other: &Matrix4, row: usize, ops: &A) -> (out: [Scalar; 4])
        requires
            row < 4,
        ensures
            forall|col: int|
                0 <= col < 4 ==> Matrix4::entry_product_is(
                    ops,
                    *self,
                    *other,
                    row as int,
                    col,
                    #[trigger] out@[col],
                ),
    {
        [
            self.entry_product(other, row, 0, ops),
            self.entry_product(other, row, 1, ops),
            self.entry_product(other, row, 2, ops),
            self.entry_product(other, row, 3, ops),
        ]
    }

    /// The matrix product `self * other`: each entry a row of `self` times
    /// a column of `other`.
    pub fn mul<A: Arithmetic>(self, other: Matrix4, ops: &A) -> (out: Matrix4)
        ensures
            Matrix4::product_is(ops, self, other, out),
    {
        let out = Matrix4 {
            mat: [
                self.row_product(&other, 0, ops),
                self.row_product(&other, 1, ops),
                self.row_product(&other, 2, ops),
                self.row_product(&other, 3, ops),
            ],
        };
        out
    }

    /// Puts `self * other` in the place of `self`.
    pub fn mul_assign<A: Arithmetic>(&mut self, other: Matrix4, ops: &A)
        ensures
            Matrix4::product_is(ops, *old(self), other, *final(self)),
    {
        *self = self.mul(other, ops);
    }

    #[verifier::when_used_as_spec(spec_scale)]
    pub fn create_scale(x_scale: Scalar, y_scale: Scalar, z_scale: Scalar) -> (m: Matrix4)
        ensures
            m == Matrix4::spec_scale(x_scale, y_scale, z_scale),
    {
        let o = Scalar::zero();
        let i = Scalar::one();
        Matrix4 { mat: [[x_scale, o, o, o], [o, y_scale, o, o], [o, o, z_scale, o], [o, o, o, i]] }
    }

    pub fn create_uniform_scale(scale: Scalar) -> (m: Matrix4)
        ensures
            m == Matrix4::spec_scale(scale, scale, scale),
    {
        Matrix4::create_scale(scale, scale, scale)
    }

    pub fn create_rotation_x<A: Arithmetic>(theta: Scalar, ops: &A) -> (m: Matrix4)
        ensures
            Matrix4::rotation_x_is(ops, theta, m),
    {
        let cos = ops.cosine(theta);
        let sin = ops.sine(theta);
        let neg_sin = ops.negation(sin);
        let o = Scalar::zero();
        let i = Scalar::one();
        let m = Matrix4 { mat: [[i, o, o, o], [o, cos, sin, o], [o, neg_sin, cos, o], [o, o, o, i]] };
        assert(m == Matrix4::spec_rotation_x(cos, sin, neg_sin));
        m
    }

    pub fn create_rotation_y<A: Arithmetic>(theta: Scalar, ops: &A) -> (m: Matrix4)
        ensures
            Matrix4::rotation_y_is(ops, theta, m),
    {
        let cos = ops.cosine(theta);
        let sin = ops.sine(theta);
        let neg_sin = ops.negation(sin);
        let o = Scalar::zero();
        let i = Scalar::one();
        let m = Matrix4 { mat: [[cos, o, neg_sin, o], [o, i, o, o], [sin, o, cos, o], [o, o, o, i]] };
        assert(m == Matrix4::spec_rotation_y(cos, sin, neg_sin));
        m
    }

    pub fn create_rotation_z<A: Arithmetic>(theta: Scalar, ops: &A) -> (m: Matrix4)
        ensures
            Matrix4::rotation_z_is(ops, theta, m),
    {
        let cos = ops.cosine(theta);
        let sin = ops.sine(theta);
        let neg_sin = ops.negation(sin);
        let o = Scalar::zero();
        let i = Scalar::one();
        let m = Matrix4 { mat: [[cos, sin, o, o], [neg_sin, cos, o, o], [o, o, i, o], [o, o, o, i]] };
        assert(m == Matrix4::spec_rotation_z(cos, sin, neg_sin));
        m
    }

    #[verifier::when_used_as_spec(spec_translation)]
    pub fn create_translation(translation: Vector3) -> (m: Matrix4)
        ensures
            m == Matrix4::spec_translation(translation),
    {
        let o = Scalar::zero();
        let i = Scalar::one();
        Matrix4 {
            mat: [
                [i, o, o, o],
                [o, i, o, o],
                [o, o, i, o],
                [translation.x, translation.y, translation.z, i],
            ],
        }
    }

    /// The view of an eye at `eye` that looks at `target`, with `up`
    /// upwards.
    pub fn create_look_at<A: Arithmetic>(
        eye: Vector3,
        target: Vector3,
        up: Vector3,
        ops: &A,
    ) -> (m: Matrix4)
        ensures
            Matrix4::look_at_is(ops, eye, target, up, m),
    {
        let ahead = Vector3::minus(target, eye, ops);
        let zaxis = Vector3::normalized(ahead, ops);
        let side = Vector3::cross(up, zaxis, ops);
        let xaxis = Vector3::normalized(side, ops);
        let over = Vector3::cross(zaxis, xaxis, ops);
        let yaxis = Vector3::normalized(over, ops);
        let dots = Vector3 {
            x: Vector3::dot(xaxis, eye, ops),
            y: Vector3::dot(yaxis, eye, ops),
            z: Vector3::dot(zaxis, eye, ops),
        };
        let trans = Vector3 {
            x: ops.negation(dots.x),
            y: ops.negation(dots.y),
            z: ops.negation(dots.z),
        };
        let o = Scalar::zero();
        let i = Scalar::one();
        let m = Matrix4 {
            mat: [
                [xaxis.x, yaxis.x, zaxis.x, o],
                [xaxis.y, yaxis.y, zaxis.y, o],
                [xaxis.z, yaxis.z, zaxis.z, o],
                [trans.x, trans.y, trans.z, i],
            ],
        };
        assert(Vector3::normalized_is(ops, ahead, zaxis) && Vector3::normalized_is(ops, side, xaxis)
            && Vector3::normalized_is(ops, over, yaxis) && Matrix4::negated_is(ops, dots, trans));
        m
    }

    /// The orthographic projection of a view `width` wide and `height` high
    /// between the depths `near` and `far`.
    pub fn create_ortho<A: Arithmetic>(
        width: Scalar,
        height: Scalar,
        near: Scalar,
        far: Scalar,
        ops: &A,
    ) -> (m: Matrix4)
        ensures
            Matrix4::ortho_is(ops, width, height, near, far, m),
    {
        let x = ops.quotient(Scalar::two(), width);
        let y = ops.quotient(Scalar::two(), height);
        let depth = ops.difference(far, near);
        let z = ops.quotient(Scalar::one(), depth);
        let back = ops.difference(near, far);
        let below = ops.quotient(near, back);
        let o = Scalar::zero();
        let i = Scalar::one();
        let m = Matrix4 { mat: [[x, o, o, o], [o, y, o, o], [o, o, z, o], [o, o, below, i]] };
        assert(quotient_is(ops, Scalar::spec_two(), width, x) && quotient_is(
            ops,
            Scalar::spec_two(),
            height,
            y,
        ) && quotient_is(ops, Scalar::spec_one(), depth, z) && quotient_is(ops, near, back, below));
        m
    }

    /// `1 / tan(fov_y / 2)`
    fn fov_scale<A: Arithmetic>(fov_y: Scalar, ops: &A) -> (r: Scalar)
        ensures
            Matrix4::fov_scale_is(ops, fov_y, r),
    {
        let half = ops.quotient(fov_y, Scalar::two());
        let t = ops.tangent(half);
        assert(tangent_is(ops, half, t));
        ops.quotient(Scalar::one(), t)
    }

    /// The perspective projection with the vertical field of view `fov_y`
    /// of a view `width` wide and `height` high between the depths `near`
    /// and `far`.
    pub fn create_perspective_fov<A: Arithmetic>(
        fov_y: Scalar,
        width: Scalar,
        height: Scalar,
        near: Scalar,
        far: Scalar,
        ops: &A,
    ) -> (m: Matrix4)
        ensures
            Matrix4::perspective_fov_is(ops, fov_y, width, height, near, far, m),
    {
        let y = Matrix4::fov_scale(fov_y, ops);
        let tall = ops.product(y, height);
        let x = ops.quotient(tall, width);
        let depth = ops.difference(far, near);
        let z = ops.quotient(far, depth);
        let neg_near = ops.negation(near);
        let through = ops.product(neg_near, far);
        let depth_again = ops.difference(far, near);
        let below = ops.quotient(through, depth_again);
        let o = Scalar::zero();
        let i = Scalar::one();
        let m = Matrix4 { mat: [[x, o, o, o], [o, y, o, o], [o, o, z, i], [o, o, below, o]] };
        assert(product_is(ops, y, height, tall) && quotient_is(ops, tall, width, x) && quotient_is(
            ops,
            far,
            depth,
            z,
        ) && product_is(ops, neg_near, far, through) && quotient_is(ops, through, depth_again, below));
        m
    }

    /// The simple view projection of a view `width` wide and `height` high.
    pub fn create_simple_view_proj<A: Arithmetic>(
        width: Scalar,
        height: Scalar,
        ops: &A,
    ) -> (m: Matrix4)
        ensures
            Matrix4::simple_view_proj_is(ops, width, height, m),
    {
        let x = ops.quotient(Scalar::two(), width);
        let y = ops.quotient(Scalar::two(), height);
        let o = Scalar::zero();
        let i = Scalar::one();
        let m = Matrix4 { mat: [[x, o, o, o], [o, y, o, o], [o, o, i, o], [o, o, i, i]] };
        assert(quotient_is(ops, Scalar::spec_two(), width, x) && quotient_is(
            ops,
            Scalar::spec_two(),
            height,
            y,
        ));
        m
    }
}

} // verus!
