//! Random numbers: whole numbers drawn here, and what is made of real
//! numbers that the caller drew.

use vstd::prelude::*;
use rand::Rng;
use crate::math::Arithmetic;
use crate::vector::Vector2;
use crate::vector::Vector3;

verus! {

/// The source of random numbers.
pub struct Random;

/// `rand::Rng::gen_range` on `rand::thread_rng()` with the inclusive range
/// `min..=max`: the outcome lies in the range. The call panics on an empty
/// range, which the precondition leaves out. Nothing else is claimed: two
/// calls on one range may differ.
#[verifier::external_body]
fn sample_inclusive(min: i32, max: i32) -> (n: i32)
    requires
        min <= max,
    ensures
        min <= n <= max,
{
    let mut rng = rand::thread_rng();
    rng.gen_range(min..=max)
}

impl Random {
    /// `out` is an answer of `ops` for `min + (max - min) * sample`,
    /// coordinate by coordinate.
    pub open spec fn vector2_is<A: Arithmetic>(
        ops: &A,
        min: Vector2,
        max: Vector2,
        sample: Vector2,
        out: Vector2,
    ) -> bool {
        exists|span: Vector2, part: Vector2|
            #![trigger Vector2::times_is(ops, span, sample, part)]
            {
                &&& Vector2::minus_is(ops, max, min, span)
                &&& Vector2::times_is(ops, span, sample, part)
                &&& Vector2::plus_is(ops, min, part, out)
            }
    }

    /// `out` is an answer of `ops` for `min + (max - min) * sample`,
    /// coordinate by coordinate.
    pub open spec fn vector3_is<A: Arithmetic>(
        ops: &A,
        min: Vector3,
        max: Vector3,
        sample: Vector3,
        out: Vector3,
    ) -> bool {
        exists|span: Vector3, part: Vector3|
            #![trigger Vector3::times_is(ops, span, sample, part)]
            {
                &&& Vector3::minus_is(ops, max, min, span)
                &&& Vector3::times_is(ops, span, sample, part)
                &&& Vector3::plus_is(ops, min, part, out)
            }
    }

    /// A whole number between `min` and `max`, both included.
    pub fn get_int_range(min: i32, max: i32) -> (n: i32)
        requires
            min <= max,
        ensures
            min <= n <= max,
    {
        sample_inclusive(min, max)
    }

    /// The point of the box between `min` and `max` that the random
    /// `sample`, drawn by the caller with each coordinate between 0 and 1,
    /// picks: `min + (max - min) * sample`.
    pub fn get_vector2<A: Arithmetic>(
        min: Vector2,
        max: Vector2,
        sample: Vector2,
        ops: &A,
    ) -> (out: Vector2)
        ensures
            Random::vector2_is(ops, min, max, sample, out),
    {
        let span = Vector2::minus(max, min, ops);
        let part = Vector2::times(span, sample, ops);
        let out = Vector2::plus(min, part, ops);
        out
    }

    /// The point of the box between `min` and `max` that the random
    /// `sample`, drawn by the caller with each coordinate between 0 and 1,
    /// picks: `min + (max - min) * sample`.
    pub fn get_vector3<A: Arithmetic>(
        min: Vector3,
        max: Vector3,
        sample: Vector3,
        ops: &A,
    ) -> (out: Vector3)
        ensures
            Random::vector3_is(ops, min, max, sample, out),
    {
        let span = Vector3::minus(max, min, ops);
        let part = Vector3::times(span, sample, ops);
        let out = Vector3::plus(min, part, ops);
        out
    }
}

} // verus!
