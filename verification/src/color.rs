//! Colours, as red, green and blue between zero and one.

use vstd::prelude::*;
use crate::math::Scalar;
use crate::math::ONE_BITS;
use crate::math::ZERO_BITS;
use crate::vector::Vector3;

verus! {

/// Bit pattern of 0.88.
pub const LIGHT_YELLOW_BLUE_BITS: u32 = 0x3F61_47AE;

/// Bit pattern of 0.68.
pub const LIGHT_BLUE_RED_BITS: u32 = 0x3F2E_147B;

/// Bit pattern of 0.85.
pub const LIGHT_BLUE_GREEN_BITS: u32 = 0x3F59_999A;

/// Bit pattern of 0.9.
pub const LIGHT_BLUE_BLUE_BITS: u32 = 0x3F66_6666;

/// Bit pattern of 0.71.
pub const LIGHT_PINK_GREEN_BITS: u32 = 0x3F35_C28F;

/// Bit pattern of 0.76.
pub const LIGHT_PINK_BLUE_BITS: u32 = 0x3F42_8F5C;

/// Bit pattern of 0.56.
pub const LIGHT_GREEN_RED_BITS: u32 = 0x3F0F_5C29;

/// Bit pattern of 0.93.
pub const LIGHT_GREEN_GREEN_BITS: u32 = 0x3F6E_147B;

/// The colour with the parts whose bit patterns are `red`, `green`, `blue`.
pub open spec fn rgb(red: u32, green: u32, blue: u32) -> Vector3 {
    Vector3 { x: Scalar { bits: red }, y: Scalar { bits: green }, z: Scalar { bits: blue } }
}

/// The colour with the parts whose bit patterns are `red`, `green`, `blue`.
fn from_bits(red: u32, green: u32, blue: u32) -> (c: Vector3)
    ensures
        c == rgb(red, green, blue),
{
    Vector3::new(Scalar::from_bits(red), Scalar::from_bits(green), Scalar::from_bits(blue))
}

pub fn black() -> (c: Vector3)
    ensures
        c == rgb(ZERO_BITS, ZERO_BITS, ZERO_BITS),
{
    from_bits(ZERO_BITS, ZERO_BITS, ZERO_BITS)
}

pub fn white() -> (c: Vector3)
    ensures
        c == rgb(ONE_BITS, ONE_BITS, ONE_BITS),
{
    from_bits(ONE_BITS, ONE_BITS, ONE_BITS)
}

pub fn red() -> (c: Vector3)
    ensures
        c == rgb(ONE_BITS, ZERO_BITS, ZERO_BITS),
{
    from_bits(ONE_BITS, ZERO_BITS, ZERO_BITS)
}

pub fn green() -> (c: Vector3)
    ensures
        c == rgb(ZERO_BITS, ONE_BITS, ZERO_BITS),
{
    from_bits(ZERO_BITS, ONE_BITS, ZERO_BITS)
}

pub fn blue() -> (c: Vector3)
    ensures
        c == rgb(ZERO_BITS, ZERO_BITS, ONE_BITS),
{
    from_bits(ZERO_BITS, ZERO_BITS, ONE_BITS)
}

pub fn yellow() -> (c: Vector3)
    ensures
        c == rgb(ONE_BITS, ONE_BITS, ZERO_BITS),
{
    from_bits(ONE_BITS, ONE_BITS, ZERO_BITS)
}

pub fn light_yellow() -> (c: Vector3)
    ensures
        c == rgb(ONE_BITS, ONE_BITS, LIGHT_YELLOW_BLUE_BITS),
{
    from_bits(ONE_BITS, ONE_BITS, LIGHT_YELLOW_BLUE_BITS)
}

pub fn light_blue() -> (c: Vector3)
    ensures
        c == rgb(LIGHT_BLUE_RED_BITS, LIGHT_BLUE_GREEN_BITS, LIGHT_BLUE_BLUE_BITS),
{
    from_bits(LIGHT_BLUE_RED_BITS, LIGHT_BLUE_GREEN_BITS, LIGHT_BLUE_BLUE_BITS)
}

pub fn light_pink() -> (c: Vector3)
    ensures
        c == rgb(ONE_BITS, LIGHT_PINK_GREEN_BITS, LIGHT_PINK_BLUE_BITS),
{
    from_bits(ONE_BITS, LIGHT_PINK_GREEN_BITS, LIGHT_PINK_BLUE_BITS)
}

pub fn light_green() -> (c: Vector3)
    ensures
        c == rgb(LIGHT_GREEN_RED_BITS, LIGHT_GREEN_GREEN_BITS, LIGHT_GREEN_RED_BITS),
{
    from_bits(LIGHT_GREEN_RED_BITS, LIGHT_GREEN_GREEN_BITS, LIGHT_GREEN_RED_BITS)
}

} // verus!
