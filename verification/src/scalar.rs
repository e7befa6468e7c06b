//! Scalar coordinate arithmetic.
//!
//! A coordinate is an IEEE binary32 value carried as its bit pattern in a
//! `u32`.  The binary32 operations themselves live in the outside math
//! crate; each one used here stands behind a trusted wrapper whose result
//! is named by an uninterpreted spec function.  IEEE binary32 addition,
//! subtraction, multiplication and division are exactly determined by
//! the operand bit patterns — correctly rounded, with only the payload
//! of a NaN result left to the processor, and that too is constant
//! within any one build — so naming their results is sound.  Sampling a
//! rotation goes through sine and cosine, whose results genuinely vary
//! between platforms, so that wrapper promises nothing.

use vstd::prelude::*;

verus! {

/// Bit pattern of the binary32 value 0.5.
pub const BITS_HALF: u32 = 0x3F00_0000;

/// Bit pattern of the binary32 value 2.0.
pub const BITS_TWO: u32 = 0x4000_0000;

/// Bit pattern of the binary32 value 4.0.
pub const BITS_FOUR: u32 = 0x4080_0000;

/// Bit pattern of the binary32 value tau (two pi), the full turn in radians.
pub const BITS_TAU: u32 = 0x40C9_0FDB;

/// The sum of two binary32 values, as a function of the operand bits.
pub uninterp spec fn sum_bits(a: u32, b: u32) -> u32;

/// The difference of two binary32 values, as a function of the operand bits.
pub uninterp spec fn diff_bits(a: u32, b: u32) -> u32;

/// The product of two binary32 values, as a function of the operand bits.
pub uninterp spec fn prod_bits(a: u32, b: u32) -> u32;

/// The quotient of two binary32 values, as a function of the operand bits.
pub uninterp spec fn quot_bits(a: u32, b: u32) -> u32;

/// The binary32 value nearest to the integer `n`, as bits.
pub uninterp spec fn bits_of_count(n: usize) -> u32;

/// Negation of a binary32 value: the sign bit flips and nothing else.
pub open spec fn neg_bits(a: u32) -> u32 {
    a ^ 0x8000_0000
}

/// Relies on `bevy_math::Vec2`'s addition (glam's `impl Add for Vec2`),
/// which adds each lane with IEEE binary32 addition; lane 0 carries
/// the operands.
#[verifier::external_body]
pub(crate) fn add32(a: u32, b: u32) -> (r: u32)
    ensures
        r == sum_bits(a, b),
{
    let u: bevy_math::Vec2 = bytemuck::cast([a, 0u32]);
    let v: bevy_math::Vec2 = bytemuck::cast([b, 0u32]);
    let w: [u32; 2] = bytemuck::cast(u + v);
    w[0]
}

/// Relies on `bevy_math::Vec2`'s subtraction (glam's `impl Sub for Vec2`),
/// which subtracts each lane with IEEE binary32 subtraction; lane 0
/// carries the operands.
#[verifier::external_body]
pub(crate) fn sub32(a: u32, b: u32) -> (r: u32)
    ensures
        r == diff_bits(a, b),
{
    let u: bevy_math::Vec2 = bytemuck::cast([a, 0u32]);
    let v: bevy_math::Vec2 = bytemuck::cast([b, 0u32]);
    let w: [u32; 2] = bytemuck::cast(u - v);
    w[0]
}

/// Relies on `bevy_math::Vec2`'s multiplication (glam's `impl Mul for
/// Vec2`), which multiplies each lane with IEEE binary32
/// multiplication; lane 0 carries the operands.
#[verifier::external_body]
pub(crate) fn mul32(a: u32, b: u32) -> (r: u32)
    ensures
        r == prod_bits(a, b),
{
    let u: bevy_math::Vec2 = bytemuck::cast([a, 1u32]);
    let v: bevy_math::Vec2 = bytemuck::cast([b, 1u32]);
    let w: [u32; 2] = bytemuck::cast(u * v);
    w[0]
}

/// Relies on `bevy_math::Vec2`'s division (glam's `impl Div for Vec2`),
/// which divides each lane with IEEE binary32 division; lane 0 carries
/// the operands.
#[verifier::external_body]
pub(crate) fn div32(a: u32, b: u32) -> (r: u32)
    ensures
        r == quot_bits(a, b),
{
    let u: bevy_math::Vec2 = bytemuck::cast([a, 1u32]);
    let v: bevy_math::Vec2 = bytemuck::cast([b, 1u32]);
    let w: [u32; 2] = bytemuck::cast(u / v);
    w[0]
}

/// Relies on `bevy_math::U64Vec2::as_vec2` (glam), which casts each
/// integer lane to the nearest binary32 value.
#[verifier::external_body]
pub(crate) fn count32(n: usize) -> (r: u32)
    ensures
        r == bits_of_count(n),
{
    let v: [u32; 2] = bytemuck::cast(bevy_math::U64Vec2::new(n as u64, 0).as_vec2());
    v[0]
}

/// Relies on `bevy_math::Mat2::from_angle` (glam), whose first column
/// is the cosine and sine of the angle.  Sine and cosine are not
/// exactly specified across platforms, so nothing is promised of the
/// result.
#[verifier::external_body]
pub(crate) fn rotation32(angle: u32) -> (r: (u32, u32)) {
    let a: bevy_math::Vec2 = bytemuck::cast([angle, angle]);
    let m = bevy_math::Mat2::from_angle(a.x);
    let c: [u32; 4] = bytemuck::cast(m.to_cols_array());
    (c[0], c[1])
}

/// Negates a binary32 value by flipping its sign bit, which is IEEE
/// binary32 negation exactly.
pub fn negate32(a: u32) -> (r: u32)
    ensures
        r == neg_bits(a),
{
    a ^ 0x8000_0000
}

} // verus!
