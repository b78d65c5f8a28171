//! Single-precision scalars, carried as their IEEE-754 bit patterns.
//!
//! Every scalar of the engine is a `u32` holding the bit pattern of an
//! IEEE-754 single-precision number. Sign operations and comparisons are
//! pure bit manipulation and are implemented and verified here directly.
//! Rounded arithmetic (addition, multiplication, division, square root) and
//! the trigonometric functions are performed by the `const_soft_float`
//! crate's software implementation of the same IEEE-754 format; each such
//! operation is reached through one trusted wrapper whose result is named by
//! an uninterpreted spec function, so that the contracts of the matrix
//! kernel can pin results down exactly as terms over those names.
//! Subtraction needs no operation of its own: it is the negated subtrahend
//! added, exactly as the software float library forms it.

use vstd::prelude::*;
use const_soft_float::soft_f32::SoftF32;

verus! {

/// Bit pattern of `+0.0`.
pub const F32_ZERO: u32 = 0x0000_0000;
/// Bit pattern of `1.0`.
pub const F32_ONE: u32 = 0x3F80_0000;
/// Bit pattern of `-1.0`.
pub const F32_NEG_ONE: u32 = 0xBF80_0000;
/// Bit pattern of `2.0`.
pub const F32_TWO: u32 = 0x4000_0000;
/// Bit pattern of `-2.0`.
pub const F32_NEG_TWO: u32 = 0xC000_0000;
/// Bit pattern of `0.5`.
pub const F32_HALF: u32 = 0x3F00_0000;
/// Bit pattern of `1.0e-5`, the tolerance below which a vector length is
/// treated as zero and a perspective sine as degenerate.
pub const EPSILON: u32 = 0x3727_C5AC;
/// Bit pattern of `pi / 180`, the degree-to-radian factor.
pub const DEG_TO_RAD: u32 = 0x3C8E_FA35;

/// Mask of the sign bit.
pub const F32_SIGN_MASK: u32 = 0x8000_0000;
/// Mask of the exponent and significand bits (the magnitude).
pub const F32_MAG_MASK: u32 = 0x7FFF_FFFF;
/// Mask of the exponent bits; a magnitude above it is a NaN.
pub const F32_EXP_MASK: u32 = 0x7F80_0000;

/// The magnitude (absolute-value bits) of a pattern.
pub open spec fn f32_mag(x: u32) -> u32 {
    x & F32_MAG_MASK
}

/// Whether the sign bit is set.
pub open spec fn f32_is_neg(x: u32) -> bool {
    x & F32_SIGN_MASK != 0
}

/// Whether the pattern is a NaN (all exponent bits set, nonzero significand).
pub open spec fn f32_is_nan(x: u32) -> bool {
    f32_mag(x) > F32_EXP_MASK
}

/// Order key of a non-NaN pattern: magnitudes ordered, negatives mirrored,
/// so that the two zeros share the key `0`. This is the IEEE-754 order.
pub open spec fn f32_key(x: u32) -> int {
    if f32_is_neg(x) {
        -(f32_mag(x) as int)
    } else {
        f32_mag(x) as int
    }
}

/// IEEE-754 `a < b`: false whenever either side is NaN.
pub open spec fn f32_lt(a: u32, b: u32) -> bool {
    !f32_is_nan(a) && !f32_is_nan(b) && f32_key(a) < f32_key(b)
}

/// IEEE-754 `a > b`: false whenever either side is NaN.
pub open spec fn f32_gt(a: u32, b: u32) -> bool {
    !f32_is_nan(a) && !f32_is_nan(b) && f32_key(a) > f32_key(b)
}

/// IEEE-754 `a <= b`: false whenever either side is NaN.
pub open spec fn f32_le(a: u32, b: u32) -> bool {
    !f32_is_nan(a) && !f32_is_nan(b) && f32_key(a) <= f32_key(b)
}

/// IEEE-754 `a == b`: false for NaN, true for `+0.0 == -0.0`.
pub open spec fn f32_eq(a: u32, b: u32) -> bool {
    !f32_is_nan(a) && !f32_is_nan(b) && f32_key(a) == f32_key(b)
}

/// IEEE-754 negation: the sign bit flips, even on NaN.
pub open spec fn neg_bits(x: u32) -> u32 {
    x ^ F32_SIGN_MASK
}

/// IEEE-754 absolute value: the sign bit clears, even on NaN.
pub open spec fn abs_bits(x: u32) -> u32 {
    x & F32_MAG_MASK
}

/// Negate a scalar by flipping its sign bit.
pub fn f_neg(x: u32) -> (r: u32)
    ensures
        r == neg_bits(x),
{
    x ^ F32_SIGN_MASK
}

/// Absolute value of a scalar by clearing its sign bit.
pub fn f_abs(x: u32) -> (r: u32)
    ensures
        r == abs_bits(x),
{
    x & F32_MAG_MASK
}

/// IEEE-754 `a > b` on bit patterns.
pub fn f32_gt_bits(a: u32, b: u32) -> (r: bool)
    ensures
        r == f32_gt(a, b),
{
    let amag = a & F32_MAG_MASK;
    let bmag = b & F32_MAG_MASK;
    if amag > F32_EXP_MASK || bmag > F32_EXP_MASK {
        return false;
    }
    let aneg = a & F32_SIGN_MASK != 0;
    let bneg = b & F32_SIGN_MASK != 0;
    if !aneg && !bneg {
        amag > bmag
    } else if aneg && bneg {
        amag < bmag
    } else if !aneg && bneg {
        amag != 0 || bmag != 0
    } else {
        false
    }
}

/// IEEE-754 `a == b` on bit patterns.
pub fn f32_eq_bits(a: u32, b: u32) -> (r: bool)
    ensures
        r == f32_eq(a, b),
{
    let amag = a & F32_MAG_MASK;
    let bmag = b & F32_MAG_MASK;
    if amag > F32_EXP_MASK || bmag > F32_EXP_MASK {
        return false;
    }
    let aneg = a & F32_SIGN_MASK != 0;
    let bneg = b & F32_SIGN_MASK != 0;
    if amag == 0 && bmag == 0 {
        true
    } else {
        aneg == bneg && amag == bmag
    }
}

/// IEEE-754 `a <= b` on bit patterns.
pub fn f32_le_bits(a: u32, b: u32) -> (r: bool)
    ensures
        r == f32_le(a, b),
{
    let amag = a & F32_MAG_MASK;
    let bmag = b & F32_MAG_MASK;
    if amag > F32_EXP_MASK || bmag > F32_EXP_MASK {
        return false;
    }
    !f32_gt_bits(a, b)
}

/// The rounded IEEE-754 single-precision sum of two bit patterns.
pub uninterp spec fn add_bits(a: u32, b: u32) -> u32;

/// The rounded IEEE-754 single-precision product of two bit patterns.
pub uninterp spec fn mul_bits(a: u32, b: u32) -> u32;

/// The rounded IEEE-754 single-precision quotient of two bit patterns.
pub uninterp spec fn div_bits(a: u32, b: u32) -> u32;

/// The rounded IEEE-754 single-precision square root of a bit pattern.
pub uninterp spec fn sqrt_bits(x: u32) -> u32;

/// The single-precision sine of a bit pattern (an angle in radians).
pub uninterp spec fn sin_bits(x: u32) -> u32;

/// The single-precision cosine of a bit pattern (an angle in radians).
pub uninterp spec fn cos_bits(x: u32) -> u32;

/// Relies on `const_soft_float`'s `SoftF32::add`, the software IEEE-754
/// single-precision addition, applied to the two bit patterns.
#[verifier::external_body]
pub fn f_add(a: u32, b: u32) -> (r: u32)
    ensures
        r == add_bits(a, b),
{
    SoftF32::from_bits(a).add(SoftF32::from_bits(b)).to_bits()
}

/// The IEEE-754 single-precision difference: the negated subtrahend added.
/// Subtraction is exactly that — negation flips only the sign bit — so the
/// difference needs no operation of its own beyond the adder.
pub open spec fn sub_bits(a: u32, b: u32) -> u32 {
    add_bits(a, neg_bits(b))
}

/// Subtract two scalars by adding the negated subtrahend.
pub fn f_sub(a: u32, b: u32) -> (r: u32)
    ensures
        r == sub_bits(a, b),
{
    f_add(a, f_neg(b))
}

/// Relies on `const_soft_float`'s `SoftF32::mul`, the software IEEE-754
/// single-precision multiplication, applied to the two bit patterns.
#[verifier::external_body]
pub fn f_mul(a: u32, b: u32) -> (r: u32)
    ensures
        r == mul_bits(a, b),
{
    SoftF32::from_bits(a).mul(SoftF32::from_bits(b)).to_bits()
}

/// Relies on `const_soft_float`'s `SoftF32::div`, the software IEEE-754
/// single-precision division, applied to the two bit patterns.
#[verifier::external_body]
pub fn f_div(a: u32, b: u32) -> (r: u32)
    ensures
        r == div_bits(a, b),
{
    SoftF32::from_bits(a).div(SoftF32::from_bits(b)).to_bits()
}

/// Relies on `const_soft_float`'s `SoftF32::sqrt`, the software IEEE-754
/// single-precision square root, applied to the bit pattern.
#[verifier::external_body]
pub fn f_sqrt(x: u32) -> (r: u32)
    ensures
        r == sqrt_bits(x),
{
    SoftF32::from_bits(x).sqrt().to_bits()
}

/// Relies on `const_soft_float`'s `SoftF32::sin`, a software single-precision
/// sine (a port of the FreeBSD msun one), applied to the bit pattern.
#[verifier::external_body]
pub fn f_sin(x: u32) -> (r: u32)
    ensures
        r == sin_bits(x),
{
    SoftF32::from_bits(x).sin().to_bits()
}

/// Relies on `const_soft_float`'s `SoftF32::cos`, a software single-precision
/// cosine (a port of the FreeBSD msun one), applied to the bit pattern.
#[verifier::external_body]
pub fn f_cos(x: u32) -> (r: u32)
    ensures
        r == cos_bits(x),
{
    SoftF32::from_bits(x).cos().to_bits()
}

} // verus!
