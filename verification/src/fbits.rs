//! IEEE 754 binary64 values handled as their raw bit patterns.
//!
//! The whole library stores linear light intensities as the `u64` bit
//! pattern of the corresponding binary64 value.  Ordering, classification
//! and truncation of such values are plain integer operations on the bit
//! pattern, written out here and verified; the arithmetic that needs the
//! floating-point unit lives outside the verified core.

use vstd::prelude::*;

verus! {

/// Sign bit of a binary64 bit pattern.
pub const SIGN_MASK: u64 = 0x8000_0000_0000_0000;

/// All bits of a binary64 bit pattern except the sign.
pub const ABS_MASK: u64 = 0x7FFF_FFFF_FFFF_FFFF;

/// Exponent field of a binary64 bit pattern.
pub const EXP_MASK: u64 = 0x7FF0_0000_0000_0000;

/// Fraction field of a binary64 bit pattern.
pub const FRAC_MASK: u64 = 0x000F_FFFF_FFFF_FFFF;

/// Bit pattern of positive zero.
pub const POS_ZERO: u64 = 0;

/// Bit pattern of 1.0.
pub const POS_ONE: u64 = 0x3FF0_0000_0000_0000;

/// Bit pattern of 255.0.
pub const POS_255: u64 = 0x406F_E000_0000_0000;

/// The bit pattern encodes a not-a-number value: maximal exponent field
/// together with a nonzero fraction field.
pub open spec fn is_nan_bits(a: u64) -> bool {
    a & ABS_MASK > EXP_MASK
}

/// The bit pattern encodes positive or negative zero.
pub open spec fn is_zero_bits(a: u64) -> bool {
    a & ABS_MASK == 0
}

/// The sign bit is set.
pub open spec fn is_neg_bits(a: u64) -> bool {
    a & SIGN_MASK != 0
}

/// IEEE 754 `<` on binary64 bit patterns.
///
/// A comparison with a not-a-number operand is false; the two zeros are
/// equal; otherwise a negative value is below a non-negative one, two
/// non-negative values order as their bit patterns do, and two negative
/// values order as their bit patterns do, reversed.
pub open spec fn lt_bits(a: u64, b: u64) -> bool {
    if is_nan_bits(a) || is_nan_bits(b) {
        false
    } else if is_zero_bits(a) && is_zero_bits(b) {
        false
    } else if is_neg_bits(a) != is_neg_bits(b) {
        is_neg_bits(a)
    } else if !is_neg_bits(a) {
        a < b
    } else {
        b < a
    }
}

/// IEEE 754 `>=` on binary64 bit patterns: the comparison is ordered and
/// `<` does not hold.
pub open spec fn ge_bits(a: u64, b: u64) -> bool {
    !is_nan_bits(a) && !is_nan_bits(b) && !lt_bits(a, b)
}

/// Exponent field of a binary64 bit pattern, as stored (biased by 1023).
pub open spec fn exp_field(a: u64) -> u64 {
    (a & EXP_MASK) >> 52u64
}

/// The implicit leading bit of a normal binary64 significand.
pub const IMPLICIT_BIT: u64 = 0x0010_0000_0000_0000;

/// The saturating truncation of a binary64 bit pattern to `u32`:
/// not-a-number and negative values give 0, values of 2^32 and above
/// (infinity included) give `u32::MAX`, and any other value loses its
/// fractional part.  This is the conversion Rust's `as` performs from a
/// binary64 value to `u32`.
pub open spec fn cast_u32_bits(a: u64) -> u32 {
    if is_nan_bits(a) || is_neg_bits(a) {
        0u32
    } else if exp_field(a) < 1023 {
        0u32
    } else if exp_field(a) >= 1055 {
        u32::MAX
    } else {
        ((((a & FRAC_MASK) | IMPLICIT_BIT) >> ((1075 - exp_field(a)) as u64)) & 0xFFFF_FFFF) as u32
    }
}

/// The saturating truncation of a binary64 bit pattern to `u8`, as Rust's
/// `as` performs it: not-a-number and negative values give 0, values of
/// 256 and above give 255, and any other value loses its fractional part.
pub open spec fn cast_u8_bits(a: u64) -> u8 {
    if is_nan_bits(a) || is_neg_bits(a) {
        0u8
    } else if exp_field(a) < 1023 {
        0u8
    } else if exp_field(a) >= 1031 {
        255u8
    } else {
        ((((a & FRAC_MASK) | IMPLICIT_BIT) >> ((1075 - exp_field(a)) as u64)) & 0xFF) as u8
    }
}

/// Saturating truncation to `u32`, computed on the bit pattern.
pub fn f64_cast_u32(a: u64) -> (r: u32)
    ensures
        r == cast_u32_bits(a),
{
    let ef: u64 = (a & EXP_MASK) >> 52u64;
    if a & ABS_MASK > EXP_MASK || a & SIGN_MASK != 0 {
        0
    } else if ef < 1023 {
        0
    } else if ef >= 1055 {
        u32::MAX
    } else {
        ((((a & FRAC_MASK) | IMPLICIT_BIT) >> (1075 - ef)) & 0xFFFF_FFFF) as u32
    }
}

/// Saturating truncation to `u8`, computed on the bit pattern.
pub fn f64_cast_u8(a: u64) -> (r: u8)
    ensures
        r == cast_u8_bits(a),
{
    let ef: u64 = (a & EXP_MASK) >> 52u64;
    if a & ABS_MASK > EXP_MASK || a & SIGN_MASK != 0 {
        0
    } else if ef < 1023 {
        0
    } else if ef >= 1031 {
        255
    } else {
        ((((a & FRAC_MASK) | IMPLICIT_BIT) >> (1075 - ef)) & 0xFF) as u8
    }
}

/// How the constant bit patterns of zero and one classify: both are
/// ordinary non-negative values, and only zero's magnitude is zero.
pub proof fn lemma_zero_one_classify()
    ensures
        !is_nan_bits(POS_ZERO),
        is_zero_bits(POS_ZERO),
        !is_neg_bits(POS_ZERO),
        !is_nan_bits(POS_ONE),
        !is_zero_bits(POS_ONE),
        !is_neg_bits(POS_ONE),
{
    assert(0u64 & 0x7FFF_FFFF_FFFF_FFFFu64 == 0 && 0u64 & 0x8000_0000_0000_0000u64 == 0
        && 0x3FF0_0000_0000_0000u64 & 0x7FFF_FFFF_FFFF_FFFFu64 == 0x3FF0_0000_0000_0000u64
        && 0x3FF0_0000_0000_0000u64 & 0x8000_0000_0000_0000u64 == 0) by (bit_vector);
}

/// IEEE 754 `<` computed on the bit patterns.
pub fn f64_lt(a: u64, b: u64) -> (r: bool)
    ensures
        r == lt_bits(a, b),
{
    if a & ABS_MASK > EXP_MASK || b & ABS_MASK > EXP_MASK {
        false
    } else if a & ABS_MASK == 0 && b & ABS_MASK == 0 {
        false
    } else if (a & SIGN_MASK != 0) != (b & SIGN_MASK != 0) {
        a & SIGN_MASK != 0
    } else if a & SIGN_MASK == 0 {
        a < b
    } else {
        b < a
    }
}

/// IEEE 754 `>=` computed on the bit patterns.
pub fn f64_ge(a: u64, b: u64) -> (r: bool)
    ensures
        r == ge_bits(a, b),
{
    if a & ABS_MASK > EXP_MASK || b & ABS_MASK > EXP_MASK {
        false
    } else {
        !f64_lt(a, b)
    }
}

} // verus!
