//! Single-precision numbers as bit patterns.
//!
//! The library holds every single-precision number as the 32 bits of its
//! IEEE-754 encoding. This module names the numbers the built-in meshes are
//! made of and says, in integers, which number a bit pattern stands for.

use vstd::arithmetic::power2::lemma2_to64;
use vstd::arithmetic::power2::lemma_pow2_adds;
use vstd::arithmetic::power2::pow2;
use vstd::prelude::*;

verus! {

/// Bit pattern of `0.0`.
pub const ZERO: u32 = 0x0000_0000;

/// Bit pattern of `0.5`.
pub const HALF: u32 = 0x3F00_0000;

/// Bit pattern of `-0.5`.
pub const NEG_HALF: u32 = 0xBF00_0000;

/// Bit pattern of `0.75`.
pub const THREE_QUARTERS: u32 = 0x3F40_0000;

/// Bit pattern of `-0.75`.
pub const NEG_THREE_QUARTERS: u32 = 0xBF40_0000;

/// Bit pattern of `1.0`.
pub const ONE: u32 = 0x3F80_0000;

/// The exponent field of a bit pattern.
pub open spec fn exponent_field(bits: u32) -> int {
    ((bits / 0x80_0000) % 256) as int
}

/// The fraction field of a bit pattern.
pub open spec fn fraction_field(bits: u32) -> int {
    (bits % 0x80_0000) as int
}

/// The bit pattern stands for a number, not for an infinity or a NaN.
pub open spec fn is_finite(bits: u32) -> bool {
    exponent_field(bits) < 255
}

/// The number a finite bit pattern stands for, multiplied by 2^149. Every
/// finite single-precision number is a whole multiple of 2^-149, so this is
/// the number itself, in units of 2^-149.
pub open spec fn scaled_value(bits: u32) -> int
    recommends
        is_finite(bits),
{
    let magnitude: int = if exponent_field(bits) == 0 {
        fraction_field(bits)
    } else {
        (0x80_0000 + fraction_field(bits)) * pow2((exponent_field(bits) - 1) as nat)
    };
    if bits >= 0x8000_0000 {
        -magnitude
    } else {
        magnitude
    }
}

/// The named bit patterns stand for the numbers they are named after:
/// in units of 2^-149, one is 2^149, a half is 2^148, three quarters are
/// three times 2^147, and the negative ones are their opposites.
pub proof fn lemma_named_values()
    ensures
        scaled_value(ZERO) == 0,
        scaled_value(ONE) == pow2(149),
        scaled_value(HALF) == pow2(148),
        scaled_value(NEG_HALF) == -pow2(148),
        scaled_value(THREE_QUARTERS) == 3 * pow2(147),
        scaled_value(NEG_THREE_QUARTERS) == -3 * pow2(147),
        2 * pow2(148) == pow2(149),
        4 * pow2(147) == pow2(149),
        pow2(147) > 0,
{
    lemma2_to64();
    lemma_pow2_adds(23, 126);
    lemma_pow2_adds(23, 125);
    lemma_pow2_adds(22, 125);
    lemma_pow2_adds(1, 148);
    lemma_pow2_adds(2, 147);
    assert(exponent_field(ONE) == 127 && fraction_field(ONE) == 0);
    assert(exponent_field(HALF) == 126 && fraction_field(HALF) == 0);
    assert(exponent_field(NEG_HALF) == 126 && fraction_field(NEG_HALF) == 0);
    assert(exponent_field(THREE_QUARTERS) == 126 && fraction_field(THREE_QUARTERS) == 0x40_0000);
    assert(exponent_field(NEG_THREE_QUARTERS) == 126 && fraction_field(NEG_THREE_QUARTERS)
        == 0x40_0000);
    assert(0xC0_0000 * pow2(125) == 3 * (0x40_0000 * pow2(125))) by (nonlinear_arith);
    vstd::arithmetic::power2::lemma_pow2_pos(147);
}

} // verus!
