//! Exact logic on 64-bit IEEE-754 patterns.
//!
//! A coordinate travels through this crate as the bit pattern of a
//! double-precision value. The classifications and comparisons the crate
//! needs are exact functions of those bits: a pattern is not-a-number when
//! its exponent field is all ones and its fraction field is nonzero, the
//! magnitude of a value is its pattern with the sign bit cleared, and two
//! nonnegative finite values order exactly as their patterns do when read
//! as unsigned integers.

use vstd::prelude::*;

verus! {

/// The pattern of positive zero.
pub const ZERO_BITS: u64 = 0;

/// The canonical quiet not-a-number pattern, the one the Rust constant
/// `f64::NAN` carries.
pub const NAN_BITS: u64 = 0x7ff8_0000_0000_0000;

/// The pattern of 1.0.
pub const ONE_BITS: u64 = 0x3ff0_0000_0000_0000;

/// The mask of the exponent field.
pub const EXPONENT_MASK: u64 = 0x7ff0_0000_0000_0000;

/// The mask of the fraction field.
pub const FRACTION_MASK: u64 = 0x000f_ffff_ffff_ffff;

/// The mask that clears the sign bit.
pub const MAGNITUDE_MASK: u64 = 0x7fff_ffff_ffff_ffff;

/// Whether the pattern encodes a not-a-number value: exponent field all
/// ones and fraction field nonzero.
pub open spec fn spec_is_nan(bits: u64) -> bool {
    bits & EXPONENT_MASK == EXPONENT_MASK && bits & FRACTION_MASK != 0
}

/// The pattern of the magnitude (absolute value) of the encoded value.
pub open spec fn spec_magnitude(bits: u64) -> u64 {
    bits & MAGNITUDE_MASK
}

/// The pattern with every not-a-number replaced by positive zero.
pub open spec fn spec_nan_to_zero(bits: u64) -> u64 {
    if spec_is_nan(bits) {
        ZERO_BITS
    } else {
        bits
    }
}

/// Whether the pattern encodes a not-a-number value.
pub fn is_nan(bits: u64) -> (r: bool)
    ensures
        r == spec_is_nan(bits),
{
    bits & EXPONENT_MASK == EXPONENT_MASK && bits & FRACTION_MASK != 0
}

/// The pattern of the magnitude of the encoded value.
pub fn magnitude(bits: u64) -> (r: u64)
    ensures
        r == spec_magnitude(bits),
{
    bits & MAGNITUDE_MASK
}

/// The pattern with a not-a-number replaced by positive zero.
pub fn nan_to_zero(bits: u64) -> (r: u64)
    ensures
        r == spec_nan_to_zero(bits),
{
    if is_nan(bits) {
        ZERO_BITS
    } else {
        bits
    }
}

/// The canonical not-a-number pattern is one, and zero and one are not.
pub proof fn lemma_nan_bits_classify()
    ensures
        spec_is_nan(NAN_BITS),
        !spec_is_nan(ZERO_BITS),
        !spec_is_nan(ONE_BITS),
{
    assert(0x7ff8_0000_0000_0000u64 & 0x7ff0_0000_0000_0000u64 == 0x7ff0_0000_0000_0000u64)
        by (bit_vector);
    assert(0x7ff8_0000_0000_0000u64 & 0x000f_ffff_ffff_ffffu64 != 0u64) by (bit_vector);
    assert(0u64 & 0x000f_ffff_ffff_ffffu64 == 0u64) by (bit_vector);
    assert(0x3ff0_0000_0000_0000u64 & 0x7ff0_0000_0000_0000u64 != 0x7ff0_0000_0000_0000u64)
        by (bit_vector);
}

} // verus!
