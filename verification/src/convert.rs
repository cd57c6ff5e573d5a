//! The exact decisions inside a conversion.
//!
//! Conversion first normalizes the coordinates and then interprets the
//! route between the two spaces, one elementary step after another. Two
//! of those decisions are exact bit logic rather than arithmetic, and
//! live here: normalization replaces every not-a-number coordinate with
//! zero, and the moves between the Cartesian and polar forms of the
//! Oklab family treat achromatic colors specially, so that a color
//! without chroma always carries the one canonical not-a-number hue
//! instead of a noisy near-zero angle.

use vstd::prelude::*;

use crate::bits::{
    magnitude,
    nan_to_zero,
    spec_is_nan,
    spec_magnitude,
    spec_nan_to_zero,
    is_nan,
    NAN_BITS,
    ZERO_BITS,
};

verus! {

/// The bit pattern of 2e-4, the chroma threshold below which a color of
/// the Oklab family counts as achromatic.
pub const EPSILON_BITS: u64 = 0x3f2a_36e2_eb1c_432d;

/// Whether a Cartesian Oklab-family coordinate pair lies in the
/// achromatic band: both magnitudes below 2e-4.
///
/// A not-a-number coordinate never lies in the band, since its magnitude
/// pattern stays above every finite pattern.
pub open spec fn spec_in_achromatic_band(a: u64, b: u64) -> bool {
    spec_magnitude(a) < EPSILON_BITS && spec_magnitude(b) < EPSILON_BITS
}

/// Replace every not-a-number coordinate with zero.
///
/// Meaning only ever attaches to the not-a-number pattern in the hue
/// slot of a polar space, and there the achromatic handling of
/// [`cartesian_from_polar`] reconstructs it: for the arithmetic of the
/// conversion steps a not-a-number is simply zero.
pub fn normalize(coordinates: &[u64; 3]) -> (r: [u64; 3])
    ensures
        r@.len() == 3,
        r@[0] == spec_nan_to_zero(coordinates@[0]),
        r@[1] == spec_nan_to_zero(coordinates@[1]),
        r@[2] == spec_nan_to_zero(coordinates@[2]),
{
    [nan_to_zero(coordinates[0]), nan_to_zero(coordinates[1]), nan_to_zero(coordinates[2])]
}

/// The achromatic case of the Cartesian-to-polar move.
///
/// When both `a` and `b` lie in the achromatic band, the polar form is
/// the canonical achromatic color: chroma exactly zero and hue exactly
/// the canonical not-a-number pattern. Outside the band the move is
/// trigonometric arithmetic and this function returns nothing.
pub fn polar_from_cartesian(l: u64, a: u64, b: u64) -> (r: Option<[u64; 3]>)
    ensures
        r is Some <==> spec_in_achromatic_band(a, b),
        r matches Some(v) ==> v@ =~= seq![l, ZERO_BITS, NAN_BITS],
        r matches Some(v) ==> v@[1] == ZERO_BITS && spec_is_nan(v@[2]),
{
    if magnitude(a) < EPSILON_BITS && magnitude(b) < EPSILON_BITS {
        proof {
            crate::bits::lemma_nan_bits_classify();
        }
        Some([l, ZERO_BITS, NAN_BITS])
    } else {
        None
    }
}

/// The achromatic case of the polar-to-Cartesian move.
///
/// A not-a-number hue marks an achromatic color, whose Cartesian form
/// has both chroma coordinates exactly zero. For any other hue the move
/// is trigonometric arithmetic and this function returns nothing.
pub fn cartesian_from_polar(l: u64, c: u64, h: u64) -> (r: Option<[u64; 3]>)
    ensures
        r is Some <==> spec_is_nan(h),
        r matches Some(v) ==> v@ =~= seq![l, ZERO_BITS, ZERO_BITS],
{
    if is_nan(h) {
        Some([l, ZERO_BITS, ZERO_BITS])
    } else {
        None
    }
}

/// Snapping is stable: the canonical achromatic polar form maps back to
/// a Cartesian form that lies in the achromatic band, and that form
/// snaps again to the same polar form.
pub proof fn lemma_achromatic_round_trip()
    ensures
        spec_is_nan(NAN_BITS),
        spec_in_achromatic_band(ZERO_BITS, ZERO_BITS),
{
    crate::bits::lemma_nan_bits_classify();
    assert(0u64 & 0x7fff_ffff_ffff_ffffu64 == 0u64) by (bit_vector);
}

} // verus!
