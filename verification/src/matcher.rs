//! Closest-color search against the fixed terminal palettes.
//!
//! A matcher precomputes the coordinates of all palette candidates in
//! one perceptually uniform comparison space and then answers
//! nearest-candidate queries by an exhaustive scan. The distances are
//! nonnegative floating-point values; their bit patterns order exactly
//! as the values do, so the scan itself is exact integer logic: it
//! returns the first index attaining the minimal distance, which makes
//! ties deterministic.

use vstd::prelude::*;

use crate::space::ColorSpace;
use crate::term::{ansi_code, eight_bit_code, AnsiColor, EightBitColor};

verus! {

/// The two revisions of the Oklab color space.
///
/// The revised form replaces the lightness estimate L with the
/// corrected estimate Lr, which spaces perceived lightness steps more
/// uniformly.
#[derive(Copy, Clone, Debug, PartialEq, Eq, Hash, Structural)]
pub enum OkVersion {
    /// The original Oklab/Oklch lightness.
    Original,
    /// The corrected Oklrab/Oklrch lightness.
    Revised,
}

impl OkVersion {
    /// The Cartesian space of this revision, the right space for
    /// Euclidean distances.
    pub fn cartesian_space(&self) -> (r: ColorSpace)
        ensures
            *self == OkVersion::Original ==> r == ColorSpace::Oklab,
            *self == OkVersion::Revised ==> r == ColorSpace::Oklrab,
    {
        match *self {
            OkVersion::Original => ColorSpace::Oklab,
            OkVersion::Revised => ColorSpace::Oklrab,
        }
    }
}

/// Whether `i` is the index of the first minimum of `distances`: no
/// distance is smaller, and every earlier distance is strictly larger.
pub open spec fn is_first_minimum(distances: Seq<u64>, i: int) -> bool {
    &&& 0 <= i < distances.len()
    &&& forall|j: int| 0 <= j < distances.len() ==> distances[i] <= #[trigger] distances[j]
    &&& forall|j: int| 0 <= j < i ==> distances[i] < #[trigger] distances[j]
}

/// Find the candidate with the smallest distance.
///
/// The distances are the bit patterns of nonnegative floating-point
/// values, compared as unsigned integers; for such values the two
/// orders agree. Ties break in favor of the lowest index, so the search
/// is deterministic. Returns nothing only for an empty candidate list.
pub fn find_closest(distances: &Vec<u64>) -> (r: Option<usize>)
    ensures
        r is Some <==> distances@.len() > 0,
        r matches Some(i) ==> is_first_minimum(distances@, i as int),
{
    if distances.len() == 0 {
        return None;
    }
    let mut best: usize = 0;
    let mut index: usize = 1;
    while index < distances.len()
        invariant
            1 <= index <= distances@.len(),
            best < index,
            forall|j: int| 0 <= j < index ==> distances@[best as int] <= #[trigger] distances@[j],
            forall|j: int| 0 <= j < best ==> distances@[best as int] < #[trigger] distances@[j],
        decreases distances@.len() - index,
    {
        if distances[index] < distances[best] {
            best = index;
        }
        index = index + 1;
    }
    Some(best)
}

/// Find the ANSI color among the 16 candidates of a theme that comes
/// closest to a queried color, given the 16 distances in candidate
/// order.
pub fn closest_ansi(distances: &Vec<u64>) -> (r: AnsiColor)
    requires
        distances@.len() == 16,
    ensures
        ansi_code(r) <= 15,
        is_first_minimum(distances@, ansi_code(r) as int),
{
    let index = find_closest(distances).unwrap();
    AnsiColor::try_from(index as u8).unwrap()
}

/// Find the 8-bit color among the 240 non-ANSI candidates (the 216
/// colors of the embedded RGB cube followed by the 24 grays) that comes
/// closest to a queried color, given the 240 distances in candidate
/// order.
///
/// Candidate `i` carries the 8-bit code `i + 16`, so the result is
/// always a valid embedded RGB or gray gradient color and never an
/// ANSI color.
pub fn closest_eight_bit(distances: &Vec<u64>) -> (r: EightBitColor)
    requires
        distances@.len() == 240,
    ensures
        16 <= eight_bit_code(r),
        is_first_minimum(distances@, eight_bit_code(r) - 16),
        !(r is Ansi),
{
    let index = find_closest(distances).unwrap();
    EightBitColor::new((index as u8) + 16)
}

/// The first minimum is unique: searching the same distances again
/// finds the same candidate.
pub proof fn lemma_first_minimum_unique(distances: Seq<u64>, i: int, j: int)
    ensures
        is_first_minimum(distances, i) && is_first_minimum(distances, j) ==> i == j,
{
    if is_first_minimum(distances, i) && is_first_minimum(distances, j) {
        if i < j {
            assert(distances[j] < distances[i]);
            assert(distances[i] <= distances[j]);
        } else if j < i {
            assert(distances[i] < distances[j]);
            assert(distances[j] <= distances[i]);
        }
    }
}

} // verus!
