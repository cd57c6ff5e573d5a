//! Routing through the conversion graph.
//!
//! A conversion between two of the eleven color spaces is a chain of
//! elementary steps. Pairs within one family take a direct shortcut; all
//! remaining pairs go up from the source space to the root space XYZ and
//! back down to the target space. This module computes that chain and
//! proves its structure: a route always connects its source to its
//! target, the route of a pair and the route of the reversed pair are
//! step-by-step inverses of each other, and the route from a space to
//! itself is empty.
//!
//! The steps themselves stand for floating-point transforms that a host
//! embedding executes; the routing decisions are exact.

use vstd::prelude::*;

use crate::space::ColorSpace;

verus! {

/// One elementary conversion of the graph.
///
/// Each step is an edge between two of the eleven spaces. The sRGB-curve
/// steps serve both sRGB and Display P3, which share one transfer
/// function, and the Oklab-family steps serve both the plain and the
/// lightness-corrected variants.
#[derive(Copy, Clone, Debug, PartialEq, Eq, Hash, Structural)]
pub enum Step {
    /// Decode the sRGB transfer function: sRGB to linear sRGB, or
    /// Display P3 to linear Display P3.
    GammaDecode,
    /// Encode the sRGB transfer function: linear sRGB to sRGB, or linear
    /// Display P3 to Display P3.
    GammaEncode,
    /// Decode the Rec. 2020 transfer function.
    Rec2020Decode,
    /// Encode the Rec. 2020 transfer function.
    Rec2020Encode,
    /// The linear sRGB primaries matrix, up to XYZ.
    LinearSrgbToXyz,
    /// The inverse sRGB primaries matrix, down from XYZ.
    XyzToLinearSrgb,
    /// The linear Display P3 primaries matrix, up to XYZ.
    LinearDisplayP3ToXyz,
    /// The inverse Display P3 primaries matrix, down from XYZ.
    XyzToLinearDisplayP3,
    /// The linear Rec. 2020 primaries matrix, up to XYZ.
    LinearRec2020ToXyz,
    /// The inverse Rec. 2020 primaries matrix, down from XYZ.
    XyzToLinearRec2020,
    /// The two-matrix cube transform from Oklab up to XYZ.
    OklabToXyz,
    /// The two-matrix cube-root transform from XYZ down to Oklab.
    XyzToOklab,
    /// Polar to Cartesian within the Oklab family: Oklch to Oklab, or
    /// Oklrch to Oklrab.
    PolarToCartesian,
    /// Cartesian to polar within the Oklab family: Oklab to Oklch, or
    /// Oklrab to Oklrch.
    CartesianToPolar,
    /// Replace the lightness L with the corrected estimate Lr: Oklab to
    /// Oklrab, or Oklch to Oklrch.
    LightnessToLr,
    /// Replace the corrected lightness Lr with the original L: Oklrab to
    /// Oklab, or Oklrch to Oklch.
    LrToLightness,
}

/// The step that undoes the given step.
pub open spec fn inverse_step(step: Step) -> Step {
    match step {
        Step::GammaDecode => Step::GammaEncode,
        Step::GammaEncode => Step::GammaDecode,
        Step::Rec2020Decode => Step::Rec2020Encode,
        Step::Rec2020Encode => Step::Rec2020Decode,
        Step::LinearSrgbToXyz => Step::XyzToLinearSrgb,
        Step::XyzToLinearSrgb => Step::LinearSrgbToXyz,
        Step::LinearDisplayP3ToXyz => Step::XyzToLinearDisplayP3,
        Step::XyzToLinearDisplayP3 => Step::LinearDisplayP3ToXyz,
        Step::LinearRec2020ToXyz => Step::XyzToLinearRec2020,
        Step::XyzToLinearRec2020 => Step::LinearRec2020ToXyz,
        Step::OklabToXyz => Step::XyzToOklab,
        Step::XyzToOklab => Step::OklabToXyz,
        Step::PolarToCartesian => Step::CartesianToPolar,
        Step::CartesianToPolar => Step::PolarToCartesian,
        Step::LightnessToLr => Step::LrToLightness,
        Step::LrToLightness => Step::LightnessToLr,
    }
}

/// The space a step leads to when applied in the given space, or nothing
/// where the step does not apply there.
pub open spec fn step_space(step: Step, space: ColorSpace) -> Option<ColorSpace> {
    match (step, space) {
        (Step::GammaDecode, ColorSpace::Srgb) => Some(ColorSpace::LinearSrgb),
        (Step::GammaDecode, ColorSpace::DisplayP3) => Some(ColorSpace::LinearDisplayP3),
        (Step::GammaEncode, ColorSpace::LinearSrgb) => Some(ColorSpace::Srgb),
        (Step::GammaEncode, ColorSpace::LinearDisplayP3) => Some(ColorSpace::DisplayP3),
        (Step::Rec2020Decode, ColorSpace::Rec2020) => Some(ColorSpace::LinearRec2020),
        (Step::Rec2020Encode, ColorSpace::LinearRec2020) => Some(ColorSpace::Rec2020),
        (Step::LinearSrgbToXyz, ColorSpace::LinearSrgb) => Some(ColorSpace::Xyz),
        (Step::XyzToLinearSrgb, ColorSpace::Xyz) => Some(ColorSpace::LinearSrgb),
        (Step::LinearDisplayP3ToXyz, ColorSpace::LinearDisplayP3) => Some(ColorSpace::Xyz),
        (Step::XyzToLinearDisplayP3, ColorSpace::Xyz) => Some(ColorSpace::LinearDisplayP3),
        (Step::LinearRec2020ToXyz, ColorSpace::LinearRec2020) => Some(ColorSpace::Xyz),
        (Step::XyzToLinearRec2020, ColorSpace::Xyz) => Some(ColorSpace::LinearRec2020),
        (Step::OklabToXyz, ColorSpace::Oklab) => Some(ColorSpace::Xyz),
        (Step::XyzToOklab, ColorSpace::Xyz) => Some(ColorSpace::Oklab),
        (Step::PolarToCartesian, ColorSpace::Oklch) => Some(ColorSpace::Oklab),
        (Step::PolarToCartesian, ColorSpace::Oklrch) => Some(ColorSpace::Oklrab),
        (Step::CartesianToPolar, ColorSpace::Oklab) => Some(ColorSpace::Oklch),
        (Step::CartesianToPolar, ColorSpace::Oklrab) => Some(ColorSpace::Oklrch),
        (Step::LightnessToLr, ColorSpace::Oklab) => Some(ColorSpace::Oklrab),
        (Step::LightnessToLr, ColorSpace::Oklch) => Some(ColorSpace::Oklrch),
        (Step::LrToLightness, ColorSpace::Oklrab) => Some(ColorSpace::Oklab),
        (Step::LrToLightness, ColorSpace::Oklrch) => Some(ColorSpace::Oklch),
        _ => None,
    }
}

/// The space where a chain of steps ends when it starts in the given
/// space, or nothing where some step of the chain does not apply.
pub open spec fn path_end(space: ColorSpace, steps: Seq<Step>) -> Option<ColorSpace>
    decreases steps.len(),
{
    if steps.len() == 0 {
        Some(space)
    } else {
        match step_space(steps[0], space) {
            Some(next) => path_end(next, steps.drop_first()),
            None => None,
        }
    }
}

/// The steps from the given space up to the root space XYZ.
pub open spec fn up_steps(space: ColorSpace) -> Seq<Step> {
    match space {
        ColorSpace::Srgb => seq![Step::GammaDecode, Step::LinearSrgbToXyz],
        ColorSpace::LinearSrgb => seq![Step::LinearSrgbToXyz],
        ColorSpace::DisplayP3 => seq![Step::GammaDecode, Step::LinearDisplayP3ToXyz],
        ColorSpace::LinearDisplayP3 => seq![Step::LinearDisplayP3ToXyz],
        ColorSpace::Rec2020 => seq![Step::Rec2020Decode, Step::LinearRec2020ToXyz],
        ColorSpace::LinearRec2020 => seq![Step::LinearRec2020ToXyz],
        ColorSpace::Oklab => seq![Step::OklabToXyz],
        ColorSpace::Oklch => seq![Step::PolarToCartesian, Step::OklabToXyz],
        ColorSpace::Oklrab => seq![Step::LrToLightness, Step::OklabToXyz],
        ColorSpace::Oklrch => seq![
            Step::LrToLightness,
            Step::PolarToCartesian,
            Step::OklabToXyz,
        ],
        ColorSpace::Xyz => seq![],
    }
}

/// The steps from the root space XYZ down to the given space.
pub open spec fn down_steps(space: ColorSpace) -> Seq<Step> {
    match space {
        ColorSpace::Srgb => seq![Step::XyzToLinearSrgb, Step::GammaEncode],
        ColorSpace::LinearSrgb => seq![Step::XyzToLinearSrgb],
        ColorSpace::DisplayP3 => seq![Step::XyzToLinearDisplayP3, Step::GammaEncode],
        ColorSpace::LinearDisplayP3 => seq![Step::XyzToLinearDisplayP3],
        ColorSpace::Rec2020 => seq![Step::XyzToLinearRec2020, Step::Rec2020Encode],
        ColorSpace::LinearRec2020 => seq![Step::XyzToLinearRec2020],
        ColorSpace::Oklab => seq![Step::XyzToOklab],
        ColorSpace::Oklch => seq![Step::XyzToOklab, Step::CartesianToPolar],
        ColorSpace::Oklrab => seq![Step::XyzToOklab, Step::LightnessToLr],
        ColorSpace::Oklrch => seq![
            Step::XyzToOklab,
            Step::CartesianToPolar,
            Step::LightnessToLr,
        ],
        ColorSpace::Xyz => seq![],
    }
}

/// The chain of elementary steps that converts coordinates from one
/// space to another.
///
/// The route of a space to itself is empty. Pairs inside one family take
/// their direct shortcut: the transfer-function pairs, the Cartesian and
/// polar forms of the Oklab family, the plain and lightness-corrected
/// forms, and the two-hop combinations among the latter. Every other
/// pair goes up from the source space to XYZ and down to the target.
pub open spec fn spec_route(from_space: ColorSpace, to_space: ColorSpace) -> Seq<Step> {
    if from_space == to_space {
        seq![]
    } else {
        match (from_space, to_space) {
            (ColorSpace::Srgb, ColorSpace::LinearSrgb) => seq![Step::GammaDecode],
            (ColorSpace::DisplayP3, ColorSpace::LinearDisplayP3) => seq![Step::GammaDecode],
            (ColorSpace::LinearSrgb, ColorSpace::Srgb) => seq![Step::GammaEncode],
            (ColorSpace::LinearDisplayP3, ColorSpace::DisplayP3) => seq![Step::GammaEncode],
            (ColorSpace::Rec2020, ColorSpace::LinearRec2020) => seq![Step::Rec2020Decode],
            (ColorSpace::LinearRec2020, ColorSpace::Rec2020) => seq![Step::Rec2020Encode],
            (ColorSpace::Oklch, ColorSpace::Oklab) => seq![Step::PolarToCartesian],
            (ColorSpace::Oklrch, ColorSpace::Oklrab) => seq![Step::PolarToCartesian],
            (ColorSpace::Oklab, ColorSpace::Oklch) => seq![Step::CartesianToPolar],
            (ColorSpace::Oklrab, ColorSpace::Oklrch) => seq![Step::CartesianToPolar],
            (ColorSpace::Oklab, ColorSpace::Oklrab) => seq![Step::LightnessToLr],
            (ColorSpace::Oklch, ColorSpace::Oklrch) => seq![Step::LightnessToLr],
            (ColorSpace::Oklrab, ColorSpace::Oklab) => seq![Step::LrToLightness],
            (ColorSpace::Oklrch, ColorSpace::Oklch) => seq![Step::LrToLightness],
            (ColorSpace::Oklrch, ColorSpace::Oklab) => seq![
                Step::LrToLightness,
                Step::PolarToCartesian,
            ],
            (ColorSpace::Oklch, ColorSpace::Oklrab) => seq![
                Step::PolarToCartesian,
                Step::LightnessToLr,
            ],
            (ColorSpace::Oklab, ColorSpace::Oklrch) => seq![
                Step::CartesianToPolar,
                Step::LightnessToLr,
            ],
            (ColorSpace::Oklrab, ColorSpace::Oklch) => seq![
                Step::LrToLightness,
                Step::CartesianToPolar,
            ],
            _ => up_steps(from_space) + down_steps(to_space),
        }
    }
}

/// Compute the chain of elementary steps that converts coordinates from
/// one color space to another.
///
/// The chain is empty exactly when both spaces are the same. Interpreting
/// the steps one after another, starting on coordinates of the first
/// space, ends on coordinates of the second: see [`lemma_route_connects`].
pub fn route(from_space: ColorSpace, to_space: ColorSpace) -> (r: Vec<Step>)
    ensures
        r@ == spec_route(from_space, to_space),
        r@.len() == 0 <==> from_space == to_space,
{
    let r: Vec<Step> = if from_space == to_space {
        vec![]
    } else {
        match (from_space, to_space) {
            (ColorSpace::Srgb, ColorSpace::LinearSrgb)
            | (ColorSpace::DisplayP3, ColorSpace::LinearDisplayP3) => vec![Step::GammaDecode],
            (ColorSpace::LinearSrgb, ColorSpace::Srgb)
            | (ColorSpace::LinearDisplayP3, ColorSpace::DisplayP3) => vec![Step::GammaEncode],
            (ColorSpace::Rec2020, ColorSpace::LinearRec2020) => vec![Step::Rec2020Decode],
            (ColorSpace::LinearRec2020, ColorSpace::Rec2020) => vec![Step::Rec2020Encode],
            (ColorSpace::Oklch, ColorSpace::Oklab)
            | (ColorSpace::Oklrch, ColorSpace::Oklrab) => vec![Step::PolarToCartesian],
            (ColorSpace::Oklab, ColorSpace::Oklch)
            | (ColorSpace::Oklrab, ColorSpace::Oklrch) => vec![Step::CartesianToPolar],
            (ColorSpace::Oklab, ColorSpace::Oklrab)
            | (ColorSpace::Oklch, ColorSpace::Oklrch) => vec![Step::LightnessToLr],
            (ColorSpace::Oklrab, ColorSpace::Oklab)
            | (ColorSpace::Oklrch, ColorSpace::Oklch) => vec![Step::LrToLightness],
            (ColorSpace::Oklrch, ColorSpace::Oklab) => vec![
                Step::LrToLightness,
                Step::PolarToCartesian,
            ],
            (ColorSpace::Oklch, ColorSpace::Oklrab) => vec![
                Step::PolarToCartesian,
                Step::LightnessToLr,
            ],
            (ColorSpace::Oklab, ColorSpace::Oklrch) => vec![
                Step::CartesianToPolar,
                Step::LightnessToLr,
            ],
            (ColorSpace::Oklrab, ColorSpace::Oklch) => vec![
                Step::LrToLightness,
                Step::CartesianToPolar,
            ],
            _ => {
                let mut up = up_vec(from_space);
                let mut down = down_vec(to_space);
                up.append(&mut down);
                up
            },
        }
    };
    proof {
        assert(r@ =~= spec_route(from_space, to_space));
    }
    r
}

/// The executable form of [`up_steps`].
fn up_vec(space: ColorSpace) -> (r: Vec<Step>)
    ensures
        r@ == up_steps(space),
{
    let r: Vec<Step> = match space {
        ColorSpace::Srgb => vec![Step::GammaDecode, Step::LinearSrgbToXyz],
        ColorSpace::LinearSrgb => vec![Step::LinearSrgbToXyz],
        ColorSpace::DisplayP3 => vec![Step::GammaDecode, Step::LinearDisplayP3ToXyz],
        ColorSpace::LinearDisplayP3 => vec![Step::LinearDisplayP3ToXyz],
        ColorSpace::Rec2020 => vec![Step::Rec2020Decode, Step::LinearRec2020ToXyz],
        ColorSpace::LinearRec2020 => vec![Step::LinearRec2020ToXyz],
        ColorSpace::Oklab => vec![Step::OklabToXyz],
        ColorSpace::Oklch => vec![Step::PolarToCartesian, Step::OklabToXyz],
        ColorSpace::Oklrab => vec![Step::LrToLightness, Step::OklabToXyz],
        ColorSpace::Oklrch => vec![
            Step::LrToLightness,
            Step::PolarToCartesian,
            Step::OklabToXyz,
        ],
        ColorSpace::Xyz => vec![],
    };
    proof {
        assert(r@ =~= up_steps(space));
    }
    r
}

/// The executable form of [`down_steps`].
fn down_vec(space: ColorSpace) -> (r: Vec<Step>)
    ensures
        r@ == down_steps(space),
{
    let r: Vec<Step> = match space {
        ColorSpace::Srgb => vec![Step::XyzToLinearSrgb, Step::GammaEncode],
        ColorSpace::LinearSrgb => vec![Step::XyzToLinearSrgb],
        ColorSpace::DisplayP3 => vec![Step::XyzToLinearDisplayP3, Step::GammaEncode],
        ColorSpace::LinearDisplayP3 => vec![Step::XyzToLinearDisplayP3],
        ColorSpace::Rec2020 => vec![Step::XyzToLinearRec2020, Step::Rec2020Encode],
        ColorSpace::LinearRec2020 => vec![Step::XyzToLinearRec2020],
        ColorSpace::Oklab => vec![Step::XyzToOklab],
        ColorSpace::Oklch => vec![Step::XyzToOklab, Step::CartesianToPolar],
        ColorSpace::Oklrab => vec![Step::XyzToOklab, Step::LightnessToLr],
        ColorSpace::Oklrch => vec![
            Step::XyzToOklab,
            Step::CartesianToPolar,
            Step::LightnessToLr,
        ],
        ColorSpace::Xyz => vec![],
    };
    proof {
        assert(r@ =~= down_steps(space));
    }
    r
}

// ------------------------------------------------------------------------
// The structure of the conversion graph.

/// A chain of steps over a concatenation ends where the second part
/// ends, started from where the first part ended.
pub proof fn lemma_path_end_concat(space: ColorSpace, s1: Seq<Step>, s2: Seq<Step>)
    ensures
        path_end(space, s1 + s2) == (match path_end(space, s1) {
            Some(mid) => path_end(mid, s2),
            None => None,
        }),
    decreases s1.len(),
{
    if s1.len() == 0 {
        assert(s1 + s2 =~= s2);
    } else {
        assert((s1 + s2)[0] == s1[0]);
        match step_space(s1[0], space) {
            Some(next) => {
                assert((s1 + s2).drop_first() =~= s1.drop_first() + s2);
                lemma_path_end_concat(next, s1.drop_first(), s2);
            },
            None => {
                assert(path_end(space, s1 + s2) is None);
            },
        }
    }
}

/// The up chain of a space ends at the root space XYZ.
pub proof fn lemma_up_connects(space: ColorSpace)
    ensures
        path_end(space, up_steps(space)) == Some(ColorSpace::Xyz),
{
    reveal_with_fuel(path_end, 5);
}

/// The down chain of a space starts at the root space XYZ and ends at
/// the space.
pub proof fn lemma_down_connects(space: ColorSpace)
    ensures
        path_end(ColorSpace::Xyz, down_steps(space)) == Some(space),
{
    reveal_with_fuel(path_end, 5);
}

/// Soundness of the routing table: the route between two spaces is a
/// valid chain of elementary conversions from the first space to the
/// second.
#[verifier::rlimit(60)]
pub proof fn lemma_route_connects(from_space: ColorSpace, to_space: ColorSpace)
    ensures
        path_end(from_space, spec_route(from_space, to_space)) == Some(to_space),
{
    reveal_with_fuel(path_end, 5);
    if from_space == to_space {
    } else {
        lemma_up_connects(from_space);
        lemma_down_connects(to_space);
        lemma_path_end_concat(from_space, up_steps(from_space), down_steps(to_space));
    }
}

/// The route of a space to itself is empty: an identity conversion
/// leaves the coordinates alone (up to the normalization of
/// not-a-number coordinates, which happens before any routing).
pub proof fn lemma_route_identity(space: ColorSpace)
    ensures
        spec_route(space, space) == Seq::<Step>::empty(),
{
    assert(spec_route(space, space) =~= Seq::<Step>::empty());
}

/// A shortcut never detours: no route is longer than the general path
/// up to the root space and back down.
pub proof fn lemma_route_no_detour(from_space: ColorSpace, to_space: ColorSpace)
    ensures
        spec_route(from_space, to_space).len() <= up_steps(from_space).len() + down_steps(
            to_space,
        ).len(),
{
}

/// The up and down chains of a space mirror each other step by step.
pub proof fn lemma_up_down_mirror(space: ColorSpace)
    ensures
        up_steps(space).map_values(|s: Step| inverse_step(s)).reverse() =~= down_steps(space),
        down_steps(space).map_values(|s: Step| inverse_step(s)).reverse() =~= up_steps(space),
{
}

/// Routes come in inverse pairs: the route back from `to_space` to
/// `from_space` is the route out, with every step inverted, walked in
/// the opposite order. Interpreted over exact arithmetic this makes a
/// round trip the identity; over floating-point arithmetic it bounds the
/// round-trip error by the error of the step pairs themselves.
pub proof fn lemma_route_inverse(from_space: ColorSpace, to_space: ColorSpace)
    ensures
        spec_route(to_space, from_space) =~= spec_route(from_space, to_space).map_values(
            |s: Step| inverse_step(s),
        ).reverse(),
{
    lemma_up_down_mirror(from_space);
    lemma_up_down_mirror(to_space);
}

} // verus!
