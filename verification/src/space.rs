//! The closed set of color spaces this crate understands.

use vstd::prelude::*;

verus! {

/// One of the eleven color spaces of the conversion graph.
///
/// CIE XYZ is the root space: every space defines a conversion up to XYZ
/// and one back down, and pairs without a direct shortcut are routed
/// through it.
#[derive(Copy, Clone, Debug, PartialEq, Eq, Hash, Structural)]
pub enum ColorSpace {
    /// Gamma-encoded sRGB.
    Srgb,
    /// Linear sRGB.
    LinearSrgb,
    /// Gamma-encoded Display P3.
    DisplayP3,
    /// Linear Display P3.
    LinearDisplayP3,
    /// Gamma-encoded Rec. 2020.
    Rec2020,
    /// Linear Rec. 2020.
    LinearRec2020,
    /// Oklab, a perceptually uniform Cartesian space.
    Oklab,
    /// Oklch, the polar form of Oklab.
    Oklch,
    /// Oklab with the corrected lightness estimate Lr.
    Oklrab,
    /// Oklch with the corrected lightness estimate Lr.
    Oklrch,
    /// CIE XYZ with a D65 white point, the root of the conversion graph.
    Xyz,
}

impl ColorSpace {
    /// Whether the third coordinate of this space is a hue angle in degrees.
    pub fn is_polar(&self) -> (r: bool)
        ensures
            r == self.spec_is_polar(),
    {
        matches!(*self, ColorSpace::Oklch | ColorSpace::Oklrch)
    }

    /// The polar spaces, in specification terms.
    pub open spec fn spec_is_polar(self) -> bool {
        self == ColorSpace::Oklch || self == ColorSpace::Oklrch
    }

    /// Whether this is an RGB-like space whose in-gamut coordinates lie in
    /// the unit range.
    pub fn is_rgb(&self) -> (r: bool)
        ensures
            r == self.spec_is_rgb(),
    {
        matches!(
            *self,
            ColorSpace::Srgb
                | ColorSpace::LinearSrgb
                | ColorSpace::DisplayP3
                | ColorSpace::LinearDisplayP3
                | ColorSpace::Rec2020
                | ColorSpace::LinearRec2020
        )
    }

    /// The RGB-like spaces, in specification terms.
    pub open spec fn spec_is_rgb(self) -> bool {
        self == ColorSpace::Srgb || self == ColorSpace::LinearSrgb
            || self == ColorSpace::DisplayP3 || self == ColorSpace::LinearDisplayP3
            || self == ColorSpace::Rec2020 || self == ColorSpace::LinearRec2020
    }
}

} // verus!
