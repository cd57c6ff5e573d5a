//! Terminal color formats.
//!
//! Terminal colors are integral: the 16 extended ANSI colors, the 8-bit
//! colors with their embedded 6x6x6 RGB cube and 24-step gray gradient,
//! and 24-bit "true" colors. This module models each format exactly and
//! proves the code mappings between them.

use vstd::prelude::*;

verus! {

use core::ops::RangeInclusive;

/// An out-of-bounds error.
///
/// Trying to convert an invalid byte value to a terminal color results in
/// an out-of-bounds error. It combines the invalid value with the expected
/// range of values. The following ranges occur in practice:
///
///   * `0..=5` for individual coordinates of the embedded RGB cube;
///   * `0..=15` for the 16 extended ANSI colors;
///   * `16..=231` for the 8-bit values of the embedded RGB cube;
///   * `232..=255` for the 24-step gray gradient.
#[derive(Clone, Copy, Debug)]
pub struct OutOfBoundsError {
    value: u8,
    lo: u8,
    hi: u8,
}

impl OutOfBoundsError {
    /// The offending value, in specification terms.
    pub closed spec fn spec_value(self) -> u8 {
        self.value
    }

    /// The lower end of the expected range, in specification terms.
    pub closed spec fn spec_lo(self) -> u8 {
        self.lo
    }

    /// The upper end of the expected range, in specification terms.
    pub closed spec fn spec_hi(self) -> u8 {
        self.hi
    }

    /// The error for `value`, which should have been in `lo..=hi`.
    pub(crate) fn new(value: u8, lo: u8, hi: u8) -> (r: Self)
        ensures
            r.spec_value() == value,
            r.spec_lo() == lo,
            r.spec_hi() == hi,
    {
        OutOfBoundsError { value, lo, hi }
    }

    /// Access the offending value.
    pub fn value(&self) -> (r: u8)
        ensures
            r == self.spec_value(),
    {
        self.value
    }

    /// Access the expected range.
    pub fn expected(&self) -> (r: RangeInclusive<u8>)
        ensures
            r@.start == self.spec_lo(),
            r@.end == self.spec_hi(),
            !r@.exhausted,
    {
        RangeInclusive::new(self.lo, self.hi)
    }
}

// ------------------------------------------------------------------------

/// The 16 extended ANSI colors.
///
/// Despite their names, *white* and *bright black* are obviously distinct
/// from white and black, respectively. Both are gray, with *white* closer
/// to *bright white* than either black and *bright black* closer to
/// *black* than either white. In other words, the 16 extended ANSI colors
/// include a four-color gray gradient from *black* to *bright black* to
/// *white* to *bright white*.
#[derive(Copy, Clone, Debug, PartialEq, Eq, Hash, Structural)]
pub enum AnsiColor {
    Black,
    Red,
    Green,
    Yellow,
    Blue,
    Magenta,
    Cyan,
    White,
    BrightBlack,
    BrightRed,
    BrightGreen,
    BrightYellow,
    BrightBlue,
    BrightMagenta,
    BrightCyan,
    BrightWhite,
}

/// The 8-bit code of an ANSI color, 0 through 15.
pub open spec fn ansi_code(color: AnsiColor) -> u8 {
    match color {
        AnsiColor::Black => 0,
        AnsiColor::Red => 1,
        AnsiColor::Green => 2,
        AnsiColor::Yellow => 3,
        AnsiColor::Blue => 4,
        AnsiColor::Magenta => 5,
        AnsiColor::Cyan => 6,
        AnsiColor::White => 7,
        AnsiColor::BrightBlack => 8,
        AnsiColor::BrightRed => 9,
        AnsiColor::BrightGreen => 10,
        AnsiColor::BrightYellow => 11,
        AnsiColor::BrightBlue => 12,
        AnsiColor::BrightMagenta => 13,
        AnsiColor::BrightCyan => 14,
        AnsiColor::BrightWhite => 15,
    }
}

/// The ANSI color with the given code, 0 through 15.
pub open spec fn spec_ansi(value: u8) -> AnsiColor
    recommends
        value <= 15,
{
    match value {
        0u8 => AnsiColor::Black,
        1u8 => AnsiColor::Red,
        2u8 => AnsiColor::Green,
        3u8 => AnsiColor::Yellow,
        4u8 => AnsiColor::Blue,
        5u8 => AnsiColor::Magenta,
        6u8 => AnsiColor::Cyan,
        7u8 => AnsiColor::White,
        8u8 => AnsiColor::BrightBlack,
        9u8 => AnsiColor::BrightRed,
        10u8 => AnsiColor::BrightGreen,
        11u8 => AnsiColor::BrightYellow,
        12u8 => AnsiColor::BrightBlue,
        13u8 => AnsiColor::BrightMagenta,
        14u8 => AnsiColor::BrightCyan,
        _ => AnsiColor::BrightWhite,
    }
}

impl TryFrom<u8> for AnsiColor {
    type Error = OutOfBoundsError;

    /// Try to convert the unsigned byte to an ANSI color.
    fn try_from(value: u8) -> (r: Result<Self, Self::Error>)
        ensures
            r is Ok <==> value <= 15,
            r matches Ok(c) ==> ansi_code(c) == value,
            r matches Err(e) ==> e.spec_value() == value && e.spec_lo() == 0 && e.spec_hi() == 15,
    {
        match value {
            0 => Ok(AnsiColor::Black),
            1 => Ok(AnsiColor::Red),
            2 => Ok(AnsiColor::Green),
            3 => Ok(AnsiColor::Yellow),
            4 => Ok(AnsiColor::Blue),
            5 => Ok(AnsiColor::Magenta),
            6 => Ok(AnsiColor::Cyan),
            7 => Ok(AnsiColor::White),
            8 => Ok(AnsiColor::BrightBlack),
            9 => Ok(AnsiColor::BrightRed),
            10 => Ok(AnsiColor::BrightGreen),
            11 => Ok(AnsiColor::BrightYellow),
            12 => Ok(AnsiColor::BrightBlue),
            13 => Ok(AnsiColor::BrightMagenta),
            14 => Ok(AnsiColor::BrightCyan),
            15 => Ok(AnsiColor::BrightWhite),
            _ => Err(OutOfBoundsError::new(value, 0, 15)),
        }
    }
}

impl vstd::std_specs::convert::TryFromSpecImpl<u8> for AnsiColor {
    open spec fn obeys_try_from_spec() -> bool {
        false
    }

    closed spec fn try_from_spec(value: u8) -> Result<Self, OutOfBoundsError> {
        Err(OutOfBoundsError { value, lo: 0u8, hi: 15u8 })
    }
}

impl From<AnsiColor> for u8 {
    /// Convert an ANSI color to an unsigned byte.
    fn from(value: AnsiColor) -> (r: u8)
        ensures
            r == ansi_code(value),
    {
        match value {
            AnsiColor::Black => 0,
            AnsiColor::Red => 1,
            AnsiColor::Green => 2,
            AnsiColor::Yellow => 3,
            AnsiColor::Blue => 4,
            AnsiColor::Magenta => 5,
            AnsiColor::Cyan => 6,
            AnsiColor::White => 7,
            AnsiColor::BrightBlack => 8,
            AnsiColor::BrightRed => 9,
            AnsiColor::BrightGreen => 10,
            AnsiColor::BrightYellow => 11,
            AnsiColor::BrightBlue => 12,
            AnsiColor::BrightMagenta => 13,
            AnsiColor::BrightCyan => 14,
            AnsiColor::BrightWhite => 15,
        }
    }
}

impl vstd::std_specs::convert::FromSpecImpl<AnsiColor> for u8 {
    open spec fn obeys_from_spec() -> bool {
        true
    }

    open spec fn from_spec(value: AnsiColor) -> u8 {
        ansi_code(value)
    }
}

// ------------------------------------------------------------------------

/// The 6x6x6 RGB cube embedded in 8-bit terminal colors.
#[derive(Copy, Clone, Debug, PartialEq, Eq, Hash)]
pub struct EmbeddedRgb([u8; 3]);

/// The 8-bit code of an embedded RGB color, 16 through 231.
pub open spec fn cube_code(color: EmbeddedRgb) -> u8
    recommends
        color.wf(),
{
    (16 + 36 * color.spec_coordinates()[0] + 6 * color.spec_coordinates()[1]
        + color.spec_coordinates()[2]) as u8
}

impl EmbeddedRgb {
    /// Each coordinate of the cube ranges over 0 through 5.
    #[verifier::type_invariant]
    pub closed spec fn wf(self) -> bool {
        self.0[0] < 6 && self.0[1] < 6 && self.0[2] < 6
    }

    /// The coordinates, in specification terms.
    pub closed spec fn spec_coordinates(self) -> Seq<u8> {
        self.0@
    }

    /// Instantiate a new embedded RGB value from its coordinates.
    pub fn new(r: u8, g: u8, b: u8) -> (result: Result<Self, OutOfBoundsError>)
        ensures
            result is Ok <==> r < 6 && g < 6 && b < 6,
            result matches Ok(c) ==> c.spec_coordinates() == seq![r, g, b],
            r >= 6 ==> (result matches Err(e) && e.spec_value() == r && e.spec_lo() == 0 && e.spec_hi() == 5),
            r < 6 && g >= 6 ==> (result matches Err(e) && e.spec_value() == g && e.spec_lo() == 0 && e.spec_hi() == 5),
            r < 6 && g < 6 && b >= 6 ==> (result matches Err(e) && e.spec_value() == b && e.spec_lo() == 0 && e.spec_hi() == 5),
    {
        if r >= 6 {
            Err(OutOfBoundsError::new(r, 0, 5))
        } else if g >= 6 {
            Err(OutOfBoundsError::new(g, 0, 5))
        } else if b >= 6 {
            Err(OutOfBoundsError::new(b, 0, 5))
        } else {
            let c = Self([r, g, b]);
            assert(c.spec_coordinates() =~= seq![r, g, b]);
            Ok(c)
        }
    }

    /// Access the coordinates of the embedded RGB color.
    pub fn coordinates(&self) -> (r: &[u8; 3])
        ensures
            r@ == self.spec_coordinates(),
    {
        &self.0
    }
}

impl TryFrom<u8> for EmbeddedRgb {
    type Error = OutOfBoundsError;

    /// Try instantiating an embedded RGB color from an unsigned byte, that
    /// is, the numerical representation of 8-bit color.
    fn try_from(value: u8) -> (r: Result<Self, Self::Error>)
        ensures
            r is Ok <==> 16 <= value <= 231,
            r matches Ok(c) ==> cube_code(c) == value && c.wf(),
            r matches Err(e) ==> e.spec_value() == value && e.spec_lo() == 16 && e.spec_hi() == 231,
    {
        if value < 16 || value > 231 {
            Err(OutOfBoundsError::new(value, 16, 231))
        } else {
            let mut b = value - 16;
            let r = b / 36;
            b = b - r * 36;
            let g = b / 6;
            b = b - g * 6;

            let c = Self([r, g, b]);
            assert(cube_code(c) == value);
            Ok(c)
        }
    }
}

impl vstd::std_specs::convert::TryFromSpecImpl<u8> for EmbeddedRgb {
    open spec fn obeys_try_from_spec() -> bool {
        false
    }

    closed spec fn try_from_spec(value: u8) -> Result<Self, OutOfBoundsError> {
        Err(OutOfBoundsError { value, lo: 16u8, hi: 231u8 })
    }
}

impl From<EmbeddedRgb> for u8 {
    /// Convert an embedded RGB color to an unsigned byte.
    fn from(value: EmbeddedRgb) -> (r: u8)
        ensures
            r == cube_code(value),
    {
        proof {
            use_type_invariant(&value);
        }
        let c = &value.0;
        16 + 36 * c[0] + 6 * c[1] + c[2]
    }
}

impl vstd::std_specs::convert::FromSpecImpl<EmbeddedRgb> for u8 {
    open spec fn obeys_from_spec() -> bool {
        false
    }

    closed spec fn from_spec(value: EmbeddedRgb) -> u8 {
        cube_code(value)
    }
}

// ------------------------------------------------------------------------

/// The 24-step gray gradient embedded in 8-bit terminal colors.
#[derive(Copy, Clone, Debug, PartialEq, Eq, Hash, PartialOrd, Ord)]
pub struct GrayGradient(u8);

/// The 8-bit code of a gray gradient color, 232 through 255.
pub open spec fn gray_code(color: GrayGradient) -> u8
    recommends
        color.wf(),
{
    (232 + color.spec_level()) as u8
}

impl GrayGradient {
    /// The gray level ranges over 0 through 23.
    #[verifier::type_invariant]
    pub closed spec fn wf(self) -> bool {
        self.0 <= 23
    }

    /// The gray level, in specification terms.
    pub closed spec fn spec_level(self) -> u8 {
        self.0
    }

    /// Instantiate a new gray gradient from the level value. This
    /// associated function differs from `try_from()` in the accepted
    /// range: `new()` implies intentional instantiation and hence accepts
    /// `0..=23`, whereas `try_from()` implies conversion from unsigned
    /// bytes, i.e., 8-bit color, and hence accepts `232..=255`.
    pub fn new(value: u8) -> (r: Result<Self, OutOfBoundsError>)
        ensures
            r is Ok <==> value <= 23,
            r matches Ok(c) ==> c.spec_level() == value,
            r matches Err(e) ==> e.spec_value() == value && e.spec_lo() == 0 && e.spec_hi() == 23,
    {
        if value <= 23 {
            Ok(Self(value))
        } else {
            Err(OutOfBoundsError::new(value, 0, 23))
        }
    }

    /// Access the gray level `0..24`.
    pub fn level(&self) -> (r: u8)
        ensures
            r == self.spec_level(),
    {
        self.0
    }
}

impl TryFrom<u8> for GrayGradient {
    type Error = OutOfBoundsError;

    /// Try instantiating a gray gradient value from an unsigned byte, that
    /// is, the numerical representation of 8-bit color. In contrast to
    /// `new()`, this associated function accepts 232..=255.
    fn try_from(value: u8) -> (r: Result<Self, Self::Error>)
        ensures
            r is Ok <==> 232 <= value,
            r matches Ok(c) ==> gray_code(c) == value,
            r matches Err(e) ==> e.spec_value() == value && e.spec_lo() == 232 && e.spec_hi() == 255,
    {
        if 232 <= value {
            Ok(Self(value - 232))
        } else {
            Err(OutOfBoundsError::new(value, 232, 255))
        }
    }
}

impl vstd::std_specs::convert::TryFromSpecImpl<u8> for GrayGradient {
    open spec fn obeys_try_from_spec() -> bool {
        false
    }

    closed spec fn try_from_spec(value: u8) -> Result<Self, OutOfBoundsError> {
        Err(OutOfBoundsError { value, lo: 232u8, hi: 255u8 })
    }
}

impl From<GrayGradient> for u8 {
    /// Convert the gray gradient to an unsigned byte.
    fn from(value: GrayGradient) -> (r: u8)
        ensures
            r == gray_code(value),
    {
        proof {
            use_type_invariant(&value);
        }
        232 + value.0
    }
}

impl vstd::std_specs::convert::FromSpecImpl<GrayGradient> for u8 {
    open spec fn obeys_from_spec() -> bool {
        false
    }

    closed spec fn from_spec(value: GrayGradient) -> u8 {
        gray_code(value)
    }
}

// ------------------------------------------------------------------------

/// An 8-bit terminal color.
///
/// The 8-bit code space is partitioned into the 16 ANSI colors (codes 0
/// through 15), the embedded RGB cube (codes 16 through 231), and the
/// gray gradient (codes 232 through 255).
#[derive(Copy, Clone, Debug, PartialEq, Eq, Hash)]
pub enum EightBitColor {
    Ansi(AnsiColor),
    Rgb(EmbeddedRgb),
    Gray(GrayGradient),
}

/// The 8-bit code of an 8-bit color.
pub open spec fn eight_bit_code(color: EightBitColor) -> u8 {
    match color {
        EightBitColor::Ansi(c) => ansi_code(c),
        EightBitColor::Rgb(c) => cube_code(c),
        EightBitColor::Gray(c) => gray_code(c),
    }
}

impl EightBitColor {
    /// Instantiate an 8-bit color from its numerical representation.
    ///
    /// Codes 0 through 15 become ANSI colors, codes 16 through 231 become
    /// embedded RGB colors, and codes 232 through 255 become gray
    /// gradient colors.
    pub fn new(value: u8) -> (r: Self)
        ensures
            eight_bit_code(r) == value,
            value <= 15 <==> r is Ansi,
            16 <= value <= 231 <==> r is Rgb,
            232 <= value <==> r is Gray,
    {
        if value <= 15 {
            EightBitColor::Ansi(AnsiColor::try_from(value).unwrap())
        } else if value <= 231 {
            EightBitColor::Rgb(EmbeddedRgb::try_from(value).unwrap())
        } else {
            EightBitColor::Gray(GrayGradient::try_from(value).unwrap())
        }
    }

    /// Determine whether this 8-bit color is an ANSI color.
    pub fn is_ansi(&self) -> (r: bool)
        ensures
            r == (self is Ansi),
    {
        matches!(*self, Self::Ansi(_))
    }

    /// Access this 8-bit color as an ANSI color.
    pub fn ansi(&self) -> (r: Option<AnsiColor>)
        ensures
            (*self) matches EightBitColor::Ansi(c) ==> r == Some(c),
            !(self is Ansi) ==> r is None,
    {
        if let Self::Ansi(color) = *self {
            Some(color)
        } else {
            None
        }
    }

    /// Determine whether this 8-bit color is an embedded RGB color.
    pub fn is_rgb(&self) -> (r: bool)
        ensures
            r == (self is Rgb),
    {
        matches!(*self, Self::Rgb(_))
    }

    /// Access this 8-bit color as an embedded RGB color.
    pub fn rgb(&self) -> (r: Option<EmbeddedRgb>)
        ensures
            (*self) matches EightBitColor::Rgb(c) ==> r == Some(c),
            !(self is Rgb) ==> r is None,
    {
        if let Self::Rgb(color) = *self {
            Some(color)
        } else {
            None
        }
    }

    /// Determine whether this 8-bit color is a gray gradient.
    pub fn is_gray(&self) -> (r: bool)
        ensures
            r == (self is Gray),
    {
        matches!(*self, Self::Gray(_))
    }

    /// Access this 8-bit color as a gray gradient.
    pub fn gray(&self) -> (r: Option<GrayGradient>)
        ensures
            (*self) matches EightBitColor::Gray(c) ==> r == Some(c),
            !(self is Gray) ==> r is None,
    {
        if let Self::Gray(color) = *self {
            Some(color)
        } else {
            None
        }
    }
}

impl From<u8> for EightBitColor {
    /// Convert an unsigned byte to an 8-bit color.
    fn from(value: u8) -> (r: Self)
        ensures
            eight_bit_code(r) == value,
    {
        Self::new(value)
    }
}

impl vstd::std_specs::convert::FromSpecImpl<u8> for EightBitColor {
    open spec fn obeys_from_spec() -> bool {
        false
    }

    closed spec fn from_spec(value: u8) -> EightBitColor {
        EightBitColor::Ansi(spec_ansi(0))
    }
}

impl From<EightBitColor> for u8 {
    /// Convert an 8-bit color to an unsigned byte.
    fn from(value: EightBitColor) -> (r: u8)
        ensures
            r == eight_bit_code(value),
    {
        match value {
            EightBitColor::Ansi(color) => color.into(),
            EightBitColor::Rgb(color) => color.into(),
            EightBitColor::Gray(color) => color.into(),
        }
    }
}

impl vstd::std_specs::convert::FromSpecImpl<EightBitColor> for u8 {
    open spec fn obeys_from_spec() -> bool {
        true
    }

    open spec fn from_spec(value: EightBitColor) -> u8 {
        eight_bit_code(value)
    }
}

// ------------------------------------------------------------------------

/// A true color, i.e., 24-bit color.
#[derive(Copy, Clone, Debug, PartialEq, Eq, Hash)]
pub struct TrueColor([u8; 3]);

impl TrueColor {
    /// The coordinates, in specification terms.
    pub closed spec fn spec_coordinates(self) -> Seq<u8> {
        self.0@
    }

    /// Create a new true color from its coordinates.
    pub fn new(r: u8, g: u8, b: u8) -> (result: Self)
        ensures
            result.spec_coordinates() == seq![r, g, b],
    {
        let c = Self([r, g, b]);
        assert(c.spec_coordinates() =~= seq![r, g, b]);
        c
    }

    /// Access the coordinates.
    pub fn coordinates(&self) -> (r: &[u8; 3])
        ensures
            r@ == self.spec_coordinates(),
    {
        &self.0
    }
}

impl From<EmbeddedRgb> for TrueColor {
    /// Instantiate a true color from an embedded RGB value, using the
    /// widely accepted formula of the Xterm terminal: a zero coordinate
    /// stays zero, and a nonzero coordinate scales by 40 from an offset
    /// of 55, so the six cube levels are 0, 95, 135, 175, 215 and 255.
    fn from(value: EmbeddedRgb) -> (result: Self)
        ensures
            result.spec_coordinates() == value.spec_coordinates().map_values(
                |c: u8| cube_channel(c),
            ),
    {
        proof {
            use_type_invariant(&value);
        }
        let c = value.coordinates();
        let result = Self(
            [cube_channel_value(c[0]), cube_channel_value(c[1]), cube_channel_value(c[2])],
        );
        assert(result.spec_coordinates() =~= value.spec_coordinates().map_values(
            |c: u8| cube_channel(c),
        ));
        result
    }
}

impl vstd::std_specs::convert::FromSpecImpl<EmbeddedRgb> for TrueColor {
    open spec fn obeys_from_spec() -> bool {
        false
    }

    closed spec fn from_spec(value: EmbeddedRgb) -> TrueColor {
        TrueColor([0, 0, 0])
    }
}

impl From<GrayGradient> for TrueColor {
    /// Instantiate a true color from a gray gradient value, using the
    /// widely accepted formula of the Xterm terminal: the level scaled by
    /// 10 from an offset of 8.
    fn from(value: GrayGradient) -> (result: Self)
        ensures
            result.spec_coordinates() == seq![
                gray_channel(value.spec_level()),
                gray_channel(value.spec_level()),
                gray_channel(value.spec_level()),
            ],
    {
        proof {
            use_type_invariant(&value);
        }
        let level = 8 + 10 * value.level();
        let result = Self([level, level, level]);
        assert(result.spec_coordinates() =~= seq![
            gray_channel(value.spec_level()),
            gray_channel(value.spec_level()),
            gray_channel(value.spec_level()),
        ]);
        result
    }
}

impl vstd::std_specs::convert::FromSpecImpl<GrayGradient> for TrueColor {
    open spec fn obeys_from_spec() -> bool {
        false
    }

    closed spec fn from_spec(value: GrayGradient) -> TrueColor {
        TrueColor([0, 0, 0])
    }
}

/// The 24-bit channel value of a cube coordinate, 0 through 5.
pub open spec fn cube_channel(c: u8) -> u8
    recommends
        c < 6,
{
    if c == 0 {
        0u8
    } else {
        (55 + 40 * c) as u8
    }
}

/// The 24-bit channel value of a gray level, 0 through 23.
pub open spec fn gray_channel(level: u8) -> u8
    recommends
        level <= 23,
{
    (8 + 10 * level) as u8
}

/// The executable form of [`cube_channel`].
fn cube_channel_value(c: u8) -> (r: u8)
    requires
        c < 6,
    ensures
        r == cube_channel(c),
{
    if c == 0 {
        0
    } else {
        55 + 40 * c
    }
}

// ------------------------------------------------------------------------

/// Terminal fidelity.
#[derive(Copy, Clone, Debug, PartialEq, Eq, PartialOrd, Ord)]
pub enum Fidelity {
    /// The equivalent of true color.
    FullColor,
    /// The equivalent of 8-bit color.
    ReducedColor,
    /// The equivalent of ANSI colors.
    MinimalColor,
    /// No colors, but ANSI escape codes are fine.
    NoColor,
    /// No colors, no ANSI escape codes.
    Plain,
}

} // verus!
