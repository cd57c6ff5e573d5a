//! High-resolution colors and color themes.
//!
//! A color pairs a color space with three coordinates, carried as the
//! bit patterns of their double-precision values. A theme gives the 16
//! extended ANSI colors and the two terminal defaults concrete color
//! values; ANSI colors have none of their own.

use vstd::prelude::*;

use crate::bits::{ONE_BITS, ZERO_BITS};
use crate::space::ColorSpace;
use crate::term::AnsiColor;

verus! {

/// The bit pattern of the two-thirds intensity of the VGA text-mode
/// palette, 0.666666666666667.
pub const TWO_THIRDS_BITS: u64 = 0x3fe5_5555_5555_5558;

/// The bit pattern of the one-third intensity of the VGA text-mode
/// palette, 0.333333333333333.
pub const THIRD_BITS: u64 = 0x3fd5_5555_5555_554f;

/// A high-resolution color: a color space and three coordinates.
///
/// Each coordinate is the 64-bit IEEE-754 pattern of its value. Two
/// colors are equal when their spaces and coordinate patterns are; in
/// particular the canonical not-a-number hue of an achromatic polar
/// color equals itself, while patterns of distinct not-a-numbers stay
/// distinct.
#[derive(Copy, Clone, Debug, PartialEq, Eq, Hash)]
pub struct Color {
    space: ColorSpace,
    coordinates: [u64; 3],
}

impl Color {
    /// The color space, in specification terms.
    pub closed spec fn spec_space(self) -> ColorSpace {
        self.space
    }

    /// The coordinate patterns, in specification terms.
    pub closed spec fn spec_coordinates(self) -> Seq<u64> {
        self.coordinates@
    }

    /// Whether this is the color with the given space and coordinate
    /// patterns.
    pub open spec fn is_color(self, space: ColorSpace, c1: u64, c2: u64, c3: u64) -> bool {
        self.spec_space() == space && self.spec_coordinates() =~= seq![c1, c2, c3]
    }

    /// Whether this is the default color: opaque black in sRGB, the
    /// value an unset theme slot holds.
    pub open spec fn spec_is_default(self) -> bool {
        self.is_color(ColorSpace::Srgb, ZERO_BITS, ZERO_BITS, ZERO_BITS)
    }

    /// Instantiate a new color from its color space and the bit
    /// patterns of its three coordinates.
    pub fn new(space: ColorSpace, c1: u64, c2: u64, c3: u64) -> (r: Self)
        ensures
            r.is_color(space, c1, c2, c3),
    {
        let r = Color { space, coordinates: [c1, c2, c3] };
        proof {
            assert(r.spec_coordinates() =~= seq![c1, c2, c3]);
        }
        r
    }

    /// Instantiate a new sRGB color from the bit patterns of its three
    /// coordinates.
    pub fn srgb(c1: u64, c2: u64, c3: u64) -> (r: Self)
        ensures
            r.is_color(ColorSpace::Srgb, c1, c2, c3),
    {
        Color::new(ColorSpace::Srgb, c1, c2, c3)
    }

    /// Access the color space.
    pub fn space(&self) -> (r: ColorSpace)
        ensures
            r == self.spec_space(),
    {
        self.space
    }

    /// Access the coordinate patterns.
    pub fn coordinates(&self) -> (r: &[u64; 3])
        ensures
            r@ == self.spec_coordinates(),
    {
        &self.coordinates
    }

    /// Determine whether this is the default color, i.e., whether a
    /// theme slot holding it was never set.
    pub fn is_default(&self) -> (r: bool)
        ensures
            r == self.spec_is_default(),
    {
        let r = matches!(self.space, ColorSpace::Srgb) && self.coordinates[0] == ZERO_BITS
            && self.coordinates[1] == ZERO_BITS && self.coordinates[2] == ZERO_BITS;
        proof {
            if r {
                assert(self.spec_coordinates() =~= seq![ZERO_BITS, ZERO_BITS, ZERO_BITS]);
            }
        }
        r
    }
}

impl Default for Color {
    /// The default color: opaque black in sRGB.
    fn default() -> (r: Self)
        ensures
            r.spec_is_default(),
    {
        Color::srgb(ZERO_BITS, ZERO_BITS, ZERO_BITS)
    }
}

// ------------------------------------------------------------------------

/// A color theme.
///
/// ANSI colors do not have intrinsic color values. However, a color
/// theme does have color values for the 16 extended ANSI colors as well
/// as the foreground and background default colors. By itself, a theme
/// enables the conversion of ANSI colors to high-resolution colors;
/// through a matcher it also enables the reverse.
#[derive(Clone, Copy, Debug)]
pub struct Theme {
    foreground: Color,
    background: Color,
    black: Color,
    red: Color,
    green: Color,
    yellow: Color,
    blue: Color,
    magenta: Color,
    cyan: Color,
    white: Color,
    bright_black: Color,
    bright_red: Color,
    bright_green: Color,
    bright_yellow: Color,
    bright_blue: Color,
    bright_magenta: Color,
    bright_cyan: Color,
    bright_white: Color,
}

impl Theme {
    /// The foreground color, in specification terms.
    pub closed spec fn spec_foreground(self) -> Color {
        self.foreground
    }

    /// The background color, in specification terms.
    pub closed spec fn spec_background(self) -> Color {
        self.background
    }

    /// The value of an ANSI color, in specification terms.
    pub closed spec fn spec_ansi(self, value: AnsiColor) -> Color {
        match value {
            AnsiColor::Black => self.black,
            AnsiColor::Red => self.red,
            AnsiColor::Green => self.green,
            AnsiColor::Yellow => self.yellow,
            AnsiColor::Blue => self.blue,
            AnsiColor::Magenta => self.magenta,
            AnsiColor::Cyan => self.cyan,
            AnsiColor::White => self.white,
            AnsiColor::BrightBlack => self.bright_black,
            AnsiColor::BrightRed => self.bright_red,
            AnsiColor::BrightGreen => self.bright_green,
            AnsiColor::BrightYellow => self.bright_yellow,
            AnsiColor::BrightBlue => self.bright_blue,
            AnsiColor::BrightMagenta => self.bright_magenta,
            AnsiColor::BrightCyan => self.bright_cyan,
            AnsiColor::BrightWhite => self.bright_white,
        }
    }

    /// Whether every slot of the theme holds the default color.
    pub open spec fn spec_is_default(self) -> bool {
        &&& self.spec_foreground().spec_is_default()
        &&& self.spec_background().spec_is_default()
        &&& forall|c: AnsiColor| (#[trigger] self.spec_ansi(c)).spec_is_default()
    }

    /// Instantiate a new theme. The colors of the new theme are all the
    /// default color.
    pub fn new() -> (r: Self)
        ensures
            r.spec_is_default(),
    {
        Theme::default()
    }

    /// Instantiate a new theme builder for incrementally building a
    /// theme.
    pub fn builder() -> (r: ThemeBuilder)
        ensures
            r.spec_theme().spec_is_default(),
    {
        ThemeBuilder::default()
    }

    /// Access the theme's foreground color.
    pub fn foreground(&self) -> (r: &Color)
        ensures
            r == self.spec_foreground(),
    {
        &self.foreground
    }

    /// Access the theme's background color.
    pub fn background(&self) -> (r: &Color)
        ensures
            r == self.spec_background(),
    {
        &self.background
    }

    /// Access the theme's color value for an ANSI color.
    pub fn ansi(&self, value: AnsiColor) -> (r: &Color)
        ensures
            r == self.spec_ansi(value),
    {
        match value {
            AnsiColor::Black => &self.black,
            AnsiColor::Red => &self.red,
            AnsiColor::Green => &self.green,
            AnsiColor::Yellow => &self.yellow,
            AnsiColor::Blue => &self.blue,
            AnsiColor::Magenta => &self.magenta,
            AnsiColor::Cyan => &self.cyan,
            AnsiColor::White => &self.white,
            AnsiColor::BrightBlack => &self.bright_black,
            AnsiColor::BrightRed => &self.bright_red,
            AnsiColor::BrightGreen => &self.bright_green,
            AnsiColor::BrightYellow => &self.bright_yellow,
            AnsiColor::BrightBlue => &self.bright_blue,
            AnsiColor::BrightMagenta => &self.bright_magenta,
            AnsiColor::BrightCyan => &self.bright_cyan,
            AnsiColor::BrightWhite => &self.bright_white,
        }
    }
}

impl Default for Theme {
    /// The theme with every slot unset.
    fn default() -> (r: Self)
        ensures
            r.spec_is_default(),
    {
        let r = Theme {
            foreground: Color::default(),
            background: Color::default(),
            black: Color::default(),
            red: Color::default(),
            green: Color::default(),
            yellow: Color::default(),
            blue: Color::default(),
            magenta: Color::default(),
            cyan: Color::default(),
            white: Color::default(),
            bright_black: Color::default(),
            bright_red: Color::default(),
            bright_green: Color::default(),
            bright_yellow: Color::default(),
            bright_blue: Color::default(),
            bright_magenta: Color::default(),
            bright_cyan: Color::default(),
            bright_white: Color::default(),
        };
        proof {
            assert forall|c: AnsiColor| (#[trigger] r.spec_ansi(c)).spec_is_default() by {
            }
        }
        r
    }
}

/// The default theme, with the colors of VGA text mode.
///
/// This theme exists to demonstrate the functionality enabled by themes
/// as well as for testing.
pub fn default_theme() -> (r: Theme)
    ensures
        r.spec_foreground().is_color(ColorSpace::Srgb, ZERO_BITS, ZERO_BITS, ZERO_BITS),
        r.spec_background().is_color(ColorSpace::Srgb, ONE_BITS, ONE_BITS, ONE_BITS),
        r.spec_ansi(AnsiColor::Black).is_color(ColorSpace::Srgb, ZERO_BITS, ZERO_BITS, ZERO_BITS),
        r.spec_ansi(AnsiColor::Red).is_color(
            ColorSpace::Srgb,
            TWO_THIRDS_BITS,
            ZERO_BITS,
            ZERO_BITS,
        ),
        r.spec_ansi(AnsiColor::Green).is_color(
            ColorSpace::Srgb,
            ZERO_BITS,
            TWO_THIRDS_BITS,
            ZERO_BITS,
        ),
        r.spec_ansi(AnsiColor::Yellow).is_color(
            ColorSpace::Srgb,
            TWO_THIRDS_BITS,
            THIRD_BITS,
            ZERO_BITS,
        ),
        r.spec_ansi(AnsiColor::Blue).is_color(
            ColorSpace::Srgb,
            ZERO_BITS,
            ZERO_BITS,
            TWO_THIRDS_BITS,
        ),
        r.spec_ansi(AnsiColor::Magenta).is_color(
            ColorSpace::Srgb,
            TWO_THIRDS_BITS,
            ZERO_BITS,
            TWO_THIRDS_BITS,
        ),
        r.spec_ansi(AnsiColor::Cyan).is_color(
            ColorSpace::Srgb,
            ZERO_BITS,
            TWO_THIRDS_BITS,
            TWO_THIRDS_BITS,
        ),
        r.spec_ansi(AnsiColor::White).is_color(
            ColorSpace::Srgb,
            TWO_THIRDS_BITS,
            TWO_THIRDS_BITS,
            TWO_THIRDS_BITS,
        ),
        r.spec_ansi(AnsiColor::BrightBlack).is_color(
            ColorSpace::Srgb,
            THIRD_BITS,
            THIRD_BITS,
            THIRD_BITS,
        ),
        r.spec_ansi(AnsiColor::BrightRed).is_color(
            ColorSpace::Srgb,
            ONE_BITS,
            THIRD_BITS,
            THIRD_BITS,
        ),
        r.spec_ansi(AnsiColor::BrightGreen).is_color(
            ColorSpace::Srgb,
            THIRD_BITS,
            ONE_BITS,
            THIRD_BITS,
        ),
        r.spec_ansi(AnsiColor::BrightYellow).is_color(
            ColorSpace::Srgb,
            ONE_BITS,
            ONE_BITS,
            THIRD_BITS,
        ),
        r.spec_ansi(AnsiColor::BrightBlue).is_color(
            ColorSpace::Srgb,
            THIRD_BITS,
            THIRD_BITS,
            ONE_BITS,
        ),
        r.spec_ansi(AnsiColor::BrightMagenta).is_color(
            ColorSpace::Srgb,
            ONE_BITS,
            THIRD_BITS,
            ONE_BITS,
        ),
        r.spec_ansi(AnsiColor::BrightCyan).is_color(ColorSpace::Srgb, THIRD_BITS, ONE_BITS, ONE_BITS),
        r.spec_ansi(AnsiColor::BrightWhite).is_color(ColorSpace::Srgb, ONE_BITS, ONE_BITS, ONE_BITS),
{
    Theme {
        foreground: Color::srgb(ZERO_BITS, ZERO_BITS, ZERO_BITS),
        background: Color::srgb(ONE_BITS, ONE_BITS, ONE_BITS),
        black: Color::srgb(ZERO_BITS, ZERO_BITS, ZERO_BITS),
        red: Color::srgb(TWO_THIRDS_BITS, ZERO_BITS, ZERO_BITS),
        green: Color::srgb(ZERO_BITS, TWO_THIRDS_BITS, ZERO_BITS),
        yellow: Color::srgb(TWO_THIRDS_BITS, THIRD_BITS, ZERO_BITS),
        blue: Color::srgb(ZERO_BITS, ZERO_BITS, TWO_THIRDS_BITS),
        magenta: Color::srgb(TWO_THIRDS_BITS, ZERO_BITS, TWO_THIRDS_BITS),
        cyan: Color::srgb(ZERO_BITS, TWO_THIRDS_BITS, TWO_THIRDS_BITS),
        white: Color::srgb(TWO_THIRDS_BITS, TWO_THIRDS_BITS, TWO_THIRDS_BITS),
        bright_black: Color::srgb(THIRD_BITS, THIRD_BITS, THIRD_BITS),
        bright_red: Color::srgb(ONE_BITS, THIRD_BITS, THIRD_BITS),
        bright_green: Color::srgb(THIRD_BITS, ONE_BITS, THIRD_BITS),
        bright_yellow: Color::srgb(ONE_BITS, ONE_BITS, THIRD_BITS),
        bright_blue: Color::srgb(THIRD_BITS, THIRD_BITS, ONE_BITS),
        bright_magenta: Color::srgb(ONE_BITS, THIRD_BITS, ONE_BITS),
        bright_cyan: Color::srgb(THIRD_BITS, ONE_BITS, ONE_BITS),
        bright_white: Color::srgb(ONE_BITS, ONE_BITS, ONE_BITS),
    }
}

// ------------------------------------------------------------------------

/// An incremental theme builder.
#[derive(Clone, Copy, Debug)]
pub struct ThemeBuilder {
    theme: Theme,
}

impl ThemeBuilder {
    /// The theme built so far, in specification terms.
    pub closed spec fn spec_theme(self) -> Theme {
        self.theme
    }

    /// Update the default foreground color.
    pub fn foreground(&mut self, value: Color)
        ensures
            final(self).spec_theme().spec_foreground() == value,
            final(self).spec_theme().spec_background() == old(self).spec_theme().spec_background(),
            forall|c: AnsiColor|
                #[trigger] final(self).spec_theme().spec_ansi(c) == old(self).spec_theme().spec_ansi(
                    c,
                ),
    {
        self.theme.foreground = value;
    }

    /// Update the default background color.
    pub fn background(&mut self, value: Color)
        ensures
            final(self).spec_theme().spec_background() == value,
            final(self).spec_theme().spec_foreground() == old(self).spec_theme().spec_foreground(),
            forall|c: AnsiColor|
                #[trigger] final(self).spec_theme().spec_ansi(c) == old(self).spec_theme().spec_ansi(
                    c,
                ),
    {
        self.theme.background = value;
    }

    /// Update the color value for an ANSI color. Every other slot stays
    /// as it was.
    pub fn with_ansi_color(&mut self, term: AnsiColor, value: Color)
        ensures
            final(self).spec_theme().spec_ansi(term) == value,
            forall|c: AnsiColor|
                c != term ==> #[trigger] final(self).spec_theme().spec_ansi(c) == old(
                    self,
                ).spec_theme().spec_ansi(c),
            final(self).spec_theme().spec_foreground() == old(self).spec_theme().spec_foreground(),
            final(self).spec_theme().spec_background() == old(self).spec_theme().spec_background(),
    {
        match term {
            AnsiColor::Black => self.theme.black = value,
            AnsiColor::Red => self.theme.red = value,
            AnsiColor::Green => self.theme.green = value,
            AnsiColor::Yellow => self.theme.yellow = value,
            AnsiColor::Blue => self.theme.blue = value,
            AnsiColor::Magenta => self.theme.magenta = value,
            AnsiColor::Cyan => self.theme.cyan = value,
            AnsiColor::White => self.theme.white = value,
            AnsiColor::BrightBlack => self.theme.bright_black = value,
            AnsiColor::BrightRed => self.theme.bright_red = value,
            AnsiColor::BrightGreen => self.theme.bright_green = value,
            AnsiColor::BrightYellow => self.theme.bright_yellow = value,
            AnsiColor::BrightBlue => self.theme.bright_blue = value,
            AnsiColor::BrightMagenta => self.theme.bright_magenta = value,
            AnsiColor::BrightCyan => self.theme.bright_cyan = value,
            AnsiColor::BrightWhite => self.theme.bright_white = value,
        }
    }

    /// Whether this theme builder is ready: every slot but black has
    /// been given some color value. Black needs no check, since its
    /// intended value coincides with the default.
    pub open spec fn spec_ready(self) -> bool {
        &&& !self.spec_theme().spec_foreground().spec_is_default()
        &&& !self.spec_theme().spec_background().spec_is_default()
        &&& forall|c: AnsiColor|
            c != AnsiColor::Black ==> !(#[trigger] self.spec_theme().spec_ansi(c)).spec_is_default()
    }

    /// Determine whether this theme builder is ready, i.e., all fields
    /// have some color value.
    fn ready(&self) -> (r: bool)
        ensures
            r == self.spec_ready(),
    {
        let r = !self.theme.foreground.is_default() && !self.theme.background.is_default()
        // Skip black: its intended value coincides with the default.
            && !self.theme.red.is_default() && !self.theme.green.is_default()
            && !self.theme.yellow.is_default() && !self.theme.blue.is_default()
            && !self.theme.magenta.is_default() && !self.theme.cyan.is_default()
            && !self.theme.white.is_default() && !self.theme.bright_black.is_default()
            && !self.theme.bright_red.is_default() && !self.theme.bright_green.is_default()
            && !self.theme.bright_yellow.is_default() && !self.theme.bright_blue.is_default()
            && !self.theme.bright_magenta.is_default() && !self.theme.bright_cyan.is_default()
            && !self.theme.bright_white.is_default();
        proof {
            assert(self.spec_theme().spec_ansi(AnsiColor::Red) == self.theme.red);
            assert(self.spec_theme().spec_ansi(AnsiColor::Green) == self.theme.green);
            assert(self.spec_theme().spec_ansi(AnsiColor::Yellow) == self.theme.yellow);
            assert(self.spec_theme().spec_ansi(AnsiColor::Blue) == self.theme.blue);
            assert(self.spec_theme().spec_ansi(AnsiColor::Magenta) == self.theme.magenta);
            assert(self.spec_theme().spec_ansi(AnsiColor::Cyan) == self.theme.cyan);
            assert(self.spec_theme().spec_ansi(AnsiColor::White) == self.theme.white);
            assert(self.spec_theme().spec_ansi(AnsiColor::BrightBlack) == self.theme.bright_black);
            assert(self.spec_theme().spec_ansi(AnsiColor::BrightRed) == self.theme.bright_red);
            assert(self.spec_theme().spec_ansi(AnsiColor::BrightGreen) == self.theme.bright_green);
            assert(self.spec_theme().spec_ansi(AnsiColor::BrightYellow)
                == self.theme.bright_yellow);
            assert(self.spec_theme().spec_ansi(AnsiColor::BrightBlue) == self.theme.bright_blue);
            assert(self.spec_theme().spec_ansi(AnsiColor::BrightMagenta)
                == self.theme.bright_magenta);
            assert(self.spec_theme().spec_ansi(AnsiColor::BrightCyan) == self.theme.bright_cyan);
            assert(self.spec_theme().spec_ansi(AnsiColor::BrightWhite) == self.theme.bright_white);
            if r {
                assert forall|c: AnsiColor| c != AnsiColor::Black implies !(
                #[trigger] self.spec_theme().spec_ansi(c)).spec_is_default() by {
                }
            }
        }
        r
    }

    /// Build the theme. If all colors of the theme but black have been
    /// updated, this method returns the current theme.
    pub fn build(self) -> (r: Option<Theme>)
        ensures
            r is Some <==> self.spec_ready(),
            r matches Some(t) ==> t == self.spec_theme(),
    {
        if !self.ready() {
            None
        } else {
            Some(self.theme.clone())
        }
    }
}

impl Default for ThemeBuilder {
    /// A builder whose theme has every slot unset.
    fn default() -> (r: Self)
        ensures
            r.spec_theme().spec_is_default(),
    {
        ThemeBuilder { theme: Theme::default() }
    }
}

} // verus!
