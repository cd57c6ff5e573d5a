//! Color management for terminal applications.
//!
//! This crate models colors in eleven color spaces, routes conversions
//! between them through a common root space, and finds the closest match
//! for a color among the small fixed palettes of text terminals.
//!
//! Floating-point execution is kept outside the verified core: a coordinate
//! travels through this crate as the 64-bit IEEE-754 pattern of its value,
//! and every decision the crate makes (routing between spaces, recognizing
//! not-a-number patterns, snapping near-achromatic colors, picking the
//! closest palette entry) is exact logic on those bit patterns and on
//! integer color codes. A host embedding performs the arithmetic of the
//! individual conversion steps.

pub mod bits;
pub mod convert;
pub mod matcher;
pub mod route;
pub mod space;
pub mod term;
pub mod text;
pub mod theme;

pub use matcher::OkVersion;
pub use space::ColorSpace;
pub use term::AnsiColor;
pub use term::EightBitColor;
pub use term::EmbeddedRgb;
pub use term::Fidelity;
pub use term::GrayGradient;
pub use term::OutOfBoundsError;
pub use term::TrueColor;
pub use text::parse;
pub use text::parse_css;
pub use text::parse_hashed;
pub use text::parse_x;
pub use text::ColorFormatError;
pub use text::CoordValue;
pub use theme::default_theme;
pub use theme::Color;
pub use theme::Theme;
pub use theme::ThemeBuilder;
