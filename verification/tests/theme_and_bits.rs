use prettypretty::bits::{is_nan, magnitude, nan_to_zero, NAN_BITS, ONE_BITS, ZERO_BITS};
use prettypretty::{default_theme, AnsiColor, Color, ColorSpace, Theme, ThemeBuilder};

#[test]
fn test_bit_classification() {
    assert!(is_nan(f64::NAN.to_bits()));
    assert!(is_nan(NAN_BITS));
    assert!(!is_nan(0.0_f64.to_bits()));
    assert!(!is_nan(f64::INFINITY.to_bits()));
    assert!(!is_nan((-1.5_f64).to_bits()));
    assert_eq!(ZERO_BITS, 0.0_f64.to_bits());
    assert_eq!(ONE_BITS, 1.0_f64.to_bits());
    assert_eq!(NAN_BITS, f64::NAN.to_bits());

    assert_eq!(magnitude((-2.5_f64).to_bits()), 2.5_f64.to_bits());
    assert_eq!(magnitude(2.5_f64.to_bits()), 2.5_f64.to_bits());

    assert_eq!(nan_to_zero(f64::NAN.to_bits()), 0.0_f64.to_bits());
    assert_eq!(nan_to_zero(0.25_f64.to_bits()), 0.25_f64.to_bits());
    assert_eq!(nan_to_zero((-0.0_f64).to_bits()), (-0.0_f64).to_bits());
}

#[test]
fn test_bit_order_matches_float_order() {
    // Nonnegative doubles order as their bit patterns do, which is what
    // the closest-color search relies on.
    let values = [0.0, 1.0e-300, 0.5, 1.0, 1.5, 2.0, 1.0e300, f64::INFINITY];
    for (i, &x) in values.iter().enumerate() {
        for (j, &y) in values.iter().enumerate() {
            assert_eq!(x.to_bits() < y.to_bits(), i < j);
        }
    }
    // And a not-a-number pattern sits above every finite distance.
    assert!(f64::INFINITY.to_bits() < f64::NAN.to_bits());
}

#[test]
fn test_default_color() {
    let color = Color::default();
    assert!(color.is_default());
    assert_eq!(color.space(), ColorSpace::Srgb);
    assert_eq!(color.coordinates(), &[0, 0, 0]);
    assert!(!Color::srgb(ONE_BITS, ZERO_BITS, ZERO_BITS).is_default());
    assert!(!Color::new(ColorSpace::Oklab, 0, 0, 0).is_default());
}

#[test]
fn test_default_theme_values() {
    let theme = default_theme();
    let two_thirds = 0.666666666666667_f64.to_bits();
    let third = 0.333333333333333_f64.to_bits();

    assert_eq!(theme.foreground(), &Color::srgb(ZERO_BITS, ZERO_BITS, ZERO_BITS));
    assert_eq!(theme.background(), &Color::srgb(ONE_BITS, ONE_BITS, ONE_BITS));
    assert_eq!(theme.ansi(AnsiColor::Black), &Color::srgb(0, 0, 0));
    assert_eq!(theme.ansi(AnsiColor::Red), &Color::srgb(two_thirds, 0, 0));
    assert_eq!(
        theme.ansi(AnsiColor::Yellow),
        &Color::srgb(two_thirds, third, 0)
    );
    assert_eq!(
        theme.ansi(AnsiColor::BrightYellow),
        &Color::srgb(ONE_BITS, ONE_BITS, third)
    );
    assert_eq!(
        theme.ansi(AnsiColor::BrightWhite),
        &Color::srgb(ONE_BITS, ONE_BITS, ONE_BITS)
    );
}

#[test]
fn test_theme_builder() {
    let mut builder = Theme::builder();
    assert!(builder.clone().build().is_none());

    let sample = Color::srgb(ONE_BITS, ZERO_BITS, ZERO_BITS);
    builder.foreground(sample);
    builder.background(sample);
    for code in 1u8..=15 {
        assert!(builder.clone().build().is_none());
        builder.with_ansi_color(AnsiColor::try_from(code).unwrap(), sample);
    }
    let theme = builder.build().expect("all slots but black are set");
    assert_eq!(theme.foreground(), &sample);
    assert_eq!(theme.ansi(AnsiColor::BrightWhite), &sample);
    // Black was never set and stays at the default.
    assert!(theme.ansi(AnsiColor::Black).is_default());
}

#[test]
fn test_theme_new_is_unset() {
    let theme = Theme::new();
    assert!(theme.foreground().is_default());
    assert!(theme.background().is_default());
    for code in 0u8..=15 {
        assert!(theme.ansi(AnsiColor::try_from(code).unwrap()).is_default());
    }
}
