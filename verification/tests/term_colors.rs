use prettypretty::{AnsiColor, EightBitColor, EmbeddedRgb, GrayGradient, OutOfBoundsError, TrueColor};

#[test]
fn test_conversion() -> Result<(), OutOfBoundsError> {
    let magenta = AnsiColor::Magenta;
    assert_eq!(magenta as u8, 5);

    let green = EmbeddedRgb::new(0, 4, 0)?;
    assert_eq!(green.coordinates(), &[0, 4, 0]);

    let gray = GrayGradient::new(12)?;
    assert_eq!(gray.level(), 12);

    let also_magenta = EightBitColor::Ansi(AnsiColor::Magenta);
    let also_green = EightBitColor::Rgb(green);
    let also_gray = EightBitColor::Gray(gray);

    assert_eq!(u8::from(also_magenta), 5);
    assert_eq!(u8::from(also_green), 40);
    assert_eq!(u8::from(also_gray), 244);

    assert_eq!(EightBitColor::from(5), also_magenta);
    assert_eq!(EightBitColor::from(40), also_green);
    assert_eq!(EightBitColor::from(244), also_gray);

    Ok(())
}

#[test]
fn test_ansi_color_codes() {
    for code in 0u8..=15 {
        let color = AnsiColor::try_from(code).unwrap();
        assert_eq!(u8::from(color), code);
    }
    for code in 16u8..=255 {
        let error = AnsiColor::try_from(code).unwrap_err();
        assert_eq!(error.value(), code);
        assert_eq!(error.expected(), 0..=15);
    }
}

#[test]
fn test_embedded_rgb_codes() {
    for code in 16u8..=231 {
        let color = EmbeddedRgb::try_from(code).unwrap();
        assert_eq!(u8::from(color), code);
    }
    for code in (0u8..=15).chain(232..=255) {
        let error = EmbeddedRgb::try_from(code).unwrap_err();
        assert_eq!(error.value(), code);
        assert_eq!(error.expected(), 16..=231);
    }
    let color = EmbeddedRgb::try_from(231).unwrap();
    assert_eq!(color.coordinates(), &[5, 5, 5]);
}

#[test]
fn test_embedded_rgb_bounds() {
    assert!(EmbeddedRgb::new(5, 5, 5).is_ok());
    let error = EmbeddedRgb::new(1, 6, 2).unwrap_err();
    assert_eq!(error.value(), 6);
    assert_eq!(error.expected(), 0..=5);
}

#[test]
fn test_gray_gradient_codes() {
    for code in 232u8..=255 {
        let gray = GrayGradient::try_from(code).unwrap();
        assert_eq!(gray.level(), code - 232);
        assert_eq!(u8::from(gray), code);
    }
    let error = GrayGradient::new(24).unwrap_err();
    assert_eq!(error.value(), 24);
    assert_eq!(error.expected(), 0..=23);
    assert_eq!(GrayGradient::try_from(231).unwrap_err().expected(), 232..=255);
}

#[test]
fn test_eight_bit_partition() {
    for code in 0u8..=255 {
        let color = EightBitColor::new(code);
        assert_eq!(u8::from(color), code);
        assert_eq!(color.is_ansi(), code <= 15);
        assert_eq!(color.is_rgb(), (16..=231).contains(&code));
        assert_eq!(color.is_gray(), code >= 232);
        assert_eq!(color.ansi().is_some(), color.is_ansi());
        assert_eq!(color.rgb().is_some(), color.is_rgb());
        assert_eq!(color.gray().is_some(), color.is_gray());
    }
}

#[test]
fn test_true_color_from_cube() {
    let purple = EmbeddedRgb::new(3, 1, 4).unwrap();
    assert_eq!(u8::from(purple), 134);
    assert_eq!(TrueColor::from(purple), TrueColor::new(175, 95, 215));

    let black = EmbeddedRgb::new(0, 0, 0).unwrap();
    assert_eq!(TrueColor::from(black), TrueColor::new(0, 0, 0));

    let white = EmbeddedRgb::new(5, 5, 5).unwrap();
    assert_eq!(TrueColor::from(white), TrueColor::new(255, 255, 255));

    let gray = GrayGradient::new(18).unwrap();
    assert_eq!(u8::from(gray), 250);
    assert_eq!(TrueColor::from(gray), TrueColor::new(188, 188, 188));

    let green = EightBitColor::from(71);
    assert!(green.is_rgb());
    let green = green.rgb().unwrap();
    assert_eq!(green.coordinates(), &[1, 3, 1]);
    assert_eq!(TrueColor::from(green), TrueColor::new(95, 175, 95));
}
