//! Conversion and matching behavior, with the floating-point arithmetic
//! of the elementary steps supplied by this test harness.

use prettypretty::convert::{cartesian_from_polar, normalize, polar_from_cartesian};
use prettypretty::matcher::{closest_ansi, closest_eight_bit, find_closest};
use prettypretty::route::{route, Step};
use prettypretty::{
    default_theme, AnsiColor, Color, ColorSpace, CoordValue, EightBitColor, EmbeddedRgb,
    GrayGradient, OkVersion, Theme, TrueColor,
};

const LINEAR_SRGB_TO_XYZ: [[f64; 3]; 3] = [
    [0.41239079926595934, 0.357584339383878, 0.1804807884018343],
    [0.21263900587151027, 0.715168678767756, 0.07219231536073371],
    [0.01933081871559182, 0.11919477979462598, 0.9505321522496607],
];

const XYZ_TO_LINEAR_SRGB: [[f64; 3]; 3] = [
    [3.2409699419045226, -1.537383177570094, -0.4986107602930034],
    [-0.9692436362808796, 1.8759675015077202, 0.04155505740717559],
    [0.05563007969699366, -0.20397695888897652, 1.0569715142428786],
];

const LINEAR_DISPLAY_P3_TO_XYZ: [[f64; 3]; 3] = [
    [0.4865709486482162, 0.26566769316909306, 0.1982172852343625],
    [0.2289745640697488, 0.6917385218365064, 0.079286914093745],
    [0.0000000000000000, 0.04511338185890264, 1.043944368900976],
];

const XYZ_TO_LINEAR_DISPLAY_P3: [[f64; 3]; 3] = [
    [2.493496911941425, -0.9313836179191239, -0.40271078445071684],
    [-0.8294889695615747, 1.7626640603183463, 0.023624685841943577],
    [0.03584583024378447, -0.07617238926804182, 0.9568845240076872],
];

const LINEAR_REC2020_TO_XYZ: [[f64; 3]; 3] = [
    [0.6369580483012914, 0.14461690358620832, 0.1688809751641721],
    [0.2627002120112671, 0.6779980715188708, 0.05930171646986196],
    [0.000000000000000, 0.028072693049087428, 1.060985057710791],
];

const XYZ_TO_LINEAR_REC2020: [[f64; 3]; 3] = [
    [1.716651187971268, -0.355670783776392, -0.253366281373660],
    [-0.666684351832489, 1.616481236634939, 0.0157685458139111],
    [0.017639857445311, -0.042770613257809, 0.942103121235474],
];

const OKLAB_TO_OKLMS: [[f64; 3]; 3] = [
    [1.0000000000000000, 0.3963377773761749, 0.2158037573099136],
    [1.0000000000000000, -0.1055613458156586, -0.0638541728258133],
    [1.0000000000000000, -0.0894841775298119, -1.2914855480194092],
];

const OKLMS_TO_XYZ: [[f64; 3]; 3] = [
    [1.2268798758459243, -0.5578149944602171, 0.2813910456659647],
    [-0.0405757452148008, 1.1122868032803170, -0.0717110580655164],
    [-0.0763729366746601, -0.4214933324022432, 1.5869240198367816],
];

const XYZ_TO_OKLMS: [[f64; 3]; 3] = [
    [0.8190224379967030, 0.3619062600528904, -0.1288737815209879],
    [0.0329836539323885, 0.9292868615863434, 0.0361446663506424],
    [0.0481771893596242, 0.2642395317527308, 0.6335478284694309],
];

const OKLMS_TO_OKLAB: [[f64; 3]; 3] = [
    [0.2104542683093140, 0.7936177747023054, -0.0040720430116193],
    [1.9779985324311684, -2.4285922420485799, 0.4505937096174110],
    [0.0259040424655478, 0.7827717124575296, -0.8086757549230774],
];

const REC2020_ALPHA: f64 = 1.09929682680944;
const REC2020_BETA: f64 = 0.018053968510807;

const K1: f64 = 0.206;
const K2: f64 = 0.03;
const K3: f64 = (1.0 + K1) / (1.0 + K2);

fn multiply(matrix: &[[f64; 3]; 3], vector: &[f64; 3]) -> [f64; 3] {
    let [row1, row2, row3] = matrix;
    [
        row1[0].mul_add(vector[0], row1[1].mul_add(vector[1], row1[2] * vector[2])),
        row2[0].mul_add(vector[0], row2[1].mul_add(vector[1], row2[2] * vector[2])),
        row3[0].mul_add(vector[0], row3[1].mul_add(vector[1], row3[2] * vector[2])),
    ]
}

fn gamma_decode_one(value: f64) -> f64 {
    let magnitude = value.abs();
    if magnitude <= 0.04045 {
        value / 12.92
    } else {
        ((magnitude + 0.055) / 1.055).powf(2.4).copysign(value)
    }
}

fn gamma_encode_one(value: f64) -> f64 {
    let magnitude = value.abs();
    if magnitude <= 0.00313098 {
        value * 12.92
    } else {
        (magnitude.powf(1.0 / 2.4) * 1.055 - 0.055).copysign(value)
    }
}

fn rec2020_decode_one(value: f64) -> f64 {
    if value < REC2020_BETA * 4.5 {
        value / 4.5
    } else {
        ((value + REC2020_ALPHA - 1.0) / REC2020_ALPHA).powf((0.45_f64).recip())
    }
}

fn rec2020_encode_one(value: f64) -> f64 {
    if value < REC2020_BETA {
        value * 4.5
    } else {
        REC2020_ALPHA * value.powf(0.45) - (REC2020_ALPHA - 1.0)
    }
}

/// Interpret one elementary conversion step.
fn apply_step(step: Step, value: [f64; 3]) -> [f64; 3] {
    match step {
        Step::GammaDecode => [
            gamma_decode_one(value[0]),
            gamma_decode_one(value[1]),
            gamma_decode_one(value[2]),
        ],
        Step::GammaEncode => [
            gamma_encode_one(value[0]),
            gamma_encode_one(value[1]),
            gamma_encode_one(value[2]),
        ],
        Step::Rec2020Decode => [
            rec2020_decode_one(value[0]),
            rec2020_decode_one(value[1]),
            rec2020_decode_one(value[2]),
        ],
        Step::Rec2020Encode => [
            rec2020_encode_one(value[0]),
            rec2020_encode_one(value[1]),
            rec2020_encode_one(value[2]),
        ],
        Step::LinearSrgbToXyz => multiply(&LINEAR_SRGB_TO_XYZ, &value),
        Step::XyzToLinearSrgb => multiply(&XYZ_TO_LINEAR_SRGB, &value),
        Step::LinearDisplayP3ToXyz => multiply(&LINEAR_DISPLAY_P3_TO_XYZ, &value),
        Step::XyzToLinearDisplayP3 => multiply(&XYZ_TO_LINEAR_DISPLAY_P3, &value),
        Step::LinearRec2020ToXyz => multiply(&LINEAR_REC2020_TO_XYZ, &value),
        Step::XyzToLinearRec2020 => multiply(&XYZ_TO_LINEAR_REC2020, &value),
        Step::OklabToXyz => {
            let [l, m, s] = multiply(&OKLAB_TO_OKLMS, &value);
            multiply(&OKLMS_TO_XYZ, &[l.powi(3), m.powi(3), s.powi(3)])
        }
        Step::XyzToOklab => {
            let [l, m, s] = multiply(&XYZ_TO_OKLMS, &value);
            multiply(&OKLMS_TO_OKLAB, &[l.cbrt(), m.cbrt(), s.cbrt()])
        }
        Step::PolarToCartesian => {
            let [l, c, h] = value;
            // The library decides the achromatic case exactly.
            if let Some(r) = cartesian_from_polar(l.to_bits(), c.to_bits(), h.to_bits()) {
                [f64::from_bits(r[0]), f64::from_bits(r[1]), f64::from_bits(r[2])]
            } else {
                let hue_radian = h.to_radians();
                [l, c * hue_radian.cos(), c * hue_radian.sin()]
            }
        }
        Step::CartesianToPolar => {
            let [l, a, b] = value;
            // The library decides the achromatic snap exactly.
            if let Some(r) = polar_from_cartesian(l.to_bits(), a.to_bits(), b.to_bits()) {
                [f64::from_bits(r[0]), f64::from_bits(r[1]), f64::from_bits(r[2])]
            } else {
                let c = (a.powi(2) + b.powi(2)).sqrt();
                let h = b.atan2(a).to_degrees();
                let h = if h < 0.0 { h + 360.0 } else { h };
                [l, c, h]
            }
        }
        Step::LightnessToLr => {
            let [l, a, b] = value;
            let k3l = K3 * l;
            let lr = 0.5 * (k3l - K1 + ((k3l - K1) * (k3l - K1) + 4.0 * K2 * k3l).sqrt());
            [lr, a, b]
        }
        Step::LrToLightness => {
            let [lr, a, b] = value;
            [(lr * (lr + K1)) / (K3 * (lr + K2)), a, b]
        }
    }
}

/// Convert coordinates between color spaces: normalize, then interpret
/// the route computed by the library.
fn convert(from_space: ColorSpace, to_space: ColorSpace, coordinates: &[f64; 3]) -> [f64; 3] {
    let bits = normalize(&[
        coordinates[0].to_bits(),
        coordinates[1].to_bits(),
        coordinates[2].to_bits(),
    ]);
    let mut value = [
        f64::from_bits(bits[0]),
        f64::from_bits(bits[1]),
        f64::from_bits(bits[2]),
    ];
    for step in route(from_space, to_space) {
        value = apply_step(step, value);
    }
    value
}

fn close_enough(actual: &[f64; 3], expected: &[f64; 3], has_hue: bool) -> bool {
    for index in 0..3 {
        let x = actual[index];
        let y = expected[index];
        if x.is_nan() && y.is_nan() {
            continue;
        }
        if has_hue && index == 2 && expected[1].abs() < 2.0e-4 {
            // At zero chroma the hue carries no meaning.
            continue;
        }
        if has_hue && index == 2 {
            let d = (x - y).rem_euclid(360.0).min((y - x).rem_euclid(360.0));
            if !(d.abs() <= 1.0e-6) {
                return false;
            }
        } else if !((x - y).abs() <= 1.0e-9 + 1.0e-9 * y.abs()) {
            return false;
        }
    }
    true
}

// Single-step conversions, interpreted through the library's route
// steps under the names the conversions are known by.

fn rgb_to_linear_rgb(value: &[f64; 3]) -> [f64; 3] {
    apply_step(Step::GammaDecode, *value)
}

fn linear_rgb_to_rgb(value: &[f64; 3]) -> [f64; 3] {
    apply_step(Step::GammaEncode, *value)
}

fn linear_srgb_to_xyz(value: &[f64; 3]) -> [f64; 3] {
    apply_step(Step::LinearSrgbToXyz, *value)
}

fn xyz_to_linear_srgb(value: &[f64; 3]) -> [f64; 3] {
    apply_step(Step::XyzToLinearSrgb, *value)
}

fn linear_display_p3_to_xyz(value: &[f64; 3]) -> [f64; 3] {
    apply_step(Step::LinearDisplayP3ToXyz, *value)
}

fn xyz_to_linear_display_p3(value: &[f64; 3]) -> [f64; 3] {
    apply_step(Step::XyzToLinearDisplayP3, *value)
}

fn rec2020_to_linear_rec2020(value: &[f64; 3]) -> [f64; 3] {
    apply_step(Step::Rec2020Decode, *value)
}

fn linear_rec2020_to_rec2020(value: &[f64; 3]) -> [f64; 3] {
    apply_step(Step::Rec2020Encode, *value)
}

fn linear_rec2020_to_xyz(value: &[f64; 3]) -> [f64; 3] {
    apply_step(Step::LinearRec2020ToXyz, *value)
}

fn xyz_to_linear_rec2020(value: &[f64; 3]) -> [f64; 3] {
    apply_step(Step::XyzToLinearRec2020, *value)
}

fn oklab_to_xyz(value: &[f64; 3]) -> [f64; 3] {
    apply_step(Step::OklabToXyz, *value)
}

fn xyz_to_oklab(value: &[f64; 3]) -> [f64; 3] {
    apply_step(Step::XyzToOklab, *value)
}

fn okxch_to_okxab(value: &[f64; 3]) -> [f64; 3] {
    apply_step(Step::PolarToCartesian, *value)
}

fn okxab_to_okxch(value: &[f64; 3]) -> [f64; 3] {
    apply_step(Step::CartesianToPolar, *value)
}

fn oklxx_to_oklrxx(value: &[f64; 3]) -> [f64; 3] {
    apply_step(Step::LightnessToLr, *value)
}

fn oklrxx_to_oklxx(value: &[f64; 3]) -> [f64; 3] {
    apply_step(Step::LrToLightness, *value)
}

struct Representations {
    srgb: [f64; 3],
    linear_srgb: [f64; 3],
    p3: [f64; 3],
    linear_p3: [f64; 3],
    rec2020: [f64; 3],
    linear_rec2020: [f64; 3],
    oklch: [f64; 3],
    oklab: [f64; 3],
    oklrch: [f64; 3],
    oklrab: [f64; 3],
    xyz: [f64; 3],
}

const BLACK: Representations = Representations {
    // #000000
    srgb: [0.0, 0.0, 0.0],
    linear_srgb: [0.0, 0.0, 0.0],
    p3: [0.0, 0.0, 0.0],
    linear_p3: [0.0, 0.0, 0.0],
    rec2020: [0.0, 0.0, 0.0],
    linear_rec2020: [0.0, 0.0, 0.0],
    oklch: [0.0, 0.0, f64::NAN],
    oklab: [0.0, 0.0, 0.0],
    oklrch: [0.0, 0.0, f64::NAN],
    oklrab: [0.0, 0.0, 0.0],
    xyz: [0.0, 0.0, 0.0],
};

const YELLOW: Representations = Representations {
    // #ffca00
    srgb: [1.0, 0.792156862745098, 0.0],
    linear_srgb: [1.0, 0.5906188409193369, 0.0],
    p3: [0.967346220711791, 0.8002244967941964, 0.27134084647161244],
    linear_p3: [0.9273192749713864, 0.6042079205196976, 0.059841923211596565],
    rec2020: [0.9071245864481046, 0.7821891940186851, 0.22941491945066222],
    linear_rec2020: [0.8218846623958427, 0.6121951716762088, 0.0683737567590739],
    oklch: [0.8613332073307732, 0.1760097742886813, 89.440876452466],
    oklab: [
        0.8613332073307732,
        0.0017175723640959761,
        0.17600139371700052,
    ],
    oklrch: [0.8385912822460642, 0.1760097742886813, 89.440876452466],
    oklrab: [
        0.8385912822460642,
        0.0017175723640959761,
        0.17600139371700052,
    ],
    xyz: [0.6235868473237722, 0.635031101987136, 0.08972950140152941],
};

const BLUE: Representations = Representations {
    // #3178ea
    srgb: [0.19215686274509805, 0.47058823529411764, 0.9176470588235294],
    linear_srgb: [
        0.030713443732993635,
        0.18782077230067787,
        0.8227857543962835,
    ],
    p3: [0.26851535563550943, 0.4644576150842869, 0.8876966971452301],
    linear_p3: [0.058605969547446124, 0.18260572039525869, 0.763285235993837],
    rec2020: [0.318905170074285, 0.4141244051667745, 0.8687817570254107],
    linear_rec2020: [0.11675330225613656, 0.18417975425846383, 0.7539171810709095],
    oklch: [0.5909012953108558, 0.18665606306724153, 259.66681920272595],
    oklab: [
        0.5909012953108558,
        -0.03348086515869664,
        -0.1836287492414715,
    ],
    oklrch: [0.5253778775789848, 0.18665606306724153, 259.66681920272595],
    oklrab: [
        0.5253778775789848,
        -0.03348086515869664,
        -0.1836287492414715,
    ],
    xyz: [0.22832473003420622, 0.20025321836938534, 0.80506528557483],
};

const WHITE: Representations = Representations {
    // #ffffff
    srgb: [1.0, 1.0, 1.0],
    linear_srgb: [1.0, 1.0, 1.0],
    p3: [0.9999999999999999, 0.9999999999999997, 0.9999999999999999],
    linear_p3: [1.0, 0.9999999999999998, 1.0],
    rec2020: [1.0000000000000002, 1.0, 1.0],
    linear_rec2020: [1.0000000000000004, 1.0, 0.9999999999999999],
    oklch: [1.0000000000000002, 0.0, f64::NAN],
    oklab: [1.0000000000000002, -4.996003610813204e-16, 0.0],
    xyz: [0.9504559270516717, 1.0, 1.0890577507598784],
    oklrch: [1.0000000000000002, 0.0, f64::NAN],
    oklrab: [1.0000000000000002, 0.0, 0.0],
};

#[test]
fn test_conversions() {
    for &color in [&BLACK, &YELLOW, &BLUE, &WHITE].iter() {
        // Test all one-hop conversions
        let linear_srgb = rgb_to_linear_rgb(&color.srgb);
        assert!(close_enough(&linear_srgb, &color.linear_srgb, false));

        let srgb = linear_rgb_to_rgb(&linear_srgb);
        assert!(close_enough(&srgb, &color.srgb, false));

        let xyz = linear_srgb_to_xyz(&linear_srgb);
        assert!(close_enough(&xyz, &color.xyz, false));

        let also_linear_srgb = xyz_to_linear_srgb(&xyz);
        assert!(close_enough(&also_linear_srgb, &linear_srgb, false));

        let linear_p3 = xyz_to_linear_display_p3(&xyz);
        assert!(close_enough(&linear_p3, &color.linear_p3, false));

        let also_xyz = linear_display_p3_to_xyz(&linear_p3);
        assert!(close_enough(&also_xyz, &xyz, false));

        let p3 = linear_rgb_to_rgb(&linear_p3);
        assert!(close_enough(&p3, &color.p3, false));

        let also_linear_p3 = rgb_to_linear_rgb(&p3);
        assert!(close_enough(&also_linear_p3, &linear_p3, false));

        let linear_rec2020 = xyz_to_linear_rec2020(&xyz);
        assert!(close_enough(&linear_rec2020, &color.linear_rec2020, false));

        let and_also_xyz = linear_rec2020_to_xyz(&linear_rec2020);
        assert!(close_enough(&and_also_xyz, &xyz, false));

        let rec2020 = linear_rec2020_to_rec2020(&linear_rec2020);
        assert!(close_enough(&rec2020, &color.rec2020, false));

        let also_linear_rec2020 = rec2020_to_linear_rec2020(&rec2020);
        assert!(close_enough(&also_linear_rec2020, &linear_rec2020, false));

        let oklab = xyz_to_oklab(&xyz);
        assert!(close_enough(&oklab, &color.oklab, false));

        let and_again_xyz = oklab_to_xyz(&oklab);
        assert!(close_enough(&and_again_xyz, &xyz, false));

        let oklch = okxab_to_okxch(&oklab);
        assert!(close_enough(&oklch, &color.oklch, true));

        let also_oklab = okxch_to_okxab(&oklch);
        assert!(close_enough(&also_oklab, &oklab, false));

        let oklrab = oklxx_to_oklrxx(&oklab);
        assert!(close_enough(&oklrab, &color.oklrab, false));

        let oklab_too = oklrxx_to_oklxx(&oklrab);
        assert!(close_enough(&oklab_too, &color.oklab, false));

        let oklrch = oklxx_to_oklrxx(&oklch);
        assert!(close_enough(&oklrch, &color.oklrch, true));

        let oklch_too = oklrxx_to_oklxx(&oklrch);
        assert!(close_enough(&oklch_too, &color.oklch, true));
    }
}

const ALL_SPACES: [ColorSpace; 11] = [
    ColorSpace::Srgb,
    ColorSpace::LinearSrgb,
    ColorSpace::DisplayP3,
    ColorSpace::LinearDisplayP3,
    ColorSpace::Rec2020,
    ColorSpace::LinearRec2020,
    ColorSpace::Oklab,
    ColorSpace::Oklch,
    ColorSpace::Oklrab,
    ColorSpace::Oklrch,
    ColorSpace::Xyz,
];

fn is_polar(space: ColorSpace) -> bool {
    space == ColorSpace::Oklch || space == ColorSpace::Oklrch
}

#[test]
fn test_round_trips() {
    let samples = [BLACK.srgb, YELLOW.srgb, BLUE.srgb, WHITE.srgb, [0.25, 0.5, 0.75]];
    for &sample in samples.iter() {
        for &from_space in ALL_SPACES.iter() {
            let original = convert(ColorSpace::Srgb, from_space, &sample);
            for &to_space in ALL_SPACES.iter() {
                let there = convert(from_space, to_space, &original);
                let back = convert(to_space, from_space, &there);
                assert!(
                    close_enough(&back, &original, is_polar(from_space)),
                    "round trip {:?} -> {:?} failed: {:?} became {:?}",
                    from_space,
                    to_space,
                    original,
                    back
                );
            }
        }
    }
}

#[test]
fn test_identity_conversion() {
    let samples = [
        [0.1, 0.2, 0.3],
        [f64::NAN, 0.5, -0.25],
        [0.7, f64::NAN, f64::NAN],
    ];
    for &space in ALL_SPACES.iter() {
        for &sample in samples.iter() {
            let result = convert(space, space, &sample);
            for index in 0..3 {
                let expected = if sample[index].is_nan() { 0.0 } else { sample[index] };
                assert_eq!(result[index].to_bits(), expected.to_bits());
            }
        }
    }
}

#[test]
fn test_achromatic_snap() {
    // Any Oklab-family color whose chroma coordinates stay below 2e-4
    // in magnitude converts to a polar form with chroma exactly zero
    // and hue exactly not-a-number.
    let tiny = [
        [0.5, 0.0, 0.0],
        [0.5, 1.0e-5, -1.9e-4],
        [0.5, -1.99e-4, 1.99e-4],
    ];
    for &sample in tiny.iter() {
        for &(from_space, to_space) in
            [(ColorSpace::Oklab, ColorSpace::Oklch), (ColorSpace::Oklrab, ColorSpace::Oklrch)]
                .iter()
        {
            let polar = convert(from_space, to_space, &sample);
            assert_eq!(polar[1].to_bits(), 0.0_f64.to_bits());
            assert!(polar[2].is_nan());
        }
    }
    // At the threshold itself the hue survives.
    let at_threshold = convert(ColorSpace::Oklab, ColorSpace::Oklch, &[0.5, 2.0e-4, 0.0]);
    assert!(!at_threshold[2].is_nan());
}

// --------------------------------------------------------------------
// Closest-color matching.

struct ColorMatcher {
    space: ColorSpace,
    ansi: Vec<[f64; 3]>,
    eight_bit: Vec<[f64; 3]>,
}

fn color_to_f64(color: &Color) -> [f64; 3] {
    let bits = color.coordinates();
    [
        f64::from_bits(bits[0]),
        f64::from_bits(bits[1]),
        f64::from_bits(bits[2]),
    ]
}

fn true_color_to_srgb(color: &TrueColor) -> [f64; 3] {
    let c = color.coordinates();
    [
        c[0] as f64 / 255.0,
        c[1] as f64 / 255.0,
        c[2] as f64 / 255.0,
    ]
}

fn matcher_new(theme: &Theme, ok_version: OkVersion) -> ColorMatcher {
    let space = ok_version.cartesian_space();
    let mut ansi = Vec::new();
    for code in 0u8..=15 {
        let color = theme.ansi(AnsiColor::try_from(code).unwrap());
        ansi.push(convert(color.space(), space, &color_to_f64(color)));
    }
    let mut eight_bit = Vec::new();
    for code in 16u8..=231 {
        let concrete = TrueColor::from(EmbeddedRgb::try_from(code).unwrap());
        eight_bit.push(convert(ColorSpace::Srgb, space, &true_color_to_srgb(&concrete)));
    }
    for code in 232u8..=255 {
        let concrete = TrueColor::from(GrayGradient::try_from(code).unwrap());
        eight_bit.push(convert(ColorSpace::Srgb, space, &true_color_to_srgb(&concrete)));
    }
    ColorMatcher { space, ansi, eight_bit }
}

fn delta_e_ok(c1: &[f64; 3], c2: &[f64; 3]) -> f64 {
    ((c1[0] - c2[0]).powi(2) + (c1[1] - c2[1]).powi(2) + (c1[2] - c2[2]).powi(2)).sqrt()
}

fn to_ansi(matcher: &ColorMatcher, space: ColorSpace, coordinates: &[f64; 3]) -> AnsiColor {
    let c = convert(space, matcher.space, coordinates);
    let distances: Vec<u64> =
        matcher.ansi.iter().map(|candidate| delta_e_ok(&c, candidate).to_bits()).collect();
    closest_ansi(&distances)
}

fn to_eight_bit(matcher: &ColorMatcher, space: ColorSpace, coordinates: &[f64; 3]) -> EightBitColor {
    let c = convert(space, matcher.space, coordinates);
    let distances: Vec<u64> =
        matcher.eight_bit.iter().map(|candidate| delta_e_ok(&c, candidate).to_bits()).collect();
    closest_eight_bit(&distances)
}

#[test]
fn collect_test_matcher() {
    let matcher = matcher_new(&default_theme(), OkVersion::Revised);

    let result = to_ansi(&matcher, ColorSpace::Srgb, &[1.0, 1.0, 0.0]);
    assert_eq!(result, AnsiColor::BrightYellow);
}

#[test]
fn test_matcher_cube_self_consistency() {
    // Every color of the embedded RGB cube is its own nearest
    // neighbor among the 8-bit candidates.
    let matcher = matcher_new(&default_theme(), OkVersion::Revised);
    for code in 16u8..=231 {
        let embedded = EmbeddedRgb::try_from(code).unwrap();
        let concrete = TrueColor::from(embedded);
        let result =
            to_eight_bit(&matcher, ColorSpace::Srgb, &true_color_to_srgb(&concrete));
        assert_eq!(result, EightBitColor::Rgb(embedded));
    }
}

#[test]
fn test_matcher_totality() {
    // Any finite color resolves to an in-range code.
    let matcher = matcher_new(&default_theme(), OkVersion::Revised);
    let wild = [
        [0.0, 0.0, 0.0],
        [1.0, 1.0, 1.0],
        [-0.5, 2.0, 0.5],
        [100.0, -100.0, 3.0],
    ];
    for &sample in wild.iter() {
        for &space in ALL_SPACES.iter() {
            let ansi = to_ansi(&matcher, space, &sample);
            assert!(u8::from(ansi) <= 15);
            let eight_bit = to_eight_bit(&matcher, space, &sample);
            let code = u8::from(eight_bit);
            assert!((16..=255).contains(&code));
            assert!(!eight_bit.is_ansi());
        }
    }
}

#[test]
fn test_matcher_determinism() {
    // Repeated construction resolves a parsed color to the same index.
    let color = prettypretty::parse("#ffa563").unwrap();
    let coordinates = match &color.1[..] {
        [CoordValue::Ratio { numerator: n1, denominator: d1 }, CoordValue::Ratio {
            numerator: n2,
            denominator: d2,
        }, CoordValue::Ratio { numerator: n3, denominator: d3 }] => [
            *n1 as f64 / *d1 as f64,
            *n2 as f64 / *d2 as f64,
            *n3 as f64 / *d3 as f64,
        ],
        _ => unreachable!(),
    };
    let first = to_ansi(&matcher_new(&default_theme(), OkVersion::Revised), color.0, &coordinates);
    let second = to_ansi(&matcher_new(&default_theme(), OkVersion::Revised), color.0, &coordinates);
    assert_eq!(first, second);
    assert_eq!(u8::from(first), 7);
    let original = to_ansi(&matcher_new(&default_theme(), OkVersion::Original), color.0, &coordinates);
    assert_eq!(u8::from(original), 7);
}

#[test]
fn test_tie_break() {
    // Two candidates at identical distance: the lower index wins.
    assert_eq!(find_closest(&vec![7, 7]), Some(0));
    assert_eq!(find_closest(&vec![5, 5, 3, 3]), Some(2));
    assert_eq!(find_closest(&vec![]), None);
    let equal: Vec<u64> = std::iter::repeat(42).take(16).collect();
    assert_eq!(closest_ansi(&equal), AnsiColor::Black);
    let equal: Vec<u64> = std::iter::repeat(42).take(240).collect();
    assert_eq!(u8::from(closest_eight_bit(&equal)), 16);
}

#[test]
fn test_route_structure() {
    fn invert(step: Step) -> Step {
        match step {
            Step::GammaDecode => Step::GammaEncode,
            Step::GammaEncode => Step::GammaDecode,
            Step::Rec2020Decode => Step::Rec2020Encode,
            Step::Rec2020Encode => Step::Rec2020Decode,
            Step::LinearSrgbToXyz => Step::XyzToLinearSrgb,
            Step::XyzToLinearSrgb => Step::LinearSrgbToXyz,
            Step::LinearDisplayP3ToXyz => Step::XyzToLinearDisplayP3,
            Step::XyzToLinearDisplayP3 => Step::LinearDisplayP3ToXyz,
            Step::LinearRec2020ToXyz => Step::XyzToLinearRec2020,
            Step::XyzToLinearRec2020 => Step::LinearRec2020ToXyz,
            Step::OklabToXyz => Step::XyzToOklab,
            Step::XyzToOklab => Step::OklabToXyz,
            Step::PolarToCartesian => Step::CartesianToPolar,
            Step::CartesianToPolar => Step::PolarToCartesian,
            Step::LightnessToLr => Step::LrToLightness,
            Step::LrToLightness => Step::LightnessToLr,
        }
    }
    for &a in ALL_SPACES.iter() {
        assert!(route(a, a).is_empty());
        for &b in ALL_SPACES.iter() {
            let forward = route(a, b);
            let backward = route(b, a);
            let mirrored: Vec<Step> = forward.iter().rev().map(|&s| invert(s)).collect();
            assert_eq!(backward, mirrored);
        }
    }
}
