use colour_math::attributes::Chroma;
use colour_math::debug::ApproxEq;
use colour_math::fdrn::{Prop, UFDRNumber};
use colour_math::hue::{CMYHue, Hue, RGBHue, Sextant, SextantHue};
use colour_math::rgb::RGB;

const NON_ZERO_CHROMA_PROPS: [f64; 7] = [0.01, 0.025, 0.5, 0.75, 0.9, 0.99, 1.0];
const SHADE_TINT_CHROMA_PROPS: [f64; 8] = [0.001, 0.01, 0.025, 0.5, 0.75, 0.9, 0.99, 0.999];
const VALID_HUE_SUMS: [f64; 20] = [
    0.01,
    0.025,
    0.5,
    0.75,
    0.9,
    0.99999,
    1.0,
    1.000000001,
    1.025,
    1.5,
    1.75,
    1.9,
    1.99999,
    2.0,
    2.000000001,
    2.025,
    2.5,
    2.75,
    2.9,
    2.99,
];
// "second" should never be 0.0 or 1.0
const SECOND_VALUES: [f64; 12] = [
    0.001, 0.1, 0.2, 0.3, 0.4, 0.5, 0.6, 0.7, 0.8, 0.9, 0.99, 0.999,
];

fn prop(x: f64) -> Prop {
    Prop((x * u64::MAX as f64) as u64)
}

fn ufdr(x: f64) -> UFDRNumber {
    UFDRNumber((x * u64::MAX as f64) as u128)
}

fn primaries() -> [Hue; 3] {
    [
        Hue::Primary(RGBHue::Blue),
        Hue::Primary(RGBHue::Red),
        Hue::Primary(RGBHue::Green),
    ]
}

fn secondaries() -> [Hue; 3] {
    [
        Hue::Secondary(CMYHue::Cyan),
        Hue::Secondary(CMYHue::Magenta),
        Hue::Secondary(CMYHue::Yellow),
    ]
}

fn primary_rgbs() -> [RGB<u64>; 3] {
    [RGB::<u64>::blue(), RGB::<u64>::red(), RGB::<u64>::green()]
}

fn secondary_rgbs() -> [RGB<u64>; 3] {
    [RGB::<u64>::cyan(), RGB::<u64>::magenta(), RGB::<u64>::yellow()]
}

fn sextants() -> [Sextant; 6] {
    [
        Sextant::RedYellow,
        Sextant::RedMagenta,
        Sextant::GreenCyan,
        Sextant::GreenYellow,
        Sextant::BlueCyan,
        Sextant::BlueMagenta,
    ]
}

/// Where the largest, middle and smallest components of the hue's colours are.
fn indices(hue: &Hue) -> (usize, usize, usize) {
    match hue {
        Hue::Primary(RGBHue::Red) => (0, 1, 2),
        Hue::Primary(RGBHue::Green) => (1, 0, 2),
        Hue::Primary(RGBHue::Blue) => (2, 0, 1),
        Hue::Secondary(CMYHue::Magenta) => (0, 2, 1),
        Hue::Secondary(CMYHue::Yellow) => (0, 1, 2),
        Hue::Secondary(CMYHue::Cyan) => (1, 2, 0),
        Hue::Sextant(SextantHue(sextant, _)) => match sextant {
            Sextant::RedYellow => (0, 1, 2),
            Sextant::RedMagenta => (0, 2, 1),
            Sextant::GreenYellow => (1, 0, 2),
            Sextant::GreenCyan => (1, 2, 0),
            Sextant::BlueMagenta => (2, 0, 1),
            Sextant::BlueCyan => (2, 1, 0),
        },
    }
}

/// The light levels as fractions of full intensity, as floating point numbers.
fn as_f64(rgb: &RGB<u64>) -> [f64; 3] {
    [
        rgb.0[0] as f64 / u64::MAX as f64,
        rgb.0[1] as f64 / u64::MAX as f64,
        rgb.0[2] as f64 / u64::MAX as f64,
    ]
}

fn either(r: Result<RGB<u64>, RGB<u64>>) -> RGB<u64> {
    match r {
        Ok(rgb) => rgb,
        Err(rgb) => rgb,
    }
}

#[test]
fn hue_tests_hue_max_chroma_rgb() {
    for (hue, rgb) in primaries().iter().zip(primary_rgbs().iter()) {
        assert_eq!(hue.max_chroma_rgb::<u64>(), *rgb);
    }
    for (hue, rgb) in secondaries().iter().zip(secondary_rgbs().iter()) {
        assert_eq!(hue.max_chroma_rgb::<u64>(), *rgb);
    }
    let half = prop(0.5_f64);
    for (array, sextant, second) in &[
        ([Prop::one(), half, Prop::zero()], Sextant::RedYellow, half),
        ([Prop::zero(), half, Prop::one()], Sextant::BlueCyan, half),
        ([half, Prop::zero(), Prop::one()], Sextant::BlueMagenta, half),
        ([Prop::one(), Prop::zero(), half], Sextant::RedMagenta, half),
        ([half, Prop::one(), Prop::zero()], Sextant::GreenYellow, half),
        ([Prop::zero(), Prop::one(), half], Sextant::GreenCyan, half),
    ] {
        let rgb = RGB::<u64>::from(*array);
        let hue = Hue::Sextant(SextantHue(*sextant, *second));
        assert_eq!(Hue::try_from(rgb.to_props()), Ok(hue));
    }
}

#[test]
fn hue_tests_primary_max_chroma_rgbs() {
    for (hue, expected_rgb) in primaries().iter().zip(primary_rgbs().iter()) {
        assert_eq!(
            hue.max_chroma_rgb_for_sum::<u64>(UFDRNumber::one()).unwrap(),
            *expected_rgb
        );
        assert!(hue.max_chroma_rgb_for_sum::<u64>(UFDRNumber::zero()).is_none());
        assert!(hue.max_chroma_rgb_for_sum::<u64>(UFDRNumber::three()).is_none());
        for sum in [
            ufdr(0.0001_f64),
            ufdr(0.25_f64),
            ufdr(0.5_f64),
            ufdr(0.75_f64),
            ufdr(0.9999_f64),
        ]
        .iter()
        {
            let mut array = [Prop::zero(), Prop::zero(), Prop::zero()];
            array[indices(hue).0] = sum.to_prop();
            let expected: RGB<u64> = array.into();
            assert_eq!(
                as_f64(&hue.max_chroma_rgb_for_sum::<u64>(*sum).unwrap()),
                as_f64(&expected)
            );
        }
        for sum in [
            ufdr(2.0001_f64),
            ufdr(2.25_f64),
            ufdr(2.5_f64),
            ufdr(2.75_f64),
            ufdr(2.9999_f64),
        ]
        .iter()
        {
            let mut array = [Prop::one(), Prop::one(), Prop::one()];
            let other = sum.sub_ufdr(UFDRNumber::one()).div_i32(2).to_prop();
            array[indices(hue).1] = other;
            array[indices(hue).2] = other;
            let expected: RGB<u64> = array.into();
            assert_eq!(
                as_f64(&hue.max_chroma_rgb_for_sum::<u64>(*sum).unwrap()),
                as_f64(&expected)
            );
        }
    }
}

#[test]
fn hue_tests_secondary_max_chroma_rgbs() {
    for (hue, expected_rgb) in secondaries().iter().zip(secondary_rgbs().iter()) {
        assert!(hue
            .max_chroma_rgb_for_sum::<u64>(UFDRNumber::two())
            .unwrap()
            .approx_eq(expected_rgb, None));
        assert!(hue.max_chroma_rgb_for_sum::<u64>(UFDRNumber::zero()).is_none());
        assert!(hue.max_chroma_rgb_for_sum::<u64>(UFDRNumber::three()).is_none());
        for sum in [
            ufdr(0.0001_f64),
            ufdr(0.25_f64),
            ufdr(0.5_f64),
            ufdr(0.75_f64),
            UFDRNumber::one(),
            ufdr(1.5_f64),
            ufdr(1.9999_f64),
        ]
        .iter()
        {
            let mut array = [Prop::zero(), Prop::zero(), Prop::zero()];
            array[indices(hue).0] = sum.div_i32(2).to_prop();
            array[indices(hue).1] = sum.div_i32(2).to_prop();
            let expected: RGB<u64> = array.into();
            assert_eq!(hue.max_chroma_rgb_for_sum::<u64>(*sum).unwrap(), expected);
        }
        for sum in [
            ufdr(2.0001_f64),
            ufdr(2.25_f64),
            ufdr(2.5_f64),
            ufdr(2.75_f64),
            ufdr(2.9999_f64),
        ]
        .iter()
        {
            let mut array = [Prop::one(), Prop::one(), Prop::one()];
            array[indices(hue).2] = sum.sub_ufdr(UFDRNumber::two()).to_prop();
            let expected: RGB<u64> = array.into();
            assert!(hue
                .max_chroma_rgb_for_sum::<u64>(*sum)
                .unwrap()
                .approx_eq(&expected, None));
        }
    }
}

#[test]
fn hue_tests_other_max_chroma_rgbs() {
    for sextant in &sextants() {
        for item in SECOND_VALUES.iter() {
            let second = prop(*item);
            let sextant_hue = SextantHue(*sextant, second);
            let hue = Hue::Sextant(sextant_hue);
            assert!(hue.max_chroma_rgb_for_sum::<u64>(UFDRNumber::zero()).is_none());
            assert!(hue.max_chroma_rgb_for_sum::<u64>(UFDRNumber::three()).is_none());
            for item in VALID_HUE_SUMS.iter() {
                let sum = ufdr(*item);
                let rgb = hue.max_chroma_rgb_for_sum::<u64>(sum).unwrap();
                assert!(sum.approx_eq(&rgb.sum(), None));
                assert!(rgb
                    .chroma()
                    .approx_eq(&hue.max_chroma_for_sum(sum).unwrap(), None));
                match Hue::try_from(rgb.to_props()).unwrap() {
                    Hue::Sextant(SextantHue(sextant_out, second_out)) => {
                        assert_eq!(sextant_hue.0, sextant_out);
                        assert!(sextant_hue.1.approx_eq(&second_out, Some(Prop(0x153))));
                    }
                    _ => panic!("it's gone pure"),
                }
            }
        }
    }
}

#[test]
fn hue_tests_min_max_sum_rgb_for_chroma() {
    let hues = [primaries(), secondaries()].concat();
    let rgbs = [primary_rgbs(), secondary_rgbs()].concat();
    for (hue, expected_rgb) in hues.iter().zip(rgbs.iter()) {
        assert_eq!(
            hue.darkest_rgb_for_chroma::<u64>(Chroma::one()).map(either),
            Some(*expected_rgb)
        );
        assert_eq!(
            hue.lightest_rgb_for_chroma::<u64>(Chroma::one()).map(either),
            Some(*expected_rgb)
        );
        let p = prop(0.5_f64);
        let shade_chroma = Chroma::Shade(p);
        let shade = either(hue.darkest_rgb_for_chroma::<u64>(shade_chroma).unwrap());
        let tint_chroma = Chroma::Tint(p);
        let tint = either(hue.lightest_rgb_for_chroma::<u64>(tint_chroma).unwrap());
        assert!(shade.value().0 < tint.value().0);
        assert!(shade.chroma().approx_eq(&shade_chroma, Some(Prop(0xF))));
        assert!(tint.chroma().approx_eq(&tint_chroma, Some(Prop(0xF))));
        assert!(shade
            .max_chroma_rgb()
            .approx_eq(&tint.max_chroma_rgb(), Some(prop(0.0000001))));
    }
    for sextant in &sextants() {
        for item in SECOND_VALUES.iter() {
            let second = prop(*item);
            let hue = Hue::Sextant(SextantHue(*sextant, second));
            assert_eq!(hue.darkest_rgb_for_chroma::<u64>(Chroma::zero()), None);
            assert_eq!(hue.lightest_rgb_for_chroma::<u64>(Chroma::zero()), None);
            for p in SHADE_TINT_CHROMA_PROPS.iter().map(|a| prop(*a)) {
                let shade_chroma = Chroma::Shade(p);
                let shade = either(hue.darkest_rgb_for_chroma::<u64>(shade_chroma).unwrap());
                let tint_chroma = Chroma::Tint(p);
                let tint = either(hue.lightest_rgb_for_chroma::<u64>(tint_chroma).unwrap());
                assert!(shade.value().0 < tint.value().0);
                assert!(shade.chroma().approx_eq(&shade_chroma, Some(Prop(0xF))));
                assert!(tint.chroma().approx_eq(&tint_chroma, Some(Prop(0xF))));
                assert!(shade
                    .max_chroma_rgb()
                    .approx_eq(&tint.max_chroma_rgb(), Some(prop(0.000_001))));
            }
        }
    }
}

#[test]
fn hue_tests_secondary_rgb_for_sum_and_chroma() {
    for hue in &secondaries() {
        assert!(hue
            .rgb_for_sum_and_chroma::<u64>(UFDRNumber::zero(), Chroma::one())
            .is_none());
        assert!(hue
            .rgb_for_sum_and_chroma::<u64>(UFDRNumber::three(), Chroma::one())
            .is_none());
        assert!(hue
            .rgb_for_sum_and_chroma::<u64>(UFDRNumber::zero(), Chroma::zero())
            .is_none());
        assert!(hue
            .rgb_for_sum_and_chroma::<u64>(UFDRNumber::three(), Chroma::zero())
            .is_none());
        for p in NON_ZERO_CHROMA_PROPS.iter().map(|item| prop(*item)) {
            for sum in VALID_HUE_SUMS.iter().map(|item| ufdr(*item)) {
                let chroma = Chroma::from((p, *hue, sum));
                if let Some(rgb) = hue.rgb_for_sum_and_chroma::<u64>(sum, chroma) {
                    assert!(rgb.sum().approx_eq(&sum, None));
                    if rgb.sum() == sum {
                        // NB: sum was fiddled to make it compatible with chroma
                        assert!(rgb.chroma().approx_eq(&chroma, Some(Prop(0x100))));
                    } else {
                        assert!(rgb.chroma().prop().approx_eq(&chroma.prop(), Some(Prop(0x100))));
                    }
                    assert_eq!(Hue::try_from(rgb.to_props()).unwrap(), *hue);
                } else {
                    assert!(!hue.sum_and_chroma_are_compatible(sum, chroma));
                }
            }
        }
    }
}

#[test]
fn hue_tests_general_rgb_for_sum_and_chroma() {
    for sextant in &sextants() {
        for second in SECOND_VALUES.iter().map(|a| prop(*a)) {
            let sextant_hue = SextantHue(*sextant, second);
            let hue = Hue::Sextant(sextant_hue);
            assert!(hue
                .rgb_for_sum_and_chroma::<u64>(UFDRNumber::zero(), Chroma::one())
                .is_none());
            assert!(hue
                .rgb_for_sum_and_chroma::<u64>(UFDRNumber::three(), Chroma::one())
                .is_none());
            assert!(hue
                .rgb_for_sum_and_chroma::<u64>(UFDRNumber::zero(), Chroma::zero())
                .is_none());
            assert!(hue
                .rgb_for_sum_and_chroma::<u64>(UFDRNumber::three(), Chroma::zero())
                .is_none());
            for p in NON_ZERO_CHROMA_PROPS.iter().map(|a| prop(*a)) {
                let chroma = Chroma::Neither(p);
                for sum in VALID_HUE_SUMS.iter().map(|a| ufdr(*a)) {
                    if let Some(rgb) = hue.rgb_for_sum_and_chroma::<u64>(sum, chroma) {
                        assert!(rgb.sum().approx_eq(&sum, Some(Prop(0x100))));
                        assert!(Hue::try_from(rgb.to_props())
                            .unwrap()
                            .approx_eq(&hue, Some(Prop(0x100))));
                        let max_sum = rgb.hue().unwrap().sum_for_max_chroma();
                        if sum.0 < max_sum.0 {
                            assert_eq!(rgb.chroma(), Chroma::Shade(p));
                        } else if sum.0 == max_sum.0 {
                            assert_eq!(rgb.chroma(), Chroma::Neither(p));
                        } else {
                            assert_eq!(rgb.chroma(), Chroma::Tint(p));
                        }
                    } else {
                        let range = hue.sum_range_for_chroma(chroma).unwrap();
                        assert!(sum.0 < range.0 .0 || sum.0 > range.1 .0);
                    }
                }
            }
        }
    }
}
