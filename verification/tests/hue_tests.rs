use colour_math::attributes::Chroma;
use colour_math::debug::ApproxEq;
use colour_math::fdrn::{Prop, UFDRNumber};
use colour_math::hcv::HCV;
use colour_math::hue::{CMYHue, Hue, RGBHue, Sextant, SextantHue};
use colour_math::rgb::RGB;

const NON_ZERO_CHROMA_PROPS: [f64; 7] = [0.01, 0.025, 0.5, 0.75, 0.9, 0.99, 1.0];
// "second" should never be 0.0 or 1.0
const SECOND_VALUES: [f64; 12] = [
    0.001, 0.1, 0.2, 0.3, 0.4, 0.5, 0.6, 0.7, 0.8, 0.9, 0.99, 0.999,
];

fn prop(x: f64) -> Prop {
    Prop((x * u64::MAX as f64) as u64)
}

fn red() -> Hue {
    Hue::Primary(RGBHue::Red)
}

fn blue() -> Hue {
    Hue::Primary(RGBHue::Blue)
}

fn primaries() -> [Hue; 3] {
    [
        Hue::Primary(RGBHue::Blue),
        Hue::Primary(RGBHue::Red),
        Hue::Primary(RGBHue::Green),
    ]
}

fn secondaries() -> [Hue; 3] {
    [
        Hue::Secondary(CMYHue::Cyan),
        Hue::Secondary(CMYHue::Magenta),
        Hue::Secondary(CMYHue::Yellow),
    ]
}

fn in_betweens() -> [Hue; 6] {
    [
        Hue::Sextant(SextantHue(Sextant::BlueCyan, Prop::half())),
        Hue::Sextant(SextantHue(Sextant::BlueMagenta, Prop::half())),
        Hue::Sextant(SextantHue(Sextant::RedMagenta, Prop::half())),
        Hue::Sextant(SextantHue(Sextant::RedYellow, Prop::half())),
        Hue::Sextant(SextantHue(Sextant::GreenYellow, Prop::half())),
        Hue::Sextant(SextantHue(Sextant::GreenCyan, Prop::half())),
    ]
}

/// Each component scaled by the proportion.
fn scaled(rgb: &RGB<u64>, p: Prop) -> RGB<u64> {
    let [r, g, b] = rgb.to_props();
    RGB::<u64>::from([r * p, g * p, b * p])
}

#[test]
fn hue_approx_eq() {
    assert!(red().approx_eq(&red(), None));
    assert!(!red().approx_eq(&blue(), None));
    assert!(!red().approx_eq(&blue(), Some(Prop::one())));

    assert!(!Hue::Sextant(SextantHue(Sextant::RedYellow, Prop(0x1000000000))).approx_eq(
        &Hue::Sextant(SextantHue(Sextant::GreenYellow, Prop(0x1000000000))),
        None
    ));
    assert!(!Hue::Sextant(SextantHue(Sextant::RedYellow, Prop(0x1000000000))).approx_eq(
        &Hue::Sextant(SextantHue(Sextant::RedYellow, Prop(0xfffffffff))),
        None
    ));
    assert!(Hue::Sextant(SextantHue(Sextant::RedYellow, Prop(0x1000000000))).approx_eq(
        &Hue::Sextant(SextantHue(Sextant::RedYellow, Prop(0xfffffffff))),
        Some(Prop(0x010000000))
    ));
}

#[test]
fn hue_tests_hue_from_rgb() {
    for rgb in [RGB::<u64>::black(), RGB::<u64>::white()].iter() {
        assert!(Hue::try_from(rgb.to_props()).is_err());
        assert_eq!(rgb.hue(), None);
    }
    let fractions = [
        [1_u64, 10],
        [2, 10],
        [3, 10],
        [4, 10],
        [5, 10],
        [6, 10],
        [7, 10],
        [8, 10],
        [9, 10],
    ];
    let rgbs = [
        RGB::<u64>::blue(),
        RGB::<u64>::red(),
        RGB::<u64>::green(),
        RGB::<u64>::cyan(),
        RGB::<u64>::magenta(),
        RGB::<u64>::yellow(),
    ];
    let hues = [primaries(), secondaries()].concat();
    for (rgb, hue) in rgbs.iter().zip(hues.iter()) {
        assert_eq!(Hue::try_from(rgb.to_props()), Ok(*hue));
        for fraction in &fractions {
            assert_eq!(
                Hue::try_from(scaled(rgb, Prop::from_fraction(*fraction)).to_props()),
                Ok(*hue)
            );
        }
    }
    let rgbs = [
        RGB::<u64>::blue_cyan(),
        RGB::<u64>::blue_magenta(),
        RGB::<u64>::red_magenta(),
        RGB::<u64>::red_yellow(),
        RGB::<u64>::green_yellow(),
        RGB::<u64>::green_cyan(),
    ];
    for (rgb, hue) in rgbs.iter().zip(in_betweens().iter()) {
        assert_eq!(Hue::try_from(rgb.to_props()), Ok(*hue));
        for fraction in &fractions {
            let found = Hue::try_from(scaled(rgb, Prop::from_fraction(*fraction)).to_props());
            assert!(found.unwrap().approx_eq(hue, None));
        }
    }
}

#[test]
fn hue_tests_max_chroma_and_sum_ranges() {
    for hue in &primaries() {
        assert!(hue.sum_range_for_chroma_prop(Prop::zero()).is_none());
        assert_eq!(
            hue.sum_range_for_chroma_prop(Prop::one()),
            Some((UFDRNumber::one(), UFDRNumber::one()))
        );
        for item in NON_ZERO_CHROMA_PROPS.iter() {
            let p = prop(*item);
            if p == Prop::one() {
                let range = hue.sum_range_for_chroma_prop(p).unwrap();
                assert_eq!(range.0, range.1);
                let max_chroma = hue.max_chroma_for_sum(range.0).unwrap();
                assert_eq!(max_chroma, Chroma::one());
            } else {
                let range = hue.sum_range_for_chroma_prop(p).unwrap();
                let max_chroma = hue.max_chroma_for_sum(range.0).unwrap();
                assert!(max_chroma.approx_eq(&Chroma::Shade(p), Some(Prop(0xF))));
                let max_chroma = hue.max_chroma_for_sum(range.1).unwrap();
                assert!(max_chroma.approx_eq(&Chroma::Tint(p), Some(Prop(0xF))));
            }
        }
    }
    for hue in &secondaries() {
        assert!(hue.sum_range_for_chroma_prop(Prop::zero()).is_none());
        assert_eq!(
            hue.sum_range_for_chroma_prop(Prop::one()),
            Some((UFDRNumber::two(), UFDRNumber::two()))
        );
        for item in NON_ZERO_CHROMA_PROPS.iter() {
            let p = prop(*item);
            if p == Prop::one() {
                let range = hue.sum_range_for_chroma_prop(p).unwrap();
                assert_eq!(range.0, range.1);
                let max_chroma = hue.max_chroma_for_sum(range.0).unwrap();
                assert_eq!(max_chroma, Chroma::one());
            } else {
                let range = hue.sum_range_for_chroma_prop(p).unwrap();
                let max_chroma = hue.max_chroma_for_sum(range.0).unwrap();
                assert!(max_chroma.approx_eq(&Chroma::Shade(p), Some(Prop(0xF))));
                let max_chroma = hue.max_chroma_for_sum(range.1).unwrap();
                assert!(max_chroma.approx_eq(&Chroma::Tint(p), Some(Prop(0xF))));
            }
        }
    }
    for sextant in &[
        Sextant::RedYellow,
        Sextant::RedMagenta,
        Sextant::GreenCyan,
        Sextant::GreenYellow,
        Sextant::BlueCyan,
        Sextant::BlueMagenta,
    ] {
        for item in SECOND_VALUES.iter() {
            let other = prop(*item);
            let hue = Hue::Sextant(SextantHue(*sextant, other));
            assert!(hue.sum_range_for_chroma_prop(Prop::zero()).is_none());
            assert_eq!(
                hue.sum_range_for_chroma_prop(Prop::one()),
                Some((
                    UFDRNumber::one().add_prop(other),
                    UFDRNumber::one().add_prop(other)
                ))
            );
        }
    }
}

#[test]
fn rgb_ordered_triplet() {
    let light_levels: [Prop; 7] = [
        Prop::zero(),
        Prop(1),
        Prop(u64::MAX / 100),
        Prop(u64::MAX / 2),
        Prop(u64::MAX / 100 * 99),
        Prop(u64::MAX - 1),
        Prop::one(),
    ];
    for first in &light_levels[1..] {
        for others in &light_levels {
            if others < first {
                for rgb_hue in &[RGBHue::Red, RGBHue::Green, RGBHue::Blue] {
                    let rgb = match rgb_hue {
                        RGBHue::Red => RGB::<u64>::from([*first, *others, *others]),
                        RGBHue::Green => RGB::<u64>::from([*others, *first, *others]),
                        RGBHue::Blue => RGB::<u64>::from([*others, *others, *first]),
                    };
                    let array = Hue::Primary(*rgb_hue)
                        .rgb_ordered_triplet(rgb.sum(), rgb.chroma().prop())
                        .expect("should be legal");
                    assert_eq!(RGB::<u64>::from(array), rgb);
                }
                for cmy_hue in &[CMYHue::Cyan, CMYHue::Magenta, CMYHue::Yellow] {
                    let rgb = match cmy_hue {
                        CMYHue::Cyan => RGB::<u64>::from([*others, *first, *first]),
                        CMYHue::Magenta => RGB::<u64>::from([*first, *others, *first]),
                        CMYHue::Yellow => RGB::<u64>::from([*first, *first, *others]),
                    };
                    let array = Hue::Secondary(*cmy_hue)
                        .rgb_ordered_triplet(rgb.sum(), rgb.chroma().prop())
                        .expect("should be legal");
                    assert_eq!(RGB::<u64>::from(array), rgb);
                }
                let second = others;
                for third in &light_levels {
                    if third < second {
                        for sextant in &[
                            Sextant::RedYellow,
                            Sextant::RedMagenta,
                            Sextant::GreenCyan,
                            Sextant::GreenYellow,
                            Sextant::BlueMagenta,
                            Sextant::BlueCyan,
                        ] {
                            let array = match sextant {
                                Sextant::RedMagenta => [*first, *third, *second],
                                Sextant::RedYellow => [*first, *second, *third],
                                Sextant::GreenYellow => [*second, *first, *third],
                                Sextant::GreenCyan => [*third, *first, *second],
                                Sextant::BlueCyan => [*third, *second, *first],
                                Sextant::BlueMagenta => [*second, *third, *first],
                            };
                            let rgb = RGB::<u64>::from(array);
                            let hue = Hue::try_from(array).unwrap();
                            match hue {
                                Hue::Sextant(_) => {
                                    let found = hue
                                        .rgb_ordered_triplet(rgb.sum(), rgb.chroma().prop())
                                        .expect("should be legal");
                                    let found = RGB::<u64>::from(found);
                                    for k in 0..3 {
                                        assert!(found.0[k].approx_eq(&rgb.0[k], None));
                                    }
                                    let rgb = hue.max_chroma_rgb::<u64>();
                                    // make sure we hit Chroma::Neither at least once
                                    let array = hue
                                        .rgb_ordered_triplet(rgb.sum(), rgb.chroma().prop())
                                        .expect("should be legal");
                                    assert_eq!(RGB::<u64>::from(array), rgb);
                                }
                                _ => panic!("should have been a SextantHue"),
                            }
                        }
                    }
                }
            }
        }
    }
}

#[test]
fn round_trip_of_exact_components() {
    // Components given as exact come back to the hue, the sum and the chroma asked for.
    let hues = [primaries().to_vec(), secondaries().to_vec(), in_betweens().to_vec()].concat();
    for hue in hues.iter() {
        for c in [Prop(u64::MAX / 10), Prop::half(), Prop::one()] {
            let (lo, hi) = hue.sum_range_for_chroma_prop(c).unwrap();
            let sum = UFDRNumber((lo.0 + hi.0) / 2);
            if let Some(Ok(rgb)) = hue.try_rgb_ordered_triplet(sum, c) {
                assert_eq!(Hue::try_from(rgb), Ok(*hue));
                assert_eq!(rgb[0].0 as u128 + rgb[1].0 as u128 + rgb[2].0 as u128, sum.0);
                let max = rgb.iter().map(|p| p.0).max().unwrap();
                let min = rgb.iter().map(|p| p.0).min().unwrap();
                assert_eq!(max - min, c.0);
            }
        }
    }
}

#[test]
fn value_order_and_rgb_order() {
    let t = [Prop(300), Prop(200), Prop(100)];
    for hue in in_betweens().iter() {
        assert!(hue.has_valid_value_order(&t));
        assert!(hue.has_valid_rgb_order(&hue.triplet_to_rgb_order(&t)));
    }
    let flat = [Prop(300), Prop(100), Prop(100)];
    assert!(red().has_valid_value_order(&flat));
    assert!(red().has_valid_rgb_order(&flat));
    assert!(!blue().has_valid_rgb_order(&flat));
    assert!(blue().has_valid_rgb_order(&blue().triplet_to_rgb_order(&flat)));
}

#[test]
fn grey_has_no_hue() {
    assert_eq!(
        Hue::try_from([Prop(5), Prop(5), Prop(5)]),
        Err("RGB is grey and hs no hue")
    );
}

#[test]
fn ordinal_index_is_zero() {
    for hue in in_betweens().iter() {
        assert_eq!(hue.ord_index(), 0);
    }
}

const SHADE_TINT_CHROMA_PROPS: [f64; 8] = [0.001, 0.01, 0.025, 0.5, 0.75, 0.9, 0.99, 0.999];

#[test]
fn lightest_darkest_hcv_for_chroma() {
    let hues: Vec<Hue> = [primaries().to_vec(), secondaries().to_vec(), in_betweens().to_vec()].concat();
    let hcvs: Vec<HCV> = vec![
        HCV::blue(),
        HCV::red(),
        HCV::green(),
        HCV::cyan(),
        HCV::magenta(),
        HCV::yellow(),
        HCV::blue_cyan(),
        HCV::blue_magenta(),
        HCV::red_magenta(),
        HCV::red_yellow(),
        HCV::green_yellow(),
        HCV::green_cyan(),
    ];
    for (hue, hcv) in hues.iter().zip(hcvs.iter()) {
        assert_eq!(hue.lightest_hcv_for_chroma(Chroma::zero()), None);
        assert_eq!(hue.darkest_hcv_for_chroma(Chroma::zero()), None);
        assert_eq!(hue.lightest_hcv_for_chroma(Chroma::one()), Some(*hcv));
        assert_eq!(hue.darkest_hcv_for_chroma(Chroma::one()), Some(*hcv));
        for p in SHADE_TINT_CHROMA_PROPS.iter().map(|f| prop(*f)) {
            let shade_chroma = Chroma::Shade(p);
            let darkest_shade = hue.darkest_hcv_for_chroma(shade_chroma).unwrap();
            assert_eq!(darkest_shade.chroma(), shade_chroma);
            let lightest_shade = hue.lightest_hcv_for_chroma(shade_chroma).unwrap();
            assert_eq!(lightest_shade.chroma(), shade_chroma);
            assert!(darkest_shade.sum < lightest_shade.sum);
            let tint_chroma = Chroma::Tint(p);
            let darkest_tint = hue.darkest_hcv_for_chroma(tint_chroma).unwrap();
            assert_eq!(darkest_tint.chroma(), tint_chroma);
            let lightest_tint = hue.lightest_hcv_for_chroma(tint_chroma).unwrap();
            assert_eq!(lightest_tint.chroma(), tint_chroma);
            assert!(darkest_tint.sum < lightest_tint.sum);
            assert!(lightest_shade.sum < darkest_tint.sum);
        }
    }
    for sextant in &[
        Sextant::RedYellow,
        Sextant::RedMagenta,
        Sextant::GreenCyan,
        Sextant::GreenYellow,
        Sextant::BlueCyan,
        Sextant::BlueMagenta,
    ] {
        for item in SECOND_VALUES.iter() {
            let second = prop(*item);
            let hue = Hue::Sextant(SextantHue(*sextant, second));
            assert_eq!(hue.darkest_hcv_for_chroma(Chroma::zero()), None);
            assert_eq!(hue.lightest_hcv_for_chroma(Chroma::zero()), None);
            for p in SHADE_TINT_CHROMA_PROPS.iter().map(|a| prop(*a)) {
                let shade_chroma = Chroma::Shade(p);
                let darkest_shade = hue.darkest_hcv_for_chroma(shade_chroma).unwrap();
                assert_eq!(darkest_shade.chroma(), shade_chroma);
                let lightest_shade = hue.lightest_hcv_for_chroma(shade_chroma).unwrap();
                assert_eq!(lightest_shade.chroma(), shade_chroma);
                assert!(darkest_shade.sum < lightest_shade.sum);
                let tint_chroma = Chroma::Tint(p);
                let darkest_tint = hue.darkest_hcv_for_chroma(tint_chroma).unwrap();
                assert_eq!(darkest_tint.chroma(), tint_chroma);
                let lightest_tint = hue.lightest_hcv_for_chroma(tint_chroma).unwrap();
                assert_eq!(lightest_tint.chroma(), tint_chroma);
                assert!(darkest_tint.sum < lightest_tint.sum);
                assert!(lightest_shade.sum < darkest_tint.sum);
            }
        }
    }
}
