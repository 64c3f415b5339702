use colour_math::fdrn::{FDRNumber, Prop};
use colour_math::hcv::HCV;
use colour_math::hue::angle::Angle;
use colour_math::hue::{CMYHue, Hue, RGBHue, Sextant, SextantHue};
use colour_math::manipulator::ColourManipulatorBuilder;

/// A number of degrees as an angle, the way a floating point number converts.
fn angle_of(degrees: f64) -> Angle {
    let ws: i128 = (degrees * Angle::degree().0 as f64) as i128;
    let max = Angle::max().0 as i128;
    let min = Angle::min().0 as i128;
    if ws >= max {
        Angle((ws - max * 2) as i64)
    } else if ws < min {
        Angle((ws + max * 2) as i64)
    } else {
        Angle(ws as i64)
    }
}

#[test]
fn convert() {
    assert_eq!(Angle::from(-240_i16).0, Angle::degree().0 * 120);
    assert_eq!(Angle::from(180_i16).0, Angle::degree().0 * -180);
    assert!(Angle::from((120_u8, 45_u8)).approx_eq(&angle_of(120.75), Some(0x100)));
    assert!(angle_of(180.0).approx_eq(&angle_of(-180.0), Some(16)));
    assert!(angle_of(120.0).approx_eq(&Angle::from(120_i16), Some(2000)));

    assert_eq!(FDRNumber::from(Angle::degree()), FDRNumber::one());
    assert_eq!(FDRNumber::from(Angle::from(12_i16)), FDRNumber::one().mul_i32(12));
}

#[test]
fn ops() {
    assert_eq!(Angle::from(120_i16) + Angle::from(120_i16), -Angle::from(120_i16));
    assert_eq!(Angle::from(120_i16) - Angle::from(150_i16), -Angle::from(30_i16));
    assert_eq!(
        Angle::from(120_i16) + Angle::from((9_u8, 11_u8, 25_u8, 900_u16)),
        Angle::from((129_u8, 11_u8, 25_u8, 900_u16))
    );
}

#[test]
fn whole_degrees_wrap_into_range() {
    assert_eq!(Angle::from(540_i16), Angle::from(-180_i16));
    assert_eq!(Angle::from(-181_i16), Angle::from(179_i16));
    assert_eq!(Angle::from(359_i16), Angle::from(-1_i16));
    assert_eq!(Angle::from(0_i16).0, 0);
    assert!(Angle::from(179_i16).is_valid());
    assert!(!Angle::max().is_valid());
    assert!(Angle::min().is_valid());
}

#[test]
fn negation_and_differences() {
    assert_eq!(-Angle::min(), Angle::min());
    assert_eq!(-Angle::from(45_i16), Angle::from(-45_i16));
    assert_eq!(
        Angle::from(-170_i16).abs_diff(&Angle::from(170_i16)),
        Angle::from(-20_i16)
    );
    assert_eq!(Angle::from(30_i16).abs_diff(&Angle::from(10_i16)), Angle::from(20_i16));
    assert!(Angle(5).approx_eq(&Angle(7), None));
    assert!(!Angle(5).approx_eq(&Angle(8), None));
}

#[test]
fn hue_angles() {
    let asin = Angle::from(10_i16);
    assert_eq!(Hue::Primary(RGBHue::Green).angle_with_asin(asin), Angle::green());
    assert_eq!(Hue::Secondary(CMYHue::Magenta).angle_with_asin(asin), Angle::magenta());
    assert_eq!(
        Hue::Sextant(SextantHue(Sextant::GreenCyan, Prop::half())).angle_with_asin(asin),
        Angle::green_cyan()
    );
    let sextant_hue = |s: Sextant| Hue::Sextant(SextantHue(s, Prop(u64::MAX / 4)));
    assert_eq!(sextant_hue(Sextant::RedYellow).angle_with_asin(asin), Angle::from(10_i16));
    assert_eq!(sextant_hue(Sextant::RedMagenta).angle_with_asin(asin), Angle::from(-10_i16));
    assert_eq!(sextant_hue(Sextant::GreenYellow).angle_with_asin(asin), Angle::from(110_i16));
    assert_eq!(sextant_hue(Sextant::GreenCyan).angle_with_asin(asin), Angle::from(130_i16));
    assert_eq!(sextant_hue(Sextant::BlueCyan).angle_with_asin(asin), Angle::from(-130_i16));
    assert_eq!(sextant_hue(Sextant::BlueMagenta).angle_with_asin(asin), Angle::from(-110_i16));
}

#[test]
fn hues_of_angles() {
    let second = Prop(u64::MAX / 4);
    assert_eq!(Hue::hue_of_angle(Angle::blue(), second), Hue::Primary(RGBHue::Blue));
    assert_eq!(Hue::hue_of_angle(Angle::cyan(), second), Hue::Secondary(CMYHue::Cyan));
    assert_eq!(
        Hue::hue_of_angle(Angle::red_yellow(), second),
        Hue::Sextant(SextantHue(Sextant::RedYellow, Prop::half()))
    );
    for (degrees, sextant, reduced) in [
        (15_i16, Sextant::RedYellow, 15_i16),
        (105, Sextant::GreenYellow, 15),
        (135, Sextant::GreenCyan, 15),
        (-15, Sextant::RedMagenta, 15),
        (-105, Sextant::BlueMagenta, 15),
        (-135, Sextant::BlueCyan, 15),
    ]
    .iter()
    {
        let angle = Angle::from(*degrees);
        assert_eq!(Hue::sextant_of_angle(angle), (*sextant, Angle::from(*reduced)));
        assert_eq!(
            Hue::hue_of_angle(angle, second),
            Hue::Sextant(SextantHue(*sextant, second))
        );
    }
}

#[test]
fn turning_to_a_hue_saves_it() {
    let mut manipulator = ColourManipulatorBuilder::new().init_hcv(&HCV::red()).build();
    let cyan = Hue::Secondary(CMYHue::Cyan);
    assert!(manipulator.can_set_hue(cyan, manipulator.rotation_policy));
    assert!(manipulator.turn_to(cyan));
    assert_eq!(manipulator.hcv.hue, Some(cyan));
    assert_eq!(manipulator.saved_hue, cyan);
}

#[test]
fn adding_then_subtracting_an_angle_gives_it_back() {
    for (a, b) in [(170_i16, 30_i16), (-170, -30), (0, 179), (-180, -180), (45, -135)].iter() {
        let (a, b) = (Angle::from(*a), Angle::from(*b));
        assert_eq!((a + b) - b, a);
        assert!((a + b).is_valid());
        assert_eq!((a + -a).0, 0);
    }
}

#[test]
fn hues_with_their_own_angles_come_back_from_them() {
    let half = Prop::half();
    let hues = [
        Hue::Primary(RGBHue::Red),
        Hue::Primary(RGBHue::Green),
        Hue::Primary(RGBHue::Blue),
        Hue::Secondary(CMYHue::Cyan),
        Hue::Secondary(CMYHue::Magenta),
        Hue::Secondary(CMYHue::Yellow),
        Hue::Sextant(SextantHue(Sextant::BlueCyan, half)),
        Hue::Sextant(SextantHue(Sextant::BlueMagenta, half)),
        Hue::Sextant(SextantHue(Sextant::RedMagenta, half)),
        Hue::Sextant(SextantHue(Sextant::RedYellow, half)),
        Hue::Sextant(SextantHue(Sextant::GreenYellow, half)),
        Hue::Sextant(SextantHue(Sextant::GreenCyan, half)),
    ];
    for hue in hues.iter() {
        let angle = hue.angle_with_asin(Angle::from(7_i16));
        assert_eq!(Hue::hue_of_angle(angle, Prop(12345)), *hue);
    }
}
