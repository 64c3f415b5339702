use colour_math::beigui::hue_wheel::{Proximity, ShapeConsts, Zoom};
use colour_math::fdrn::{FDRNumber, Prop, UFDRNumber};
use colour_math::hcv::HCV;
use colour_math::hue::{CMYHue, Hue, RGBHue};
use colour_math::manipulator::{ColourManipulatorBuilder, Outcome, SetHue, SetScalar};
use colour_math::rgb::RGB;

#[test]
fn builder_defaults() {
    let manipulator = ColourManipulatorBuilder::new().build();
    assert_eq!(manipulator.hcv(), HCV::black());
    assert!(!manipulator.clamped());
    assert_eq!(manipulator.rotation_policy(), SetHue::FavourChroma);
    assert_eq!(manipulator.saved_hue, Hue::Primary(RGBHue::Red));
    let manipulator = ColourManipulatorBuilder::new()
        .clamped(true)
        .rotation_policy(SetHue::FavourValue)
        .init_hcv(&HCV::cyan())
        .build();
    assert!(manipulator.clamped());
    assert_eq!(manipulator.rotation_policy(), SetHue::FavourValue);
    assert_eq!(manipulator.hcv(), HCV::cyan());
    assert_eq!(manipulator.saved_hue, Hue::Secondary(CMYHue::Cyan));
    let manipulator = ColourManipulatorBuilder::new()
        .init_rgb(&RGB::<u8>::yellow())
        .build();
    assert_eq!(manipulator.hcv(), HCV::yellow());
}

#[test]
fn decrement_chroma_to_grey() {
    for clamped in [true, false] {
        let mut manipulator = ColourManipulatorBuilder::new()
            .clamped(clamped)
            .init_hcv(&HCV::yellow())
            .build();
        assert_eq!(manipulator.hcv().c_prop, Prop::one());
        let mut steps = 0;
        while manipulator.decr_chroma(Prop(u64::MAX / 10)) {
            steps += 1;
            assert!(steps < 100);
        }
        assert!(manipulator.hcv().is_grey());
        assert_eq!(manipulator.saved_hue, Hue::Secondary(CMYHue::Yellow));
        assert!(!manipulator.decr_chroma(Prop(u64::MAX / 10)));
    }
}

#[test]
fn increment_chroma_of_grey_takes_saved_hue() {
    let mut manipulator = ColourManipulatorBuilder::new()
        .init_hcv(&HCV::new_grey(colour_math::attributes::Value(u64::MAX / 2)))
        .build();
    assert!(manipulator.incr_chroma(Prop(u64::MAX / 10)));
    assert_eq!(manipulator.hcv().hue, Some(Hue::Primary(RGBHue::Red)));
    let mut steps = 0;
    while manipulator.incr_chroma(Prop(u64::MAX / 10)) {
        steps += 1;
        assert!(steps < 100);
    }
    assert!(!manipulator.incr_chroma(Prop(u64::MAX / 10)));
}

#[test]
fn set_chroma_policies() {
    let mut manipulator = ColourManipulatorBuilder::new()
        .init_hcv(&HCV::red())
        .build();
    // Full chroma is only possible at the most chromatic sum.
    let dark = HCV::from([Prop::half(), Prop::zero(), Prop::zero()]);
    manipulator.set_colour(&dark);
    assert_eq!(manipulator.set_chroma(Prop::one(), SetScalar::Reject), Outcome::Rejected);
    assert_eq!(manipulator.hcv(), dark);
    assert_eq!(manipulator.set_chroma(Prop::one(), SetScalar::Clamp), Outcome::NoChange);
    assert_eq!(
        manipulator.set_chroma(Prop::one(), SetScalar::Accommodate),
        Outcome::Accommodated
    );
    assert_eq!(manipulator.hcv(), HCV::red());
}

#[test]
fn value_steps() {
    let mut manipulator = ColourManipulatorBuilder::new()
        .init_hcv(&HCV::black())
        .build();
    assert!(!manipulator.decr_value(Prop(u64::MAX / 10)));
    let mut steps = 0;
    while manipulator.incr_value(Prop(u64::MAX / 10)) {
        steps += 1;
        assert!(steps < 100);
    }
    assert_eq!(manipulator.hcv().sum, UFDRNumber::three());
    assert_eq!(manipulator.set_sum(UFDRNumber::three(), SetScalar::Clamp), Outcome::NoChange);
}

#[test]
fn set_hue_of_grey_saves_it() {
    let mut manipulator = ColourManipulatorBuilder::new()
        .init_hcv(&HCV::white())
        .build();
    manipulator.set_hue(Hue::Secondary(CMYHue::Magenta), SetHue::FavourChroma);
    assert_eq!(manipulator.hcv(), HCV::white());
    assert_eq!(manipulator.saved_hue, Hue::Secondary(CMYHue::Magenta));
    let mut manipulator = ColourManipulatorBuilder::new()
        .init_hcv(&HCV::red())
        .build();
    manipulator.set_hue(Hue::Secondary(CMYHue::Magenta), SetHue::FavourChroma);
    assert_eq!(manipulator.hcv(), HCV::magenta());
}

#[test]
fn zoom_steps() {
    let mut zoom = Zoom::default();
    assert_eq!(zoom.scale(), UFDRNumber::one());
    zoom.decr();
    assert_eq!(zoom.scale(), UFDRNumber::one());
    zoom.incr();
    assert_eq!(zoom.scale().0, u64::MAX as u128 + u64::MAX as u128 * 25 / 1000);
    for _ in 0..1000 {
        zoom.incr();
    }
    assert_eq!(zoom.scale().0, u64::MAX as u128 * 10);
}

#[test]
fn shape_measures() {
    assert_eq!(UFDRNumber::shape_side().0, u64::MAX as u128 * 6 / 100);
    assert_eq!(UFDRNumber::shape_radius(), UFDRNumber::shape_half_side());
    assert_eq!(FDRNumber::sin_45().0, FDRNumber::sqrt_2().0 / 2);
    assert!(Proximity::Enclosed(UFDRNumber(5)) < Proximity::NotEnclosed(UFDRNumber(1)));
    assert!(Proximity::NotEnclosed(UFDRNumber(1)) < Proximity::NotEnclosed(UFDRNumber(2)));
    assert!(Proximity::NotEnclosed(UFDRNumber(3)) > Proximity::Enclosed(UFDRNumber(9)));
    assert!(Proximity::Enclosed(UFDRNumber(2)) <= Proximity::Enclosed(UFDRNumber(2)));
}
