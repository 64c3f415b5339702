use std::str::FromStr;

use colour_math::attributes::{Chroma, Greyness, Value, Warmth};
use colour_math::fdrn::{Prop, UFDRNumber};
use colour_math::hcv::HCV;
use colour_math::hue::{CMYHue, Hue, RGBHue, Sextant, SextantHue};
use colour_math::image::{GenericImage, Size, Transformer, XY};
use colour_math::mixing::SubtractiveMixer;
use colour_math::rgb::{RGBError, RGB};
use colour_math::urgb::{URGBError, URGB};
use colour_math::urgba::{URGBAError, URGBA};
use colour_math::{ColourAttributes, ScalarAttribute};

#[test]
fn subtractive_mixing() {
    let mut subtractve_mixer = SubtractiveMixer::new();
    assert_eq!(subtractve_mixer.mixed_colour(), None);
    assert_eq!(subtractve_mixer.mixed_rgb::<u16>(), None);
    subtractve_mixer.add(&RGB::<u8>::red(), 5);
    assert_eq!(subtractve_mixer.mixed_colour(), Some(HCV::red()));
    assert_eq!(subtractve_mixer.mixed_rgb::<u16>(), Some(RGB::<u16>::red()));
    subtractve_mixer.add(&RGB::<u8>::green(), 10);
    let expected = RGB::<u16>::from([
        Prop::one() / 3,
        (Prop::one() * 2).div_i32(3).to_prop(),
        Prop::zero(),
    ]);
    assert_eq!(subtractve_mixer.mixed_colour(), Some(HCV::from(expected)));
    assert_eq!(subtractve_mixer.mixed_rgb::<u16>(), Some(expected));
    subtractve_mixer.reset();
    assert_eq!(subtractve_mixer.mixed_colour(), None);
}

#[test]
fn mixing_one_colour_gives_it_back() {
    let mut mixer = SubtractiveMixer::new();
    let colour = HCV::from([Prop(1234567), Prop(7654321), Prop(99)]);
    mixer.add(&colour, 7);
    assert_eq!(mixer.mixed_colour(), Some(colour));
}

struct ToMonochrome;

impl Transformer<RGB<u64>> for ToMonochrome {
    fn transformed_pixel(&self, pixel: RGB<u64>) -> RGB<u64> {
        pixel.monochrome_rgb()
    }

    fn transform(&self, pixel: &RGB<u64>) -> RGB<u64> {
        pixel.monochrome_rgb()
    }
}

fn six_colours() -> Vec<RGB<u64>> {
    vec![
        RGB::<u64>::blue(),
        RGB::<u64>::red(),
        RGB::<u64>::green(),
        RGB::<u64>::cyan(),
        RGB::<u64>::magenta(),
        RGB::<u64>::yellow(),
    ]
}

#[test]
fn new_image() {
    let image = GenericImage::<RGB<u64>>::new(6, 4);
    assert_eq!(
        image.size(),
        Size {
            width: 6,
            height: 4
        }
    );
    assert_eq!(image.size().area(), image.pixels.len());
    for i in 0..image.height() {
        for j in 0..image.width() {
            assert_eq!(image.pixel(i, j), RGB::<u64>::black());
        }
    }
}

#[test]
fn new_image_from_data() {
    let image = GenericImage::<RGB<u64>>::from((Size::from((3, 2)), six_colours()));
    assert_eq!(image.pixel(0, 0), RGB::<u64>::blue());
    assert_eq!(image.pixel(0, 2), RGB::<u64>::green());
    assert_eq!(image.pixel(1, 2), RGB::<u64>::yellow());
}

#[test]
fn sub_image() {
    let mut image = GenericImage::<RGB<u64>>::new(6, 4);
    assert_eq!(image.sub_image(XY::default(), Size::default()), None);
    assert_eq!(image.sub_image(XY::from((6, 0)), image.size()), None);
    assert_eq!(image.sub_image(XY::from((0, 4)), image.size()), None);
    image.set_pixel(1, 1, RGB::<u64>::yellow());
    let sub_image = image.sub_image(XY::default(), image.size()).unwrap();
    assert_eq!(image, sub_image);
    image.set_pixel(2, 2, RGB::<u64>::red());
    assert_ne!(image, sub_image);
    let sub_image = image.sub_image(XY::from((1, 1)), image.size()).unwrap();
    assert_eq!(
        sub_image.size(),
        Size::from((image.width() - 1, image.height() - 1))
    );
    assert_eq!(sub_image.pixel(0, 0), RGB::<u64>::yellow());
    assert_eq!(sub_image.pixel(1, 1), RGB::<u64>::red());
}

#[test]
fn transformed_image() {
    let image = GenericImage::<RGB<u64>>::from((Size::from((3, 2)), six_colours()));
    for pixel in image.pixels() {
        assert!(!pixel.is_grey());
    }
    let transformed = image.transformed(ToMonochrome);
    for pixel in transformed.pixels() {
        assert!(pixel.is_grey());
    }
    for i in 0..2 {
        for j in 0..3 {
            assert_eq!(image.pixel(i, j).value(), transformed.pixel(i, j).value())
        }
    }
}

#[test]
fn hcv_constants_have_their_components() {
    assert_eq!(HCV::red().to_rgb_triplet(), [Prop::one(), Prop::zero(), Prop::zero()]);
    assert_eq!(HCV::cyan().to_rgb_triplet(), [Prop::zero(), Prop::one(), Prop::one()]);
    assert_eq!(HCV::white().to_rgb_triplet(), [Prop::one(), Prop::one(), Prop::one()]);
    assert_eq!(HCV::black().to_rgb_triplet(), [Prop::zero(), Prop::zero(), Prop::zero()]);
    assert_eq!(HCV::from([Prop::one(), Prop::zero(), Prop::zero()]), HCV::red());
    assert_eq!(HCV::from([Prop::zero(), Prop::one(), Prop::one()]), HCV::cyan());
    assert!(HCV::white().is_grey());
    assert!(!HCV::red().is_grey());
    assert_eq!(HCV::new_grey(Value::one()), HCV::white());
}

#[test]
fn hcv_round_trip() {
    for hue in [
        Hue::Primary(RGBHue::Green),
        Hue::Secondary(CMYHue::Magenta),
        Hue::Sextant(SextantHue(Sextant::GreenCyan, Prop(u64::MAX / 3))),
    ] {
        let c = Prop(u64::MAX / 4);
        let (lo, hi) = hue.sum_range_for_chroma_prop(c).unwrap();
        for sum in [lo, UFDRNumber((lo.0 + hi.0) / 2), hi] {
            if let Some(Ok(_)) = hue.try_rgb_ordered_triplet(sum, c) {
                let hcv = HCV {
                    hue: Some(hue),
                    c_prop: c,
                    sum,
                };
                assert_eq!(HCV::from(hcv.to_rgb_triplet()), hcv);
            }
        }
    }
}

#[test]
fn hcv_chroma_and_value() {
    let shade = HCV::from([Prop::half(), Prop::zero(), Prop::zero()]);
    assert_eq!(shade.chroma(), Chroma::Shade(Prop::half()));
    let tint = HCV::from([Prop::one(), Prop::half(), Prop::half()]);
    assert_eq!(tint.chroma(), Chroma::Tint(Prop(u64::MAX - u64::MAX / 2)));
    assert_eq!(HCV::red().chroma(), Chroma::one());
    assert_eq!(HCV::white().chroma(), Chroma::zero());
    assert_eq!(HCV::white().value(), Value::one());
    assert_eq!(HCV::black().value(), Value::zero());
    assert_eq!(HCV::white().best_foreground(), HCV::black());
    assert_eq!(HCV::black().best_foreground(), HCV::white());
    assert_eq!(shade.best_foreground(), HCV::white());
    assert_eq!(tint.best_foreground(), HCV::black());
    // A grey's warmth is (1 - value) / 2.
    assert_eq!(HCV::black().warmth(), Warmth(u64::MAX / 2));
    assert_eq!(HCV::white().warmth(), Warmth(0));
    assert_eq!(HCV::white().scalar_attribute(ScalarAttribute::Value), Prop::one());
    assert_eq!(HCV::red().scalar_attribute(ScalarAttribute::Chroma), Prop::one());
    assert_eq!(HCV::red().scalar_attribute(ScalarAttribute::Greyness), Prop::zero());
}

#[test]
fn hcv_lightened_and_darkened() {
    assert_eq!(HCV::black().lightened(Prop::one()), HCV::white());
    assert_eq!(HCV::white().darkened(Prop::one()), HCV::black());
    assert_eq!(HCV::red().lightened(Prop::zero()), HCV::red());
    let darker = HCV::red().darkened(Prop::half());
    assert_eq!(darker.hue, Some(Hue::Primary(RGBHue::Red)));
    assert_eq!(darker.sum.0, (u64::MAX - u64::MAX / 2) as u128);
}

#[test]
fn hcv_saturated_and_greyed() {
    let grey = HCV::new_grey(Value(u64::MAX / 2));
    assert_eq!(grey.saturated(Prop::half()), grey);
    assert_eq!(grey.greyed(Prop::half()), grey);
    let greyed = HCV::red().greyed(Prop::one());
    assert!(greyed.is_grey());
    let shade = HCV::from([Prop::half(), Prop::zero(), Prop::zero()]);
    let saturated = shade.saturated(Prop::one());
    assert_eq!(saturated.c_prop, Prop::one());
    assert_eq!(saturated.hue, Some(Hue::Primary(RGBHue::Red)));
}

#[test]
fn rgb_attributes() {
    assert_eq!(RGB::<u8>::red().hue(), Some(Hue::Primary(RGBHue::Red)));
    assert_eq!(RGB::<u8>::white().hue(), None);
    assert!(RGB::<u8>::white().is_grey());
    assert_eq!(RGB::<u8>::red().chroma(), Chroma::one());
    assert_eq!(RGB::<u8>::white().value(), Value::one());
    assert_eq!(RGB::<u8>::red().sum(), UFDRNumber::one());
    assert_eq!(RGB::<u8>::red().rgb::<u16>(), RGB::<u16>::red());
    assert_eq!(RGB::<u8>::red().pango_string(), "#FF0000");
    assert_eq!(HCV::yellow().pango_string(), "#FFFF00");
    assert_eq!(RGB::<u8>::red().hcv(), HCV::red());
    assert_eq!(RGB::<u8>::from([10, 20, 30]).iter(), vec![10, 20, 30]);
    assert_eq!(RGB::<u16>::new_grey(Value::one()), RGB::<u16>::white());
    assert_eq!(
        RGB::<u8>::new_warmth_rgb(Warmth(u64::MAX)),
        RGB::<u8>::from([255, 0, 0])
    );
    assert_eq!(RGB::<u8>::red() + RGB::<u8>::green(), RGB::<u8>::yellow());
    assert_eq!(
        RGB::<u8>::from([128, 0, 0]).max_chroma_rgb(),
        RGB::<u8>::red()
    );
    assert_eq!(RGB::<u8>::black().lightened(Prop::one()), RGB::<u8>::white());
    assert_eq!(RGB::<u8>::white().darkened(Prop::one()), RGB::<u8>::black());
}

#[test]
fn hue_colours_for_chroma() {
    let red = Hue::Primary(RGBHue::Red);
    assert_eq!(red.max_chroma_rgb::<u8>(), RGB::<u8>::red());
    assert_eq!(red.max_chroma_rgb_for_sum::<u8>(UFDRNumber::zero()), None);
    assert_eq!(red.max_chroma_rgb_for_sum::<u8>(UFDRNumber::three()), None);
    assert_eq!(red.max_chroma_rgb_for_sum::<u8>(UFDRNumber::one()), Some(RGB::<u8>::red()));
    assert_eq!(red.darkest_rgb_for_chroma::<u8>(Chroma::zero()), None);
    assert_eq!(
        red.darkest_rgb_for_chroma::<u8>(Chroma::one()),
        Some(Ok(RGB::<u8>::red()))
    );
    assert_eq!(
        red.lightest_rgb_for_chroma::<u8>(Chroma::one()),
        Some(Ok(RGB::<u8>::red()))
    );
    assert_eq!(
        red.rgb_for_sum_and_chroma::<u8>(UFDRNumber::one(), Chroma::one()),
        Some(RGB::<u8>::red())
    );
    assert_eq!(
        red.try_rgb_for_sum_and_chroma_prop::<u8>(UFDRNumber::one(), Prop::one()),
        Some(Ok(RGB::<u8>::red()))
    );
}

#[test]
fn rgb16_from_text() {
    assert_eq!(
        RGB::<u16>::from_str("RGB16(red=0xF800, green=0xFA00, blue=0xF600)"),
        Ok(RGB::<u16>::from([0xF800, 0xFA00, 0xF600]))
    );
    assert_eq!(
        RGB::<u16>::from_str("RGB(1, 2, 3)"),
        Ok(RGB::<u16>::from([1, 2, 3]))
    );
    assert_eq!(
        RGB::<u16>::from_str("RGB16(70000, 2, 3)"),
        Err(RGBError::MalformedText(
            "number too large to fit in target type".to_string()
        ))
    );
    assert_eq!(
        RGB::<u16>::from_str("not a colour"),
        Err(RGBError::MalformedText("not a colour".to_string()))
    );
}

#[test]
fn urgb_text_errors() {
    match URGB::<u8>::from_str("RGB8(300, 2, 3)") {
        Err(URGBError::MalformedText(message)) => {
            assert_eq!(message, "number too large to fit in target type")
        }
        other => panic!("unexpected: {:?}", other),
    }
    match URGB::<u16>::from_str("RGB16(123456, 2, 3)") {
        Err(URGBError::MalformedText(message)) => assert_eq!(message, "RGB16(123456, 2, 3)"),
        other => panic!("unexpected: {:?}", other),
    }
    assert_eq!(
        URGBA::<u8>::from_str("RGBA8(1, 2, 3)"),
        Err(URGBAError::MalformedText("RGBA8(1, 2, 3)".to_string()))
    );
    assert_eq!(
        URGBA::<u16>::from_str("RGBA16(1, 2, 3, 99999)"),
        Err(URGBAError::MalformedText(
            "number too large to fit in target type".to_string()
        ))
    );
}

#[test]
fn urgb_notation_found_anywhere() {
    assert_eq!(
        URGB::<u8>::from_str("colour: RGB8(red=0x0A, green=0x0b, blue=0xFF) !").unwrap(),
        URGB::<u8>::from([10, 11, 255])
    );
    assert_eq!(
        URGB::<u8>::from_str("RGB(7, 8, 9)").unwrap(),
        URGB::<u8>::from([7, 8, 9])
    );
    // The hexadecimal notation is tried before the decimal one.
    assert_eq!(
        URGB::<u8>::from_str("RGB8(1, 2, 3) RGB8(0x10, 0x20, 0x30)").unwrap(),
        URGB::<u8>::from([16, 32, 48])
    );
}

#[test]
fn urgb_pango_strings() {
    assert_eq!(URGB::<u8>::from([0xF8, 0xA0, 0xF6]).pango_string(), "#F8A0F6");
    assert_eq!(URGB::<u16>::from([0xFFFF, 0x8080, 0x0000]).pango_string(), "#FF8000");
    assert_eq!(URGBA::<u8>::from([1, 2, 3, 4]).pango_string(), "#01020304");
    let urgb = URGB::<u8>::from([0x12, 0xAB, 0xCD]);
    assert_eq!(URGB::<u8>::from_str(&urgb.pango_string()).unwrap(), urgb);
    assert_eq!(
        URGB::<u16>::from([0xF800, 0xFA00, 0xF600]).to_string(),
        "URGB<u16>(red=0xF800, green=0xFA00, blue=0xF600)"
    );
    assert_eq!(
        URGBA::<u8>::from([0xFF, 0x80, 0x60, 0xF0]).to_string(),
        "RGBA8(red=0xFF, green=0x80, blue=0x60, alpha=0xF0)"
    );
}

#[test]
fn urgb_constants() {
    assert_eq!(URGB::<u8>::red(), URGB::<u8>::from([255, 0, 0]));
    assert_eq!(URGB::<u8>::white(), URGB::<u8>::from([0, 0, 0]));
    assert_eq!(URGB::<u8>::black(), URGB::<u8>::from([255, 255, 255]));
    assert_eq!(URGBA::<u16>::cyan(), URGBA::<u16>::from([0, 65535, 65535, 65535]));
    assert_eq!(URGB::<u8>::from([1, 2, 3]).iter(), vec![1, 2, 3]);
    assert_eq!(URGBA::<u8>::from([1, 2, 3, 4]).iter(), vec![1, 2, 3, 4]);
}

#[test]
fn width_conversions_round_to_nearest() {
    // Narrowing rounds to the nearest as going through floating point does.
    for v in 0..=u16::MAX {
        let narrowed = URGB::<u8>::from(&URGB::<u16>::from([v, v, v]));
        let through_float = ((v as f64 / 65535.0) * 255.0).round() as u8;
        assert_eq!(narrowed.0[0], through_float);
    }
    for v in 0..=u8::MAX {
        let widened = URGB::<u16>::from(&URGB::<u8>::from([v, v, v]));
        assert_eq!(widened.0[0] as u32, v as u32 * 257);
        let back = URGB::<u8>::from(&widened);
        assert_eq!(back.0[0], v);
    }
}

#[test]
fn chroma_and_greyness_order() {
    assert!(Chroma::Shade(Prop(5)) < Chroma::Tint(Prop(1)));
    assert!(Chroma::Tint(Prop(5)) < Chroma::Neither(Prop(0)));
    assert!(Chroma::Shade(Prop(1)) < Chroma::Shade(Prop(2)));
    assert!(Chroma::Neither(Prop(3)) > Chroma::Shade(Prop(9)));
    assert_eq!(Chroma::Tint(Prop(7)).partial_cmp(&Chroma::Tint(Prop(7))), Some(std::cmp::Ordering::Equal));
    assert!(Greyness::Shade(Prop(5)) < Greyness::Tint(Prop(1)));
    assert!(Greyness::Tint(Prop(2)) > Greyness::Tint(Prop(1)));
    assert!(Greyness::Neither(Prop(0)) > Greyness::Tint(Prop(9)));
}

#[test]
fn turning_a_colour_to_another_hue() {
    assert_eq!(HCV::red().turned_to(Hue::Secondary(CMYHue::Cyan)), HCV::cyan());
    let grey = HCV::new_grey(Value::one().div_i32(2));
    assert_eq!(grey.turned_to(Hue::Primary(RGBHue::Green)), grey);
    assert_eq!(HCV::blue().turned_to(Hue::Primary(RGBHue::Red)), HCV::red());
}

fn basics_of<C: colour_math::ColourBasics>(colour: &C) -> (Option<Hue>, Chroma, Greyness, Value, Warmth, bool, HCV, HCV) {
    (
        colour.hue(),
        colour.chroma(),
        colour.greyness(),
        colour.value(),
        colour.warmth(),
        colour.is_grey(),
        colour.monochrome_hcv(),
        colour.best_foreground(),
    )
}

#[test]
fn colour_basics_agree_for_both_descriptions() {
    let rgb = RGB::<u8>::from([Prop::one(), Prop::one() / 2, Prop::zero()]);
    let hcv = HCV::from(rgb);
    let from_rgb = basics_of(&rgb);
    assert_eq!(from_rgb, basics_of(&hcv));
    assert_eq!(from_rgb.0, rgb.hue());
    assert_eq!(from_rgb.1, rgb.chroma());
    assert!(!from_rgb.5);
    assert_eq!(from_rgb.7, HCV::white());
    assert_eq!(colour_math::ColourBasics::pango_string(&hcv), rgb.pango_string());
    assert_eq!(colour_math::ColourBasics::pango_string(&HCV::red()), "#FF0000".to_string());
    assert_eq!(colour_math::ColourBasics::rgb::<u8>(&hcv), rgb);
    assert_eq!(colour_math::ColourBasics::hue_hcv(&HCV::red()), Some(HCV::red()));
    assert_eq!(colour_math::ColourBasics::hue_rgb::<u8>(&HCV::red()), Some(RGB::<u8>::red()));
    assert_eq!(colour_math::ColourBasics::hue_rgb::<u8>(&HCV::medium_grey()), None);
    assert_eq!(
        colour_math::ColourBasics::monochrome_rgb::<u8>(&RGB::<u8>::white()),
        RGB::<u8>::white()
    );
    let grey = basics_of(&HCV::black());
    assert!(grey.5);
    assert_eq!(grey.0, None);
    assert_eq!(grey.7, HCV::white());
}

#[test]
fn scalar_attributes_through_the_trait() {
    let red = HCV::red();
    assert_eq!(ColourAttributes::scalar_attribute(&red, ScalarAttribute::Chroma), Prop::one());
    assert_eq!(ColourAttributes::scalar_attribute(&red, ScalarAttribute::Greyness), Prop::zero());
    assert_eq!(
        ColourAttributes::scalar_attribute_rgb::<u8>(&red, ScalarAttribute::Chroma),
        RGB::<u8>::red()
    );
    assert_eq!(
        ColourAttributes::scalar_attribute_rgb::<u8>(&RGB::<u8>::white(), ScalarAttribute::Value),
        RGB::<u8>::white()
    );
    assert_eq!(
        ColourAttributes::scalar_attribute_rgb::<u8>(&HCV::black(), ScalarAttribute::Value),
        RGB::<u8>::black()
    );
    let warm = ColourAttributes::scalar_attribute_rgb::<u8>(&red, ScalarAttribute::Warmth);
    let warmth = red.warmth();
    assert_eq!(warm, RGB::<u8>::new_warmth_rgb(warmth));
    assert_eq!(
        ColourAttributes::scalar_attribute(&RGB::<u8>::cyan(), ScalarAttribute::Value),
        RGB::<u8>::cyan().scalar_attribute(ScalarAttribute::Value)
    );
}

#[test]
fn valid_colours_lie_in_their_sum_ranges() {
    for rgb in six_colours().iter().chain([RGB::<u64>::from([Prop(u64::MAX / 3), Prop(u64::MAX / 7), Prop(9)])].iter()) {
        let hcv = HCV::from(*rgb);
        let (lo, hi) = hcv.sum_range_for_current_chroma();
        assert!(lo <= hcv.sum && hcv.sum <= hi, "{:?} {:?} {:?}", hcv, lo, hi);
    }
    let (lo, hi) = HCV::medium_grey().sum_range_for_current_chroma();
    assert_eq!((lo, hi), (UFDRNumber::zero(), UFDRNumber::three()));
}
