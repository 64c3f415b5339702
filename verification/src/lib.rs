//! Colour arithmetic on fixed point numbers: hues, chroma, value and warmth of
//! colours and the conversions between their red, green and blue components and a
//! hue, chroma and value description.
use vstd::prelude::*;

pub mod attributes;
pub mod beigui;
pub mod debug;
pub mod fdrn;
pub mod hcv;
pub mod hue;
pub mod image;
pub mod manipulator;
pub mod mixing;
pub mod notation;
pub mod rgb;
pub mod text_order;
pub mod urgb;
pub mod urgba;

use crate::fdrn::{prop_from_unsigned, prop_of_u8, u8_of_prop, unsigned_from_prop, Prop};
use crate::attributes::{greyness_of, Chroma, Greyness, Value, Warmth};
use crate::fdrn::{scale, UFDRNumber};
use crate::hcv::{grey_of_sum, has_rgb, hcv_of_props, spec_hcv_rgb, spec_best_foreground, spec_hcv_chroma, spec_hcv_of, HCV};
use crate::hue::{spec_rgb_ordered_triplet, spec_sum_for_max_chroma, Hue};
use crate::rgb::{props_of, rgb_of_props, RGB};
use crate::urgb::pango_text;

verus! {

/// The index of a colour component: red, green or blue.
#[derive(Clone, Copy, Debug, PartialEq, Eq, Structural, PartialOrd, Ord, Hash)]
pub enum CCI {
    Red,
    Green,
    Blue,
}

impl CCI {
    /// The component with the given index.
    pub fn from_index(index: usize) -> (res: CCI)
        requires
            index < 3,
        ensures
            index == 0 ==> res == CCI::Red,
            index == 1 ==> res == CCI::Green,
            index == 2 ==> res == CCI::Blue,
    {
        if index == 0 {
            CCI::Red
        } else if index == 1 {
            CCI::Green
        } else {
            CCI::Blue
        }
    }
}

/// An unsigned integer type that holds a light level: zero for none, the type's
/// maximum for full.
pub trait LightLevel: Copy + Sized {
    /// The level as a proportion.
    spec fn spec_to_prop(self) -> Prop;

    /// The level nearest below a proportion.
    spec fn spec_from_prop(p: Prop) -> Self;

    /// The raw level.
    spec fn spec_level(self) -> int;

    /// The raw full level.
    spec fn spec_full() -> int;

    fn to_prop(self) -> (res: Prop)
        ensures
            res == self.spec_to_prop(),
    ;

    fn from_prop(p: Prop) -> (res: Self)
        ensures
            res == Self::spec_from_prop(p),
    ;

    fn zero() -> (res: Self)
        ensures
            res.spec_level() == 0,
            res == Self::spec_from_prop(Prop(0)),
    ;

    fn one() -> (res: Self)
        ensures
            res.spec_level() == Self::spec_full(),
            res == Self::spec_from_prop(Prop(u64::MAX)),
    ;

    fn half() -> (res: Self)
        ensures
            res.spec_level() == Self::spec_full() / 2,
    ;

    fn same_level(&self, other: &Self) -> (res: bool)
        ensures
            res == (*self == *other),
    ;
}

impl LightLevel for u8 {
    open spec fn spec_to_prop(self) -> Prop {
        prop_from_unsigned(self as int, 255)
    }

    open spec fn spec_from_prop(p: Prop) -> u8 {
        unsigned_from_prop(p, 255) as u8
    }

    open spec fn spec_level(self) -> int {
        self as int
    }

    open spec fn spec_full() -> int {
        255
    }

    fn to_prop(self) -> (res: Prop) {
        prop_of_u8(self)
    }

    fn from_prop(p: Prop) -> (res: u8) {
        u8_of_prop(p)
    }

    fn zero() -> (res: u8) {
        proof {
            vstd::arithmetic::mul::lemma_mul_basics(255);
        }
        0
    }

    fn one() -> (res: u8) {
        proof {
            vstd::arithmetic::div_mod::lemma_div_by_multiple(255, crate::fdrn::scale());
            vstd::arithmetic::mul::lemma_mul_is_commutative(255, crate::fdrn::scale());
        }
        u8::MAX
    }

    fn half() -> (res: u8) {
        u8::MAX / 2
    }

    fn same_level(&self, other: &Self) -> (res: bool) {
        *self == *other
    }
}

impl LightLevel for u16 {
    open spec fn spec_to_prop(self) -> Prop {
        prop_from_unsigned(self as int, 65535)
    }

    open spec fn spec_from_prop(p: Prop) -> u16 {
        unsigned_from_prop(p, 65535) as u16
    }

    open spec fn spec_level(self) -> int {
        self as int
    }

    open spec fn spec_full() -> int {
        65535
    }

    fn to_prop(self) -> (res: Prop) {
        Prop::from(self)
    }

    fn from_prop(p: Prop) -> (res: u16) {
        u16::from(p)
    }

    fn zero() -> (res: u16) {
        proof {
            vstd::arithmetic::mul::lemma_mul_basics(65535);
        }
        0
    }

    fn one() -> (res: u16) {
        proof {
            vstd::arithmetic::div_mod::lemma_div_by_multiple(65535, crate::fdrn::scale());
            vstd::arithmetic::mul::lemma_mul_is_commutative(65535, crate::fdrn::scale());
        }
        u16::MAX
    }

    fn half() -> (res: u16) {
        u16::MAX / 2
    }

    fn same_level(&self, other: &Self) -> (res: bool) {
        *self == *other
    }
}

impl LightLevel for u32 {
    open spec fn spec_to_prop(self) -> Prop {
        prop_from_unsigned(self as int, 4294967295)
    }

    open spec fn spec_from_prop(p: Prop) -> u32 {
        unsigned_from_prop(p, 4294967295) as u32
    }

    open spec fn spec_level(self) -> int {
        self as int
    }

    open spec fn spec_full() -> int {
        4294967295
    }

    fn to_prop(self) -> (res: Prop) {
        Prop::from(self)
    }

    fn from_prop(p: Prop) -> (res: u32) {
        u32::from(p)
    }

    fn zero() -> (res: u32) {
        proof {
            vstd::arithmetic::mul::lemma_mul_basics(4294967295);
        }
        0
    }

    fn one() -> (res: u32) {
        proof {
            vstd::arithmetic::div_mod::lemma_div_by_multiple(4294967295, crate::fdrn::scale());
            vstd::arithmetic::mul::lemma_mul_is_commutative(4294967295, crate::fdrn::scale());
        }
        u32::MAX
    }

    fn half() -> (res: u32) {
        u32::MAX / 2
    }

    fn same_level(&self, other: &Self) -> (res: bool) {
        *self == *other
    }
}

impl LightLevel for u64 {
    open spec fn spec_to_prop(self) -> Prop {
        Prop(self)
    }

    open spec fn spec_from_prop(p: Prop) -> u64 {
        p.0
    }

    open spec fn spec_level(self) -> int {
        self as int
    }

    open spec fn spec_full() -> int {
        u64::MAX as int
    }

    fn to_prop(self) -> (res: Prop) {
        Prop(self)
    }

    fn from_prop(p: Prop) -> (res: u64) {
        p.0
    }

    fn zero() -> (res: u64) {
        0
    }

    fn one() -> (res: u64) {
        u64::MAX
    }

    fn half() -> (res: u64) {
        u64::MAX / 2
    }

    fn same_level(&self, other: &Self) -> (res: bool) {
        *self == *other
    }
}

/// A colour that can be described by hue, chroma and value.
pub trait ColourBasics {
    /// The colour as hue, chroma and value.
    spec fn spec_hcv(&self) -> HCV;

    fn hcv(&self) -> (res: HCV)
        ensures
            res == self.spec_hcv(),
    ;

    /// The colour's hue, if it has one.
    fn hue(&self) -> (res: Option<Hue>)
        ensures
            res == self.spec_hcv().hue,
    {
        self.hcv().hue()
    }

    /// The most chromatic colour of the colour's hue, if it has one.
    fn hue_hcv(&self) -> (res: Option<HCV>)
        ensures
            res == (match self.spec_hcv().hue {
                Some(hue) => Some(
                    HCV {
                        hue: Some(hue),
                        c_prop: Prop(u64::MAX),
                        sum: UFDRNumber(spec_sum_for_max_chroma(hue) as u128),
                    },
                ),
                None => None,
            }),
    {
        self.hcv().hue_hcv()
    }

    /// The most chromatic colour of the colour's hue as light levels, if it has one.
    fn hue_rgb<L: LightLevel>(&self) -> (res: Option<RGB<L>>)
        ensures
            res == (match self.spec_hcv().hue {
                Some(hue) => Some(
                    rgb_of_props::<L>(
                        spec_rgb_ordered_triplet(
                            hue,
                            UFDRNumber(spec_sum_for_max_chroma(hue) as u128),
                            Prop(u64::MAX),
                        ).unwrap(),
                    ),
                ),
                None => None,
            }),
    {
        match self.hcv().hue() {
            Some(hue) => Some(hue.max_chroma_rgb::<L>()),
            None => None,
        }
    }

    /// Whether the colour has no chroma.
    fn is_grey(&self) -> (res: bool)
        ensures
            res == (self.spec_hcv().c_prop.0 == 0),
    {
        self.hcv().is_grey()
    }

    /// The colour's chroma.
    fn chroma(&self) -> (res: Chroma)
        ensures
            res == spec_hcv_chroma(self.spec_hcv()),
    {
        self.hcv().chroma()
    }

    /// The colour's value: a third of its sum.
    fn value(&self) -> (res: Value)
        ensures
            res.0 == (self.spec_hcv().sum.0 / 3) as u64,
    {
        self.hcv().value()
    }

    /// The colour's greyness.
    fn greyness(&self) -> (res: Greyness)
        ensures
            res == greyness_of(spec_hcv_chroma(self.spec_hcv())),
    {
        self.hcv().greyness()
    }

    /// The colour's warmth: from its hue and chroma, or from its value for a grey.
    fn warmth(&self) -> (res: Warmth)
        requires
            self.spec_hcv().sum.0 <= 3 * scale(),
        ensures
            res == HCV::spec_warmth(self.spec_hcv()),
    {
        self.hcv().warmth()
    }

    /// The grey with the colour's value.
    fn monochrome_hcv(&self) -> (res: HCV)
        ensures
            res == grey_of_sum(UFDRNumber((((self.spec_hcv().sum.0 / 3) as u64) * 3) as u128)),
    {
        self.hcv().monochrome_hcv()
    }

    /// The grey with the colour's value as light levels.
    fn monochrome_rgb<L: LightLevel>(&self) -> (res: RGB<L>)
        ensures
            ({
                let v = Prop((self.spec_hcv().sum.0 / 3) as u64);
                res == rgb_of_props::<L>([v, v, v])
            }),
    {
        RGB::<L>::new_grey(self.value())
    }

    /// White over shades and dark greys, black over tints and light greys.
    fn best_foreground(&self) -> (res: HCV)
        ensures
            res == spec_best_foreground(
                spec_hcv_chroma(self.spec_hcv()),
                Value((self.spec_hcv().sum.0 / 3) as u64),
            ),
    {
        self.hcv().best_foreground()
    }

    /// The colour as light levels.
    fn rgb<L: LightLevel>(&self) -> (res: RGB<L>)
        requires
            has_rgb(self.spec_hcv()),
        ensures
            res == rgb_of_props::<L>(spec_hcv_rgb(self.spec_hcv()).unwrap()),
    {
        self.hcv().rgb::<L>()
    }

    /// The colour in Pango's notation: `#` and two uppercase hexadecimal digits for
    /// each eight bit component.
    fn pango_string(&self) -> (res: String)
        requires
            has_rgb(self.spec_hcv()),
        ensures
            ({
                let c = rgb_of_props::<u8>(spec_hcv_rgb(self.spec_hcv()).unwrap());
                res@ == pango_text(seq![c.0[0] as int, c.0[1] as int, c.0[2] as int])
            }),
    {
        self.hcv().pango_string()
    }
}

impl ColourBasics for HCV {
    open spec fn spec_hcv(&self) -> HCV {
        *self
    }

    fn hcv(&self) -> (res: HCV) {
        *self
    }
}

impl<L: LightLevel> ColourBasics for RGB<L> {
    open spec fn spec_hcv(&self) -> HCV {
        spec_hcv_of(props_of(*self))
    }

    fn hcv(&self) -> (res: HCV) {
        hcv_of_props(self.to_props())
    }
}

/// Scalar attributes of a colour, as proportions and as colours that show them.
pub trait ColourAttributes: ColourBasics {
    /// A scalar attribute of the colour as a proportion.
    fn scalar_attribute(&self, attr: ScalarAttribute) -> (res: Prop)
        requires
            self.spec_hcv().sum.0 <= 3 * scale(),
        ensures
            res == HCV::spec_scalar_attribute(self.spec_hcv(), attr),
    {
        self.hcv().scalar_attribute(attr)
    }

    /// A colour that shows a scalar attribute of the colour: the colour itself for its
    /// chroma or greyness, the grey of its value, or the colour of its warmth.
    fn scalar_attribute_rgb<T: LightLevel>(&self, attr: ScalarAttribute) -> (res: RGB<T>)
        requires
            (attr is Chroma || attr is Greyness) ==> has_rgb(self.spec_hcv()),
            attr is Warmth ==> self.spec_hcv().sum.0 <= 3 * scale(),
        ensures
            res == (match attr {
                ScalarAttribute::Chroma => rgb_of_props::<T>(spec_hcv_rgb(self.spec_hcv()).unwrap()),
                ScalarAttribute::Greyness => rgb_of_props::<T>(spec_hcv_rgb(self.spec_hcv()).unwrap()),
                ScalarAttribute::Value => {
                    let v = Prop((self.spec_hcv().sum.0 / 3) as u64);
                    rgb_of_props::<T>([v, v, v])
                },
                ScalarAttribute::Warmth => {
                    let w = HCV::spec_warmth(self.spec_hcv()).0;
                    rgb_of_props::<T>([Prop(w), Prop((u64::MAX - w) as u64), Prop((u64::MAX - w) as u64)])
                },
            }),
    {
        match attr {
            ScalarAttribute::Chroma => self.rgb::<T>(),
            ScalarAttribute::Greyness => self.rgb::<T>(),
            ScalarAttribute::Value => RGB::<T>::new_grey(self.value()),
            ScalarAttribute::Warmth => RGB::<T>::new_warmth_rgb(self.warmth()),
        }
    }
}

impl ColourAttributes for HCV {}

impl<L: LightLevel> ColourAttributes for RGB<L> {}

/// A colour with its basics and its scalar attributes.
pub trait ColourIfce: ColourBasics + ColourAttributes {}

impl ColourIfce for HCV {}

impl<L: LightLevel> ColourIfce for RGB<L> {}

/// The scalar attributes of a colour.
#[derive(Clone, Copy, Debug, PartialEq, Eq, Structural)]
pub enum ScalarAttribute {
    Chroma,
    Greyness,
    Value,
    Warmth,
}

} // verus!
