//! Colours as red, green and blue light levels.
use vstd::prelude::*;

use crate::attributes::{chroma_for, greyness_for, greyness_of, warmth_calculated, Chroma, Greyness, Value, Warmth};
use crate::fdrn::{scale, Prop, UFDRNumber};
use crate::hcv::{
    darkened_component, has_rgb, hcv_with_chroma, lightened_component, saturated_c_prop,
    greyed_c_prop, hcv_of_props, spec_hcv_chroma, spec_hcv_of, spec_hcv_rgb, HCV,
};
use crate::hue::{
    rgb_max, rgb_min, rgb_sum, spec_adjusted_favouring_sum, spec_hue_of, spec_max_chroma_prop_for_sum,
    spec_rgb_ordered_triplet, spec_sum_for_max_chroma, spec_sum_range_for_chroma, spec_trim_overs,
    spec_x_dash, CMYHue, Hue, RGBHue, Sextant,
};
use crate::notation::{append_chars, hex_text, hex_text_exec, string_from_chars};
use crate::urgb::{pango_text, read_rgb, rgb16_found, text_outcome};
use crate::debug::{approx_eq_spec, ApproxEq, PropDiff};
use crate::{LightLevel, ScalarAttribute};

verus! {

/// A colour as red, green and blue light levels.
#[derive(Clone, Copy, Debug, PartialEq, Eq, Hash, Default)]
pub struct RGB<L: LightLevel>(pub [L; 3]);

/// The light levels as proportions.
pub open spec fn props_of<L: LightLevel>(rgb: RGB<L>) -> [Prop; 3] {
    [rgb.0[0].spec_to_prop(), rgb.0[1].spec_to_prop(), rgb.0[2].spec_to_prop()]
}

/// The light levels nearest below the proportions.
pub open spec fn rgb_of_props<L: LightLevel>(array: [Prop; 3]) -> RGB<L> {
    RGB([L::spec_from_prop(array[0]), L::spec_from_prop(array[1]), L::spec_from_prop(array[2])])
}

/// The chroma of red, green and blue components: zero for a grey.
pub open spec fn spec_rgb_chroma(rgb: [Prop; 3]) -> Chroma {
    match spec_hue_of(rgb) {
        Some(hue) => chroma_for(
            Prop((rgb_max(rgb) - rgb_min(rgb)) as u64),
            hue,
            UFDRNumber(rgb_sum(rgb) as u128),
        ),
        None => Chroma::Neither(Prop(0)),
    }
}

impl<L: LightLevel> From<[L; 3]> for RGB<L> {
    fn from(array: [L; 3]) -> (res: RGB<L>)
        ensures
            res.0 == array,
    {
        RGB(array)
    }
}

impl<L: LightLevel> vstd::std_specs::convert::FromSpecImpl<[L; 3]> for RGB<L> {
    open spec fn obeys_from_spec() -> bool {
        true
    }

    open spec fn from_spec(arg: [L; 3]) -> RGB<L> {
        RGB(arg)
    }
}

impl<L: LightLevel> From<RGB<L>> for [L; 3] {
    fn from(rgb: RGB<L>) -> (res: [L; 3])
        ensures
            res == rgb.0,
    {
        rgb.0
    }
}

impl<L: LightLevel> vstd::std_specs::convert::FromSpecImpl<RGB<L>> for [L; 3] {
    open spec fn obeys_from_spec() -> bool {
        true
    }

    open spec fn from_spec(arg: RGB<L>) -> [L; 3] {
        arg.0
    }
}

/// The light levels of the given proportions.
pub(crate) fn rgb_from_props<L: LightLevel>(array: [Prop; 3]) -> (res: RGB<L>)
    ensures
        res == rgb_of_props::<L>(array),
{
    RGB([L::from_prop(array[0]), L::from_prop(array[1]), L::from_prop(array[2])])
}

impl<L: LightLevel> From<[Prop; 3]> for RGB<L> {
    fn from(array: [Prop; 3]) -> (res: RGB<L>)
        ensures
            res == rgb_of_props::<L>(array),
    {
        rgb_from_props::<L>(array)
    }
}

impl<L: LightLevel> vstd::std_specs::convert::FromSpecImpl<[Prop; 3]> for RGB<L> {
    open spec fn obeys_from_spec() -> bool {
        true
    }

    open spec fn from_spec(arg: [Prop; 3]) -> RGB<L> {
        rgb_of_props::<L>(arg)
    }
}

impl<L: LightLevel> From<RGB<L>> for [Prop; 3] {
    fn from(rgb: RGB<L>) -> (res: [Prop; 3])
        ensures
            res == props_of(rgb),
    {
        rgb.to_props()
    }
}

impl<L: LightLevel> vstd::std_specs::convert::FromSpecImpl<RGB<L>> for [Prop; 3] {
    open spec fn obeys_from_spec() -> bool {
        true
    }

    open spec fn from_spec(arg: RGB<L>) -> [Prop; 3] {
        props_of(arg)
    }
}

impl<L: LightLevel> From<RGB<L>> for HCV {
    fn from(rgb: RGB<L>) -> (res: HCV)
        ensures
            res == spec_hcv_of(props_of(rgb)),
    {
        hcv_of_props(rgb.to_props())
    }
}

impl<L: LightLevel> vstd::std_specs::convert::FromSpecImpl<RGB<L>> for HCV {
    open spec fn obeys_from_spec() -> bool {
        true
    }

    open spec fn from_spec(arg: RGB<L>) -> HCV {
        spec_hcv_of(props_of(arg))
    }
}

/// The components of the sum of two colours, each truncated to 64 bits.
pub open spec fn added_component(a: Prop, b: Prop) -> Prop {
    Prop((a.0 + b.0) as u64)
}

impl<L: LightLevel> core::ops::Add for RGB<L> {
    type Output = RGB<L>;

    fn add(self, rhs: RGB<L>) -> (res: RGB<L>)
        ensures
            res == RGB::<L>::spec_add(self, rhs),
    {
        let a = self.to_props();
        let b = rhs.to_props();
        rgb_from_props::<L>(
            [
                Prop(a[0].add_prop(b[0]).0 as u64),
                Prop(a[1].add_prop(b[1]).0 as u64),
                Prop(a[2].add_prop(b[2]).0 as u64),
            ],
        )
    }
}

impl<L: LightLevel> vstd::std_specs::ops::AddSpecImpl for RGB<L> {
    open spec fn obeys_add_spec() -> bool {
        true
    }

    open spec fn add_req(self, rhs: RGB<L>) -> bool {
        true
    }

    open spec fn add_spec(self, rhs: RGB<L>) -> RGB<L> {
        RGB::<L>::spec_add(self, rhs)
    }
}

impl<L: LightLevel + ApproxEq> RGB<L> {
    /// Whether each light level is approximately equal to the other colour's.
    pub fn approx_eq(&self, other: &Self, max_diff: Option<Prop>) -> (res: bool)
        requires
            forall|i: int| 0 <= i < 3 ==> #[trigger] self.0[i].prop_diff_req(&other.0[i]),
        ensures
            res == (forall|i: int|
                0 <= i < 3 ==> approx_eq_spec(
                    self.0[i] == other.0[i],
                    #[trigger] self.0[i].spec_prop_diff(&other.0[i]),
                    max_diff,
                )),
    {
        let mut i: usize = 0;
        while i < 3
            invariant
                0 <= i <= 3,
                forall|i: int| 0 <= i < 3 ==> #[trigger] self.0[i].prop_diff_req(&other.0[i]),
                forall|j: int|
                    0 <= j < i ==> approx_eq_spec(
                        self.0[j] == other.0[j],
                        #[trigger] self.0[j].spec_prop_diff(&other.0[j]),
                        max_diff,
                    ),
            decreases 3 - i,
        {
            if !self.0[i].approx_eq(&other.0[i], max_diff) {
                return false;
            }
            i += 1;
        }
        true
    }
}

impl<L: LightLevel> RGB<L> {
    /// The sum of two colours, component by component.
    pub open spec fn spec_add(a: RGB<L>, b: RGB<L>) -> RGB<L> {
        let pa = props_of(a);
        let pb = props_of(b);
        rgb_of_props::<L>(
            [
                added_component(pa[0], pb[0]),
                added_component(pa[1], pb[1]),
                added_component(pa[2], pb[2]),
            ],
        )
    }

    /// The light levels as proportions.
    pub fn to_props(&self) -> (res: [Prop; 3])
        ensures
            res == props_of(*self),
    {
        [self.0[0].to_prop(), self.0[1].to_prop(), self.0[2].to_prop()]
    }

    /// The grey with the given value.
    pub fn new_grey(value: Value) -> (res: RGB<L>)
        ensures
            res == rgb_of_props::<L>([Prop(value.0), Prop(value.0), Prop(value.0)]),
    {
        let value = Prop(value.0);
        rgb_from_props::<L>([value, value, value])
    }

    /// The colour that shows a warmth: the warmth in red, its complement in green and
    /// blue.
    pub fn new_warmth_rgb(warmth: Warmth) -> (res: RGB<L>)
        ensures
            res == rgb_of_props::<L>(
                [Prop(warmth.0), Prop((u64::MAX - warmth.0) as u64), Prop((u64::MAX - warmth.0) as u64)],
            ),
    {
        let prop = Prop(warmth.0);
        let compl = Prop::one().sub_prop(prop);
        rgb_from_props::<L>([prop, compl, compl])
    }

    /// The sum of the components.
    pub fn sum(&self) -> (res: UFDRNumber)
        ensures
            res.0 == rgb_sum(props_of(*self)),
    {
        let props = self.to_props();
        props[0].add_prop(props[1]).add_prop(props[2])
    }

    /// The light levels, red first.
    pub fn iter(&self) -> (res: Vec<L>)
        ensures
            res@ == seq![self.0[0], self.0[1], self.0[2]],
    {
        let mut res: Vec<L> = Vec::new();
        res.push(self.0[0]);
        res.push(self.0[1]);
        res.push(self.0[2]);
        assert(res@ =~= seq![self.0[0], self.0[1], self.0[2]]);
        res
    }

    /// The colour's hue, if it has one.
    pub fn hue(&self) -> (res: Option<Hue>)
        ensures
            res == spec_hue_of(props_of(*self)),
    {
        match Hue::try_from(self.to_props()) {
            Ok(hue) => Some(hue),
            Err(_) => None,
        }
    }

    /// Whether the three light levels are equal.
    pub fn is_grey(&self) -> (res: bool)
        ensures
            res == (self.0[0] == self.0[1] && self.0[1] == self.0[2]),
    {
        self.0[0].same_level(&self.0[1]) && self.0[1].same_level(&self.0[2])
    }

    /// The colour's chroma: the spread of its components, tagged as a shade, a tint
    /// or neither for its hue.
    pub fn chroma(&self) -> (res: Chroma)
        ensures
            res == spec_rgb_chroma(props_of(*self)),
    {
        let array = self.to_props();
        let red = array[0];
        let green = array[1];
        let blue = array[2];
        match Hue::try_from(array) {
            Ok(hue) => {
                let sum = self.sum();
                let c_prop = match hue {
                    Hue::Primary(RGBHue::Red) => red.sub_prop(blue),
                    Hue::Primary(RGBHue::Green) => green.sub_prop(red),
                    Hue::Primary(RGBHue::Blue) => blue.sub_prop(green),
                    Hue::Secondary(CMYHue::Cyan) => blue.sub_prop(red),
                    Hue::Secondary(CMYHue::Magenta) => red.sub_prop(green),
                    Hue::Secondary(CMYHue::Yellow) => green.sub_prop(blue),
                    Hue::Sextant(sextant_hue) => match sextant_hue.sextant() {
                        Sextant::RedYellow => red.sub_prop(blue),
                        Sextant::RedMagenta => red.sub_prop(green),
                        Sextant::GreenYellow => green.sub_prop(blue),
                        Sextant::GreenCyan => green.sub_prop(red),
                        Sextant::BlueCyan => blue.sub_prop(red),
                        Sextant::BlueMagenta => blue.sub_prop(green),
                    },
                };
                Chroma::from((c_prop, hue, sum))
            },
            Err(_) => Chroma::zero(),
        }
    }

    /// The colour's chroma proportion: the spread of its components.
    pub fn chroma_prop(&self) -> (res: Prop)
        ensures
            res.0 == rgb_max(props_of(*self)) - rgb_min(props_of(*self)),
    {
        HCV::from(self.to_props()).chroma_prop()
    }

    /// The colour's greyness: the complement of its chroma.
    pub fn greyness(&self) -> (res: Greyness)
        ensures
            res == greyness_of(spec_rgb_chroma(props_of(*self))),
    {
        greyness_for(self.chroma())
    }

    /// The colour's value: a third of the sum of its components.
    pub fn value(&self) -> (res: Value)
        ensures
            res.0 == (rgb_sum(props_of(*self)) / 3) as u64,
    {
        Value::from(self.sum().div_i32(3))
    }

    /// The colour's warmth: from its hue and chroma, or from its value for a grey.
    pub fn warmth(&self) -> (res: Warmth)
        ensures
            res == HCV::spec_warmth(spec_hcv_of(props_of(*self))),
    {
        let hcv = HCV::from(self.to_props());
        hcv.warmth()
    }

    /// The colour as hue, chroma and value.
    pub fn hcv(&self) -> (res: HCV)
        ensures
            res == spec_hcv_of(props_of(*self)),
    {
        HCV::from(self.to_props())
    }

    /// The colour with light levels of another type.
    pub fn rgb<M: LightLevel>(&self) -> (res: RGB<M>)
        ensures
            res == rgb_of_props::<M>(props_of(*self)),
    {
        RGB::<M>::from(self.to_props())
    }

    /// The grey with the colour's value.
    pub fn monochrome_rgb(&self) -> (res: RGB<L>)
        ensures
            res == ({
                let v = Prop((rgb_sum(props_of(*self)) / 3) as u64);
                rgb_of_props::<L>([v, v, v])
            }),
    {
        RGB::<L>::new_grey(self.value())
    }

    /// The most chromatic colour of the colour's hue, or the grey with its value.
    pub fn max_chroma_rgb(&self) -> (res: RGB<L>)
        ensures
            res == (match spec_hue_of(props_of(*self)) {
                Some(hue) => rgb_of_props::<L>(
                    spec_rgb_ordered_triplet(
                        hue,
                        UFDRNumber(spec_sum_for_max_chroma(hue) as u128),
                        Prop(u64::MAX),
                    ).unwrap(),
                ),
                None => {
                    let v = Prop((rgb_sum(props_of(*self)) / 3) as u64);
                    rgb_of_props::<L>([v, v, v])
                },
            }),
    {
        match self.hue() {
            Some(hue) => hue.max_chroma_rgb::<L>(),
            None => RGB::<L>::new_grey(self.value()),
        }
    }

    /// The colour with each component moved towards one by `prop`.
    pub fn lightened(&self, prop: Prop) -> (res: RGB<L>)
        ensures
            ({
                let a = props_of(*self);
                res == rgb_of_props::<L>(
                    [
                        lightened_component(a[0], prop),
                        lightened_component(a[1], prop),
                        lightened_component(a[2], prop),
                    ],
                )
            }),
    {
        let compl = Prop::one().sub_prop(prop);
        let array = self.to_props();
        rgb_from_props::<L>(
            [
                crate::hcv::lighten(array[0], compl, prop),
                crate::hcv::lighten(array[1], compl, prop),
                crate::hcv::lighten(array[2], compl, prop),
            ],
        )
    }

    /// The colour with each component moved towards zero by `prop`.
    pub fn darkened(&self, prop: Prop) -> (res: RGB<L>)
        ensures
            ({
                let a = props_of(*self);
                res == rgb_of_props::<L>(
                    [
                        darkened_component(a[0], prop),
                        darkened_component(a[1], prop),
                        darkened_component(a[2], prop),
                    ],
                )
            }),
    {
        let compl = Prop::one().sub_prop(prop);
        let array = self.to_props();
        rgb_from_props::<L>([array[0].mul_prop(compl), array[1].mul_prop(compl), array[2].mul_prop(compl)])
    }

    /// The colour with its chroma proportion moved towards one by `prop`, through its
    /// hue, chroma and value.
    pub fn saturated(&self, prop: Prop) -> (res: RGB<L>)
        requires
            has_rgb(HCV::spec_saturated(spec_hcv_of(props_of(*self)), prop)),
        ensures
            res == rgb_of_props::<L>(
                spec_hcv_rgb(HCV::spec_saturated(spec_hcv_of(props_of(*self)), prop)).unwrap(),
            ),
    {
        let hcv = self.hcv().saturated(prop);
        hcv.rgb::<L>()
    }

    /// The colour with its chroma proportion moved towards zero by `prop`, through its
    /// hue, chroma and value.
    pub fn greyed(&self, prop: Prop) -> (res: RGB<L>)
        requires
            has_rgb(HCV::spec_greyed(spec_hcv_of(props_of(*self)), prop)),
        ensures
            res == rgb_of_props::<L>(
                spec_hcv_rgb(HCV::spec_greyed(spec_hcv_of(props_of(*self)), prop)).unwrap(),
            ),
    {
        let hcv = self.hcv().greyed(prop);
        hcv.rgb::<L>()
    }

    /// The colour's value as a scalar attribute, or another of its scalar attributes.
    pub fn scalar_attribute(&self, attr: ScalarAttribute) -> (res: Prop)
        ensures
            res == HCV::spec_scalar_attribute(spec_hcv_of(props_of(*self)), attr),
    {
        self.hcv().scalar_attribute(attr)
    }

    /// The colour in Pango's notation: `#` and two uppercase hexadecimal digits for
    /// each eight bit component.
    pub fn pango_string(&self) -> (res: String)
        ensures
            ({
                let c = rgb_of_props::<u8>(props_of(*self));
                res@ == pango_text(seq![c.0[0] as int, c.0[1] as int, c.0[2] as int])
            }),
    {
        pango_string_of(self.rgb::<u8>())
    }

    pub fn red() -> (res: RGB<L>)
        ensures
            res.0[0].spec_level() == L::spec_full() && res.0[1].spec_level() == 0
                && res.0[2].spec_level() == 0,
    {
        RGB([L::one(), L::zero(), L::zero()])
    }

    pub fn green() -> (res: RGB<L>)
        ensures
            res.0[0].spec_level() == 0 && res.0[1].spec_level() == L::spec_full()
                && res.0[2].spec_level() == 0,
    {
        RGB([L::zero(), L::one(), L::zero()])
    }

    pub fn blue() -> (res: RGB<L>)
        ensures
            res.0[0].spec_level() == 0 && res.0[1].spec_level() == 0 && res.0[2].spec_level()
                == L::spec_full(),
    {
        RGB([L::zero(), L::zero(), L::one()])
    }

    pub fn cyan() -> (res: RGB<L>)
        ensures
            res.0[0].spec_level() == 0 && res.0[1].spec_level() == L::spec_full()
                && res.0[2].spec_level() == L::spec_full(),
    {
        RGB([L::zero(), L::one(), L::one()])
    }

    pub fn magenta() -> (res: RGB<L>)
        ensures
            res.0[0].spec_level() == L::spec_full() && res.0[1].spec_level() == 0
                && res.0[2].spec_level() == L::spec_full(),
    {
        RGB([L::one(), L::zero(), L::one()])
    }

    pub fn yellow() -> (res: RGB<L>)
        ensures
            res.0[0].spec_level() == L::spec_full() && res.0[1].spec_level() == L::spec_full()
                && res.0[2].spec_level() == 0,
    {
        RGB([L::one(), L::one(), L::zero()])
    }

    pub fn blue_cyan() -> (res: RGB<L>)
        ensures
            res.0[0].spec_level() == 0 && res.0[1].spec_level() == L::spec_full() / 2
                && res.0[2].spec_level() == L::spec_full(),
    {
        RGB([L::zero(), L::half(), L::one()])
    }

    pub fn blue_magenta() -> (res: RGB<L>)
        ensures
            res.0[0].spec_level() == L::spec_full() / 2 && res.0[1].spec_level() == 0
                && res.0[2].spec_level() == L::spec_full(),
    {
        RGB([L::half(), L::zero(), L::one()])
    }

    pub fn red_magenta() -> (res: RGB<L>)
        ensures
            res.0[0].spec_level() == L::spec_full() && res.0[1].spec_level() == 0
                && res.0[2].spec_level() == L::spec_full() / 2,
    {
        RGB([L::one(), L::zero(), L::half()])
    }

    pub fn red_yellow() -> (res: RGB<L>)
        ensures
            res.0[0].spec_level() == L::spec_full() && res.0[1].spec_level() == L::spec_full() / 2
                && res.0[2].spec_level() == 0,
    {
        RGB([L::one(), L::half(), L::zero()])
    }

    pub fn green_yellow() -> (res: RGB<L>)
        ensures
            res.0[0].spec_level() == L::spec_full() / 2 && res.0[1].spec_level() == L::spec_full()
                && res.0[2].spec_level() == 0,
    {
        RGB([L::half(), L::one(), L::zero()])
    }

    pub fn green_cyan() -> (res: RGB<L>)
        ensures
            res.0[0].spec_level() == 0 && res.0[1].spec_level() == L::spec_full()
                && res.0[2].spec_level() == L::spec_full() / 2,
    {
        RGB([L::zero(), L::one(), L::half()])
    }

    pub fn white() -> (res: RGB<L>)
        ensures
            res.0[0].spec_level() == L::spec_full() && res.0[1].spec_level() == L::spec_full()
                && res.0[2].spec_level() == L::spec_full(),
    {
        RGB([L::one(), L::one(), L::one()])
    }

    pub fn black() -> (res: RGB<L>)
        ensures
            res.0[0].spec_level() == 0 && res.0[1].spec_level() == 0 && res.0[2].spec_level()
                == 0,
    {
        RGB([L::zero(), L::zero(), L::zero()])
    }
}

/// `#` and two uppercase hexadecimal digits for each of three eight bit components.
fn pango_string_of(c: RGB<u8>) -> (res: String)
    ensures
        res@ == pango_text(seq![c.0[0] as int, c.0[1] as int, c.0[2] as int]),
{
    let mut text: Vec<char> = Vec::new();
    text.push('#');
    assert(text@ =~= seq!['#']);
    append_chars(&mut text, &hex_text_exec(c.0[0] as u64, 2));
    append_chars(&mut text, &hex_text_exec(c.0[1] as u64, 2));
    append_chars(&mut text, &hex_text_exec(c.0[2] as u64, 2));
    proof {
        crate::urgb::lemma_pango_text3(c.0[0] as int, c.0[1] as int, c.0[2] as int);
    }
    string_from_chars(&text)
}

impl Hue {
    /// The most chromatic colour of the hue as light levels.
    pub fn max_chroma_rgb<L: LightLevel>(&self) -> (res: RGB<L>)
        ensures
            spec_rgb_ordered_triplet(
                *self,
                UFDRNumber(spec_sum_for_max_chroma(*self) as u128),
                Prop(u64::MAX),
            ) is Some,
            res == rgb_of_props::<L>(
                spec_rgb_ordered_triplet(
                    *self,
                    UFDRNumber(spec_sum_for_max_chroma(*self) as u128),
                    Prop(u64::MAX),
                ).unwrap(),
            ),
    {
        proof {
            crate::hue::lemma_max_chroma_triplet_exists(*self);
        }
        self.max_chroma_hcv().rgb::<L>()
    }
}

/// The components of the most chromatic colour of the hue at a sum, as
/// `max_chroma_rgb_for_sum` finds them.
pub open spec fn spec_max_chroma_triplet_for_sum(hue: Hue, sum: UFDRNumber) -> Option<[Prop; 3]> {
    if sum.0 == 0 || sum.0 == 3 * scale() {
        None
    } else {
        match spec_max_chroma_prop_for_sum(hue, sum) {
            None => None,
            Some(max_c) => match spec_adjusted_favouring_sum(hue, sum, max_c) {
                None => None,
                Some((c, s)) => spec_rgb_ordered_triplet(hue, s, c),
            },
        }
    }
}

/// Components with a result that says whether they are exact, as light levels.
pub open spec fn rgb_result_of<L: LightLevel>(r: Option<Result<[Prop; 3], [Prop; 3]>>) -> Option<
    Result<RGB<L>, RGB<L>>,
> {
    match r {
        Some(Ok(t)) => Some(Ok(rgb_of_props::<L>(t))),
        Some(Err(t)) => Some(Err(rgb_of_props::<L>(t))),
        None => None,
    }
}

/// The components for a sum within the range of sums for the chroma, as
/// `rgb_for_sum_and_chroma` finds them.
pub open spec fn spec_rgb_triplet_for_sum_and_chroma(hue: Hue, sum: UFDRNumber, chroma: Chroma) -> Option<[Prop; 3]> {
    match spec_sum_range_for_chroma(hue, chroma) {
        None => None,
        Some((min_sum, max_sum)) => if sum.0 < min_sum.0 || sum.0 > max_sum.0 {
            None
        } else if crate::attributes::chroma_prop(chroma).0 == 0 {
            None
        } else {
            match spec_trim_overs(hue, sum, crate::attributes::chroma_prop(chroma)) {
                None => None,
                Some((c, s)) => spec_rgb_ordered_triplet(hue, s, c),
            }
        },
    }
}

impl Hue {
    /// The most chromatic colour of the hue with (about) the given sum, as light
    /// levels; none for black and white.
    pub fn max_chroma_rgb_for_sum<L: LightLevel>(&self, sum: UFDRNumber) -> (res: Option<RGB<L>>)
        requires
            sum.0 <= 3 * scale(),
        ensures
            res == (match spec_max_chroma_triplet_for_sum(*self, sum) {
                Some(t) => Some(rgb_of_props::<L>(t)),
                None => None,
            }),
    {
        if sum.0 == 0 || sum.0 == UFDRNumber::three().0 {
            return None;
        }
        let max_c_prop = match self.max_chroma_prop_for_sum(sum) {
            Some(c) => c,
            None => return None,
        };
        proof {
            crate::hue::lemma_adjusted_favouring_sum_bound(*self, sum, max_c_prop);
        }
        let (c_prop, new_sum) = match self.adjusted_favouring_sum(sum, max_c_prop) {
            Some(adjusted) => adjusted,
            None => return None,
        };
        match self.rgb_ordered_triplet(new_sum, c_prop) {
            Some(triplet) => Some(rgb_from_props::<L>(triplet)),
            None => None,
        }
    }

    /// The darkest colour of the hue with the chroma, exact or as near as rounding
    /// allows.
    pub fn darkest_rgb_for_chroma<L: LightLevel>(&self, chroma: Chroma) -> (res: Option<Result<RGB<L>, RGB<L>>>)
        ensures
            res == (match crate::hue::spec_min_sum_for_chroma(*self, chroma) {
                Some(sum) => rgb_result_of::<L>(
                    crate::hue::spec_try_rgb_ordered_triplet(*self, sum, crate::attributes::chroma_prop(chroma)),
                ),
                None => None,
            }),
    {
        let sum = match self.min_sum_for_chroma(chroma) {
            Some(sum) => sum,
            None => return None,
        };
        proof {
            crate::hue::lemma_chroma_sums_bound(*self, chroma);
        }
        self.try_rgb_for_sum_and_chroma_prop(sum, chroma.prop())
    }

    /// The lightest colour of the hue with the chroma, exact or as near as rounding
    /// allows.
    pub fn lightest_rgb_for_chroma<L: LightLevel>(&self, chroma: Chroma) -> (res: Option<Result<RGB<L>, RGB<L>>>)
        ensures
            res == (match crate::hue::spec_max_sum_for_chroma(*self, chroma) {
                Some(sum) => rgb_result_of::<L>(
                    crate::hue::spec_try_rgb_ordered_triplet(*self, sum, crate::attributes::chroma_prop(chroma)),
                ),
                None => None,
            }),
    {
        let sum = match self.max_sum_for_chroma(chroma) {
            Some(sum) => sum,
            None => return None,
        };
        proof {
            crate::hue::lemma_chroma_sums_bound(*self, chroma);
        }
        self.try_rgb_for_sum_and_chroma_prop(sum, chroma.prop())
    }

    /// The colour of the hue with the sum and chroma proportion, exact or as near as
    /// rounding allows.
    pub fn try_rgb_for_sum_and_chroma_prop<L: LightLevel>(&self, sum: UFDRNumber, c_prop: Prop) -> (res: Option<
        Result<RGB<L>, RGB<L>>,
    >)
        requires
            sum.0 <= 3 * scale(),
        ensures
            res == rgb_result_of::<L>(crate::hue::spec_try_rgb_ordered_triplet(*self, sum, c_prop)),
    {
        match self.try_rgb_ordered_triplet(sum, c_prop) {
            Some(Ok(triplet)) => Some(Ok(rgb_from_props::<L>(triplet))),
            Some(Err(triplet)) => Some(Err(rgb_from_props::<L>(triplet))),
            None => None,
        }
    }

    /// The colour of the hue with the chroma and a sum within the chroma's range.
    pub fn rgb_for_sum_and_chroma<L: LightLevel>(&self, sum: UFDRNumber, chroma: Chroma) -> (res: Option<RGB<L>>)
        requires
            sum.0 <= 3 * scale(),
        ensures
            res == (match spec_rgb_triplet_for_sum_and_chroma(*self, sum, chroma) {
                Some(t) => Some(rgb_of_props::<L>(t)),
                None => None,
            }),
    {
        let (min_sum, max_sum) = match self.sum_range_for_chroma(chroma) {
            Some(range) => range,
            None => return None,
        };
        if sum.0 < min_sum.0 || sum.0 > max_sum.0 {
            return None;
        }
        let c_prop = chroma.prop();
        if c_prop.0 == 0 {
            return None;
        }
        proof {
            crate::hue::lemma_trim_overs_sum_bound(*self, sum, c_prop);
        }
        let (c_prop, new_sum) = match self.trim_overs(sum, c_prop) {
            Some(trimmed) => trimmed,
            None => return None,
        };
        match self.rgb_ordered_triplet(new_sum, c_prop) {
            Some(triplet) => Some(rgb_from_props::<L>(triplet)),
            None => None,
        }
    }
}

impl HCV {
    /// The warmth of a colour: from its hue and chroma, or from its value for a grey.
    pub open spec fn spec_warmth(hcv: HCV) -> Warmth {
        match hcv.hue {
            Some(hue) => Warmth(
                warmth_calculated(spec_hcv_chroma(hcv), spec_x_dash(hue, spec_hcv_chroma(hcv))) as u64,
            ),
            None => Warmth(((3 * scale() - hcv.sum.0) / 6) as u64),
        }
    }

    /// What `saturated` gives.
    pub open spec fn spec_saturated(hcv: HCV, prop: Prop) -> HCV {
        match hcv.hue {
            Some(hue) => hcv_with_chroma(hue, hcv.sum, saturated_c_prop(hcv.c_prop, prop)),
            None => hcv,
        }
    }

    /// What `greyed` gives.
    pub open spec fn spec_greyed(hcv: HCV, prop: Prop) -> HCV {
        match hcv.hue {
            Some(hue) => hcv_with_chroma(hue, hcv.sum, greyed_c_prop(hcv.c_prop, prop)),
            None => hcv,
        }
    }

    /// A scalar attribute of the colour as a proportion.
    pub open spec fn spec_scalar_attribute(hcv: HCV, attr: ScalarAttribute) -> Prop {
        match attr {
            ScalarAttribute::Chroma => crate::attributes::chroma_prop(spec_hcv_chroma(hcv)),
            ScalarAttribute::Greyness => Prop(
                (u64::MAX - crate::attributes::chroma_prop(spec_hcv_chroma(hcv)).0) as u64,
            ),
            ScalarAttribute::Value => Prop((hcv.sum.0 / 3) as u64),
            ScalarAttribute::Warmth => Prop(HCV::spec_warmth(hcv).0),
        }
    }

    /// The colour as light levels.
    pub fn rgb<L: LightLevel>(&self) -> (res: RGB<L>)
        requires
            has_rgb(*self),
        ensures
            res == rgb_of_props::<L>(spec_hcv_rgb(*self).unwrap()),
    {
        rgb_from_props::<L>(self.to_rgb_triplet())
    }

    /// The colour in Pango's notation: `#` and two uppercase hexadecimal digits for
    /// each eight bit component.
    pub fn pango_string(&self) -> (res: String)
        requires
            has_rgb(*self),
        ensures
            ({
                let c = rgb_of_props::<u8>(spec_hcv_rgb(*self).unwrap());
                res@ == pango_text(seq![c.0[0] as int, c.0[1] as int, c.0[2] as int])
            }),
    {
        pango_string_of(self.rgb::<u8>())
    }

    /// A scalar attribute of the colour as a proportion.
    pub fn scalar_attribute(&self, attr: ScalarAttribute) -> (res: Prop)
        requires
            self.sum.0 <= 3 * scale(),
        ensures
            res == HCV::spec_scalar_attribute(*self, attr),
    {
        match attr {
            ScalarAttribute::Chroma => self.chroma().prop(),
            ScalarAttribute::Greyness => Prop::one().sub_prop(self.chroma().prop()),
            ScalarAttribute::Value => Prop(self.value().0),
            ScalarAttribute::Warmth => Prop(self.warmth().0),
        }
    }
}

/// An error in the text of a colour.
#[derive(Debug, PartialEq, Eq)]
pub enum RGBError {
    MalformedText(String),
}

impl RGB<u16> {
    /// Reads a colour from a text in the first notation that matches anywhere in it:
    /// `RGB16(red=0xF800, green=0xFA00, blue=0xF600)` (the size and the labels
    /// optional), then `RGB16(63488, 64000, 62976)`.
    pub fn from_text(text: &str) -> (res: Result<RGB<u16>, RGBError>)
        ensures
            match text_outcome(text@, rgb16_found(text@), 65535) {
                Ok(vs) => res matches Ok(rgb) && rgb.0[0] == vs[0] && rgb.0[1] == vs[1] && rgb.0[2]
                    == vs[2],
                Err(message) => res matches Err(RGBError::MalformedText(m)) && m@ == message,
            },
    {
        match read_rgb(text, true) {
            Ok(vs) => Ok(RGB([vs[0] as u16, vs[1] as u16, vs[2] as u16])),
            Err(message) => Err(RGBError::MalformedText(message)),
        }
    }
}

impl core::str::FromStr for RGB<u16> {
    type Err = RGBError;

    fn from_str(text: &str) -> (res: Result<RGB<u16>, RGBError>)
        ensures
            match text_outcome(text@, rgb16_found(text@), 65535) {
                Ok(vs) => res matches Ok(rgb) && rgb.0[0] == vs[0] && rgb.0[1] == vs[1] && rgb.0[2]
                    == vs[2],
                Err(message) => res matches Err(RGBError::MalformedText(m)) && m@ == message,
            },
    {
        RGB::<u16>::from_text(text)
    }
}

} // verus!
