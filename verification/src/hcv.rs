//! Colours described by hue, chroma proportion and sum of components.
use vstd::prelude::*;
use vstd::arithmetic::div_mod::{lemma_div_multiples_vanish, lemma_fundamental_div_mod, lemma_mod_pos_bound};
use vstd::arithmetic::mul::lemma_mul_is_commutative;

use crate::attributes::{chroma_prop, greyness_for, greyness_of, warmth_calculated, Chroma, Greyness, Value, Warmth};
use crate::fdrn::{scale, Prop, UFDRNumber};
use crate::hue::{
    is_degenerate_sextant, lemma_sextant_tint_sum_bound, lemma_try_rgb_ordered_triplet_round_trip,
    rgb_max, rgb_min, rgb_sum, scaled_min_sum, sextant_tint_span,
    spec_adjusted_favouring_chroma, spec_hue_of, spec_max_chroma_prop_for_sum,
    spec_rgb_ordered_triplet, spec_sum_and_chroma_prop_are_compatible, spec_sum_for_max_chroma,
    spec_sum_range_for_chroma, spec_sum_range_for_chroma_prop, spec_try_rgb_ordered_triplet,
    spec_x_dash, CMYHue, Hue, RGBHue, Sextant, SextantHue,
};

verus! {

/// A colour described by its hue (none for greys), its chroma proportion and the sum
/// of its red, green and blue components.
#[derive(Clone, Copy, Debug, PartialEq, Eq, Structural)]
pub struct HCV {
    pub hue: Option<Hue>,
    pub c_prop: Prop,
    pub sum: UFDRNumber,
}

impl Default for HCV {
    /// Black.
    fn default() -> (res: HCV)
        ensures
            res == grey_of_sum(UFDRNumber(0)),
    {
        HCV { hue: None, c_prop: Prop::zero(), sum: UFDRNumber::zero() }
    }
}

/// A well formed colour: a hued colour's sum and chroma proportion suit its hue; a
/// grey has no chroma and a sum that is a multiple of three no greater than three.
pub open spec fn hcv_is_valid(hcv: HCV) -> bool {
    match hcv.hue {
        Some(hue) => spec_sum_and_chroma_prop_are_compatible(hue, hcv.sum, hcv.c_prop),
        None => hcv.c_prop.0 == 0 && hcv.sum.0 <= 3 * scale() && hcv.sum.0 % 3 == 0,
    }
}

/// The colour with the given red, green and blue components: their hue, the spread
/// between the largest and the smallest, and their sum.
pub open spec fn spec_hcv_of(rgb: [Prop; 3]) -> HCV {
    HCV {
        hue: spec_hue_of(rgb),
        c_prop: Prop((rgb_max(rgb) - rgb_min(rgb)) as u64),
        sum: UFDRNumber(rgb_sum(rgb) as u128),
    }
}

/// A grey with the given sum of components.
pub open spec fn grey_of_sum(sum: UFDRNumber) -> HCV {
    HCV { hue: None, c_prop: Prop(0), sum }
}

/// What `HCV::try_new` gives: the colour itself where the components for the hue, sum
/// and chroma proportion are exact, and the colour of the nearest components as an
/// error where rounding moved them off the hue.
pub open spec fn spec_try_new(hue_data: Option<(Hue, Prop)>, sum: UFDRNumber) -> Result<HCV, HCV> {
    match hue_data {
        Some((hue, c_prop)) => match spec_try_rgb_ordered_triplet(hue, sum, c_prop) {
            Some(Ok(_)) => Ok(HCV { hue: Some(hue), c_prop, sum }),
            Some(Err(rgb)) => Err(spec_hcv_of(rgb)),
            None => Ok(grey_of_sum(sum)),
        },
        None => Ok(grey_of_sum(sum)),
    }
}

/// The chroma of a colour: a shade below the most chromatic sum of its hue, a tint
/// above it.
pub open spec fn spec_hcv_chroma(hcv: HCV) -> Chroma {
    if hcv.c_prop.0 == 0 {
        Chroma::Neither(Prop(0))
    } else {
        match hcv.hue {
            Some(hue) => if hcv.sum.0 < spec_sum_for_max_chroma(hue) {
                Chroma::Shade(hcv.c_prop)
            } else if hcv.sum.0 > spec_sum_for_max_chroma(hue) {
                Chroma::Tint(hcv.c_prop)
            } else {
                Chroma::Neither(hcv.c_prop)
            },
            None => Chroma::Neither(Prop(0)),
        }
    }
}

/// The range of sums that a colour's hue allows for its chroma: all sums for a grey
/// or where the hue gives no range.
pub open spec fn spec_sum_range_for_current_chroma(hcv: HCV) -> (UFDRNumber, UFDRNumber) {
    match hcv.hue {
        Some(hue) => match spec_sum_range_for_chroma(hue, spec_hcv_chroma(hcv)) {
            Some(range) => range,
            None => (UFDRNumber(0), UFDRNumber((3 * scale()) as u128)),
        },
        None => (UFDRNumber(0), UFDRNumber((3 * scale()) as u128)),
    }
}

/// A well formed colour's sum lies in the range of sums that its hue allows for its
/// chroma, and a grey's range is all sums.
#[verifier::spinoff_prover]
pub proof fn lemma_valid_sum_in_current_chroma_range(hcv: HCV)
    requires
        hcv_is_valid(hcv),
    ensures
        spec_sum_range_for_current_chroma(hcv).0.0 <= hcv.sum.0 <= spec_sum_range_for_current_chroma(hcv).1.0,
        hcv.hue is None ==> spec_sum_range_for_current_chroma(hcv) == (
            UFDRNumber(0),
            UFDRNumber((3 * scale()) as u128),
        ),
{
    let m = scale();
    let s = hcv.sum.0 as int;
    let c = hcv.c_prop.0 as int;
    assert(m % 3 == 0);
    match hcv.hue {
        None => {},
        Some(hue) => {
            match hue {
                Hue::Primary(_) => {
                    assert(scaled_min_sum(hue, hcv.c_prop) == c) by {
                        lemma_div_multiples_vanish(c, m);
                        lemma_mul_is_commutative(c, m);
                    }
                    lemma_fundamental_div_mod(s - c, 3);
                    lemma_fundamental_div_mod(m - c, 3);
                    lemma_mod_pos_bound(m - c, 3);
                },
                Hue::Secondary(_) => {
                    assert(scaled_min_sum(hue, hcv.c_prop) == 2 * c) by {
                        lemma_div_multiples_vanish(2 * c, m);
                        assert(2 * m * c == (2 * c) * m) by (nonlinear_arith);
                    }
                    lemma_fundamental_div_mod(s - 2 * c, 3);
                    lemma_fundamental_div_mod(m - c, 3);
                    lemma_mod_pos_bound(m - c, 3);
                    lemma_fundamental_div_mod(c, 3);
                    lemma_mod_pos_bound(c, 3);
                },
                Hue::Sextant(sh) => {
                    if s > m + sh.1.0 && sextant_tint_span(sh.1, hcv.c_prop) != 0 {
                        lemma_sextant_tint_sum_bound(sh, hcv.sum, hcv.c_prop);
                    }
                },
            }
        },
    }
}

/// The red, green and blue components of a colour, where its hue has components for
/// its sum and chroma proportion; a grey's are each a third of its sum.
pub open spec fn spec_hcv_rgb(hcv: HCV) -> Option<[Prop; 3]> {
    match hcv.hue {
        Some(hue) => spec_rgb_ordered_triplet(hue, hcv.sum, hcv.c_prop),
        None => {
            let v = Prop((hcv.sum.0 / 3) as u64);
            Some([v, v, v])
        },
    }
}

/// Whether `to_rgb_triplet` can give the colour's components.
pub open spec fn has_rgb(hcv: HCV) -> bool {
    hcv.sum.0 <= 3 * scale() && spec_hcv_rgb(hcv) is Some
}

/// A component moved towards one by `p`: `x * (1 - p) + p`.
pub open spec fn lightened_component(x: Prop, p: Prop) -> Prop {
    Prop(((x.0 * (u64::MAX - p.0)) / scale() + p.0) as u64)
}

/// A component moved towards zero by `p`: `x * (1 - p)`.
pub open spec fn darkened_component(x: Prop, p: Prop) -> Prop {
    Prop(((x.0 * (u64::MAX - p.0)) / scale()) as u64)
}

/// The sum clamped into the range of sums that the hue allows for the chroma
/// proportion, where there is one.
pub open spec fn sum_clamped_for(hue: Hue, sum: UFDRNumber, c_prop: Prop) -> UFDRNumber {
    match spec_sum_range_for_chroma_prop(hue, c_prop) {
        Some((min_sum, max_sum)) => if sum.0 < min_sum.0 {
            min_sum
        } else if sum.0 > max_sum.0 {
            max_sum
        } else {
            sum
        },
        None => sum,
    }
}

/// The colour of the hue with the chroma proportion and (as near as may be) the sum:
/// what `saturated` and `greyed` do once they have the new chroma proportion.
pub open spec fn hcv_with_chroma(hue: Hue, sum: UFDRNumber, c_prop: Prop) -> HCV {
    let new_sum = sum_clamped_for(hue, sum, c_prop);
    match spec_adjusted_favouring_chroma(hue, new_sum, c_prop) {
        Some((c, s)) => match spec_try_new(Some((hue, c)), s) {
            Ok(hcv) => hcv,
            Err(hcv) => hcv,
        },
        None => grey_of_sum(UFDRNumber((((new_sum.0 / 3) as u64) * 3) as u128)),
    }
}

/// The chroma proportion moved towards one by `p`: `c + (1 - c) * p`.
pub open spec fn saturated_c_prop(c: Prop, p: Prop) -> Prop {
    Prop((c.0 - (c.0 * p.0) / scale() + p.0) as u64)
}

/// The chroma proportion moved towards zero by `p`: `c * (1 - p)`.
pub open spec fn greyed_c_prop(c: Prop, p: Prop) -> Prop {
    Prop((c.0 - (c.0 * p.0) / scale()) as u64)
}

/// The grey or hued colour best drawn over one with the given chroma and value:
/// white over shades and dark greys, black over tints and light greys.
pub open spec fn spec_best_foreground(chroma: Chroma, value: Value) -> HCV {
    match chroma {
        Chroma::Shade(_) => grey_of_sum(UFDRNumber((3 * scale()) as u128)),
        Chroma::Tint(_) => grey_of_sum(UFDRNumber(0)),
        Chroma::Neither(_) => if value.0 < u64::MAX / 2 {
            grey_of_sum(UFDRNumber((3 * scale()) as u128))
        } else {
            grey_of_sum(UFDRNumber(0))
        },
    }
}

/// The sum and chroma proportion of components whose hue is known.
fn sum_and_chroma_prop(hue_rgb: (Hue, [Prop; 3])) -> (res: (UFDRNumber, Prop))
    requires
        spec_hue_of(hue_rgb.1) == Some(hue_rgb.0),
    ensures
        res.0.0 == rgb_sum(hue_rgb.1),
        res.1.0 == rgb_max(hue_rgb.1) - rgb_min(hue_rgb.1),
{
    let hue = hue_rgb.0;
    let red = hue_rgb.1[0];
    let green = hue_rgb.1[1];
    let blue = hue_rgb.1[2];
    let sum = red.add_prop(green).add_prop(blue);
    let c_prop = match hue {
        Hue::Primary(RGBHue::Red) => red.sub_prop(blue),
        Hue::Primary(RGBHue::Green) => green.sub_prop(red),
        Hue::Primary(RGBHue::Blue) => blue.sub_prop(green),
        Hue::Secondary(CMYHue::Cyan) => blue.sub_prop(red),
        Hue::Secondary(CMYHue::Magenta) => red.sub_prop(green),
        Hue::Secondary(CMYHue::Yellow) => green.sub_prop(blue),
        Hue::Sextant(sextant_hue) => match sextant_hue.sextant() {
            Sextant::RedYellow => red.sub_prop(blue),
            Sextant::RedMagenta => red.sub_prop(green),
            Sextant::GreenYellow => green.sub_prop(blue),
            Sextant::GreenCyan => green.sub_prop(red),
            Sextant::BlueCyan => blue.sub_prop(red),
            Sextant::BlueMagenta => blue.sub_prop(green),
        },
    };
    (sum, c_prop)
}

/// The colour with the given red, green and blue components.
pub(crate) fn hcv_of_props(array: [Prop; 3]) -> (res: HCV)
    ensures
        res == spec_hcv_of(array),
{
    match Hue::try_from(array) {
        Ok(hue) => {
            let (sum, c_prop) = sum_and_chroma_prop((hue, array));
            HCV { hue: Some(hue), c_prop, sum }
        },
        Err(_) => HCV {
            hue: None,
            c_prop: Prop::zero(),
            sum: array[0].add_prop(array[1]).add_prop(array[2]),
        },
    }
}

impl From<[Prop; 3]> for HCV {
    fn from(array: [Prop; 3]) -> (res: HCV)
        ensures
            res == spec_hcv_of(array),
    {
        hcv_of_props(array)
    }
}

impl vstd::std_specs::convert::FromSpecImpl<[Prop; 3]> for HCV {
    open spec fn obeys_from_spec() -> bool {
        true
    }

    open spec fn from_spec(arg: [Prop; 3]) -> HCV {
        spec_hcv_of(arg)
    }
}

/// What turning a colour to a new hue gives: the colour of the new hue nearest in
/// chroma at about the same sum (rounded onto the hue as near as it goes), a grey of
/// the sum where the hue has no such colour, and a grey unchanged.
pub open spec fn spec_turned_to(hcv: HCV, new_hue: Hue) -> HCV {
    match hcv.hue {
        Some(_) => match spec_adjusted_favouring_chroma(new_hue, hcv.sum, hcv.c_prop) {
            Some((c_prop, sum)) => match spec_try_new(Some((new_hue, c_prop)), sum) {
                Ok(h) => h,
                Err(h) => h,
            },
            None => grey_of_sum(hcv.sum),
        },
        None => hcv,
    }
}

/// The sum that `adjusted_favouring_chroma` settles on is a valid sum.
pub(crate) proof fn lemma_adjusted_sum_bound(hue: Hue, sum: UFDRNumber, c_prop: Prop)
    requires
        sum.0 <= 3 * scale(),
    ensures
        spec_adjusted_favouring_chroma(hue, sum, c_prop) matches Some((_, s)) ==> s.0 <= 3
            * scale(),
{
    crate::hue::lemma_trim_overs_sum_bound(hue, sum, c_prop);
    if c_prop.0 != 0 && c_prop.0 != u64::MAX {
        if let Some((c1, s1)) = crate::hue::spec_trim_overs(hue, sum, c_prop) {
            if s1.0 > spec_sum_for_max_chroma(hue) {
                crate::hue::lemma_max_sum_exists(hue, c1);
                let max_sum = crate::hue::spec_max_sum_for_chroma_prop(hue, c1).unwrap();
                crate::hue::lemma_max_sum_bound(hue, c1);
                crate::hue::lemma_trim_overs_sum_bound(hue, max_sum, c1);
            }
        }
    }
}

impl HCV {
    /// The colour turned to a new hue (the hue a rotation reached), keeping its
    /// chroma where the new hue allows it; a grey stays as it is.
    pub fn turned_to(&self, new_hue: Hue) -> (res: HCV)
        requires
            self.sum.0 <= 3 * scale(),
        ensures
            res == spec_turned_to(*self, new_hue),
    {
        match self.hue {
            Some(_) => {
                proof {
                    lemma_adjusted_sum_bound(new_hue, self.sum, self.c_prop);
                }
                match new_hue.adjusted_favouring_chroma(self.sum, self.c_prop) {
                    Some((c_prop, sum)) => match HCV::try_new(Some((new_hue, c_prop)), sum) {
                        Ok(hcv) => hcv,
                        Err(hcv) => hcv,
                    },
                    None => HCV::new_grey_sum(self.sum),
                }
            },
            None => *self,
        }
    }
}

impl HCV {
    /// The colour with the given hue and chroma proportion and the given sum, or the
    /// colour of the nearest components as an error where rounding moved them off the
    /// hue.  Without a hue, or where the hue has no components for the sum and chroma
    /// proportion, the colour is the grey with the sum.
    pub(crate) fn try_new(hue_data: Option<(Hue, Prop)>, sum: UFDRNumber) -> (res: Result<HCV, HCV>)
        requires
            sum.0 <= 3 * scale(),
        ensures
            res == spec_try_new(hue_data, sum),
    {
        match hue_data {
            Some((hue, c_prop)) => match hue.try_rgb_ordered_triplet(sum, c_prop) {
                Some(result) => match result {
                    Ok(_) => Ok(HCV { hue: Some(hue), c_prop, sum }),
                    Err(triplet) => Err(HCV::from(triplet)),
                },
                None => Ok(HCV { hue: None, c_prop: Prop::zero(), sum }),
            },
            None => Ok(HCV { hue: None, c_prop: Prop::zero(), sum }),
        }
    }

    /// The grey with the given sum of components.
    pub(crate) fn new_grey_sum(sum: UFDRNumber) -> (res: HCV)
        ensures
            res == grey_of_sum(sum),
    {
        HCV { hue: None, c_prop: Prop::zero(), sum }
    }

    /// The grey with the given value.
    pub fn new_grey(value: Value) -> (res: HCV)
        ensures
            res == grey_of_sum(UFDRNumber((value.0 * 3) as u128)),
    {
        Self::new_grey_sum(value.mul_i32(3))
    }

    /// Whether the colour has no chroma.
    pub fn is_grey(&self) -> (res: bool)
        ensures
            res == (self.c_prop.0 == 0),
    {
        self.c_prop.0 == 0
    }

    /// Whether the colour is well formed.
    pub(crate) fn is_valid(&self) -> (res: bool)
        ensures
            res == hcv_is_valid(*self),
    {
        match self.hue {
            Some(hue) => hue.sum_and_chroma_prop_are_compatible(self.sum, self.c_prop),
            None => self.c_prop.0 == 0 && self.sum.0 <= 3 * (u64::MAX as u128) && self.sum.0 % 3
                == 0,
        }
    }

    /// The range of sums that the colour's hue allows for its chroma: all sums for a
    /// grey or where the hue gives no range.
    pub fn sum_range_for_current_chroma(&self) -> (res: (UFDRNumber, UFDRNumber))
        ensures
            res == spec_sum_range_for_current_chroma(*self),
    {
        match self.hue {
            Some(hue) => match hue.sum_range_for_chroma(self.chroma()) {
                Some(range) => range,
                None => (UFDRNumber::zero(), UFDRNumber::three()),
            },
            None => (UFDRNumber::zero(), UFDRNumber::three()),
        }
    }

    /// The range of sums that the colour's hue allows for its chroma proportion: all
    /// sums for a grey or where the hue gives no range.
    pub fn sum_range_for_current_chroma_prop(&self) -> (res: (UFDRNumber, UFDRNumber))
        ensures
            res == (match self.hue {
                Some(hue) => match spec_sum_range_for_chroma_prop(hue, self.c_prop) {
                    Some(range) => range,
                    None => (UFDRNumber(0), UFDRNumber((3 * scale()) as u128)),
                },
                None => (UFDRNumber(0), UFDRNumber((3 * scale()) as u128)),
            }),
    {
        match self.hue {
            Some(hue) => match hue.sum_range_for_chroma_prop(self.c_prop) {
                Some(range) => range,
                None => (UFDRNumber::zero(), UFDRNumber::three()),
            },
            None => (UFDRNumber::zero(), UFDRNumber::three()),
        }
    }

    /// The largest chroma proportion that the colour's hue allows at its sum: zero for
    /// a grey or where there is none.
    pub fn max_chroma_prop_for_current_sum(&self) -> (res: Prop)
        ensures
            res == (match self.hue {
                Some(hue) => match spec_max_chroma_prop_for_sum(hue, self.sum) {
                    Some(c) => c,
                    None => Prop(0),
                },
                None => Prop(0),
            }),
    {
        match self.hue {
            Some(hue) => match hue.max_chroma_prop_for_sum(self.sum) {
                Some(max_c_prop) => max_c_prop,
                None => Prop::zero(),
            },
            None => Prop::zero(),
        }
    }

    /// The colour's hue, if it has one.
    pub fn hue(&self) -> (res: Option<Hue>)
        ensures
            res == self.hue,
    {
        self.hue
    }

    /// The colour's chroma proportion.
    pub fn chroma_prop(&self) -> (res: Prop)
        ensures
            res == self.c_prop,
    {
        self.c_prop
    }

    /// The colour's chroma: a shade, a tint, or neither.
    pub fn chroma(&self) -> (res: Chroma)
        ensures
            res == spec_hcv_chroma(*self),
    {
        if self.c_prop.0 == 0 {
            Chroma::zero()
        } else {
            match self.hue {
                Some(hue) => {
                    let max_chroma_sum = hue.sum_for_max_chroma();
                    if self.sum.0 < max_chroma_sum.0 {
                        Chroma::Shade(self.c_prop)
                    } else if self.sum.0 > max_chroma_sum.0 {
                        Chroma::Tint(self.c_prop)
                    } else {
                        Chroma::Neither(self.c_prop)
                    }
                },
                None => Chroma::zero(),
            }
        }
    }

    /// The colour's greyness: the complement of its chroma.
    pub fn greyness(&self) -> (res: Greyness)
        ensures
            res == greyness_of(spec_hcv_chroma(*self)),
    {
        greyness_for(self.chroma())
    }

    /// The colour's value: a third of its sum.
    pub fn value(&self) -> (res: Value)
        ensures
            res.0 == (self.sum.0 / 3) as u64,
    {
        Value(self.sum.div_i32(3).0 as u64)
    }

    /// The colour's warmth: from its hue and chroma, or from its value for a grey.
    pub fn warmth(&self) -> (res: Warmth)
        requires
            self.sum.0 <= 3 * scale(),
        ensures
            res.0 == (match self.hue {
                Some(hue) => warmth_calculated(
                    spec_hcv_chroma(*self),
                    spec_x_dash(hue, spec_hcv_chroma(*self)),
                ) as u64,
                None => ((3 * scale() - self.sum.0) / 6) as u64,
            }),
    {
        match self.hue {
            Some(hue) => hue.warmth_for_chroma(self.chroma()),
            None => Warmth::calculate_monochrome_fm_sum(self.sum),
        }
    }

    /// The colour itself.
    pub fn hcv(&self) -> (res: HCV)
        ensures
            res == *self,
    {
        *self
    }

    /// The most chromatic colour of the colour's hue, if it has one.
    pub fn hue_hcv(&self) -> (res: Option<HCV>)
        ensures
            res == (match self.hue {
                Some(hue) => Some(
                    HCV {
                        hue: Some(hue),
                        c_prop: Prop(u64::MAX),
                        sum: UFDRNumber(spec_sum_for_max_chroma(hue) as u128),
                    },
                ),
                None => None,
            }),
    {
        match self.hue {
            Some(hue) => Some(hue.max_chroma_hcv()),
            None => None,
        }
    }

    /// The grey with the colour's value.
    pub fn monochrome_hcv(&self) -> (res: HCV)
        ensures
            res == grey_of_sum(UFDRNumber((((self.sum.0 / 3) as u64) * 3) as u128)),
    {
        HCV::new_grey(self.value())
    }

    /// White over shades and dark greys, black over tints and light greys.
    pub fn best_foreground(&self) -> (res: HCV)
        ensures
            res == spec_best_foreground(spec_hcv_chroma(*self), Value((self.sum.0 / 3) as u64)),
    {
        match self.chroma() {
            Chroma::Shade(_) => HCV::white(),
            Chroma::Tint(_) => HCV::black(),
            Chroma::Neither(_) => {
                if self.value().0 < Value::one().div_i32(2).0 {
                    HCV::white()
                } else {
                    HCV::black()
                }
            },
        }
    }

    /// The colour's red, green and blue components.
    pub fn to_rgb_triplet(&self) -> (res: [Prop; 3])
        requires
            has_rgb(*self),
        ensures
            Some(res) == spec_hcv_rgb(*self),
    {
        match self.hue {
            Some(hue) => match hue.rgb_ordered_triplet(self.sum, self.c_prop) {
                Some(triplet) => triplet,
                None => {
                    proof {
                        assert(false);
                    }
                    [Prop::zero(), Prop::zero(), Prop::zero()]
                },
            },
            None => {
                let value = Prop(self.sum.div_i32(3).0 as u64);
                [value, value, value]
            },
        }
    }

    /// The colour with each component moved towards one by `prop`.
    pub fn lightened(&self, prop: Prop) -> (res: HCV)
        requires
            has_rgb(*self),
        ensures
            spec_hcv_rgb(*self) matches Some(rgb) && res == spec_hcv_of(
                [
                    lightened_component(rgb[0], prop),
                    lightened_component(rgb[1], prop),
                    lightened_component(rgb[2], prop),
                ],
            ),
    {
        let compl = Prop::one().sub_prop(prop);
        let array = self.to_rgb_triplet();
        HCV::from(
            [
                lighten(array[0], compl, prop),
                lighten(array[1], compl, prop),
                lighten(array[2], compl, prop),
            ],
        )
    }

    /// The colour with each component moved towards zero by `prop`.
    pub fn darkened(&self, prop: Prop) -> (res: HCV)
        requires
            has_rgb(*self),
        ensures
            spec_hcv_rgb(*self) matches Some(rgb) && res == spec_hcv_of(
                [
                    darkened_component(rgb[0], prop),
                    darkened_component(rgb[1], prop),
                    darkened_component(rgb[2], prop),
                ],
            ),
    {
        let compl = Prop::one().sub_prop(prop);
        let array = self.to_rgb_triplet();
        HCV::from([array[0].mul_prop(compl), array[1].mul_prop(compl), array[2].mul_prop(compl)])
    }

    /// The colour with its chroma proportion moved towards one by `prop`, its sum kept
    /// as near as the hue allows; a grey stays as it is.
    pub fn saturated(&self, prop: Prop) -> (res: HCV)
        requires
            self.sum.0 <= 3 * scale(),
        ensures
            res == (match self.hue {
                Some(hue) => hcv_with_chroma(hue, self.sum, saturated_c_prop(self.c_prop, prop)),
                None => *self,
            }),
    {
        match self.hue {
            Some(hue) => {
                proof {
                    lemma_saturated_fits(self.c_prop.0 as int, prop.0 as int);
                }
                let reduced = self.c_prop.sub_prop(self.c_prop.mul_prop(prop));
                let new_c_prop = reduced.add_prop(prop).to_prop();
                self.with_chroma(hue, new_c_prop)
            },
            None => *self,
        }
    }

    /// The colour with its chroma proportion moved towards zero by `prop`, its sum kept
    /// as near as the hue allows; a grey stays as it is.
    pub fn greyed(&self, prop: Prop) -> (res: HCV)
        requires
            self.sum.0 <= 3 * scale(),
        ensures
            res == (match self.hue {
                Some(hue) => hcv_with_chroma(hue, self.sum, greyed_c_prop(self.c_prop, prop)),
                None => *self,
            }),
    {
        match self.hue {
            Some(hue) => {
                proof {
                    lemma_saturated_fits(self.c_prop.0 as int, prop.0 as int);
                }
                let new_c_prop = self.c_prop.sub_prop(self.c_prop.mul_prop(prop));
                self.with_chroma(hue, new_c_prop)
            },
            None => *self,
        }
    }

    /// The colour of the hue with the new chroma proportion and the colour's sum
    /// clamped to what the hue allows for it.
    fn with_chroma(&self, hue: Hue, new_c_prop: Prop) -> (res: HCV)
        requires
            self.sum.0 <= 3 * scale(),
        ensures
            res == hcv_with_chroma(hue, self.sum, new_c_prop),
    {
        let new_sum = match hue.sum_range_for_chroma_prop(new_c_prop) {
            Some((min_sum, max_sum)) => {
                if self.sum.0 < min_sum.0 {
                    min_sum
                } else if self.sum.0 > max_sum.0 {
                    max_sum
                } else {
                    self.sum
                }
            },
            None => self.sum,
        };
        proof {
            crate::hue::lemma_sum_range_bound(hue, new_c_prop);
            lemma_adjusted_sum_bound(hue, new_sum, new_c_prop);
        }
        match hue.adjusted_favouring_chroma(new_sum, new_c_prop) {
            Some((c_prop, sum)) => match HCV::try_new(Some((hue, c_prop)), sum) {
                Ok(hcv) => hcv,
                Err(hcv) => hcv,
            },
            None => HCV::new_grey(Value::from(new_sum.div_i32(3))),
        }
    }
}

/// `x * compl + p`, which stays a proportion when `compl` is `1 - p`.
pub(crate) fn lighten(x: Prop, compl: Prop, p: Prop) -> (res: Prop)
    requires
        compl.0 == u64::MAX - p.0,
    ensures
        res == lightened_component(x, p),
{
    proof {
        vstd::arithmetic::mul::lemma_mul_inequality(x.0 as int, scale(), compl.0 as int);
        vstd::arithmetic::mul::lemma_mul_is_commutative(scale(), compl.0 as int);
        vstd::arithmetic::div_mod::lemma_div_is_ordered(x.0 * compl.0, compl.0 * scale(), scale());
        vstd::arithmetic::div_mod::lemma_div_multiples_vanish(compl.0 as int, scale());
    }
    x.mul_prop(compl).add_prop(p).to_prop()
}

/// `c - c * p + p` stays within one.
proof fn lemma_saturated_fits(c: int, p: int)
    requires
        0 <= c <= scale(),
        0 <= p <= scale(),
    ensures
        (c * p) / scale() <= c,
        c - (c * p) / scale() + p <= scale(),
{
    let m = scale();
    let q = (c * p) / m;
    let r = (c * p) % m;
    vstd::arithmetic::div_mod::lemma_fundamental_div_mod(c * p, m);
    vstd::arithmetic::div_mod::lemma_mod_pos_bound(c * p, m);
    vstd::arithmetic::mul::lemma_mul_inequality(p, m, c);
    vstd::arithmetic::mul::lemma_mul_is_commutative(p, c);
    vstd::arithmetic::mul::lemma_mul_is_commutative(m, c);
    vstd::arithmetic::div_mod::lemma_div_is_ordered(c * p, c * m, m);
    vstd::arithmetic::div_mod::lemma_div_multiples_vanish(c, m);
    // c * p == (m - a) * (m - b) with a = m - c, b = m - p, so r is at most a * b.
    let a = m - c;
    let b = m - p;
    assert(c * p == m * (m - a - b) + a * b) by (nonlinear_arith)
        requires
            a == m - c,
            b == m - p,
    ;
    assert(a * b >= 0) by (nonlinear_arith)
        requires
            a >= 0,
            b >= 0,
    ;
    vstd::arithmetic::div_mod::lemma_mod_multiples_vanish(m - a - b, a * b, m);
    vstd::arithmetic::div_mod::lemma_mod_decreases((a * b) as nat, m as nat);
    assert(m * (c - q + p) == m * c - (c * p - r) + m * p) by (nonlinear_arith)
        requires
            c * p == q * m + r,
    ;
    assert(m * c + m * p - c * p == m * m - a * b) by (nonlinear_arith)
        requires
            a == m - c,
            b == m - p,
    ;
    assert(m * (c - q + p) <= m * m);
    vstd::arithmetic::mul::lemma_mul_is_commutative(m, c - q + p);
    vstd::arithmetic::mul::lemma_mul_inequality_converse(c - q + p, m, m);
}

/// The red, green and blue components that `try_new` accepts as exact for a hue
/// convert back to the same colour.
pub proof fn lemma_try_new_rgb_round_trip(hue: Hue, c_prop: Prop, sum: UFDRNumber)
    requires
        !is_degenerate_sextant(hue),
        sum.0 <= 3 * scale(),
        spec_try_rgb_ordered_triplet(hue, sum, c_prop) matches Some(Ok(_)),
    ensures
        ({
            let hcv = HCV { hue: Some(hue), c_prop, sum };
            &&& spec_try_new(Some((hue, c_prop)), sum) == Ok::<HCV, HCV>(hcv)
            &&& spec_hcv_rgb(hcv) is Some
            &&& spec_hcv_of(spec_hcv_rgb(hcv).unwrap()) == hcv
        }),
{
    lemma_try_rgb_ordered_triplet_round_trip(hue, sum, c_prop);
    crate::hue::lemma_exact_triplet_is_rgb_ordered_triplet(hue, sum, c_prop);
}

impl Hue {
    /// The darkest colour of the hue with the chroma: its chroma proportion at the
    /// least sum for the chroma; none for zero chroma.
    pub fn darkest_hcv_for_chroma(&self, chroma: Chroma) -> (res: Option<HCV>)
        ensures
            res == (match crate::hue::spec_min_sum_for_chroma(*self, chroma) {
                Some(sum) => Some(HCV { hue: Some(*self), c_prop: chroma_prop(chroma), sum }),
                None => None,
            }),
    {
        match self.min_sum_for_chroma(chroma) {
            Some(sum) => Some(HCV { hue: Some(*self), c_prop: chroma.prop(), sum }),
            None => None,
        }
    }

    /// The lightest colour of the hue with the chroma: its chroma proportion at the
    /// greatest sum for the chroma; none for zero chroma.
    pub fn lightest_hcv_for_chroma(&self, chroma: Chroma) -> (res: Option<HCV>)
        ensures
            res == (match crate::hue::spec_max_sum_for_chroma(*self, chroma) {
                Some(sum) => Some(HCV { hue: Some(*self), c_prop: chroma_prop(chroma), sum }),
                None => None,
            }),
    {
        match self.max_sum_for_chroma(chroma) {
            Some(sum) => Some(HCV { hue: Some(*self), c_prop: chroma.prop(), sum }),
            None => None,
        }
    }
}

impl HCV {
    pub fn red() -> (res: HCV)
        ensures
            res == (HCV { hue: Some(Hue::Primary(RGBHue::Red)), c_prop: Prop(u64::MAX), sum: UFDRNumber(scale() as u128) }),
    {
        HCV { hue: Some(Hue::Primary(RGBHue::Red)), c_prop: Prop::one(), sum: UFDRNumber::one() }
    }

    pub fn green() -> (res: HCV)
        ensures
            res == (HCV { hue: Some(Hue::Primary(RGBHue::Green)), c_prop: Prop(u64::MAX), sum: UFDRNumber(scale() as u128) }),
    {
        HCV { hue: Some(Hue::Primary(RGBHue::Green)), c_prop: Prop::one(), sum: UFDRNumber::one() }
    }

    pub fn blue() -> (res: HCV)
        ensures
            res == (HCV { hue: Some(Hue::Primary(RGBHue::Blue)), c_prop: Prop(u64::MAX), sum: UFDRNumber(scale() as u128) }),
    {
        HCV { hue: Some(Hue::Primary(RGBHue::Blue)), c_prop: Prop::one(), sum: UFDRNumber::one() }
    }

    pub fn cyan() -> (res: HCV)
        ensures
            res == (HCV { hue: Some(Hue::Secondary(CMYHue::Cyan)), c_prop: Prop(u64::MAX), sum: UFDRNumber((2 * scale()) as u128) }),
    {
        HCV { hue: Some(Hue::Secondary(CMYHue::Cyan)), c_prop: Prop::one(), sum: UFDRNumber::two() }
    }

    pub fn magenta() -> (res: HCV)
        ensures
            res == (HCV { hue: Some(Hue::Secondary(CMYHue::Magenta)), c_prop: Prop(u64::MAX), sum: UFDRNumber((2 * scale()) as u128) }),
    {
        HCV { hue: Some(Hue::Secondary(CMYHue::Magenta)), c_prop: Prop::one(), sum: UFDRNumber::two() }
    }

    pub fn yellow() -> (res: HCV)
        ensures
            res == (HCV { hue: Some(Hue::Secondary(CMYHue::Yellow)), c_prop: Prop(u64::MAX), sum: UFDRNumber((2 * scale()) as u128) }),
    {
        HCV { hue: Some(Hue::Secondary(CMYHue::Yellow)), c_prop: Prop::one(), sum: UFDRNumber::two() }
    }

    /// The most chromatic colour of the hue halfway through the given sextant, with a
    /// sum of one and a half.
    fn in_between(sextant: Sextant) -> (res: HCV)
        ensures
            res == (HCV { hue: Some(Hue::Sextant(SextantHue(sextant, Prop(u64::MAX / 2)))), c_prop: Prop(u64::MAX), sum: UFDRNumber((scale() + scale() / 2) as u128) }),
    {
        HCV {
            hue: Some(Hue::Sextant(SextantHue(sextant, Prop::half()))),
            c_prop: Prop::one(),
            sum: UFDRNumber(u64::MAX as u128 + u64::MAX as u128 / 2),
        }
    }

    pub fn blue_cyan() -> (res: HCV)
        ensures
            res == HCV::spec_in_between(Sextant::BlueCyan),
    {
        HCV::in_between(Sextant::BlueCyan)
    }

    pub fn blue_magenta() -> (res: HCV)
        ensures
            res == HCV::spec_in_between(Sextant::BlueMagenta),
    {
        HCV::in_between(Sextant::BlueMagenta)
    }

    pub fn red_magenta() -> (res: HCV)
        ensures
            res == HCV::spec_in_between(Sextant::RedMagenta),
    {
        HCV::in_between(Sextant::RedMagenta)
    }

    pub fn red_yellow() -> (res: HCV)
        ensures
            res == HCV::spec_in_between(Sextant::RedYellow),
    {
        HCV::in_between(Sextant::RedYellow)
    }

    pub fn green_yellow() -> (res: HCV)
        ensures
            res == HCV::spec_in_between(Sextant::GreenYellow),
    {
        HCV::in_between(Sextant::GreenYellow)
    }

    pub fn green_cyan() -> (res: HCV)
        ensures
            res == HCV::spec_in_between(Sextant::GreenCyan),
    {
        HCV::in_between(Sextant::GreenCyan)
    }

    /// The most chromatic colour halfway through a sextant.
    pub open spec fn spec_in_between(sextant: Sextant) -> HCV {
        HCV {
            hue: Some(Hue::Sextant(SextantHue(sextant, Prop(u64::MAX / 2)))),
            c_prop: Prop(u64::MAX),
            sum: UFDRNumber((scale() + scale() / 2) as u128),
        }
    }

    pub fn white() -> (res: HCV)
        ensures
            res == grey_of_sum(UFDRNumber((3 * scale()) as u128)),
    {
        HCV::new_grey_sum(UFDRNumber::three())
    }

    pub fn light_grey() -> (res: HCV)
        ensures
            res == grey_of_sum(UFDRNumber((scale() / 4 * 3) as u128)),
    {
        HCV::new_grey_sum(UFDRNumber(u64::MAX as u128 / 4 * 3))
    }

    pub fn medium_grey() -> (res: HCV)
        ensures
            res == grey_of_sum(UFDRNumber((scale() + scale() / 6 * 3) as u128)),
    {
        HCV::new_grey_sum(UFDRNumber(u64::MAX as u128 + u64::MAX as u128 / 6 * 3))
    }

    pub fn dark_grey() -> (res: HCV)
        ensures
            res == grey_of_sum(UFDRNumber((scale() * 2 + scale() / 12 * 3) as u128)),
    {
        HCV::new_grey_sum(UFDRNumber(u64::MAX as u128 * 2 + u64::MAX as u128 / 12 * 3))
    }

    pub fn black() -> (res: HCV)
        ensures
            res == grey_of_sum(UFDRNumber(0)),
    {
        HCV::new_grey_sum(UFDRNumber::zero())
    }
}

/// Saturating by `p` leaves a colour `1 - p` of its distance from full chroma: the
/// new chroma proportion `c'` has `1 - c' = (1 - c) * (1 - p)`, rounded down. So it
/// lies between the old proportion and one, is at least `p`, stays put for `p = 0`
/// and reaches one for `p = 1`.
#[verifier::spinoff_prover]
pub proof fn lemma_saturation_shrinks_greyness(c: Prop, p: Prop)
    ensures
        u64::MAX - saturated_c_prop(c, p).0 == ((u64::MAX - c.0) * (u64::MAX - p.0)) / scale(),
        c.0 <= saturated_c_prop(c, p).0 <= u64::MAX,
        p.0 <= saturated_c_prop(c, p).0,
        p.0 == 0 ==> saturated_c_prop(c, p) == c,
        p.0 == u64::MAX ==> saturated_c_prop(c, p).0 == u64::MAX,
{
    let m = scale();
    let cc = c.0 as int;
    let pp = p.0 as int;
    lemma_mul_is_commutative(cc, pp);
    vstd::arithmetic::div_mod::lemma_div_pos_is_pos(cc * pp, m);
    vstd::arithmetic::mul::lemma_mul_inequality(pp, m, cc);
    vstd::arithmetic::mul::lemma_mul_inequality(cc, m, pp);
    vstd::arithmetic::div_mod::lemma_div_is_ordered(cc * pp, cc * m, m);
    vstd::arithmetic::div_mod::lemma_div_is_ordered(pp * cc, pp * m, m);
    vstd::arithmetic::div_mod::lemma_div_multiples_vanish(cc, m);
    vstd::arithmetic::div_mod::lemma_div_multiples_vanish(pp, m);
    lemma_mul_is_commutative(cc, m);
    lemma_mul_is_commutative(pp, m);
    assert((m - cc) * (m - pp) == cc * pp + (m - cc - pp) * m) by (nonlinear_arith);
    vstd::arithmetic::div_mod::lemma_hoist_over_denominator(cc * pp, m - cc - pp, m as nat);
    if pp == 0 {
        assert(cc * pp == 0) by (nonlinear_arith) requires pp == 0;
    }
    if pp == m {
        assert(cc * pp == cc * m);
    }
}

/// What `saturated` gives: for a colour with a hue, the colour of that hue whose
/// chroma proportion leaves `1 - p` of the distance to full chroma, at the sum
/// clamped to that chroma's range; a grey stays as it is.
pub proof fn lemma_saturated_chroma(hcv: HCV, p: Prop)
    ensures
        (match hcv.hue {
            Some(hue) => hcv_with_chroma(hue, hcv.sum, saturated_c_prop(hcv.c_prop, p)),
            None => hcv,
        }) == (match hcv.hue {
            Some(hue) => hcv_with_chroma(
                hue,
                hcv.sum,
                Prop((u64::MAX - ((u64::MAX - hcv.c_prop.0) * (u64::MAX - p.0)) / scale()) as u64),
            ),
            None => hcv,
        }),
{
    lemma_saturation_shrinks_greyness(hcv.c_prop, p);
}

/// Greying by `p` scales a colour's chroma proportion by `1 - p`, rounded up: the
/// new proportion `c'` has `c' * 1 - c * (1 - p)` below one unit, and never exceeds
/// the old one.
#[verifier::spinoff_prover]
pub proof fn lemma_greying_scales_chroma(c: Prop, p: Prop)
    ensures
        0 <= greyed_c_prop(c, p).0 * scale() - c.0 * (u64::MAX - p.0) < scale(),
        greyed_c_prop(c, p).0 <= c.0,
        p.0 == 0 ==> greyed_c_prop(c, p) == c,
        p.0 == u64::MAX ==> greyed_c_prop(c, p).0 == 0,
{
    let m = scale();
    let cc = c.0 as int;
    let pp = p.0 as int;
    vstd::arithmetic::div_mod::lemma_fundamental_div_mod(cc * pp, m);
    vstd::arithmetic::div_mod::lemma_mod_pos_bound(cc * pp, m);
    vstd::arithmetic::mul::lemma_mul_inequality(pp, m, cc);
    lemma_mul_is_commutative(cc, pp);
    lemma_mul_is_commutative(cc, m);
    vstd::arithmetic::div_mod::lemma_div_is_ordered(cc * pp, cc * m, m);
    vstd::arithmetic::div_mod::lemma_div_multiples_vanish(cc, m);
    vstd::arithmetic::div_mod::lemma_div_pos_is_pos(cc * pp, m);
    assert(c.0 * (u64::MAX - p.0) == cc * m - cc * pp) by (nonlinear_arith)
        requires
            m == u64::MAX,
            cc == c.0,
            pp == p.0,
    ;
    if pp == 0 {
        assert(cc * pp == 0) by (nonlinear_arith) requires pp == 0;
    }
}

/// Lightening by `p` leaves a component `1 - p` of its distance from one, rounded
/// up; darkening by `p` leaves it `1 - p` of its distance from zero, rounded down.
#[verifier::spinoff_prover]
pub proof fn lemma_lighten_darken_scale_distances(x: Prop, p: Prop)
    ensures
        0 <= (u64::MAX - lightened_component(x, p).0) * scale() - (u64::MAX - x.0) * (u64::MAX - p.0)
            < scale(),
        0 <= x.0 * (u64::MAX - p.0) - darkened_component(x, p).0 * scale() < scale(),
        x.0 <= lightened_component(x, p).0 <= u64::MAX,
        darkened_component(x, p).0 <= x.0,
{
    let m = scale();
    let xx = x.0 as int;
    let q = m - p.0;
    vstd::arithmetic::div_mod::lemma_fundamental_div_mod(xx * q, m);
    vstd::arithmetic::div_mod::lemma_mod_pos_bound(xx * q, m);
    vstd::arithmetic::mul::lemma_mul_inequality(q, m, xx);
    lemma_mul_is_commutative(xx, q);
    lemma_mul_is_commutative(xx, m);
    vstd::arithmetic::div_mod::lemma_div_is_ordered(xx * q, xx * m, m);
    vstd::arithmetic::div_mod::lemma_div_multiples_vanish(xx, m);
    vstd::arithmetic::div_mod::lemma_div_pos_is_pos(xx * q, m);
    assert((m - xx) * q == m * q - xx * q) by (nonlinear_arith);
    assert((xx * q) / m + p.0 >= xx) by (nonlinear_arith)
        requires
            (xx * q) / m * m + (xx * q) % m == xx * q,
            0 <= (xx * q) % m < m,
            q == m - p.0,
            0 <= xx <= m,
            0 <= p.0 <= m,
            m > 0,
    ;
}

} // verus!
