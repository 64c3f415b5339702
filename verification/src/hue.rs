//! Hues: the three primaries, the three secondaries and the hues in between, each
//! in one of six sextants of the colour wheel.
//!
//! A colour is described by its hue, its chroma proportion `c_prop` and the sum of
//! its red, green and blue components (three times its value).  For a hue the most
//! chromatic colour has a particular sum; darker colours of that hue are shades and
//! lighter ones are tints.
pub mod angle;

use core::ops::Neg;
use vstd::prelude::*;
use vstd::arithmetic::div_mod::*;
use vstd::arithmetic::mul::*;

use crate::attributes::{chroma_prop, Chroma, Warmth};
use crate::debug::{int_abs_diff, approx_eq_from_diff, ApproxEq, PropDiff};
use crate::fdrn::{prop_div_spec, scale, ufdr_div_spec, IntoProp, Prop, UFDRNumber};
use crate::hue::angle::{angle_add, angle_neg, angle_sub, degree_units, degrees, Angle};

verus! {

/// The primary hues, in the order of their discriminants: blue, red, green.
#[derive(Clone, Copy, Debug, PartialEq, Eq, Structural, PartialOrd, Ord)]
pub enum RGBHue {
    Blue,
    Red,
    Green,
}

/// The secondary hues, in the order of their discriminants: magenta, yellow, cyan.
#[derive(Clone, Copy, Debug, PartialEq, Eq, Structural, PartialOrd, Ord)]
pub enum CMYHue {
    Magenta,
    Yellow,
    Cyan,
}

/// The six sextants between the primary and secondary hues, in the order of their
/// discriminants.
#[derive(Clone, Copy, Debug, PartialEq, Eq, Structural, PartialOrd, Ord)]
pub enum Sextant {
    BlueCyan,
    BlueMagenta,
    RedMagenta,
    RedYellow,
    GreenYellow,
    GreenCyan,
}

/// A hue within a sextant.  The proportion is the middle component of the hue's most
/// chromatic colour, whose largest component is one and smallest zero.
#[derive(Clone, Copy, Debug, PartialEq, Eq, Structural, PartialOrd, Ord)]
pub struct SextantHue(pub Sextant, pub Prop);

/// A hue.
#[derive(Clone, Copy, Debug, PartialEq, Eq, Structural)]
pub enum Hue {
    Primary(RGBHue),
    Secondary(CMYHue),
    Sextant(SextantHue),
}

/// The sum of the components of the hue's most chromatic colour.
pub open spec fn spec_sum_for_max_chroma(hue: Hue) -> int {
    match hue {
        Hue::Primary(_) => scale(),
        Hue::Secondary(_) => 2 * scale(),
        Hue::Sextant(SextantHue(_, p)) => scale() + p.0,
    }
}

/// The least sum at which the hue has the chroma proportion `c`: the sum of the
/// hue's most chromatic colour scaled by `c`.
pub open spec fn spec_min_sum_for_chroma_prop(hue: Hue, c: Prop) -> Option<UFDRNumber> {
    if c.0 == 0 {
        None
    } else {
        match hue {
            Hue::Primary(_) => Some(UFDRNumber(c.0 as u128)),
            Hue::Secondary(_) => Some(UFDRNumber((2 * c.0) as u128)),
            Hue::Sextant(SextantHue(_, p)) => Some(
                UFDRNumber((c.0 + (p.0 * c.0) / scale()) as u128),
            ),
        }
    }
}

/// The sextant term of the greatest sum: `(2 - p) * c`, rounded down.
pub open spec fn sextant_tint_span(p: Prop, c: Prop) -> int {
    ((2 * scale() - p.0) * c.0) / scale()
}

/// The greatest sum at which the hue has the chroma proportion `c`.
pub open spec fn spec_max_sum_for_chroma_prop(hue: Hue, c: Prop) -> Option<UFDRNumber> {
    match hue {
        Hue::Primary(_) => if c.0 == 0 {
            None
        } else {
            Some(UFDRNumber((3 * scale() - 2 * c.0) as u128))
        },
        Hue::Secondary(_) => if c.0 == 0 {
            None
        } else {
            Some(UFDRNumber((3 * scale() - c.0) as u128))
        },
        Hue::Sextant(SextantHue(_, p)) => if sextant_tint_span(p, c) == 0 {
            None
        } else {
            Some(UFDRNumber((3 * scale() - sextant_tint_span(p, c)) as u128))
        },
    }
}

/// The range of sums at which the hue has the chroma proportion `c`.
pub open spec fn spec_sum_range_for_chroma_prop(hue: Hue, c: Prop) -> Option<(UFDRNumber, UFDRNumber)> {
    match (spec_min_sum_for_chroma_prop(hue, c), spec_max_sum_for_chroma_prop(hue, c)) {
        (Some(min), Some(max)) => Some((min, max)),
        _ => None,
    }
}

/// The least sum at which the hue has the given chroma.
pub open spec fn spec_min_sum_for_chroma(hue: Hue, chroma: Chroma) -> Option<UFDRNumber> {
    if chroma == Chroma::Neither(Prop(0)) {
        None
    } else {
        match hue {
            Hue::Primary(_) => match chroma {
                Chroma::Neither(_) => Some(UFDRNumber(scale() as u128)),
                Chroma::Shade(c) => Some(UFDRNumber(c.0 as u128)),
                Chroma::Tint(c) => Some(
                    UFDRNumber((scale() + (3 - (u64::MAX - c.0) as int % 3)) as u128),
                ),
            },
            Hue::Secondary(_) => match chroma {
                Chroma::Neither(_) => Some(UFDRNumber((2 * scale()) as u128)),
                Chroma::Shade(c) => Some(UFDRNumber((2 * c.0) as u128)),
                Chroma::Tint(c) => Some(UFDRNumber((2 * scale() + (3 - c.0 as int % 3)) as u128)),
            },
            Hue::Sextant(SextantHue(_, p)) => match chroma {
                Chroma::Neither(_) => Some(UFDRNumber((scale() + p.0) as u128)),
                Chroma::Shade(c) => Some(UFDRNumber((c.0 + (p.0 * c.0) / scale()) as u128)),
                Chroma::Tint(_) => Some(UFDRNumber((scale() + p.0 + 1) as u128)),
            },
        }
    }
}

/// The greatest sum at which the hue has the given chroma.
pub open spec fn spec_max_sum_for_chroma(hue: Hue, chroma: Chroma) -> Option<UFDRNumber> {
    if chroma == Chroma::Neither(Prop(0)) {
        None
    } else {
        match chroma {
            Chroma::Tint(c) => spec_max_sum_for_chroma_prop(hue, c),
            Chroma::Neither(_) => Some(UFDRNumber(spec_sum_for_max_chroma(hue) as u128)),
            Chroma::Shade(c) => match hue {
                Hue::Secondary(_) => Some(
                    UFDRNumber((2 * scale() - (3 - (u64::MAX - c.0) as int % 3)) as u128),
                ),
                _ => Some(UFDRNumber((spec_sum_for_max_chroma(hue) - 1) as u128)),
            },
        }
    }
}

/// The range of sums at which the hue has the given chroma.
pub open spec fn spec_sum_range_for_chroma(hue: Hue, chroma: Chroma) -> Option<(UFDRNumber, UFDRNumber)> {
    match (spec_min_sum_for_chroma(hue, chroma), spec_max_sum_for_chroma(hue, chroma)) {
        (Some(min), Some(max)) => Some((min, max)),
        _ => None,
    }
}

/// `x` limited to the range `lo..=hi`.
pub open spec fn clamp_int(x: int, lo: int, hi: int) -> int {
    if x > hi {
        hi
    } else if x < lo {
        lo
    } else {
        x
    }
}

/// The greatest chroma that the hue can have at the given sum.
pub open spec fn spec_max_chroma_for_sum(hue: Hue, sum: UFDRNumber) -> Option<Chroma> {
    let s = sum.0 as int;
    if !(0 < s < 3 * scale()) {
        None
    } else {
        match hue {
            Hue::Primary(_) => if s == scale() {
                Some(Chroma::Neither(Prop(u64::MAX)))
            } else if s < scale() {
                Some(Chroma::Shade(Prop(s as u64)))
            } else {
                Some(Chroma::Tint(Prop(clamp_int((3 * scale() - s) / 2, 1, u64::MAX - 1) as u64)))
            },
            Hue::Secondary(_) => if s == 2 * scale() {
                Some(Chroma::Neither(Prop(u64::MAX)))
            } else if s < 2 * scale() {
                Some(Chroma::Shade(Prop(clamp_int(s / 2, 1, u64::MAX as int) as u64)))
            } else {
                Some(Chroma::Tint(Prop((3 * scale() - s) as u64)))
            },
            Hue::Sextant(SextantHue(_, p)) => if s == scale() + p.0 {
                Some(Chroma::Neither(Prop(u64::MAX)))
            } else if s < scale() + p.0 {
                Some(Chroma::Shade(Prop(ufdr_div_spec(s, scale() + p.0) as u64)))
            } else {
                Some(
                    Chroma::Tint(
                        Prop(
                            clamp_int(
                                ufdr_div_spec(3 * scale() - s, 2 * scale() - p.0),
                                0,
                                u64::MAX - 1,
                            ) as u64,
                        ),
                    ),
                )
            },
        }
    }
}

/// The proportion of the greatest chroma that the hue can have at the given sum.
pub open spec fn spec_max_chroma_prop_for_sum(hue: Hue, sum: UFDRNumber) -> Option<Prop> {
    match spec_max_chroma_for_sum(hue, sum) {
        Some(chroma) => Some(chroma_prop(chroma)),
        None => None,
    }
}

/// `a * b / scale()` is at most `a` for a proportion `b`.
proof fn lemma_scaled_le(a: int, b: int)
    requires
        a >= 0,
        0 <= b <= scale(),
    ensures
        0 <= (a * b) / scale() <= a,
{
    lemma_mul_inequality(b, scale(), a);
    lemma_mul_is_commutative(b, a);
    lemma_mul_is_commutative(scale(), a);
    lemma_div_is_ordered(a * b, a * scale(), scale());
    lemma_div_by_multiple(a, scale());
    lemma_mul_nonnegative(a, b);
    lemma_div_pos_is_pos(a * b, scale());
}

/// `a * b / scale()` is at least `b` for a value `a` of at least one.
proof fn lemma_scaled_ge(a: int, b: int)
    requires
        a >= scale(),
        b >= 0,
    ensures
        (a * b) / scale() >= b,
{
    lemma_mul_inequality(scale(), a, b);
    lemma_mul_is_commutative(scale(), b);
    lemma_div_is_ordered(b * scale(), a * b, scale());
    lemma_div_by_multiple(b, scale());
}

impl RGBHue {
    pub fn sum_for_max_chroma(&self) -> (res: UFDRNumber)
        ensures
            res.0 == spec_sum_for_max_chroma(Hue::Primary(*self)),
    {
        UFDRNumber::one()
    }

    pub fn min_sum_for_chroma_prop(&self, c_prop: Prop) -> (res: Option<UFDRNumber>)
        ensures
            res == spec_min_sum_for_chroma_prop(Hue::Primary(*self), c_prop),
    {
        if c_prop.0 == 0 {
            None
        } else {
            Some(UFDRNumber::from(c_prop))
        }
    }

    pub fn max_sum_for_chroma_prop(&self, c_prop: Prop) -> (res: Option<UFDRNumber>)
        ensures
            res == spec_max_sum_for_chroma_prop(Hue::Primary(*self), c_prop),
    {
        if c_prop.0 == 0 {
            None
        } else {
            Some(UFDRNumber::three().sub_ufdr(c_prop.mul_u8(2)))
        }
    }

    pub fn min_sum_for_chroma(&self, chroma: Chroma) -> (res: Option<UFDRNumber>)
        ensures
            res == spec_min_sum_for_chroma(Hue::Primary(*self), chroma),
    {
        match chroma {
            Chroma::Neither(c) if c.0 == 0 => None,
            Chroma::Neither(_) => Some(UFDRNumber::one()),
            Chroma::Shade(c_prop) => Some(UFDRNumber::from(c_prop)),
            Chroma::Tint(c_prop) => Some(
                UFDRNumber::one().add_ufdr(UFDRNumber(3 - (u64::MAX - c_prop.0) as u128 % 3)),
            ),
        }
    }

    pub fn max_sum_for_chroma(&self, chroma: Chroma) -> (res: Option<UFDRNumber>)
        ensures
            res == spec_max_sum_for_chroma(Hue::Primary(*self), chroma),
    {
        match chroma {
            Chroma::Neither(c) if c.0 == 0 => None,
            Chroma::Neither(_) => Some(UFDRNumber::one()),
            Chroma::Shade(_) => Some(UFDRNumber::one().sub_ufdr(UFDRNumber(1))),
            Chroma::Tint(c_prop) => self.max_sum_for_chroma_prop(c_prop),
        }
    }

    pub fn max_chroma_for_sum(&self, sum: UFDRNumber) -> (res: Option<Chroma>)
        ensures
            res == spec_max_chroma_for_sum(Hue::Primary(*self), sum),
    {
        if sum.is_hue_valid() {
            let one = UFDRNumber::one();
            if sum.0 == one.0 {
                Some(Chroma::one())
            } else if sum.0 < one.0 {
                Some(Chroma::Shade(Prop(sum.0 as u64)))
            } else {
                let raw = UFDRNumber::three().sub_ufdr(sum).div_i32(2).0;
                let c = if raw > (u64::MAX - 1) as u128 {
                    u64::MAX - 1
                } else if raw < 1 {
                    1
                } else {
                    raw as u64
                };
                Some(Chroma::Tint(Prop(c)))
            }
        } else {
            None
        }
    }
}

impl CMYHue {
    pub fn sum_for_max_chroma(&self) -> (res: UFDRNumber)
        ensures
            res.0 == spec_sum_for_max_chroma(Hue::Secondary(*self)),
    {
        UFDRNumber::two()
    }

    pub fn min_sum_for_chroma_prop(&self, c_prop: Prop) -> (res: Option<UFDRNumber>)
        ensures
            res == spec_min_sum_for_chroma_prop(Hue::Secondary(*self), c_prop),
    {
        if c_prop.0 == 0 {
            None
        } else {
            Some(c_prop.mul_u8(2))
        }
    }

    pub fn max_sum_for_chroma_prop(&self, c_prop: Prop) -> (res: Option<UFDRNumber>)
        ensures
            res == spec_max_sum_for_chroma_prop(Hue::Secondary(*self), c_prop),
    {
        if c_prop.0 == 0 {
            None
        } else {
            Some(UFDRNumber::three().sub_prop(c_prop))
        }
    }

    pub fn min_sum_for_chroma(&self, chroma: Chroma) -> (res: Option<UFDRNumber>)
        ensures
            res == spec_min_sum_for_chroma(Hue::Secondary(*self), chroma),
    {
        match chroma {
            Chroma::Neither(c) if c.0 == 0 => None,
            Chroma::Neither(_) => Some(UFDRNumber::two()),
            Chroma::Shade(c_prop) => Some(c_prop.mul_u8(2)),
            Chroma::Tint(c_prop) => Some(
                UFDRNumber::two().add_ufdr(UFDRNumber(3 - c_prop.0 as u128 % 3)),
            ),
        }
    }

    pub fn max_sum_for_chroma(&self, chroma: Chroma) -> (res: Option<UFDRNumber>)
        ensures
            res == spec_max_sum_for_chroma(Hue::Secondary(*self), chroma),
    {
        match chroma {
            Chroma::Neither(c) if c.0 == 0 => None,
            Chroma::Neither(_) => Some(UFDRNumber::two()),
            Chroma::Shade(c_prop) => Some(
                UFDRNumber::two().sub_ufdr(UFDRNumber(3 - (u64::MAX - c_prop.0) as u128 % 3)),
            ),
            Chroma::Tint(c_prop) => self.max_sum_for_chroma_prop(c_prop),
        }
    }

    pub fn max_chroma_for_sum(&self, sum: UFDRNumber) -> (res: Option<Chroma>)
        ensures
            res == spec_max_chroma_for_sum(Hue::Secondary(*self), sum),
    {
        if sum.is_hue_valid() {
            let two = UFDRNumber::two();
            if sum.0 == two.0 {
                Some(Chroma::one())
            } else if sum.0 < two.0 {
                let half = sum.div_i32(2).0;
                let c = if half < 1 {
                    1
                } else {
                    half as u64
                };
                Some(Chroma::Shade(Prop(c)))
            } else {
                Some(Chroma::Tint(UFDRNumber::three().sub_ufdr(sum).to_prop()))
            }
        } else {
            None
        }
    }
}

impl SextantHue {
    pub fn sum_for_max_chroma(&self) -> (res: UFDRNumber)
        ensures
            res.0 == spec_sum_for_max_chroma(Hue::Sextant(*self)),
    {
        UFDRNumber::one().add_prop(self.1)
    }

    pub fn min_sum_for_chroma_prop(&self, c_prop: Prop) -> (res: Option<UFDRNumber>)
        ensures
            res == spec_min_sum_for_chroma_prop(Hue::Sextant(*self), c_prop),
    {
        if c_prop.0 == 0 {
            None
        } else {
            Some(c_prop.add_prop(self.1.mul_prop(c_prop)))
        }
    }

    pub fn max_sum_for_chroma_prop(&self, c_prop: Prop) -> (res: Option<UFDRNumber>)
        ensures
            res == spec_max_sum_for_chroma_prop(Hue::Sextant(*self), c_prop),
    {
        proof {
            lemma_scaled_le(2 * scale() - self.1.0, c_prop.0 as int);
        }
        let span = UFDRNumber::two().sub_prop(self.1).mul_prop(c_prop);
        if span.0 == 0 {
            None
        } else {
            Some(UFDRNumber::three().sub_ufdr(span))
        }
    }

    pub fn min_sum_for_chroma(&self, chroma: Chroma) -> (res: Option<UFDRNumber>)
        ensures
            res == spec_min_sum_for_chroma(Hue::Sextant(*self), chroma),
    {
        match chroma {
            Chroma::Neither(c) if c.0 == 0 => None,
            Chroma::Neither(_) => Some(UFDRNumber::one().add_prop(self.1)),
            Chroma::Shade(c_prop) => Some(c_prop.add_prop(self.1.mul_prop(c_prop))),
            Chroma::Tint(_) => Some(UFDRNumber::one().add_prop(self.1).add_ufdr(UFDRNumber(1))),
        }
    }

    pub fn max_sum_for_chroma(&self, chroma: Chroma) -> (res: Option<UFDRNumber>)
        ensures
            res == spec_max_sum_for_chroma(Hue::Sextant(*self), chroma),
    {
        match chroma {
            Chroma::Neither(c) if c.0 == 0 => None,
            Chroma::Neither(_) => Some(UFDRNumber::one().add_prop(self.1)),
            Chroma::Shade(_) => Some(UFDRNumber::one().add_prop(self.1).sub_ufdr(UFDRNumber(1))),
            Chroma::Tint(c_prop) => self.max_sum_for_chroma_prop(c_prop),
        }
    }

    pub fn max_chroma_for_sum(&self, sum: UFDRNumber) -> (res: Option<Chroma>)
        ensures
            res == spec_max_chroma_for_sum(Hue::Sextant(*self), sum),
    {
        if sum.is_hue_valid() {
            let max_chroma_sum = self.sum_for_max_chroma();
            if sum.0 == max_chroma_sum.0 {
                Some(Chroma::one())
            } else if sum.0 < max_chroma_sum.0 {
                proof {
                    lemma_ratio_fits(sum.0 as int, max_chroma_sum.0 as int);
                }
                let temp = sum.div_ufdr(max_chroma_sum);
                Some(Chroma::Shade(Prop(temp.0 as u64)))
            } else {
                let numerator = UFDRNumber::three().sub_ufdr(sum);
                let denominator = UFDRNumber::two().sub_prop(self.1);
                proof {
                    lemma_ratio_fits(numerator.0 as int, denominator.0 as int);
                }
                let temp = numerator.div_ufdr(denominator).0;
                let c = if temp > (u64::MAX - 1) as u128 {
                    u64::MAX - 1
                } else {
                    temp as u64
                };
                Some(Chroma::Tint(Prop(c)))
            }
        } else {
            None
        }
    }

    /// The difference of two sextant hues: that of their proportions when in the same
    /// sextant, and one otherwise.
    pub fn abs_diff(&self, other: &Self) -> (res: Prop)
        ensures
            res.0 == if self.0 == other.0 {
                int_abs_diff(self.1.0 as int, other.1.0 as int)
            } else {
                u64::MAX as int
            },
    {
        if self.0 == other.0 {
            if self.1.0 > other.1.0 {
                Prop(self.1.0 - other.1.0)
            } else {
                Prop(other.1.0 - self.1.0)
            }
        } else {
            Prop::one()
        }
    }

    pub fn sextant(&self) -> (res: Sextant)
        ensures
            res == self.0,
    {
        self.0
    }

    pub fn prop(&self) -> (res: Prop)
        ensures
            res == self.1,
    {
        self.1
    }

    /// Approximate equality with a raw maximum difference of the proportions.
    pub fn approx_eq(&self, other: &Self, acceptable_rounding_error: Option<u64>) -> (res: bool)
        ensures
            res == (self.0 == other.0 && crate::attributes::prop_approx_eq_raw(
                self.1,
                other.1,
                acceptable_rounding_error,
            )),
    {
        if self.0 == other.0 {
            crate::attributes::prop_approx_eq_raw_exec(self.1, other.1, acceptable_rounding_error)
        } else {
            false
        }
    }
}

/// A quotient `a / d` of values with `a < 2 * d` and `d` between one and two can be
/// computed by `UFDRNumber::div_ufdr` without overflow.
proof fn lemma_ratio_fits(a: int, d: int)
    requires
        0 <= a <= 3 * scale(),
        scale() <= d <= 2 * scale(),
    ensures
        crate::fdrn::ufdr_div_ok(a, d),
        0 <= ufdr_div_spec(a, d),
{
    let q = u128::MAX as int / d;
    lemma_div_is_ordered_by_denominator(u128::MAX as int, scale(), d);
    lemma_div_pos_is_pos(u128::MAX as int, d);
    lemma_mul_upper_bound(a, 3 * scale(), q, u128::MAX as int / scale());
    assert(3 * scale() * (u128::MAX as int / scale()) <= 3 * u128::MAX);
    lemma_div_is_ordered(a * q, 3 * u128::MAX, scale());
    lemma_mul_nonnegative(a, q);
    lemma_div_pos_is_pos(a * q, scale());
    if d % scale() == 0 {
        lemma_div_pos_is_pos(d, scale());
        lemma_div_is_ordered(scale(), d, scale());
        lemma_div_by_self(scale());
        lemma_div_pos_is_pos(a, d / scale());
    }
}

impl Hue {
    pub fn sum_for_max_chroma(&self) -> (res: UFDRNumber)
        ensures
            res.0 == spec_sum_for_max_chroma(*self),
    {
        match self {
            Hue::Primary(rgb_hue) => rgb_hue.sum_for_max_chroma(),
            Hue::Secondary(cmy_hue) => cmy_hue.sum_for_max_chroma(),
            Hue::Sextant(sextant_hue) => sextant_hue.sum_for_max_chroma(),
        }
    }

    pub fn min_sum_for_chroma_prop(&self, c_prop: Prop) -> (res: Option<UFDRNumber>)
        ensures
            res == spec_min_sum_for_chroma_prop(*self, c_prop),
    {
        match self {
            Hue::Primary(rgb_hue) => rgb_hue.min_sum_for_chroma_prop(c_prop),
            Hue::Secondary(cmy_hue) => cmy_hue.min_sum_for_chroma_prop(c_prop),
            Hue::Sextant(sextant_hue) => sextant_hue.min_sum_for_chroma_prop(c_prop),
        }
    }

    pub fn max_sum_for_chroma_prop(&self, c_prop: Prop) -> (res: Option<UFDRNumber>)
        ensures
            res == spec_max_sum_for_chroma_prop(*self, c_prop),
    {
        match self {
            Hue::Primary(rgb_hue) => rgb_hue.max_sum_for_chroma_prop(c_prop),
            Hue::Secondary(cmy_hue) => cmy_hue.max_sum_for_chroma_prop(c_prop),
            Hue::Sextant(sextant_hue) => sextant_hue.max_sum_for_chroma_prop(c_prop),
        }
    }

    pub fn sum_range_for_chroma_prop(&self, c_prop: Prop) -> (res: Option<(UFDRNumber, UFDRNumber)>)
        ensures
            res == spec_sum_range_for_chroma_prop(*self, c_prop),
    {
        let min = self.min_sum_for_chroma_prop(c_prop);
        let max = self.max_sum_for_chroma_prop(c_prop);
        match (min, max) {
            (Some(min), Some(max)) => Some((min, max)),
            _ => None,
        }
    }

    pub fn min_sum_for_chroma(&self, chroma: Chroma) -> (res: Option<UFDRNumber>)
        ensures
            res == spec_min_sum_for_chroma(*self, chroma),
    {
        match self {
            Hue::Primary(rgb_hue) => rgb_hue.min_sum_for_chroma(chroma),
            Hue::Secondary(cmy_hue) => cmy_hue.min_sum_for_chroma(chroma),
            Hue::Sextant(sextant_hue) => sextant_hue.min_sum_for_chroma(chroma),
        }
    }

    pub fn max_sum_for_chroma(&self, chroma: Chroma) -> (res: Option<UFDRNumber>)
        ensures
            res == spec_max_sum_for_chroma(*self, chroma),
    {
        match self {
            Hue::Primary(rgb_hue) => rgb_hue.max_sum_for_chroma(chroma),
            Hue::Secondary(cmy_hue) => cmy_hue.max_sum_for_chroma(chroma),
            Hue::Sextant(sextant_hue) => sextant_hue.max_sum_for_chroma(chroma),
        }
    }

    pub fn sum_range_for_chroma(&self, chroma: Chroma) -> (res: Option<(UFDRNumber, UFDRNumber)>)
        ensures
            res == spec_sum_range_for_chroma(*self, chroma),
    {
        let min = self.min_sum_for_chroma(chroma);
        let max = self.max_sum_for_chroma(chroma);
        match (min, max) {
            (Some(min), Some(max)) => Some((min, max)),
            _ => None,
        }
    }

    pub fn max_chroma_for_sum(&self, sum: UFDRNumber) -> (res: Option<Chroma>)
        ensures
            res == spec_max_chroma_for_sum(*self, sum),
    {
        match self {
            Hue::Primary(rgb_hue) => rgb_hue.max_chroma_for_sum(sum),
            Hue::Secondary(cmy_hue) => cmy_hue.max_chroma_for_sum(sum),
            Hue::Sextant(sextant_hue) => sextant_hue.max_chroma_for_sum(sum),
        }
    }

    pub fn max_chroma_prop_for_sum(&self, sum: UFDRNumber) -> (res: Option<Prop>)
        ensures
            res == spec_max_chroma_prop_for_sum(*self, sum),
    {
        match self.max_chroma_for_sum(sum) {
            Some(chroma) => Some(chroma.prop()),
            None => None,
        }
    }

    /// The ordering index: zero for every hue, so all hues compare as equal.
    pub fn ord_index(&self) -> (res: u8)
        ensures
            res == 0,
    {
        0
    }
}

/// Three proportions from raw values, each truncated to 64 bits.
pub open spec fn tri(a: int, b: int, c: int) -> [Prop; 3] {
    [Prop(a as u64), Prop(b as u64), Prop(c as u64)]
}

/// The hue parameter search, first step: the estimate is lowered while its product
/// with the chroma exceeds the sum of the components.
pub open spec fn hp_lower_for_product(s: int, f: int, sc: int, t: int) -> int
    decreases s,
{
    if s > scale() + 1 && (s * (f - t)) / scale() > f + sc + t {
        hp_lower_for_product(s - 1, f, sc, t)
    } else {
        s
    }
}

/// The hue parameter search, second step: the estimate is lowered while the
/// smallest component it implies falls below the actual one.
pub open spec fn hp_lower_for_third(s: int, f: int, sc: int, t: int) -> int
    decreases s,
{
    if s > scale() + 1 && (f + sc + t - (s * (f - t)) / scale()) / 3 < t {
        hp_lower_for_third(s - 1, f, sc, t)
    } else {
        s
    }
}

/// The first estimate of the sum for the most chromatic colour of the hue through a
/// value ordered triplet: one plus `(second - third) / (first - third)`.
pub open spec fn hp_estimate(f: int, sc: int, t: int) -> int {
    scale() + prop_div_spec(Prop((sc - t) as u64), Prop((f - t) as u64)).0
}

/// The hue parameter of a value ordered triplet `[first, second, third]`: the
/// middle component of the hue's most chromatic colour.
pub open spec fn spec_hue_parameter(f: int, sc: int, t: int) -> Prop {
    Prop(
        (hp_lower_for_third(
            hp_lower_for_product(hp_estimate(f, sc, t), f, sc, t),
            f,
            sc,
            t,
        ) - scale()) as u64,
    )
}

/// The triplets that a value ordered triplet function accepts: components within a
/// proportion, the first above the third and the second between them.
pub open spec fn hp_args_ok(f: int, sc: int, t: int) -> bool {
    0 <= t <= sc <= f <= u64::MAX && t < f
}

proof fn lemma_hp_lower_for_product(s: int, f: int, sc: int, t: int)
    requires
        s >= scale(),
        hp_args_ok(f, sc, t),
    ensures
        scale() <= hp_lower_for_product(s, f, sc, t) <= s,
        hp_lower_for_product(s, f, sc, t) > scale() + 1 ==> (hp_lower_for_product(s, f, sc, t)
            * (f - t)) / scale() <= f + sc + t,
    decreases s,
{
    if s > scale() + 1 && (s * (f - t)) / scale() > f + sc + t {
        lemma_hp_lower_for_product(s - 1, f, sc, t);
    }
}

proof fn lemma_hp_lower_for_third(s: int, f: int, sc: int, t: int)
    requires
        s >= scale(),
        hp_args_ok(f, sc, t),
    ensures
        scale() <= hp_lower_for_third(s, f, sc, t) <= s,
    decreases s,
{
    if s > scale() + 1 && (f + sc + t - (s * (f - t)) / scale()) / 3 < t {
        lemma_hp_lower_for_third(s - 1, f, sc, t);
    }
}

/// `(u128::MAX / r) * l` fits in 128 bits when `l <= r`.
proof fn lemma_reciprocal_product_fits(l: int, r: int)
    requires
        0 <= l <= r,
        r > 0,
    ensures
        (u128::MAX as int / r) * l <= u128::MAX,
        (u128::MAX as int / r) * l >= 0,
{
    lemma_div_pos_is_pos(u128::MAX as int, r);
    lemma_mul_inequality(l, r, u128::MAX as int / r);
    lemma_mul_is_commutative(l, u128::MAX as int / r);
    lemma_mul_is_commutative(r, u128::MAX as int / r);
    lemma_fundamental_div_mod(u128::MAX as int, r);
    lemma_mod_pos_bound(u128::MAX as int, r);
    lemma_mul_nonnegative(l, u128::MAX as int / r);
}

/// Computes the hue parameter of a value ordered triplet.
pub fn calculate_hue_parameter(triplet: [Prop; 3]) -> (res: Prop)
    requires
        hp_args_ok(triplet[0].0 as int, triplet[1].0 as int, triplet[2].0 as int),
    ensures
        res == spec_hue_parameter(triplet[0].0 as int, triplet[1].0 as int, triplet[2].0 as int),
{
    let first = triplet[0];
    let second = triplet[1];
    let third = triplet[2];
    let ghost f = first.0 as int;
    let ghost sc = second.0 as int;
    let ghost t = third.0 as int;
    let spread = first.sub_prop(third);
    let offset = second.sub_prop(third);
    proof {
        lemma_reciprocal_product_fits(offset.0 as int, spread.0 as int);
    }
    let total = first.add_prop(second).add_prop(third);
    let one_plus_one = UFDRNumber::one().add_ufdr(UFDRNumber(1));
    let mut sum_for_max_chroma = UFDRNumber::one().add_prop(offset.div_prop(spread));
    let ghost estimate = sum_for_max_chroma.0 as int;
    assert(estimate == hp_estimate(f, sc, t));
    proof {
        lemma_hp_lower_for_product(estimate, f, sc, t);
    }
    // Handle possible (fatal) rounding error
    while sum_for_max_chroma.0 > one_plus_one.0 && sum_for_max_chroma.mul_prop(spread).0
        > total.0
        invariant
            hp_args_ok(f, sc, t),
            first.0 == f,
            second.0 == sc,
            third.0 == t,
            spread.0 == f - t,
            total.0 == f + sc + t,
            one_plus_one.0 == scale() + 1,
            scale() <= sum_for_max_chroma.0 <= estimate,
            hp_lower_for_product(sum_for_max_chroma.0 as int, f, sc, t) == hp_lower_for_product(
                estimate,
                f,
                sc,
                t,
            ),
        decreases sum_for_max_chroma.0,
    {
        sum_for_max_chroma = sum_for_max_chroma.sub_ufdr(UFDRNumber(1));
    }
    let ghost lowered = sum_for_max_chroma.0 as int;
    assert(lowered == hp_lower_for_product(estimate, f, sc, t));
    proof {
        lemma_hp_lower_for_third(lowered, f, sc, t);
    }
    while sum_for_max_chroma.0 > one_plus_one.0 && total.sub_ufdr(
        sum_for_max_chroma.mul_prop(spread),
    ).div_i32(3).0 < third.0 as u128
        invariant
            hp_args_ok(f, sc, t),
            first.0 == f,
            second.0 == sc,
            third.0 == t,
            spread.0 == f - t,
            total.0 == f + sc + t,
            one_plus_one.0 == scale() + 1,
            scale() <= sum_for_max_chroma.0 <= lowered,
            sum_for_max_chroma.0 > scale() + 1 ==> (sum_for_max_chroma.0 * (f - t)) / scale()
                <= f + sc + t,
            hp_lower_for_third(sum_for_max_chroma.0 as int, f, sc, t) == hp_lower_for_third(
                lowered,
                f,
                sc,
                t,
            ),
        decreases sum_for_max_chroma.0,
    {
        let ghost before = sum_for_max_chroma.0 as int;
        sum_for_max_chroma = sum_for_max_chroma.sub_ufdr(UFDRNumber(1));
        proof {
            lemma_mul_inequality(sum_for_max_chroma.0 as int, before, f - t);
            lemma_div_is_ordered(sum_for_max_chroma.0 * (f - t), before * (f - t), scale());
        }
    }
    Prop(sum_for_max_chroma.sub_ufdr(UFDRNumber::one()).0 as u64)
}

/// The hue, if any, of red, green and blue components: greys have none.
pub open spec fn spec_hue_of(rgb: [Prop; 3]) -> Option<Hue> {
    let r = rgb[0].0;
    let g = rgb[1].0;
    let b = rgb[2].0;
    if r > g {
        if g > b {
            Some(Hue::Sextant(SextantHue(Sextant::RedYellow, spec_hue_parameter(r as int, g as int, b as int))))
        } else if g < b {
            if r > b {
                Some(Hue::Sextant(SextantHue(Sextant::RedMagenta, spec_hue_parameter(r as int, b as int, g as int))))
            } else if r < b {
                Some(Hue::Sextant(SextantHue(Sextant::BlueMagenta, spec_hue_parameter(b as int, r as int, g as int))))
            } else {
                Some(Hue::Secondary(CMYHue::Magenta))
            }
        } else {
            Some(Hue::Primary(RGBHue::Red))
        }
    } else if r < g {
        if r > b {
            Some(Hue::Sextant(SextantHue(Sextant::GreenYellow, spec_hue_parameter(g as int, r as int, b as int))))
        } else if r < b {
            if g > b {
                Some(Hue::Sextant(SextantHue(Sextant::GreenCyan, spec_hue_parameter(g as int, b as int, r as int))))
            } else if g < b {
                Some(Hue::Sextant(SextantHue(Sextant::BlueCyan, spec_hue_parameter(b as int, g as int, r as int))))
            } else {
                Some(Hue::Secondary(CMYHue::Cyan))
            }
        } else {
            Some(Hue::Primary(RGBHue::Green))
        }
    } else {
        if r > b {
            Some(Hue::Secondary(CMYHue::Yellow))
        } else if r < b {
            Some(Hue::Primary(RGBHue::Blue))
        } else {
            None
        }
    }
}

impl SextantHue {
    /// The sextant hue of a value ordered triplet in the given sextant.
    pub fn from_sextant_triplet(sextant: Sextant, triplet: [Prop; 3]) -> (res: SextantHue)
        requires
            hp_args_ok(triplet[0].0 as int, triplet[1].0 as int, triplet[2].0 as int),
        ensures
            res == SextantHue(
                sextant,
                spec_hue_parameter(triplet[0].0 as int, triplet[1].0 as int, triplet[2].0 as int),
            ),
    {
        SextantHue(sextant, calculate_hue_parameter(triplet))
    }
}

impl Hue {
    /// The hue of red, green and blue components, or an error for a grey.
    pub fn try_from(array: [Prop; 3]) -> (res: Result<Hue, &'static str>)
        ensures
            res is Ok <==> spec_hue_of(array) is Some,
            res matches Ok(hue) ==> spec_hue_of(array) == Some(hue),
    {
        let red = array[0];
        let green = array[1];
        let blue = array[2];
        if red.0 > green.0 {
            if green.0 > blue.0 {
                Ok(Hue::Sextant(SextantHue::from_sextant_triplet(Sextant::RedYellow, [red, green, blue])))
            } else if green.0 < blue.0 {
                if red.0 > blue.0 {
                    Ok(Hue::Sextant(SextantHue::from_sextant_triplet(Sextant::RedMagenta, [red, blue, green])))
                } else if red.0 < blue.0 {
                    Ok(Hue::Sextant(SextantHue::from_sextant_triplet(Sextant::BlueMagenta, [blue, red, green])))
                } else {
                    Ok(Hue::Secondary(CMYHue::Magenta))
                }
            } else {
                Ok(Hue::Primary(RGBHue::Red))
            }
        } else if red.0 < green.0 {
            if red.0 > blue.0 {
                Ok(Hue::Sextant(SextantHue::from_sextant_triplet(Sextant::GreenYellow, [green, red, blue])))
            } else if red.0 < blue.0 {
                if green.0 > blue.0 {
                    Ok(Hue::Sextant(SextantHue::from_sextant_triplet(Sextant::GreenCyan, [green, blue, red])))
                } else if green.0 < blue.0 {
                    Ok(Hue::Sextant(SextantHue::from_sextant_triplet(Sextant::BlueCyan, [blue, green, red])))
                } else {
                    Ok(Hue::Secondary(CMYHue::Cyan))
                }
            } else {
                Ok(Hue::Primary(RGBHue::Green))
            }
        } else {
            if red.0 > blue.0 {
                Ok(Hue::Secondary(CMYHue::Yellow))
            } else if red.0 < blue.0 {
                Ok(Hue::Primary(RGBHue::Blue))
            } else {
                Err("RGB is grey and hs no hue")
            }
        }
    }
}

/// Puts a value ordered triplet (largest first) into red, green, blue order for the
/// hue.
pub open spec fn spec_triplet_to_rgb_order(hue: Hue, t: [Prop; 3]) -> [Prop; 3] {
    match hue {
        Hue::Primary(RGBHue::Red) => t,
        Hue::Primary(RGBHue::Green) => [t[1], t[0], t[2]],
        Hue::Primary(RGBHue::Blue) => [t[2], t[1], t[0]],
        Hue::Secondary(CMYHue::Cyan) => [t[2], t[0], t[1]],
        Hue::Secondary(CMYHue::Magenta) => [t[0], t[2], t[1]],
        Hue::Secondary(CMYHue::Yellow) => t,
        Hue::Sextant(SextantHue(sextant, _)) => match sextant {
            Sextant::RedMagenta => [t[0], t[2], t[1]],
            Sextant::RedYellow => t,
            Sextant::GreenYellow => [t[1], t[0], t[2]],
            Sextant::GreenCyan => [t[2], t[0], t[1]],
            Sextant::BlueCyan => [t[2], t[1], t[0]],
            Sextant::BlueMagenta => [t[1], t[2], t[0]],
        },
    }
}

/// The least sum for the chroma proportion `c` as `try_ordered_triplet` and
/// `ordered_triplet` compute it: the most chromatic sum scaled by `c`.
pub open spec fn scaled_min_sum(hue: Hue, c: Prop) -> int {
    (spec_sum_for_max_chroma(hue) * c.0) / scale()
}

/// The value ordered triplet with the given sum and chroma proportion for the hue:
/// `Ok` where the triplet has exactly the hue, `Err` with the nearest triplet where
/// rounding moved it off the hue, `None` where there is none.
pub open spec fn spec_try_ordered_triplet(hue: Hue, sum: UFDRNumber, c: Prop) -> Option<Result<[Prop; 3], [Prop; 3]>> {
    let s = sum.0 as int;
    let m = scale();
    match hue {
        Hue::Primary(_) => if c.0 == 0 {
            None
        } else if s >= c.0 {
            let t = (s - c.0) / 3;
            let f = t + c.0;
            if f > m {
                None
            } else {
                let sec = s - f - t;
                if sec == t {
                    Some(Ok(tri(f, sec, t)))
                } else {
                    Some(Err(tri(f, sec, t)))
                }
            }
        } else {
            None
        },
        Hue::Secondary(_) => if 2 * c.0 == 0 {
            None
        } else if s >= 2 * c.0 {
            let t = (s - 2 * c.0) / 3;
            let f = t + c.0;
            if f > m {
                None
            } else {
                let sec = s - f - t;
                if sec == f {
                    Some(Ok(tri(f, sec, t)))
                } else if sec - f == 1 {
                    if sec <= m {
                        Some(Err(tri(sec, f - 1, t + 1)))
                    } else {
                        None
                    }
                } else {
                    if f + 1 <= m {
                        Some(Err(tri(f + 1, sec - 2, t + 1)))
                    } else {
                        None
                    }
                }
            }
        } else {
            None
        },
        Hue::Sextant(SextantHue(_, p)) => {
            let x = scaled_min_sum(hue, c);
            if x == 0 {
                None
            } else if s >= x {
                let t = (s - x) / 3;
                let f = t + c.0;
                if f > m {
                    None
                } else {
                    let sec = s - f - t;
                    if sec < f {
                        if spec_hue_parameter(f, sec, t) == p {
                            Some(Ok(tri(f, sec, t)))
                        } else {
                            Some(Err(tri(f, sec, t)))
                        }
                    } else if sec == f {
                        Some(Err(tri(f, sec, t)))
                    } else {
                        if sec <= m {
                            Some(Err(tri(sec, f - 1, t + 1)))
                        } else {
                            None
                        }
                    }
                }
            } else {
                None
            }
        },
    }
}

/// The value ordered triplet with the given sum and chroma proportion, without the
/// check that it has exactly the hue.
pub open spec fn spec_ordered_triplet(hue: Hue, sum: UFDRNumber, c: Prop) -> Option<[Prop; 3]> {
    let s = sum.0 as int;
    let x = scaled_min_sum(hue, c);
    if s >= x {
        let t = (s - x) / 3;
        let f = t + c.0;
        if f <= scale() {
            Some(tri(f, s - f - t, t))
        } else {
            None
        }
    } else {
        None
    }
}

/// The red, green and blue components with the given sum and chroma proportion.
pub open spec fn spec_rgb_ordered_triplet(hue: Hue, sum: UFDRNumber, c: Prop) -> Option<[Prop; 3]> {
    match spec_ordered_triplet(hue, sum, c) {
        Some(t) => Some(spec_triplet_to_rgb_order(hue, t)),
        None => None,
    }
}

/// `spec_try_ordered_triplet` put into red, green, blue order.
pub open spec fn spec_try_rgb_ordered_triplet(hue: Hue, sum: UFDRNumber, c: Prop) -> Option<Result<[Prop; 3], [Prop; 3]>> {
    match spec_try_ordered_triplet(hue, sum, c) {
        Some(Ok(t)) => Some(Ok(spec_triplet_to_rgb_order(hue, t))),
        Some(Err(t)) => Some(Err(spec_triplet_to_rgb_order(hue, t))),
        None => None,
    }
}

/// The most chromatic sum is at least one.
pub(crate) proof fn lemma_sum_for_max_chroma_bounds(hue: Hue)
    ensures
        scale() <= spec_sum_for_max_chroma(hue) <= 2 * scale(),
{
}

/// Scaling zero gives zero.
proof fn lemma_scaled_of_zero(a: int, c: int)
    ensures
        c == 0 ==> (a * c) / scale() == 0,
{
    if c == 0 {
        lemma_mul_basics(a);
    }
}

/// The scaled least sum is at least `c` and at most twice one.
proof fn lemma_scaled_min_sum_bounds(hue: Hue, c: Prop)
    ensures
        c.0 <= scaled_min_sum(hue, c) <= 2 * scale(),
{
    lemma_sum_for_max_chroma_bounds(hue);
    lemma_scaled_ge(spec_sum_for_max_chroma(hue), c.0 as int);
    lemma_scaled_le(spec_sum_for_max_chroma(hue), c.0 as int);
}

/// The sum of the red, green and blue components.
pub open spec fn rgb_sum(rgb: [Prop; 3]) -> int {
    rgb[0].0 + rgb[1].0 + rgb[2].0
}

/// The largest of the red, green and blue components.
pub open spec fn rgb_max(rgb: [Prop; 3]) -> int {
    let a = if rgb[0].0 >= rgb[1].0 { rgb[0].0 as int } else { rgb[1].0 as int };
    if a >= rgb[2].0 { a } else { rgb[2].0 as int }
}

/// The smallest of the red, green and blue components.
pub open spec fn rgb_min(rgb: [Prop; 3]) -> int {
    let a = if rgb[0].0 <= rgb[1].0 { rgb[0].0 as int } else { rgb[1].0 as int };
    if a <= rgb[2].0 { a } else { rgb[2].0 as int }
}

/// A sextant hue with a zero parameter: it stands where the sextant's primary does.
pub open spec fn is_degenerate_sextant(hue: Hue) -> bool {
    hue matches Hue::Sextant(SextantHue(_, p)) && p.0 == 0
}

/// A triplet whose second and third components are equal has a zero hue parameter.
proof fn lemma_hue_parameter_of_flat(f: int, t: int)
    requires
        0 <= t < f <= u64::MAX,
    ensures
        spec_hue_parameter(f, t, t) == Prop(0),
{
    let d = Prop((f - t) as u64);
    if d.0 != u64::MAX {
        lemma_mul_basics(u128::MAX as int / d.0 as int);
    }
    assert(prop_div_spec(Prop(0), d).0 == 0);
    assert(hp_estimate(f, t, t) == scale());
}

/// What the round trip promises of the components `rgb` for a hue, a sum and a chroma
/// proportion.
pub open spec fn round_trip_holds(rgb: [Prop; 3], hue: Hue, sum: UFDRNumber, c_prop: Prop) -> bool {
    &&& spec_hue_of(rgb) == Some(hue)
    &&& rgb_sum(rgb) == sum.0
    &&& rgb_max(rgb) - rgb_min(rgb) == c_prop.0
}

proof fn lemma_round_trip_primary(rgb_hue: RGBHue, sum: UFDRNumber, c_prop: Prop)
    requires
        spec_try_rgb_ordered_triplet(Hue::Primary(rgb_hue), sum, c_prop) matches Some(Ok(_)),
    ensures
        spec_try_rgb_ordered_triplet(Hue::Primary(rgb_hue), sum, c_prop) matches Some(Ok(rgb))
            && round_trip_holds(rgb, Hue::Primary(rgb_hue), sum, c_prop),
{
}

proof fn lemma_round_trip_secondary(cmy_hue: CMYHue, sum: UFDRNumber, c_prop: Prop)
    requires
        spec_try_rgb_ordered_triplet(Hue::Secondary(cmy_hue), sum, c_prop) matches Some(Ok(_)),
    ensures
        spec_try_rgb_ordered_triplet(Hue::Secondary(cmy_hue), sum, c_prop) matches Some(Ok(rgb))
            && round_trip_holds(rgb, Hue::Secondary(cmy_hue), sum, c_prop),
{
}

proof fn lemma_round_trip_sextant(sextant_hue: SextantHue, sum: UFDRNumber, c_prop: Prop)
    requires
        sextant_hue.1.0 != 0,
        spec_try_rgb_ordered_triplet(Hue::Sextant(sextant_hue), sum, c_prop) matches Some(Ok(_)),
    ensures
        spec_try_rgb_ordered_triplet(Hue::Sextant(sextant_hue), sum, c_prop) matches Some(Ok(rgb))
            && round_trip_holds(rgb, Hue::Sextant(sextant_hue), sum, c_prop),
{
    let hue = Hue::Sextant(sextant_hue);
    let s = sum.0 as int;
    lemma_scaled_min_sum_bounds(hue, c_prop);
    let x = scaled_min_sum(hue, c_prop);
    let t = (s - x) / 3;
    let f = t + c_prop.0;
    let sec = s - f - t;
    assert(sec >= t);
    if sec == t {
        lemma_hue_parameter_of_flat(f, t);
    }
    assert(t < sec < f);
}

/// Round trip: the components that `try_rgb_ordered_triplet` gives as exact for a
/// hue, a sum and a chroma proportion have that hue, add up to that sum, and their
/// largest exceeds their smallest by that chroma proportion.
pub proof fn lemma_try_rgb_ordered_triplet_round_trip(hue: Hue, sum: UFDRNumber, c_prop: Prop)
    requires
        !is_degenerate_sextant(hue),
        spec_try_rgb_ordered_triplet(hue, sum, c_prop) matches Some(Ok(_)),
    ensures
        spec_try_rgb_ordered_triplet(hue, sum, c_prop) matches Some(Ok(rgb)) && round_trip_holds(
            rgb,
            hue,
            sum,
            c_prop,
        ),
{
    match hue {
        Hue::Primary(rgb_hue) => lemma_round_trip_primary(rgb_hue, sum, c_prop),
        Hue::Secondary(cmy_hue) => lemma_round_trip_secondary(cmy_hue, sum, c_prop),
        Hue::Sextant(sextant_hue) => lemma_round_trip_sextant(sextant_hue, sum, c_prop),
    }
}

/// A triplet in value order for the hue: first above second equal to third for a
/// primary, first equal to second above third for a secondary, strictly decreasing for
/// a sextant hue.
pub open spec fn spec_has_valid_value_order(hue: Hue, t: [Prop; 3]) -> bool {
    match hue {
        Hue::Primary(_) => t[0].0 > t[1].0 && t[1].0 == t[2].0,
        Hue::Secondary(_) => t[0].0 == t[1].0 && t[1].0 > t[2].0,
        Hue::Sextant(_) => t[0].0 > t[1].0 && t[1].0 > t[2].0,
    }
}

/// Red, green and blue components ordered as the hue orders them.
pub open spec fn spec_has_valid_rgb_order(hue: Hue, t: [Prop; 3]) -> bool {
    match hue {
        Hue::Primary(RGBHue::Red) => t[0].0 > t[1].0 && t[1].0 == t[2].0,
        Hue::Primary(RGBHue::Green) => t[1].0 > t[0].0 && t[0].0 == t[2].0,
        Hue::Primary(RGBHue::Blue) => t[2].0 > t[0].0 && t[0].0 == t[1].0,
        Hue::Secondary(CMYHue::Cyan) => t[1].0 == t[2].0 && t[1].0 > t[0].0,
        Hue::Secondary(CMYHue::Magenta) => t[0].0 == t[2].0 && t[0].0 > t[1].0,
        Hue::Secondary(CMYHue::Yellow) => t[0].0 == t[1].0 && t[0].0 > t[2].0,
        Hue::Sextant(SextantHue(sextant, _)) => match sextant {
            Sextant::RedMagenta => t[0].0 > t[2].0 && t[2].0 > t[1].0,
            Sextant::RedYellow => t[0].0 > t[1].0 && t[1].0 > t[2].0,
            Sextant::GreenYellow => t[1].0 > t[0].0 && t[0].0 > t[2].0,
            Sextant::GreenCyan => t[1].0 > t[2].0 && t[2].0 > t[0].0,
            Sextant::BlueCyan => t[2].0 > t[1].0 && t[1].0 > t[0].0,
            Sextant::BlueMagenta => t[2].0 > t[0].0 && t[0].0 > t[1].0,
        },
    }
}

/// Putting a triplet into red, green, blue order for the hue turns a valid value
/// order into a valid colour order, and nothing else into one.
pub proof fn lemma_rgb_order_of_value_order(hue: Hue, t: [Prop; 3])
    ensures
        spec_has_valid_rgb_order(hue, spec_triplet_to_rgb_order(hue, t))
            == spec_has_valid_value_order(hue, t),
{
}

impl Hue {
    /// Whether a triplet is in value order for the hue.
    pub fn has_valid_value_order(&self, triplet: &[Prop; 3]) -> (res: bool)
        ensures
            res == spec_has_valid_value_order(*self, *triplet),
    {
        let t = triplet;
        match self {
            Hue::Primary(_) => t[0].0 > t[1].0 && t[1].0 == t[2].0,
            Hue::Secondary(_) => t[0].0 == t[1].0 && t[1].0 > t[2].0,
            Hue::Sextant(_) => t[0].0 > t[1].0 && t[1].0 > t[2].0,
        }
    }

    /// Whether red, green and blue components are ordered as the hue orders them.
    pub fn has_valid_rgb_order(&self, triplet: &[Prop; 3]) -> (res: bool)
        ensures
            res == spec_has_valid_rgb_order(*self, *triplet),
    {
        let t = triplet;
        match self {
            Hue::Primary(RGBHue::Red) => t[0].0 > t[1].0 && t[1].0 == t[2].0,
            Hue::Primary(RGBHue::Green) => t[1].0 > t[0].0 && t[0].0 == t[2].0,
            Hue::Primary(RGBHue::Blue) => t[2].0 > t[0].0 && t[0].0 == t[1].0,
            Hue::Secondary(CMYHue::Cyan) => t[1].0 == t[2].0 && t[1].0 > t[0].0,
            Hue::Secondary(CMYHue::Magenta) => t[0].0 == t[2].0 && t[0].0 > t[1].0,
            Hue::Secondary(CMYHue::Yellow) => t[0].0 == t[1].0 && t[0].0 > t[2].0,
            Hue::Sextant(sextant_hue) => match sextant_hue.0 {
                Sextant::RedMagenta => t[0].0 > t[2].0 && t[2].0 > t[1].0,
                Sextant::RedYellow => t[0].0 > t[1].0 && t[1].0 > t[2].0,
                Sextant::GreenYellow => t[1].0 > t[0].0 && t[0].0 > t[2].0,
                Sextant::GreenCyan => t[1].0 > t[2].0 && t[2].0 > t[0].0,
                Sextant::BlueCyan => t[2].0 > t[1].0 && t[1].0 > t[0].0,
                Sextant::BlueMagenta => t[2].0 > t[0].0 && t[0].0 > t[1].0,
            },
        }
    }

    /// The colour of the hue with a value ordered triplet's sum and spread.
    pub fn ordered_triplet_to_hcv(&self, triplet: &[Prop; 3]) -> (res: crate::hcv::HCV)
        requires
            triplet[0].0 >= triplet[2].0,
        ensures
            res == (crate::hcv::HCV {
                hue: Some(*self),
                c_prop: Prop((triplet[0].0 - triplet[2].0) as u64),
                sum: UFDRNumber((triplet[0].0 + triplet[1].0 + triplet[2].0) as u128),
            }),
    {
        let sum = triplet[0].add_prop(triplet[1]).add_prop(triplet[2]);
        let c_prop = triplet[0].sub_prop(triplet[2]);
        crate::hcv::HCV { hue: Some(*self), c_prop, sum }
    }
}

impl Hue {
    pub fn triplet_to_rgb_order(&self, triplet: &[Prop; 3]) -> (res: [Prop; 3])
        ensures
            res == spec_triplet_to_rgb_order(*self, *triplet),
    {
        let t = *triplet;
        match self {
            Hue::Primary(RGBHue::Red) => t,
            Hue::Primary(RGBHue::Green) => [t[1], t[0], t[2]],
            Hue::Primary(RGBHue::Blue) => [t[2], t[1], t[0]],
            Hue::Secondary(CMYHue::Cyan) => [t[2], t[0], t[1]],
            Hue::Secondary(CMYHue::Magenta) => [t[0], t[2], t[1]],
            Hue::Secondary(CMYHue::Yellow) => t,
            Hue::Sextant(sextant_hue) => match sextant_hue.0 {
                Sextant::RedMagenta => [t[0], t[2], t[1]],
                Sextant::RedYellow => t,
                Sextant::GreenYellow => [t[1], t[0], t[2]],
                Sextant::GreenCyan => [t[2], t[0], t[1]],
                Sextant::BlueCyan => [t[2], t[1], t[0]],
                Sextant::BlueMagenta => [t[1], t[2], t[0]],
            },
        }
    }

    /// The sum of the most chromatic colour scaled by the chroma proportion.
    fn scaled_min_sum(&self, c_prop: Prop) -> (res: UFDRNumber)
        ensures
            res.0 == scaled_min_sum(*self, c_prop),
    {
        self.sum_for_max_chroma().mul_prop(c_prop)
    }

    pub fn try_ordered_triplet(&self, sum: UFDRNumber, c_prop: Prop) -> (res: Option<Result<[Prop; 3], [Prop; 3]>>)
        requires
            sum.0 <= 3 * scale(),
        ensures
            res == spec_try_ordered_triplet(*self, sum, c_prop),
    {
        match self {
            Hue::Primary(_) => {
                if c_prop.0 == 0 {
                    None
                } else if sum.0 >= c_prop.0 as u128 {
                    let third = sum.sub_prop(c_prop).div_i32(3);
                    let first = third.add_prop(c_prop);
                    if first.0 > u64::MAX as u128 {
                        None
                    } else {
                        let second = sum.sub_ufdr(first).sub_ufdr(third);
                        let triplet = [
                            Prop(first.0 as u64),
                            Prop(second.0 as u64),
                            Prop(third.0 as u64),
                        ];
                        if second.0 == third.0 {
                            Some(Ok(triplet))
                        } else {
                            Some(Err(triplet))
                        }
                    }
                } else {
                    None
                }
            },
            Hue::Secondary(_) => {
                let min_sum = c_prop.mul_u8(2);
                if min_sum.0 == 0 {
                    None
                } else if sum.0 >= min_sum.0 {
                    let third = sum.sub_ufdr(min_sum).div_i32(3);
                    let first = third.add_prop(c_prop);
                    if first.0 > u64::MAX as u128 {
                        None
                    } else {
                        let second = sum.sub_ufdr(first).sub_ufdr(third);
                        if second.0 == first.0 {
                            Some(
                                Ok(
                                    [
                                        Prop(first.0 as u64),
                                        Prop(second.0 as u64),
                                        Prop(third.0 as u64),
                                    ],
                                ),
                            )
                        } else {
                            let diff = second.sub_ufdr(first);
                            if diff.0 == 1 {
                                if second.0 <= u64::MAX as u128 {
                                    Some(
                                        Err(
                                            [
                                                Prop(second.0 as u64),
                                                Prop((first.0 - 1) as u64),
                                                Prop((third.0 + 1) as u64),
                                            ],
                                        ),
                                    )
                                } else {
                                    None
                                }
                            } else {
                                let first = first.add_ufdr(UFDRNumber(1));
                                if first.0 <= u64::MAX as u128 {
                                    Some(
                                        Err(
                                            [
                                                Prop(first.0 as u64),
                                                Prop((second.0 - 2) as u64),
                                                Prop((third.0 + 1) as u64),
                                            ],
                                        ),
                                    )
                                } else {
                                    None
                                }
                            }
                        }
                    }
                } else {
                    None
                }
            },
            Hue::Sextant(sextant_hue) => {
                let min_sum = self.scaled_min_sum(c_prop);
                proof {
                    lemma_scaled_min_sum_bounds(*self, c_prop);
                    lemma_scaled_of_zero(spec_sum_for_max_chroma(*self), c_prop.0 as int);
                }
                if min_sum.0 == 0 {
                    None
                } else if sum.0 >= min_sum.0 {
                    let third = sum.sub_ufdr(min_sum).div_i32(3);
                    let first = third.add_prop(c_prop);
                    if first.0 > u64::MAX as u128 {
                        None
                    } else {
                        let second = sum.sub_ufdr(first).sub_ufdr(third);
                        if second.0 < first.0 {
                            let triplet = [
                                Prop(first.0 as u64),
                                Prop(second.0 as u64),
                                Prop(third.0 as u64),
                            ];
                            if calculate_hue_parameter(triplet).0 == sextant_hue.1.0 {
                                Some(Ok(triplet))
                            } else {
                                Some(Err(triplet))
                            }
                        } else if second.0 == first.0 {
                            Some(
                                Err(
                                    [
                                        Prop(first.0 as u64),
                                        Prop(second.0 as u64),
                                        Prop(third.0 as u64),
                                    ],
                                ),
                            )
                        } else {
                            if second.0 <= u64::MAX as u128 {
                                Some(
                                    Err(
                                        [
                                            Prop(second.0 as u64),
                                            Prop((first.0 - 1) as u64),
                                            Prop((third.0 + 1) as u64),
                                        ],
                                    ),
                                )
                            } else {
                                None
                            }
                        }
                    }
                } else {
                    None
                }
            },
        }
    }

    pub fn ordered_triplet(&self, sum: UFDRNumber, c_prop: Prop) -> (res: Option<[Prop; 3]>)
        requires
            sum.0 <= 3 * scale(),
        ensures
            res == spec_ordered_triplet(*self, sum, c_prop),
    {
        let min_sum = self.scaled_min_sum(c_prop);
        proof {
            lemma_scaled_min_sum_bounds(*self, c_prop);
        }
        if sum.0 >= min_sum.0 {
            let third = sum.sub_ufdr(min_sum).div_i32(3);
            let first = third.add_prop(c_prop);
            if first.0 <= u64::MAX as u128 {
                let second = sum.sub_ufdr(first).sub_ufdr(third);
                Some([Prop(first.0 as u64), Prop(second.0 as u64), Prop(third.0 as u64)])
            } else {
                None
            }
        } else {
            None
        }
    }

    pub fn rgb_ordered_triplet(&self, sum: UFDRNumber, c_prop: Prop) -> (res: Option<[Prop; 3]>)
        requires
            sum.0 <= 3 * scale(),
        ensures
            res == spec_rgb_ordered_triplet(*self, sum, c_prop),
    {
        match self.ordered_triplet(sum, c_prop) {
            Some(triplet) => Some(self.triplet_to_rgb_order(&triplet)),
            None => None,
        }
    }

    pub fn try_rgb_ordered_triplet(&self, sum: UFDRNumber, c_prop: Prop) -> (res: Option<Result<[Prop; 3], [Prop; 3]>>)
        requires
            sum.0 <= 3 * scale(),
        ensures
            res == spec_try_rgb_ordered_triplet(*self, sum, c_prop),
    {
        match self.try_ordered_triplet(sum, c_prop) {
            Some(Ok(triplet)) => Some(Ok(self.triplet_to_rgb_order(&triplet))),
            Some(Err(triplet)) => Some(Err(self.triplet_to_rgb_order(&triplet))),
            None => None,
        }
    }
}

/// The chroma proportion and a sum at or above its least sum, lowered so that the
/// sum minus the scaled least sum is a multiple of three.
pub open spec fn spec_trim_overs(hue: Hue, sum: UFDRNumber, c: Prop) -> Option<(Prop, UFDRNumber)> {
    let s = sum.0 as int;
    let x = scaled_min_sum(hue, c);
    if x == 0 {
        None
    } else if s < x {
        Some((c, UFDRNumber(x as u128)))
    } else {
        let trimmed = s - (s - x) % 3;
        if trimmed == 0 {
            None
        } else {
            Some((c, UFDRNumber(trimmed as u128)))
        }
    }
}

/// The chroma proportion and sum adjusted to be compatible, keeping the chroma and
/// moving the sum.
pub open spec fn spec_adjusted_favouring_chroma(hue: Hue, sum: UFDRNumber, c: Prop) -> Option<(Prop, UFDRNumber)> {
    if c.0 == 0 {
        None
    } else if c.0 == u64::MAX {
        Some((Prop(u64::MAX), UFDRNumber(spec_sum_for_max_chroma(hue) as u128)))
    } else {
        match spec_trim_overs(hue, sum, c) {
            None => None,
            Some((c1, s1)) => if s1.0 <= spec_sum_for_max_chroma(hue) {
                Some((c1, s1))
            } else {
                let max_sum = spec_max_sum_for_chroma_prop(hue, c1).unwrap();
                if s1.0 > max_sum.0 {
                    spec_trim_overs(hue, max_sum, c1)
                } else {
                    Some((c1, s1))
                }
            },
        }
    }
}

/// The chroma proportion and sum adjusted to be compatible, keeping the sum and
/// lowering the chroma where it must.
pub open spec fn spec_adjusted_favouring_sum(hue: Hue, sum: UFDRNumber, c: Prop) -> Option<(Prop, UFDRNumber)> {
    if c.0 == 0 {
        None
    } else if sum.0 == spec_sum_for_max_chroma(hue) {
        spec_trim_overs(hue, sum, c)
    } else if sum.0 < spec_sum_for_max_chroma(hue) {
        let min_sum = spec_min_sum_for_chroma_prop(hue, c).unwrap();
        if sum.0 < min_sum.0 {
            match spec_max_chroma_prop_for_sum(hue, sum) {
                None => None,
                Some(max_chroma) => spec_trim_overs(hue, sum, max_chroma),
            }
        } else {
            spec_trim_overs(hue, sum, c)
        }
    } else {
        match spec_max_chroma_prop_for_sum(hue, sum) {
            None => None,
            Some(max_chroma) => if c.0 > max_chroma.0 {
                spec_trim_overs(hue, sum, max_chroma)
            } else {
                spec_trim_overs(hue, sum, c)
            },
        }
    }
}

/// Whether a colour of the hue can have the sum and chroma proportion exactly.
pub open spec fn spec_sum_and_chroma_prop_are_compatible(hue: Hue, sum: UFDRNumber, c: Prop) -> bool {
    let s = sum.0 as int;
    match hue {
        Hue::Sextant(SextantHue(_, p)) => {
            let x = c.0 + (p.0 * c.0) / scale();
            if s < x || x == 0 {
                false
            } else {
                let t = (s - x) / 3;
                let f = t + c.0;
                if f <= scale() {
                    let sec = s - f - t;
                    if f > sec && sec > t {
                        spec_hue_parameter(f, sec, t) == p
                    } else {
                        false
                    }
                } else {
                    false
                }
            }
        },
        _ => match spec_sum_range_for_chroma_prop(hue, c) {
            Some((min, max)) => min.0 <= s <= max.0 && (s - scaled_min_sum(hue, c)) % 3 == 0,
            None => false,
        },
    }
}

/// The most chromatic colour of a hue has components.
pub(crate) proof fn lemma_max_chroma_triplet_exists(hue: Hue)
    ensures
        spec_rgb_ordered_triplet(
            hue,
            UFDRNumber(spec_sum_for_max_chroma(hue) as u128),
            Prop(u64::MAX),
        ) is Some,
{
    lemma_sum_for_max_chroma_bounds(hue);
    lemma_div_by_multiple(spec_sum_for_max_chroma(hue), scale());
}

/// The maximum sum for a chroma proportion is a valid sum.
pub(crate) proof fn lemma_max_sum_bound(hue: Hue, c: Prop)
    ensures
        spec_max_sum_for_chroma_prop(hue, c) matches Some(m) ==> m.0 <= 3 * scale(),
{
    if let Hue::Sextant(SextantHue(_, p)) = hue {
        lemma_scaled_le(2 * scale() - p.0, c.0 as int);
    }
}

/// The ends of the range of sums for a chroma proportion are valid sums.
pub(crate) proof fn lemma_sum_range_bound(hue: Hue, c: Prop)
    ensures
        spec_sum_range_for_chroma_prop(hue, c) matches Some((lo, hi)) ==> lo.0 <= 2 * scale()
            && hi.0 <= 3 * scale(),
{
    lemma_max_sum_bound(hue, c);
    if let Hue::Sextant(SextantHue(_, p)) = hue {
        lemma_scaled_le(p.0 as int, c.0 as int);
        lemma_mul_is_commutative(p.0 as int, c.0 as int);
    }
}

/// Trimming keeps a valid sum valid.
pub(crate) proof fn lemma_trim_overs_sum_bound(hue: Hue, sum: UFDRNumber, c: Prop)
    requires
        sum.0 <= 3 * scale(),
    ensures
        spec_trim_overs(hue, sum, c) matches Some((_, s)) ==> s.0 <= 3 * scale(),
{
    lemma_scaled_min_sum_bounds(hue, c);
}

/// The least and greatest sums for a chroma are valid sums.
pub(crate) proof fn lemma_chroma_sums_bound(hue: Hue, chroma: Chroma)
    ensures
        spec_min_sum_for_chroma(hue, chroma) matches Some(s) ==> s.0 <= 3 * scale(),
        spec_max_sum_for_chroma(hue, chroma) matches Some(s) ==> s.0 <= 3 * scale(),
{
    lemma_sum_for_max_chroma_bounds(hue);
    if let Chroma::Tint(c) = chroma {
        lemma_max_sum_bound(hue, c);
    }
    if let Hue::Sextant(SextantHue(_, p)) = hue {
        if let Chroma::Shade(c) = chroma {
            lemma_scaled_le(p.0 as int, c.0 as int);
        }
    }
}

/// `adjusted_favouring_sum` keeps a valid sum valid.
pub(crate) proof fn lemma_adjusted_favouring_sum_bound(hue: Hue, sum: UFDRNumber, c: Prop)
    requires
        sum.0 <= 3 * scale(),
    ensures
        spec_adjusted_favouring_sum(hue, sum, c) matches Some((_, s)) ==> s.0 <= 3 * scale(),
{
    lemma_trim_overs_sum_bound(hue, sum, c);
    if let Some(max_chroma) = spec_max_chroma_prop_for_sum(hue, sum) {
        lemma_trim_overs_sum_bound(hue, sum, max_chroma);
    }
}

/// Where `try_rgb_ordered_triplet` is exact, `rgb_ordered_triplet` gives the same
/// components.
pub(crate) proof fn lemma_exact_triplet_is_rgb_ordered_triplet(hue: Hue, sum: UFDRNumber, c: Prop)
    requires
        spec_try_rgb_ordered_triplet(hue, sum, c) matches Some(Ok(_)),
    ensures
        spec_try_rgb_ordered_triplet(hue, sum, c) matches Some(Ok(rgb))
            && spec_rgb_ordered_triplet(hue, sum, c) == Some(rgb),
{
    match hue {
        Hue::Primary(_) => {
            lemma_mul_is_commutative(scale(), c.0 as int);
            lemma_div_multiples_vanish(c.0 as int, scale());
        },
        Hue::Secondary(_) => {
            lemma_mul_is_associative(2, scale(), c.0 as int);
            lemma_mul_is_commutative(scale(), c.0 as int);
            lemma_mul_is_associative(2, c.0 as int, scale());
            lemma_div_multiples_vanish(2 * c.0, scale());
        },
        _ => {},
    }
}

/// The maximum sum for a non-zero chroma proportion exists.
pub(crate) proof fn lemma_max_sum_exists(hue: Hue, c: Prop)
    requires
        c.0 != 0,
    ensures
        spec_max_sum_for_chroma_prop(hue, c) is Some,
{
    if let Hue::Sextant(SextantHue(_, p)) = hue {
        lemma_scaled_ge(2 * scale() - p.0, c.0 as int);
    }
}

impl Hue {
    pub fn trim_overs(&self, sum: UFDRNumber, c_prop: Prop) -> (res: Option<(Prop, UFDRNumber)>)
        ensures
            res == spec_trim_overs(*self, sum, c_prop),
    {
        let min_sum = self.scaled_min_sum(c_prop);
        if min_sum.0 == 0 {
            None
        } else if sum.0 < min_sum.0 {
            Some((c_prop, min_sum))
        } else {
            let trimmed = sum.sub_ufdr(sum.sub_ufdr(min_sum).rem_i32(3));
            if trimmed.0 == 0 {
                None
            } else {
                Some((c_prop, trimmed))
            }
        }
    }

    pub fn adjusted_favouring_chroma(&self, sum: UFDRNumber, c_prop: Prop) -> (res: Option<(Prop, UFDRNumber)>)
        ensures
            res == spec_adjusted_favouring_chroma(*self, sum, c_prop),
    {
        if c_prop.0 == 0 {
            None
        } else if c_prop.0 == u64::MAX {
            Some((Prop::one(), self.sum_for_max_chroma()))
        } else {
            match self.trim_overs(sum, c_prop) {
                None => None,
                Some((c_prop, sum)) => {
                    if sum.0 <= self.sum_for_max_chroma().0 {
                        Some((c_prop, sum))
                    } else {
                        proof {
                            lemma_max_sum_exists(*self, c_prop);
                        }
                        let max_sum = match self.max_sum_for_chroma_prop(c_prop) {
                            Some(max_sum) => max_sum,
                            None => {
                                return None;
                            },
                        };
                        if sum.0 > max_sum.0 {
                            self.trim_overs(max_sum, c_prop)
                        } else {
                            Some((c_prop, sum))
                        }
                    }
                },
            }
        }
    }

    pub fn adjusted_favouring_sum(&self, sum: UFDRNumber, c_prop: Prop) -> (res: Option<(Prop, UFDRNumber)>)
        ensures
            res == spec_adjusted_favouring_sum(*self, sum, c_prop),
    {
        if c_prop.0 == 0 {
            None
        } else {
            let max_chroma_sum = self.sum_for_max_chroma();
            if sum.0 == max_chroma_sum.0 {
                self.trim_overs(sum, c_prop)
            } else if sum.0 < max_chroma_sum.0 {
                let min_sum = match self.min_sum_for_chroma_prop(c_prop) {
                    Some(min_sum) => min_sum,
                    None => {
                        return None;
                    },
                };
                if sum.0 < min_sum.0 {
                    match self.max_chroma_prop_for_sum(sum) {
                        None => None,
                        Some(max_chroma) => self.trim_overs(sum, max_chroma),
                    }
                } else {
                    self.trim_overs(sum, c_prop)
                }
            } else {
                match self.max_chroma_prop_for_sum(sum) {
                    None => None,
                    Some(max_chroma) => if c_prop.0 > max_chroma.0 {
                        self.trim_overs(sum, max_chroma)
                    } else {
                        self.trim_overs(sum, c_prop)
                    },
                }
            }
        }
    }

    pub fn sum_in_chroma_prop_range(&self, sum: UFDRNumber, c_prop: Prop) -> (res: bool)
        ensures
            res == match spec_sum_range_for_chroma_prop(*self, c_prop) {
                Some((min, max)) => min.0 <= sum.0 <= max.0,
                None => false,
            },
    {
        match self.sum_range_for_chroma_prop(c_prop) {
            Some((min_sum, max_sum)) => sum.0 >= min_sum.0 && sum.0 <= max_sum.0,
            None => false,
        }
    }

    pub fn sum_and_chroma_prop_are_compatible(&self, sum: UFDRNumber, c_prop: Prop) -> (res: bool)
        ensures
            res == spec_sum_and_chroma_prop_are_compatible(*self, sum, c_prop),
    {
        match self {
            Hue::Sextant(sextant_hue) => {
                let min_sum = c_prop.add_prop(sextant_hue.1.mul_prop(c_prop));
                if sum.0 < min_sum.0 || min_sum.0 == 0 {
                    false
                } else {
                    let third = sum.sub_ufdr(min_sum).div_i32(3);
                    let first = third.add_prop(c_prop);
                    if first.0 <= u64::MAX as u128 {
                        let second = sum.sub_ufdr(first).sub_ufdr(third);
                        if first.0 > second.0 && second.0 > third.0 {
                            calculate_hue_parameter(
                                [Prop(first.0 as u64), Prop(second.0 as u64), Prop(third.0 as u64)],
                            ).0 == sextant_hue.1.0
                        } else {
                            false
                        }
                    } else {
                        false
                    }
                }
            },
            _ => match self.sum_range_for_chroma_prop(c_prop) {
                Some((min_sum, max_sum)) => {
                    if sum.0 >= min_sum.0 && sum.0 <= max_sum.0 {
                        let min = self.scaled_min_sum(c_prop);
                        proof {
                            lemma_whole_scaled(spec_sum_for_max_chroma(*self) / scale(), c_prop.0 as int);
                        }
                        sum.sub_ufdr(min).rem_i32(3).0 == 0
                    } else {
                        false
                    }
                },
                None => false,
            },
        }
    }

    /// Whether a colour of the hue can have the sum and chroma exactly.
    pub fn sum_and_chroma_are_compatible(&self, sum: UFDRNumber, chroma: Chroma) -> (res: bool)
        requires
            sum.0 <= 3 * scale(),
        ensures
            res == (match chroma {
                Chroma::Neither(_) => sum.0 == spec_sum_for_max_chroma(*self),
                Chroma::Shade(c) => 0 < c.0 < u64::MAX && sum.0 < spec_sum_for_max_chroma(*self),
                Chroma::Tint(c) => 0 < c.0 < u64::MAX && sum.0 > spec_sum_for_max_chroma(*self),
            } && spec_sum_and_chroma_prop_are_compatible(*self, sum, chroma_prop(chroma))),
    {
        chroma.is_valid_re(*self, sum) && self.sum_and_chroma_prop_are_compatible(sum, chroma.prop())
    }
}

/// Scaling by a whole number of ones multiplies exactly.
proof fn lemma_whole_scaled(k: int, c: int)
    requires
        k >= 0,
        c >= 0,
    ensures
        ((k * scale()) * c) / scale() == k * c,
{
    lemma_mul_is_associative(k, scale(), c);
    lemma_mul_is_commutative(scale(), c);
    lemma_mul_is_associative(k, c, scale());
    lemma_mul_nonnegative(k, c);
    lemma_div_by_multiple(k * c, scale());
}

/// The position of a colour of the hue and chroma on the cold (zero) to warm (one)
/// axis.
pub open spec fn spec_x_dash(hue: Hue, chroma: Chroma) -> Prop {
    let c = chroma_prop(chroma).0 as int;
    let m = scale();
    match hue {
        Hue::Primary(RGBHue::Red) => Prop(((m + c) / 2) as u64),
        Hue::Primary(_) => Prop(((2 * m - c) / 4) as u64),
        Hue::Secondary(CMYHue::Cyan) => Prop(((m - c) / 2) as u64),
        Hue::Secondary(_) => Prop(((2 * m + c) / 4) as u64),
        Hue::Sextant(SextantHue(sextant, p)) => {
            let kc = (c * p.0) / m;
            match sextant {
                Sextant::RedYellow | Sextant::RedMagenta => Prop(((2 * m + 2 * c - kc) / 4) as u64),
                Sextant::GreenYellow | Sextant::BlueMagenta => Prop(
                    ((2 * m + 2 * kc - c) / 4) as u64,
                ),
                Sextant::GreenCyan | Sextant::BlueCyan => Prop(((2 * m - kc - c) / 4) as u64),
            }
        },
    }
}

impl Hue {
    /// The warmth of a colour of this hue with the given chroma.
    pub fn warmth_for_chroma(&self, chroma: Chroma) -> (res: Warmth)
        ensures
            res.0 == crate::attributes::warmth_calculated(chroma, spec_x_dash(*self, chroma)) as u64,
    {
        let c = chroma.prop();
        let x_dash = match self {
            Hue::Primary(RGBHue::Red) => UFDRNumber::one().add_prop(c).div_i32(2),
            Hue::Primary(_) => UFDRNumber::two().sub_prop(c).div_i32(4),
            Hue::Secondary(CMYHue::Cyan) => UFDRNumber::one().sub_prop(c).div_i32(2),
            Hue::Secondary(_) => UFDRNumber::two().add_prop(c).div_i32(4),
            Hue::Sextant(sextant_hue) => {
                let kc = c.mul_prop(sextant_hue.1);
                proof {
                    lemma_scaled_le(c.0 as int, sextant_hue.1.0 as int);
                }
                match sextant_hue.0 {
                    Sextant::RedYellow | Sextant::RedMagenta => UFDRNumber::two().add_ufdr(
                        c.mul_u8(2),
                    ).sub_prop(kc).div_i32(4),
                    Sextant::GreenYellow | Sextant::BlueMagenta => UFDRNumber::two().add_ufdr(
                        kc.mul_u8(2),
                    ).sub_prop(c).div_i32(4),
                    Sextant::GreenCyan | Sextant::BlueCyan => UFDRNumber::two().sub_prop(
                        kc,
                    ).sub_prop(c).div_i32(4),
                }
            },
        };
        Warmth::calculate(chroma, Prop(x_dash.0 as u64))
    }

    /// The most chromatic colour of the hue.
    pub fn max_chroma_hcv(&self) -> (res: crate::hcv::HCV)
        ensures
            res == (crate::hcv::HCV {
                hue: Some(*self),
                c_prop: Prop(u64::MAX),
                sum: UFDRNumber(spec_sum_for_max_chroma(*self) as u128),
            }),
    {
        crate::hcv::HCV { hue: Some(*self), c_prop: Prop::one(), sum: self.sum_for_max_chroma() }
    }
}

/// The difference of a primary hue from a sextant hue next to it: the sextant
/// hue's proportion.
pub open spec fn spec_rgb_sextant_diff(rgb_hue: RGBHue, sextant_hue: SextantHue) -> Option<Prop> {
    match (rgb_hue, sextant_hue.0) {
        (RGBHue::Red, Sextant::RedYellow) | (RGBHue::Red, Sextant::RedMagenta) => Some(
            sextant_hue.1,
        ),
        (RGBHue::Green, Sextant::GreenYellow) | (RGBHue::Green, Sextant::GreenCyan) => Some(
            sextant_hue.1,
        ),
        (RGBHue::Blue, Sextant::BlueCyan) | (RGBHue::Blue, Sextant::BlueMagenta) => Some(
            sextant_hue.1,
        ),
        _ => None,
    }
}

/// The difference of a secondary hue from a sextant hue next to it: one minus the
/// sextant hue's proportion.
pub open spec fn spec_cmy_sextant_diff(cmy_hue: CMYHue, sextant_hue: SextantHue) -> Option<Prop> {
    let compl = Prop((u64::MAX - sextant_hue.1.0) as u64);
    match (cmy_hue, sextant_hue.0) {
        (CMYHue::Cyan, Sextant::GreenCyan) | (CMYHue::Cyan, Sextant::BlueCyan) => Some(compl),
        (CMYHue::Magenta, Sextant::RedMagenta) | (CMYHue::Magenta, Sextant::BlueMagenta) => Some(
            compl,
        ),
        (CMYHue::Yellow, Sextant::RedYellow) | (CMYHue::Yellow, Sextant::GreenYellow) => Some(
            compl,
        ),
        _ => None,
    }
}

impl RGBHue {
    pub fn prop_diff_sextant(&self, sextant_hue: &SextantHue) -> (res: Option<Prop>)
        ensures
            res == spec_rgb_sextant_diff(*self, *sextant_hue),
    {
        match self {
            RGBHue::Red => match sextant_hue.0 {
                Sextant::RedYellow | Sextant::RedMagenta => Some(sextant_hue.1),
                _ => None,
            },
            RGBHue::Green => match sextant_hue.0 {
                Sextant::GreenYellow | Sextant::GreenCyan => Some(sextant_hue.1),
                _ => None,
            },
            RGBHue::Blue => match sextant_hue.0 {
                Sextant::BlueCyan | Sextant::BlueMagenta => Some(sextant_hue.1),
                _ => None,
            },
        }
    }
}

impl CMYHue {
    pub fn prop_diff_sextant(&self, sextant_hue: &SextantHue) -> (res: Option<Prop>)
        ensures
            res == spec_cmy_sextant_diff(*self, *sextant_hue),
    {
        let compl = Prop(u64::MAX - sextant_hue.1.0);
        match self {
            CMYHue::Cyan => match sextant_hue.0 {
                Sextant::GreenCyan | Sextant::BlueCyan => Some(compl),
                _ => None,
            },
            CMYHue::Magenta => match sextant_hue.0 {
                Sextant::RedMagenta | Sextant::BlueMagenta => Some(compl),
                _ => None,
            },
            CMYHue::Yellow => match sextant_hue.0 {
                Sextant::RedYellow | Sextant::GreenYellow => Some(compl),
                _ => None,
            },
        }
    }
}

impl PropDiff for RGBHue {
    open spec fn prop_diff_req(&self, other: &Self) -> bool {
        true
    }

    open spec fn spec_prop_diff(&self, other: &Self) -> Option<Prop> {
        if *self == *other {
            Some(Prop(0))
        } else {
            None
        }
    }

    fn prop_diff(&self, other: &Self) -> (res: Option<Prop>) {
        if *self == *other {
            Some(Prop::zero())
        } else {
            None
        }
    }
}

impl ApproxEq for RGBHue {
    fn approx_eq(&self, other: &Self, max_diff: Option<Prop>) -> (res: bool) {
        approx_eq_from_diff(*self == *other, self.prop_diff(other), max_diff)
    }
}

impl PropDiff for CMYHue {
    open spec fn prop_diff_req(&self, other: &Self) -> bool {
        true
    }

    open spec fn spec_prop_diff(&self, other: &Self) -> Option<Prop> {
        if *self == *other {
            Some(Prop(0))
        } else {
            None
        }
    }

    fn prop_diff(&self, other: &Self) -> (res: Option<Prop>) {
        if *self == *other {
            Some(Prop::zero())
        } else {
            None
        }
    }
}

impl ApproxEq for CMYHue {
    fn approx_eq(&self, other: &Self, max_diff: Option<Prop>) -> (res: bool) {
        approx_eq_from_diff(*self == *other, self.prop_diff(other), max_diff)
    }
}

/// The sextant across the primary from the given one (sharing its largest
/// component).
pub open spec fn across_primary(sextant: Sextant) -> Sextant {
    match sextant {
        Sextant::RedYellow => Sextant::RedMagenta,
        Sextant::RedMagenta => Sextant::RedYellow,
        Sextant::GreenYellow => Sextant::GreenCyan,
        Sextant::GreenCyan => Sextant::GreenYellow,
        Sextant::BlueCyan => Sextant::BlueMagenta,
        Sextant::BlueMagenta => Sextant::BlueCyan,
    }
}

/// The sextant across the secondary from the given one (sharing its smallest
/// component).
pub open spec fn across_secondary(sextant: Sextant) -> Sextant {
    match sextant {
        Sextant::RedYellow => Sextant::GreenYellow,
        Sextant::GreenYellow => Sextant::RedYellow,
        Sextant::GreenCyan => Sextant::BlueCyan,
        Sextant::BlueCyan => Sextant::GreenCyan,
        Sextant::BlueMagenta => Sextant::RedMagenta,
        Sextant::RedMagenta => Sextant::BlueMagenta,
    }
}

/// The difference of two parameters relative to the larger: `|a - b| / max(a, b)`,
/// zero where both are zero.
pub open spec fn relative_diff(a: int, b: int) -> int {
    let m = if a > b {
        a
    } else {
        b
    };
    if m == 0 {
        0
    } else {
        (int_abs_diff(a, b) * scale()) / m
    }
}

/// The difference of two parameters relative to the larger.
fn relative_prop_diff(a: Prop, b: Prop) -> (res: Prop)
    ensures
        res.0 == relative_diff(a.0 as int, b.0 as int),
{
    let m = if a.0 > b.0 {
        a.0
    } else {
        b.0
    };
    if m == 0 {
        Prop::zero()
    } else {
        let d = if a.0 > b.0 {
            a.0 - b.0
        } else {
            b.0 - a.0
        };
        proof {
            lemma_mul_upper_bound(d as int, m as int, scale(), scale());
            lemma_mul_inequality(d as int, m as int, scale());
            lemma_mul_is_commutative(m as int, scale());
            lemma_div_is_ordered(d * scale(), m * scale(), m as int);
            lemma_div_by_multiple(scale(), m as int);
            lemma_mul_nonnegative(d as int, scale());
            lemma_div_pos_is_pos(d * scale(), m as int);
        }
        Prop(((d as u128 * u64::MAX as u128) / m as u128) as u64)
    }
}

/// The difference of two sextant hues: within a sextant that of their proportions
/// relative to the larger; across a primary the sum of their proportions and across a
/// secondary two minus that sum, where these are at most one; none otherwise.
pub open spec fn spec_sextant_prop_diff(a: SextantHue, b: SextantHue) -> Option<Prop> {
    let total = a.1.0 + b.1.0;
    if a.0 == b.0 {
        Some(Prop(relative_diff(a.1.0 as int, b.1.0 as int) as u64))
    } else if b.0 == across_primary(a.0) {
        if total <= scale() {
            Some(Prop(total as u64))
        } else {
            None
        }
    } else if b.0 == across_secondary(a.0) {
        if 2 * scale() - total <= scale() {
            Some(Prop((2 * scale() - total) as u64))
        } else {
            None
        }
    } else {
        None
    }
}

impl SextantHue {
    fn across_primary(&self) -> (res: Sextant)
        ensures
            res == across_primary(self.0),
    {
        match self.0 {
            Sextant::RedYellow => Sextant::RedMagenta,
            Sextant::RedMagenta => Sextant::RedYellow,
            Sextant::GreenYellow => Sextant::GreenCyan,
            Sextant::GreenCyan => Sextant::GreenYellow,
            Sextant::BlueCyan => Sextant::BlueMagenta,
            Sextant::BlueMagenta => Sextant::BlueCyan,
        }
    }

    fn across_secondary(&self) -> (res: Sextant)
        ensures
            res == across_secondary(self.0),
    {
        match self.0 {
            Sextant::RedYellow => Sextant::GreenYellow,
            Sextant::GreenYellow => Sextant::RedYellow,
            Sextant::GreenCyan => Sextant::BlueCyan,
            Sextant::BlueCyan => Sextant::GreenCyan,
            Sextant::BlueMagenta => Sextant::RedMagenta,
            Sextant::RedMagenta => Sextant::BlueMagenta,
        }
    }
}

impl PropDiff for SextantHue {
    open spec fn prop_diff_req(&self, other: &Self) -> bool {
        true
    }

    open spec fn spec_prop_diff(&self, other: &Self) -> Option<Prop> {
        spec_sextant_prop_diff(*self, *other)
    }

    fn prop_diff(&self, other: &Self) -> (res: Option<Prop>) {
        let total = self.1.add_prop(other.1);
        if self.0 == other.0 {
            Some(relative_prop_diff(self.1, other.1))
        } else if other.0 == self.across_primary() {
            if total.0 <= u64::MAX as u128 {
                Some(total.to_prop())
            } else {
                None
            }
        } else if other.0 == self.across_secondary() {
            let rest = UFDRNumber::two().sub_ufdr(total);
            if rest.0 <= u64::MAX as u128 {
                Some(rest.to_prop())
            } else {
                None
            }
        } else {
            None
        }
    }
}

impl ApproxEq for SextantHue {
    fn approx_eq(&self, other: &Self, max_diff: Option<Prop>) -> (res: bool) {
        approx_eq_from_diff(*self == *other, PropDiff::prop_diff(self, other), max_diff)
    }
}

/// The difference of two hues, where one is defined: equal primaries and
/// secondaries, sextant hues next to each other or to a primary or secondary.
pub open spec fn spec_hue_prop_diff(a: Hue, b: Hue) -> Option<Prop> {
    match a {
        Hue::Primary(x) => match b {
            Hue::Primary(y) => if x == y {
                Some(Prop(0))
            } else {
                None
            },
            Hue::Sextant(y) => spec_rgb_sextant_diff(x, y),
            _ => None,
        },
        Hue::Secondary(x) => match b {
            Hue::Secondary(y) => if x == y {
                Some(Prop(0))
            } else {
                None
            },
            Hue::Sextant(y) => spec_cmy_sextant_diff(x, y),
            _ => None,
        },
        Hue::Sextant(x) => match b {
            Hue::Sextant(y) => spec_sextant_prop_diff(x, y),
            Hue::Primary(y) => spec_rgb_sextant_diff(y, x),
            Hue::Secondary(y) => spec_cmy_sextant_diff(y, x),
        },
    }
}

impl PropDiff for Hue {
    open spec fn prop_diff_req(&self, other: &Self) -> bool {
        true
    }

    open spec fn spec_prop_diff(&self, other: &Self) -> Option<Prop> {
        spec_hue_prop_diff(*self, *other)
    }

    fn prop_diff(&self, other: &Self) -> (res: Option<Prop>) {
        match self {
            Hue::Primary(self_hue) => match other {
                Hue::Primary(other_hue) => self_hue.prop_diff(other_hue),
                Hue::Sextant(sextant_hue) => self_hue.prop_diff_sextant(sextant_hue),
                _ => None,
            },
            Hue::Secondary(self_hue) => match other {
                Hue::Secondary(other_hue) => self_hue.prop_diff(other_hue),
                Hue::Sextant(sextant_hue) => self_hue.prop_diff_sextant(sextant_hue),
                _ => None,
            },
            Hue::Sextant(self_hue) => match other {
                Hue::Sextant(other_hue) => PropDiff::prop_diff(self_hue, other_hue),
                Hue::Primary(primary_hue) => primary_hue.prop_diff_sextant(self_hue),
                Hue::Secondary(secondary_hue) => secondary_hue.prop_diff_sextant(self_hue),
            },
        }
    }
}

impl ApproxEq for Hue {
    fn approx_eq(&self, other: &Self, max_diff: Option<Prop>) -> (res: bool) {
        approx_eq_from_diff(*self == *other, self.prop_diff(other), max_diff)
    }
}

/// The angle of a hue that has one of its own: the primaries, the secondaries and
/// the six hues halfway between them.
pub open spec fn exact_hue_angle(hue: Hue) -> Option<int> {
    match hue {
        Hue::Primary(RGBHue::Red) => Some(0),
        Hue::Primary(RGBHue::Green) => Some(degree_units() * 120),
        Hue::Primary(RGBHue::Blue) => Some(degree_units() * -120),
        Hue::Secondary(CMYHue::Cyan) => Some(degree_units() * -180),
        Hue::Secondary(CMYHue::Magenta) => Some(degree_units() * -60),
        Hue::Secondary(CMYHue::Yellow) => Some(degree_units() * 60),
        Hue::Sextant(SextantHue(sextant, p)) => if p.0 == u64::MAX / 2 {
            Some(
                match sextant {
                    Sextant::BlueCyan => degree_units() * -150,
                    Sextant::BlueMagenta => degree_units() * -90,
                    Sextant::RedMagenta => degree_units() * -30,
                    Sextant::RedYellow => degree_units() * 30,
                    Sextant::GreenYellow => degree_units() * 90,
                    Sextant::GreenCyan => degree_units() * 150,
                },
            )
        } else {
            None
        },
    }
}

/// The angle of a hue within a sextant whose angle from the sextant's primary is
/// `asin`.
pub open spec fn sextant_angle(sextant: Sextant, asin: Angle) -> Angle {
    match sextant {
        Sextant::RedMagenta => angle_neg(asin),
        Sextant::RedYellow => asin,
        Sextant::GreenYellow => angle_sub(degrees(120), asin),
        Sextant::GreenCyan => angle_add(degrees(120), asin),
        Sextant::BlueCyan => angle_sub(degrees(-120), asin),
        Sextant::BlueMagenta => angle_add(degrees(-120), asin),
    }
}

/// The hue with an angle of its own at the given angle, if any.
pub open spec fn exact_hue_at(units: int) -> Option<Hue> {
    let d = degree_units();
    let half = Prop(u64::MAX / 2);
    if units == 0 {
        Some(Hue::Primary(RGBHue::Red))
    } else if units == d * 120 {
        Some(Hue::Primary(RGBHue::Green))
    } else if units == d * -120 {
        Some(Hue::Primary(RGBHue::Blue))
    } else if units == d * -180 {
        Some(Hue::Secondary(CMYHue::Cyan))
    } else if units == d * -60 {
        Some(Hue::Secondary(CMYHue::Magenta))
    } else if units == d * 60 {
        Some(Hue::Secondary(CMYHue::Yellow))
    } else if units == d * -150 {
        Some(Hue::Sextant(SextantHue(Sextant::BlueCyan, half)))
    } else if units == d * -90 {
        Some(Hue::Sextant(SextantHue(Sextant::BlueMagenta, half)))
    } else if units == d * -30 {
        Some(Hue::Sextant(SextantHue(Sextant::RedMagenta, half)))
    } else if units == d * 30 {
        Some(Hue::Sextant(SextantHue(Sextant::RedYellow, half)))
    } else if units == d * 90 {
        Some(Hue::Sextant(SextantHue(Sextant::GreenYellow, half)))
    } else if units == d * 150 {
        Some(Hue::Sextant(SextantHue(Sextant::GreenCyan, half)))
    } else {
        None
    }
}

/// The sextant of an angle, and the angle from which the proportion of the hue at
/// that angle within the sextant is found.
pub open spec fn spec_sextant_of_angle(angle: Angle) -> (Sextant, Angle) {
    let d = degree_units();
    let green = degrees(120);
    if angle.0 >= 0 {
        if angle.0 < d * 60 {
            (Sextant::RedYellow, angle)
        } else if angle.0 < d * 120 {
            (Sextant::GreenYellow, angle_sub(green, angle))
        } else {
            (Sextant::GreenCyan, angle_sub(angle, green))
        }
    } else if angle.0 > d * -60 {
        (Sextant::RedMagenta, angle_neg(angle))
    } else if angle.0 > d * -120 {
        (Sextant::BlueMagenta, angle_add(green, angle))
    } else {
        (Sextant::BlueCyan, angle_sub(angle_neg(angle), green))
    }
}

impl SextantHue {
    /// The hue's angle: its own where it has one, else the one within its sextant at
    /// `asin` from the sextant's primary (the arc sine that the trigonometry of the
    /// hue's proportion gives).
    pub fn angle_with_asin(&self, asin: Angle) -> (res: Angle)
        requires
            asin.0 != i64::MIN,
        ensures
            res.0 == match exact_hue_angle(Hue::Sextant(*self)) {
                Some(units) => units,
                None => sextant_angle(self.0, asin).0 as int,
            },
    {
        if self.1.0 == u64::MAX / 2 {
            match self.0 {
                Sextant::BlueCyan => Angle::blue_cyan(),
                Sextant::BlueMagenta => Angle::blue_magenta(),
                Sextant::RedMagenta => Angle::red_magenta(),
                Sextant::RedYellow => Angle::red_yellow(),
                Sextant::GreenYellow => Angle::green_yellow(),
                Sextant::GreenCyan => Angle::green_cyan(),
            }
        } else {
            match self.0 {
                Sextant::RedMagenta => asin.neg(),
                Sextant::RedYellow => asin,
                Sextant::GreenYellow => Angle::green() - asin,
                Sextant::GreenCyan => Angle::green() + asin,
                Sextant::BlueCyan => Angle::blue() - asin,
                Sextant::BlueMagenta => Angle::blue() + asin,
            }
        }
    }
}

impl Hue {
    /// The hue's angle: its own where it has one, else the one within its sextant at
    /// `asin` from the sextant's primary.
    pub fn angle_with_asin(&self, asin: Angle) -> (res: Angle)
        requires
            asin.0 != i64::MIN,
        ensures
            res.0 == match exact_hue_angle(*self) {
                Some(units) => units,
                None => match self {
                    Hue::Sextant(SextantHue(sextant, _)) => sextant_angle(*sextant, asin).0 as int,
                    _ => 0,
                },
            },
    {
        match self {
            Hue::Primary(RGBHue::Red) => Angle::red(),
            Hue::Primary(RGBHue::Green) => Angle::green(),
            Hue::Primary(RGBHue::Blue) => Angle::blue(),
            Hue::Secondary(CMYHue::Cyan) => Angle::cyan(),
            Hue::Secondary(CMYHue::Magenta) => Angle::magenta(),
            Hue::Secondary(CMYHue::Yellow) => Angle::yellow(),
            Hue::Sextant(sextant_hue) => sextant_hue.angle_with_asin(asin),
        }
    }

    /// The sextant of an angle that is not a hue's own, and the angle from which the
    /// hue's proportion within the sextant is found.
    pub fn sextant_of_angle(angle: Angle) -> (res: (Sextant, Angle))
        requires
            angle.0 != i64::MIN,
        ensures
            res == spec_sextant_of_angle(angle),
    {
        let green = Angle::green();
        if angle.0 >= Angle::red().0 {
            if angle.0 < Angle::yellow().0 {
                (Sextant::RedYellow, angle)
            } else if angle.0 < green.0 {
                (Sextant::GreenYellow, green - angle)
            } else {
                (Sextant::GreenCyan, angle - green)
            }
        } else if angle.0 > Angle::magenta().0 {
            (Sextant::RedMagenta, angle.neg())
        } else if angle.0 > Angle::blue().0 {
            (Sextant::BlueMagenta, green + angle)
        } else {
            (Sextant::BlueCyan, angle.neg() - green)
        }
    }

    /// The hue at an angle: the hue whose own angle it is, if any, else the hue in
    /// the angle's sextant with the given proportion.
    pub fn hue_of_angle(angle: Angle, second: Prop) -> (res: Hue)
        requires
            angle.0 != i64::MIN,
        ensures
            res == match exact_hue_at(angle.0 as int) {
                Some(hue) => hue,
                None => Hue::Sextant(SextantHue(spec_sextant_of_angle(angle).0, second)),
            },
    {
        let d = Angle::degree().0;
        let half = Prop::half();
        let units = angle.0;
        if units == 0 {
            Hue::Primary(RGBHue::Red)
        } else if units == Angle::green().0 {
            Hue::Primary(RGBHue::Green)
        } else if units == Angle::blue().0 {
            Hue::Primary(RGBHue::Blue)
        } else if units == Angle::cyan().0 {
            Hue::Secondary(CMYHue::Cyan)
        } else if units == Angle::magenta().0 {
            Hue::Secondary(CMYHue::Magenta)
        } else if units == Angle::yellow().0 {
            Hue::Secondary(CMYHue::Yellow)
        } else if units == Angle::blue_cyan().0 {
            Hue::Sextant(SextantHue(Sextant::BlueCyan, half))
        } else if units == Angle::blue_magenta().0 {
            Hue::Sextant(SextantHue(Sextant::BlueMagenta, half))
        } else if units == Angle::red_magenta().0 {
            Hue::Sextant(SextantHue(Sextant::RedMagenta, half))
        } else if units == Angle::red_yellow().0 {
            Hue::Sextant(SextantHue(Sextant::RedYellow, half))
        } else if units == Angle::green_yellow().0 {
            Hue::Sextant(SextantHue(Sextant::GreenYellow, half))
        } else if units == Angle::green_cyan().0 {
            Hue::Sextant(SextantHue(Sextant::GreenCyan, half))
        } else {
            Hue::Sextant(SextantHue(Hue::sextant_of_angle(angle).0, second))
        }
    }
}

/// Round trip: the hue at the angle of a hue that has an angle of its own is that
/// hue.
pub proof fn lemma_exact_hue_angle_round_trip(hue: Hue)
    requires
        exact_hue_angle(hue) is Some,
    ensures
        exact_hue_at(exact_hue_angle(hue).unwrap()) == Some(hue),
{
}

/// The third search step stops at or above a point where it would not lower.
proof fn lemma_hp_third_at_least(s: int, m: int, f: int, sc: int, t: int)
    requires
        s >= m,
        !(m > scale() + 1 && (f + sc + t - (m * (f - t)) / scale()) / 3 < t),
    ensures
        m <= hp_lower_for_third(s, f, sc, t) <= s,
    decreases s,
{
    if s > scale() + 1 && (f + sc + t - (s * (f - t)) / scale()) / 3 < t {
        lemma_hp_third_at_least(s - 1, m, f, sc, t);
    }
}

/// The product search step stops at or above a point where it would not lower.
proof fn lemma_hp_product_at_least(s: int, m: int, f: int, sc: int, t: int)
    requires
        s >= m,
        !(m > scale() + 1 && (m * (f - t)) / scale() > f + sc + t),
    ensures
        m <= hp_lower_for_product(s, f, sc, t) <= s,
    decreases s,
{
    if s > scale() + 1 && (s * (f - t)) / scale() > f + sc + t {
        lemma_hp_product_at_least(s - 1, m, f, sc, t);
    }
}

/// The quotient estimate of `l / c` is at least `p + 1` where `l` is at least
/// `p * c + 1` in units, and at most one.
proof fn lemma_estimate_above(p: int, c: int, l: int)
    requires
        0 <= p <= scale(),
        0 < c < scale(),
        0 <= l < c,
        l * scale() >= p * c + scale(),
    ensures
        p + 1 <= ((u128::MAX as int / c) * l) / scale() <= scale(),
{
    let m = scale();
    let u = u128::MAX as int;
    let q = u / c;
    lemma_fundamental_div_mod(u, c);
    lemma_mod_pos_bound(u, c);
    assert(u == (m + 1) * (m + 1) - 1);
    assert(c * q >= (m + 1) * (m + 1) - c);
    assert(q * l >= (p + 1) * m) by (nonlinear_arith)
        requires
            c * q >= (m + 1) * (m + 1) - c,
            l * m >= p * c + m,
            0 < c <= m,
            0 <= p,
            0 <= l,
            q >= 0,
            m > 0,
    {
        assert(c * q * l * m >= ((m + 1) * (m + 1) - c) * l * m);
        assert(((m + 1) * (m + 1) - c) * (l * m) >= ((m + 1) * (m + 1) - c) * (p * c + m));
        assert(((m + 1) * (m + 1) - c) * (p * c + m) - c * (p + 1) * m * m == p * c * (2 * m + 1 - c) + m
            * ((m + 1) * (m + 1 - c)));
        assert(c * (q * l) * m >= c * ((p + 1) * m) * m);
    }
    assert(q * l <= u - (m + 2)) by (nonlinear_arith)
        requires
            c * q <= u,
            0 <= l <= c - 1,
            0 < c < m,
            q >= 0,
            u == m * (m + 2),
            m > 0,
    {
        assert(c * (q * l) <= c * (q * (c - 1)));
        assert(c * (q * (c - 1)) <= u * (c - 1));
        assert(u * (c - 1) <= c * (u - (m + 2)));
    }
    lemma_div_is_ordered((p + 1) * m, q * l, m);
    lemma_div_multiples_vanish(p + 1, m);
    lemma_div_is_ordered(q * l, m * (m + 1), m);
    lemma_div_multiples_vanish(m + 1, m);
    assert(u - (m + 2) < m * (m + 1)) by (nonlinear_arith)
        requires
            u == m * (m + 2),
            m > 0,
    ;
    if q * l / m == m + 1 {
        lemma_fundamental_div_mod(q * l, m);
        lemma_mod_pos_bound(q * l, m);
    }
}

/// A sextant hue's parameter is not `p` for the components that a sum one or two
/// above the greatest it allows for a chroma proportion would give.
#[verifier::spinoff_prover]
proof fn lemma_hue_parameter_off(p: Prop, c: Prop, t: int, r: int)
    requires
        0 < c.0,
        0 <= t,
        t + c.0 == scale(),
        1 <= r <= 2,
        ((p.0 * c.0) / scale() + r) * scale() >= p.0 * c.0 + scale(),
        (p.0 * c.0) / scale() + r < c.0,
    ensures
        spec_hue_parameter(t + c.0, t + (p.0 * c.0) / scale() + r, t) != p,
{
    let m = scale();
    let a = (p.0 * c.0) / m;
    let l = a + r;
    let f = t + c.0;
    let sc = t + l;
    let sum = f + sc + t;
    lemma_div_pos_is_pos(p.0 * c.0, m);
    let v = prop_div_spec(Prop(l as u64), Prop(c.0)).0;
    if c.0 == u64::MAX {
        assert(l >= p.0 + 1) by (nonlinear_arith)
            requires
                l * m >= p.0 * m + m,
                m > 0,
        ;
        assert(v == l);
    } else {
        lemma_estimate_above(p.0 as int, c.0 as int, l);
        assert(v == ((u128::MAX as int / (c.0 as int)) * l) / m);
    }
    assert(p.0 + 1 <= v <= m);
    let s0 = hp_estimate(f, sc, t);
    assert(s0 == m + v);
    let mm = m + p.0 + 1;
    // At `mm` neither search step lowers.
    assert((mm * c.0) / m <= c.0 + a + 1) by {
        assert(mm * c.0 == (p.0 * c.0 + c.0) + c.0 * m) by (nonlinear_arith)
            requires
                mm == m + p.0 + 1,
        ;
        lemma_hoist_over_denominator(p.0 * c.0 + c.0, c.0 as int, m as nat);
        lemma_div_is_ordered(p.0 * c.0 + c.0, p.0 * c.0 + m, m);
        lemma_hoist_over_denominator(p.0 * c.0, 1, m as nat);
    }
    assert(f - t == c.0);
    lemma_hp_product_at_least(s0, mm, f, sc, t);
    let s1 = hp_lower_for_product(s0, f, sc, t);
    lemma_hp_third_at_least(s1, mm, f, sc, t);
    let s2 = hp_lower_for_third(s1, f, sc, t);
    assert(mm <= s2 <= s0);
}

/// A sum that a sextant hue allows for a chroma proportion, above the sum of its
/// most chromatic colour, is at most the greatest sum for that chroma proportion.
#[verifier::spinoff_prover]
pub(crate) proof fn lemma_sextant_tint_sum_bound(sh: SextantHue, sum: UFDRNumber, c: Prop)
    requires
        spec_sum_and_chroma_prop_are_compatible(Hue::Sextant(sh), sum, c),
        sum.0 > scale() + sh.1.0,
    ensures
        sum.0 <= 3 * scale() - sextant_tint_span(sh.1, c),
{
    let m = scale();
    let p = sh.1;
    let s = sum.0 as int;
    let a = (p.0 * c.0) / m;
    let x = c.0 + a;
    let t = (s - x) / 3;
    let r = (s - x) % 3;
    lemma_fundamental_div_mod(s - x, 3);
    lemma_mod_pos_bound(s - x, 3);
    let f = t + c.0;
    let sec = s - f - t;
    let k = m - f;
    let b = sextant_tint_span(p, c);
    lemma_fundamental_div_mod(p.0 * c.0, m);
    lemma_mod_pos_bound(p.0 * c.0, m);
    lemma_fundamental_div_mod((2 * m - p.0) * c.0, m);
    lemma_mod_pos_bound((2 * m - p.0) * c.0, m);
    assert((2 * m - p.0) * c.0 == 2 * m * c.0 - p.0 * c.0) by (nonlinear_arith);
    assert((a + b) * m <= 2 * m * c.0 - (p.0 * c.0) % m) by (nonlinear_arith)
        requires
            a * m == p.0 * c.0 - (p.0 * c.0) % m,
            b * m <= 2 * m * c.0 - p.0 * c.0,
    ;
    assert(a + b <= 2 * c.0) by (nonlinear_arith)
        requires
            (a + b) * m <= 2 * m * c.0,
            m > 0,
    ;
    if (p.0 * c.0) % m != 0 {
        assert(a + b <= 2 * c.0 - 1) by (nonlinear_arith)
            requires
                (a + b) * m < 2 * m * c.0,
                m > 0,
        ;
    }
    if k == 0 && (r == 2 || (r == 1 && (p.0 * c.0) % m == 0)) {
        lemma_hue_parameter_off(p, c, t, r);
        assert(false);
    }
}

/// The warmth term grows with the position on the cold-warm axis.
proof fn lemma_warmth_temp_monotone(c: int, x1: int, x2: int)
    requires
        0 <= c <= scale(),
        0 <= x1 <= x2,
    ensures
        crate::attributes::warmth_temp(c, x1) <= crate::attributes::warmth_temp(c, x2),
{
    let k = crate::attributes::warmth_k();
    let d = u64::MAX - k;
    lemma_mul_inequality(x1, x2, d);
    lemma_mul_is_commutative(x1, d);
    lemma_mul_is_commutative(x2, d);
    lemma_div_is_ordered(d * x1, d * x2, scale());
    lemma_mul_nonnegative(d, x1);
    lemma_div_pos_is_pos(d * x1, scale());
    let a1 = k + (d * x1) / scale();
    let a2 = k + (d * x2) / scale();
    lemma_mul_inequality(a1, a2, c);
    lemma_div_is_ordered(a1 * c, a2 * c, scale());
}

/// The warmth of a colour grows with its position on the cold-warm axis, the chroma
/// kept.
pub proof fn lemma_warmth_grows_with_position(chroma: Chroma, x1: Prop, x2: Prop)
    requires
        x1.0 <= x2.0,
    ensures
        crate::attributes::warmth_calculated(chroma, x1) <= crate::attributes::warmth_calculated(chroma, x2),
{
    lemma_warmth_temp_monotone(chroma_prop(chroma).0 as int, x1.0 as int, x2.0 as int);
}

/// Cyan is the coldest hue and red the warmest: at any chroma, every hue lies
/// between them on the cold-warm axis, and so in warmth. Without chroma every hue
/// sits in the middle of the axis; at full chroma cyan is at the cold end and red at
/// the warm end; and cyan and red lie symmetrically about the middle.
#[verifier::spinoff_prover]
pub proof fn lemma_cyan_coldest_red_warmest(hue: Hue, chroma: Chroma)
    ensures
        spec_x_dash(Hue::Secondary(CMYHue::Cyan), chroma).0 <= spec_x_dash(hue, chroma).0
            <= spec_x_dash(Hue::Primary(RGBHue::Red), chroma).0,
        crate::attributes::warmth_calculated(chroma, spec_x_dash(Hue::Secondary(CMYHue::Cyan), chroma))
            <= crate::attributes::warmth_calculated(chroma, spec_x_dash(hue, chroma)),
        crate::attributes::warmth_calculated(chroma, spec_x_dash(hue, chroma))
            <= crate::attributes::warmth_calculated(chroma, spec_x_dash(Hue::Primary(RGBHue::Red), chroma)),
        chroma_prop(chroma).0 == 0 ==> spec_x_dash(hue, chroma).0 == u64::MAX / 2,
        chroma_prop(chroma).0 == u64::MAX ==> spec_x_dash(Hue::Secondary(CMYHue::Cyan), chroma).0 == 0
            && spec_x_dash(Hue::Primary(RGBHue::Red), chroma).0 == u64::MAX,
        u64::MAX - 1 <= spec_x_dash(Hue::Secondary(CMYHue::Cyan), chroma).0 + spec_x_dash(
            Hue::Primary(RGBHue::Red),
            chroma,
        ).0 <= u64::MAX,
{
    let c = chroma_prop(chroma).0 as int;
    if let Hue::Sextant(SextantHue(_, p)) = hue {
        lemma_scaled_le(c, p.0 as int);
    }
    lemma_warmth_grows_with_position(
        chroma,
        spec_x_dash(Hue::Secondary(CMYHue::Cyan), chroma),
        spec_x_dash(hue, chroma),
    );
    lemma_warmth_grows_with_position(
        chroma,
        spec_x_dash(hue, chroma),
        spec_x_dash(Hue::Primary(RGBHue::Red), chroma),
    );
}

} // verus!
