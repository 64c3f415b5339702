//! The scalar attributes of a colour: chroma, greyness, warmth and value.
use core::cmp::Ordering;
use vstd::prelude::*;
use vstd::std_specs::cmp::PartialOrdSpecImpl;

use crate::debug::{approx_eq_from_diff, approx_eq_spec, ApproxEq, PropDiff};
use crate::fdrn::{scale, IntoProp, Prop, UFDRNumber};
use crate::hue::{spec_sum_for_max_chroma, Hue};

verus! {

/// The chroma of a colour: its proportion of full colourfulness, tagged by whether
/// the colour is darker (a shade) or lighter (a tint) than the hue's most chromatic
/// colour, or neither.
#[derive(Clone, Copy, Debug, Hash, PartialEq, Eq, Structural, Ord)]
pub enum Chroma {
    Shade(Prop),
    Tint(Prop),
    Neither(Prop),
}

/// The proportion carried by a chroma.
pub open spec fn chroma_prop(chroma: Chroma) -> Prop {
    match chroma {
        Chroma::Shade(p) => p,
        Chroma::Tint(p) => p,
        Chroma::Neither(p) => p,
    }
}

/// The chroma that a proportion has for a hue at a given sum of the components.
pub open spec fn chroma_for(prop: Prop, hue: Hue, sum: UFDRNumber) -> Chroma {
    if prop.0 == 0 {
        Chroma::Neither(Prop(0))
    } else if prop.0 == u64::MAX {
        Chroma::Neither(Prop(u64::MAX))
    } else if sum.0 > spec_sum_for_max_chroma(hue) {
        Chroma::Tint(prop)
    } else if sum.0 < spec_sum_for_max_chroma(hue) {
        Chroma::Shade(prop)
    } else {
        Chroma::Neither(prop)
    }
}

/// A shade or tint has a chroma strictly between zero and one.
pub open spec fn chroma_is_valid(chroma: Chroma) -> bool {
    match chroma {
        Chroma::Neither(_) => true,
        Chroma::Shade(p) => 0 < p.0 < u64::MAX,
        Chroma::Tint(p) => 0 < p.0 < u64::MAX,
    }
}

impl Chroma {
    pub fn zero() -> (res: Chroma)
        ensures
            res == Chroma::Neither(Prop(0)),
    {
        Chroma::Neither(Prop(0))
    }

    pub fn one() -> (res: Chroma)
        ensures
            res == Chroma::Neither(Prop(u64::MAX)),
    {
        Chroma::Neither(Prop(u64::MAX))
    }

    pub fn prop(self) -> (res: Prop)
        ensures
            res == chroma_prop(self),
    {
        match self {
            Chroma::Shade(p) => p,
            Chroma::Tint(p) => p,
            Chroma::Neither(p) => p,
        }
    }

    pub fn is_zero(self) -> (res: bool)
        ensures
            res == (chroma_prop(self).0 == 0),
    {
        self.prop().0 == 0
    }

    pub fn is_shade(self) -> (res: bool)
        ensures
            res == (self is Shade),
    {
        match self {
            Chroma::Shade(_) => true,
            _ => false,
        }
    }

    pub fn is_tint(self) -> (res: bool)
        ensures
            res == (self is Tint),
    {
        match self {
            Chroma::Tint(_) => true,
            _ => false,
        }
    }

    pub fn is_neither(self) -> (res: bool)
        ensures
            res == (self is Neither),
    {
        match self {
            Chroma::Neither(_) => true,
            _ => false,
        }
    }

    pub fn is_valid(self) -> (res: bool)
        ensures
            res == chroma_is_valid(self),
    {
        match self {
            Chroma::Neither(_) => true,
            Chroma::Shade(c_prop) => c_prop.0 > 0 && c_prop.0 < u64::MAX,
            Chroma::Tint(c_prop) => c_prop.0 > 0 && c_prop.0 < u64::MAX,
        }
    }

    /// Whether the chroma is consistent with the hue at the given sum: a shade lies
    /// below the sum of the hue's most chromatic colour, a tint above it, and
    /// neither at it.
    pub fn is_valid_re(self, hue: Hue, sum: UFDRNumber) -> (res: bool)
        requires
            sum.0 <= 3 * scale(),
        ensures
            res == match self {
                Chroma::Neither(_) => sum.0 == spec_sum_for_max_chroma(hue),
                Chroma::Shade(c) => 0 < c.0 < u64::MAX && sum.0 < spec_sum_for_max_chroma(hue),
                Chroma::Tint(c) => 0 < c.0 < u64::MAX && sum.0 > spec_sum_for_max_chroma(hue),
            },
    {
        let max_chroma_sum = hue.sum_for_max_chroma();
        match self {
            Chroma::Neither(_) => sum.0 == max_chroma_sum.0,
            Chroma::Shade(c_prop) => c_prop.0 > 0 && c_prop.0 < u64::MAX && sum.0
                < max_chroma_sum.0,
            Chroma::Tint(c_prop) => c_prop.0 > 0 && c_prop.0 < u64::MAX && sum.0
                > max_chroma_sum.0,
        }
    }

    pub fn abs_diff(&self, other: &Self) -> (res: Prop)
        ensures
            res.0 == crate::debug::int_abs_diff(
                chroma_prop(*self).0 as int,
                chroma_prop(*other).0 as int,
            ),
    {
        let mine = self.prop();
        let theirs = other.prop();
        if mine.0 > theirs.0 {
            Prop(mine.0 - theirs.0)
        } else {
            Prop(theirs.0 - mine.0)
        }
    }
}

impl From<Chroma> for Prop {
    fn from(chroma: Chroma) -> (res: Prop)
        ensures
            res == chroma_prop(chroma),
    {
        chroma.prop()
    }
}

impl vstd::std_specs::convert::FromSpecImpl<Chroma> for Prop {
    open spec fn obeys_from_spec() -> bool {
        true
    }

    open spec fn from_spec(chroma: Chroma) -> Prop {
        chroma_prop(chroma)
    }
}

impl IntoProp for Chroma {
    open spec fn spec_into_prop(self) -> Prop {
        chroma_prop(self)
    }

    fn into_prop(self) -> (res: Prop) {
        self.prop()
    }
}

impl Default for Chroma {
    fn default() -> (res: Chroma)
        ensures
            res == Chroma::Neither(Prop(0)),
    {
        Chroma::zero()
    }
}

impl From<(Prop, Hue, UFDRNumber)> for Chroma {
    fn from(arg: (Prop, Hue, UFDRNumber)) -> (res: Chroma)
        ensures
            res == chroma_for(arg.0, arg.1, arg.2),
    {
        let (prop, hue, sum) = arg;
        if prop.0 == 0 {
            Chroma::zero()
        } else if prop.0 == u64::MAX {
            Chroma::one()
        } else {
            let max_chroma_sum = hue.sum_for_max_chroma();
            if sum.0 > max_chroma_sum.0 {
                Chroma::Tint(prop)
            } else if sum.0 < max_chroma_sum.0 {
                Chroma::Shade(prop)
            } else {
                Chroma::Neither(prop)
            }
        }
    }
}

impl vstd::std_specs::convert::FromSpecImpl<(Prop, Hue, UFDRNumber)> for Chroma {
    open spec fn obeys_from_spec() -> bool {
        true
    }

    open spec fn from_spec(arg: (Prop, Hue, UFDRNumber)) -> Chroma {
        chroma_for(arg.0, arg.1, arg.2)
    }
}

/// Chromas of the same kind differ by the difference of their proportions; others
/// have no proportional difference.
pub open spec fn chroma_prop_diff(a: Chroma, b: Chroma) -> Option<Prop> {
    match (a, b) {
        (Chroma::Shade(p), Chroma::Shade(q)) => Some(
            Prop(crate::debug::int_abs_diff(p.0 as int, q.0 as int) as u64),
        ),
        (Chroma::Tint(p), Chroma::Tint(q)) => Some(
            Prop(crate::debug::int_abs_diff(p.0 as int, q.0 as int) as u64),
        ),
        (Chroma::Neither(p), Chroma::Neither(q)) => Some(
            Prop(crate::debug::int_abs_diff(p.0 as int, q.0 as int) as u64),
        ),
        _ => None,
    }
}

impl PropDiff for Chroma {
    open spec fn prop_diff_req(&self, other: &Self) -> bool {
        true
    }

    open spec fn spec_prop_diff(&self, other: &Self) -> Option<Prop> {
        chroma_prop_diff(*self, *other)
    }

    fn prop_diff(&self, other: &Self) -> (res: Option<Prop>) {
        match (self, other) {
            (Chroma::Shade(my_prop), Chroma::Shade(other_prop)) => my_prop.prop_diff(other_prop),
            (Chroma::Tint(my_prop), Chroma::Tint(other_prop)) => my_prop.prop_diff(other_prop),
            (Chroma::Neither(my_prop), Chroma::Neither(other_prop)) => my_prop.prop_diff(
                other_prop,
            ),
            _ => None,
        }
    }
}

impl ApproxEq for Chroma {
    fn approx_eq(&self, other: &Self, max_diff: Option<Prop>) -> (res: bool) {
        approx_eq_from_diff(*self == *other, self.prop_diff(other), max_diff)
    }
}

/// The greyness of a colour: one minus its chroma, tagged as the chroma is.
#[derive(Clone, Copy, Debug, Hash, PartialEq, Eq, Structural, Ord)]
pub enum Greyness {
    Shade(Prop),
    Tint(Prop),
    Neither(Prop),
}

/// The proportion carried by a greyness.
pub open spec fn greyness_prop(greyness: Greyness) -> Prop {
    match greyness {
        Greyness::Shade(p) => p,
        Greyness::Tint(p) => p,
        Greyness::Neither(p) => p,
    }
}

/// Approximate equality of two proportions with an optional raw maximum difference.
pub open spec fn prop_approx_eq_raw(a: Prop, b: Prop, max_diff: Option<u64>) -> bool {
    approx_eq_spec(
        a == b,
        Some(Prop(crate::debug::int_abs_diff(a.0 as int, b.0 as int) as u64)),
        match max_diff {
            Some(m) => Some(Prop(m)),
            None => None,
        },
    )
}

/// Approximate equality of greynesses: a shade never matches a tint; a `Neither`
/// matches either kind by proportion.
pub open spec fn greyness_approx_eq(a: Greyness, b: Greyness, max_diff: Option<u64>) -> bool {
    match a {
        Greyness::Shade(p) => match b {
            Greyness::Tint(_) => false,
            _ => prop_approx_eq_raw(p, greyness_prop(b), max_diff),
        },
        Greyness::Tint(p) => match b {
            Greyness::Shade(_) => false,
            _ => prop_approx_eq_raw(p, greyness_prop(b), max_diff),
        },
        Greyness::Neither(p) => prop_approx_eq_raw(p, greyness_prop(b), max_diff),
    }
}

/// Compares two proportions approximately with an optional raw maximum difference.
pub fn prop_approx_eq_raw_exec(a: Prop, b: Prop, max_diff: Option<u64>) -> (res: bool)
    ensures
        res == prop_approx_eq_raw(a, b, max_diff),
{
    let max_diff = match max_diff {
        Some(m) => Some(Prop(m)),
        None => None,
    };
    a.approx_eq(&b, max_diff)
}

impl Greyness {
    pub fn zero() -> (res: Greyness)
        ensures
            res == Greyness::Neither(Prop(0)),
    {
        Greyness::Neither(Prop(0))
    }

    pub fn one() -> (res: Greyness)
        ensures
            res == Greyness::Neither(Prop(u64::MAX)),
    {
        Greyness::Neither(Prop(u64::MAX))
    }

    pub fn prop(self) -> (res: Prop)
        ensures
            res == greyness_prop(self),
    {
        match self {
            Greyness::Shade(p) => p,
            Greyness::Tint(p) => p,
            Greyness::Neither(p) => p,
        }
    }

    pub fn is_shade(self) -> (res: bool)
        ensures
            res == (self is Shade),
    {
        match self {
            Greyness::Shade(_) => true,
            _ => false,
        }
    }

    pub fn is_tint(self) -> (res: bool)
        ensures
            res == (self is Tint),
    {
        match self {
            Greyness::Tint(_) => true,
            _ => false,
        }
    }

    pub fn is_neither(self) -> (res: bool)
        ensures
            res == (self is Neither),
    {
        match self {
            Greyness::Neither(_) => true,
            _ => false,
        }
    }

    pub fn is_zero(&self) -> (res: bool)
        ensures
            res == (greyness_prop(*self).0 == 0),
    {
        self.prop().0 == 0
    }

    pub fn abs_diff(&self, other: &Self) -> (res: Prop)
        ensures
            res.0 == crate::debug::int_abs_diff(
                greyness_prop(*self).0 as int,
                greyness_prop(*other).0 as int,
            ),
    {
        let mine = self.prop();
        let theirs = other.prop();
        if mine.0 > theirs.0 {
            Prop(mine.0 - theirs.0)
        } else {
            Prop(theirs.0 - mine.0)
        }
    }

    pub fn approx_eq(&self, other: &Self, acceptable_rounding_error: Option<u64>) -> (res: bool)
        ensures
            res == greyness_approx_eq(*self, *other, acceptable_rounding_error),
    {
        match self {
            Greyness::Shade(proportion) => match other {
                Greyness::Tint(_) => false,
                _ => prop_approx_eq_raw_exec(*proportion, other.prop(), acceptable_rounding_error),
            },
            Greyness::Tint(proportion) => match other {
                Greyness::Shade(_) => false,
                _ => prop_approx_eq_raw_exec(*proportion, other.prop(), acceptable_rounding_error),
            },
            Greyness::Neither(proportion) => prop_approx_eq_raw_exec(
                *proportion,
                other.prop(),
                acceptable_rounding_error,
            ),
        }
    }
}

impl From<Greyness> for Prop {
    fn from(greyness: Greyness) -> (res: Prop)
        ensures
            res == greyness_prop(greyness),
    {
        greyness.prop()
    }
}

impl vstd::std_specs::convert::FromSpecImpl<Greyness> for Prop {
    open spec fn obeys_from_spec() -> bool {
        true
    }

    open spec fn from_spec(greyness: Greyness) -> Prop {
        greyness_prop(greyness)
    }
}

impl IntoProp for Greyness {
    open spec fn spec_into_prop(self) -> Prop {
        greyness_prop(self)
    }

    fn into_prop(self) -> (res: Prop) {
        self.prop()
    }
}

impl Default for Greyness {
    fn default() -> (res: Greyness)
        ensures
            res == Greyness::Neither(Prop(0)),
    {
        Greyness::zero()
    }
}

/// The greyness of a chroma: the complement of its proportion, of the same kind.
pub open spec fn greyness_of(chroma: Chroma) -> Greyness {
    match chroma {
        Chroma::Shade(p) => Greyness::Shade(Prop((u64::MAX - p.0) as u64)),
        Chroma::Tint(p) => Greyness::Tint(Prop((u64::MAX - p.0) as u64)),
        Chroma::Neither(p) => Greyness::Neither(Prop((u64::MAX - p.0) as u64)),
    }
}

/// The greyness of a chroma.
pub(crate) fn greyness_for(chroma: Chroma) -> (res: Greyness)
    ensures
        res == greyness_of(chroma),
{
    match chroma {
        Chroma::Shade(prop) => Greyness::Shade(Prop(u64::MAX - prop.0)),
        Chroma::Tint(prop) => Greyness::Tint(Prop(u64::MAX - prop.0)),
        Chroma::Neither(prop) => Greyness::Neither(Prop(u64::MAX - prop.0)),
    }
}

impl From<Chroma> for Greyness {
    fn from(chroma: Chroma) -> (res: Greyness)
        ensures
            res == greyness_of(chroma),
    {
        greyness_for(chroma)
    }
}

impl vstd::std_specs::convert::FromSpecImpl<Chroma> for Greyness {
    open spec fn obeys_from_spec() -> bool {
        true
    }

    open spec fn from_spec(chroma: Chroma) -> Greyness {
        greyness_of(chroma)
    }
}

/// The warmth of a colour as a proportion: `Warmth(n)` stands for `n / u64::MAX`.
#[derive(Clone, Copy, Debug, Hash, PartialEq, Eq, Structural, PartialOrd, Ord, Default)]
pub struct Warmth(pub u64);

/// The weight given to the chroma in the warmth of a colour.
pub open spec fn warmth_k() -> int {
    u64::MAX as int / 3
}

/// The warmth term contributed by the chroma and its position `x_dash` on the
/// cold-warm axis: `(K + (1 - K) * x_dash) * chroma`, rounded down at each step.
pub open spec fn warmth_temp(c: int, x_dash: int) -> int {
    ((warmth_k() + ((u64::MAX - warmth_k()) * x_dash) / scale()) * c) / scale()
}

/// The warmth of a non-grey colour of the given chroma and position on the
/// cold-warm axis: shades are pulled toward a half by their darkness.
pub open spec fn warmth_calculated(chroma: Chroma, x_dash: Prop) -> int {
    let temp = warmth_temp(chroma_prop(chroma).0 as int, x_dash.0 as int);
    match chroma {
        Chroma::Shade(p) => u64::MAX as int / 2 - ((u64::MAX as int / 2) * p.0) / scale() + temp,
        _ => temp,
    }
}

impl Warmth {
    pub fn zero() -> (res: Warmth)
        ensures
            res.0 == 0,
    {
        Warmth(0)
    }

    pub fn one() -> (res: Warmth)
        ensures
            res.0 == u64::MAX,
    {
        Warmth(u64::MAX)
    }

    /// The warmth of a colour with the given chroma whose hue lies at `x_dash` on the
    /// cold-warm axis.  A result beyond one is truncated to 64 bits.
    pub fn calculate(chroma: Chroma, x_dash: Prop) -> (res: Warmth)
        ensures
            res.0 == warmth_calculated(chroma, x_dash) as u64,
    {
        let k = Prop(u64::MAX / 3);
        let k_comp = Prop(u64::MAX - u64::MAX / 3);
        let b = UFDRNumber(u64::MAX as u128 / 2);
        let weighted = k_comp.mul_prop(x_dash);
        proof {
            lemma_scale_down(k_comp.0 as int, x_dash.0 as int);
        }
        let temp = k.add_prop(weighted).mul_prop(chroma.prop());
        proof {
            lemma_scale_down((k.0 + weighted.0) as int, chroma_prop(chroma).0 as int);
        }
        match chroma {
            Chroma::Shade(prop) => {
                let b_prop = b.mul_prop(prop);
                proof {
                    lemma_scale_down(b.0 as int, prop.0 as int);
                }
                let warmth = b.sub_ufdr(b_prop).add_ufdr(temp);
                Warmth(warmth.0 as u64)
            },
            _ => Warmth(temp.0 as u64),
        }
    }

    /// The warmth of a grey with the given sum of components: `(3 - sum) / 6`.
    pub(crate) fn calculate_monochrome_fm_sum(sum: UFDRNumber) -> (res: Warmth)
        requires
            sum.0 <= 3 * scale(),
        ensures
            res.0 == (3 * scale() - sum.0) / 6,
    {
        Warmth(((u64::MAX as u128 * 3 - sum.0) / 6) as u64)
    }

    /// The warmth of a grey with the given value: `(1 - value) / 2`.
    pub fn calculate_monochrome(value: Value) -> (res: Warmth)
        ensures
            res.0 == (u64::MAX - value.0) as int / 2,
    {
        Warmth((u64::MAX - value.0) / 2)
    }

    pub fn abs_diff(&self, other: &Self) -> (res: Warmth)
        ensures
            res.0 == crate::debug::int_abs_diff(self.0 as int, other.0 as int),
    {
        if self.0 > other.0 {
            Warmth(self.0 - other.0)
        } else if self.0 < other.0 {
            Warmth(other.0 - self.0)
        } else {
            Warmth(0)
        }
    }

    pub fn approx_eq(&self, other: &Self, acceptable_rounding_error: Option<u64>) -> (res: bool)
        ensures
            res == prop_approx_eq_raw(Prop(self.0), Prop(other.0), acceptable_rounding_error),
    {
        prop_approx_eq_raw_exec(Prop(self.0), Prop(other.0), acceptable_rounding_error)
    }
}

impl From<Prop> for Warmth {
    fn from(prop: Prop) -> (res: Warmth)
        ensures
            res.0 == prop.0,
    {
        Warmth(prop.0)
    }
}

impl vstd::std_specs::convert::FromSpecImpl<Prop> for Warmth {
    open spec fn obeys_from_spec() -> bool {
        true
    }

    open spec fn from_spec(prop: Prop) -> Warmth {
        Warmth(prop.0)
    }
}

impl From<Warmth> for Prop {
    fn from(warmth: Warmth) -> (res: Prop)
        ensures
            res.0 == warmth.0,
    {
        Prop(warmth.0)
    }
}

impl vstd::std_specs::convert::FromSpecImpl<Warmth> for Prop {
    open spec fn obeys_from_spec() -> bool {
        true
    }

    open spec fn from_spec(warmth: Warmth) -> Prop {
        Prop(warmth.0)
    }
}

impl IntoProp for Warmth {
    open spec fn spec_into_prop(self) -> Prop {
        Prop(self.0)
    }

    fn into_prop(self) -> (res: Prop) {
        Prop(self.0)
    }
}

/// Scaling by a proportion does not increase a value.
pub proof fn lemma_scale_down(a: int, p: int)
    requires
        a >= 0,
        0 <= p <= scale(),
    ensures
        0 <= (a * p) / scale() <= a,
{
    vstd::arithmetic::mul::lemma_mul_inequality(p, scale(), a);
    vstd::arithmetic::mul::lemma_mul_is_commutative(p, a);
    vstd::arithmetic::mul::lemma_mul_is_commutative(scale(), a);
    vstd::arithmetic::div_mod::lemma_div_is_ordered(a * p, a * scale(), scale());
    vstd::arithmetic::div_mod::lemma_div_by_multiple(a, scale());
    vstd::arithmetic::mul::lemma_mul_nonnegative(a, p);
    vstd::arithmetic::div_mod::lemma_div_pos_is_pos(a * p, scale());
}

/// The value (lightness) of a colour as a proportion.
#[derive(Clone, Copy, Debug, Hash, PartialEq, Eq, Structural, PartialOrd, Ord, Default)]
pub struct Value(pub u64);

impl Value {
    pub fn zero() -> (res: Value)
        ensures
            res.0 == 0,
    {
        Value(0)
    }

    pub fn one() -> (res: Value)
        ensures
            res.0 == u64::MAX,
    {
        Value(u64::MAX)
    }

    pub fn abs_diff(&self, other: &Self) -> (res: Value)
        ensures
            res.0 == crate::debug::int_abs_diff(self.0 as int, other.0 as int),
    {
        if self.0 > other.0 {
            Value(self.0 - other.0)
        } else if self.0 < other.0 {
            Value(other.0 - self.0)
        } else {
            Value(0)
        }
    }

    pub fn approx_eq(&self, other: &Self, acceptable_rounding_error: Option<u64>) -> (res: bool)
        ensures
            res == prop_approx_eq_raw(Prop(self.0), Prop(other.0), acceptable_rounding_error),
    {
        prop_approx_eq_raw_exec(Prop(self.0), Prop(other.0), acceptable_rounding_error)
    }

    pub fn div_i32(self, rhs: i32) -> (res: Value)
        requires
            rhs > 0,
        ensures
            res.0 == self.0 as int / rhs as int,
    {
        Value(self.0 / rhs as u64)
    }

    pub fn mul_i32(self, rhs: i32) -> (res: UFDRNumber)
        requires
            rhs >= 0,
        ensures
            res.0 == self.0 * rhs,
    {
        proof {
            vstd::arithmetic::mul::lemma_mul_upper_bound(
                self.0 as int,
                u64::MAX as int,
                rhs as int,
                i32::MAX as int,
            );
        }
        UFDRNumber(self.0 as u128 * rhs as u128)
    }
}

impl From<Prop> for Value {
    fn from(prop: Prop) -> (res: Value)
        ensures
            res.0 == prop.0,
    {
        Value(prop.0)
    }
}

impl vstd::std_specs::convert::FromSpecImpl<Prop> for Value {
    open spec fn obeys_from_spec() -> bool {
        true
    }

    open spec fn from_spec(prop: Prop) -> Value {
        Value(prop.0)
    }
}

impl From<UFDRNumber> for Value {
    /// The raw value truncated to 64 bits.
    fn from(arg: UFDRNumber) -> (res: Value)
        ensures
            res.0 == arg.0 as u64,
    {
        Value(arg.0 as u64)
    }
}

impl vstd::std_specs::convert::FromSpecImpl<UFDRNumber> for Value {
    open spec fn obeys_from_spec() -> bool {
        true
    }

    open spec fn from_spec(arg: UFDRNumber) -> Value {
        Value(arg.0 as u64)
    }
}

impl From<Value> for Prop {
    fn from(value: Value) -> (res: Prop)
        ensures
            res.0 == value.0,
    {
        Prop(value.0)
    }
}

impl vstd::std_specs::convert::FromSpecImpl<Value> for Prop {
    open spec fn obeys_from_spec() -> bool {
        true
    }

    open spec fn from_spec(value: Value) -> Prop {
        Prop(value.0)
    }
}

impl IntoProp for Value {
    open spec fn spec_into_prop(self) -> Prop {
        Prop(self.0)
    }

    fn into_prop(self) -> (res: Prop) {
        Prop(self.0)
    }
}

/// The order of two ranks, then of two proportions.
pub open spec fn rank_then_prop_order(ra: u8, rb: u8, pa: Prop, pb: Prop) -> Ordering {
    if ra < rb {
        Ordering::Less
    } else if ra > rb {
        Ordering::Greater
    } else if pa.0 < pb.0 {
        Ordering::Less
    } else if pa.0 > pb.0 {
        Ordering::Greater
    } else {
        Ordering::Equal
    }
}

/// Compares two ranks, then two proportions.
fn rank_then_prop_compare(ra: u8, rb: u8, pa: Prop, pb: Prop) -> (res: Ordering)
    ensures
        res == rank_then_prop_order(ra, rb, pa, pb),
{
    if ra < rb {
        Ordering::Less
    } else if ra > rb {
        Ordering::Greater
    } else if pa.0 < pb.0 {
        Ordering::Less
    } else if pa.0 > pb.0 {
        Ordering::Greater
    } else {
        Ordering::Equal
    }
}

/// The place of a chroma's kind in their order: shades, tints, then the rest.
pub open spec fn chroma_rank(c: Chroma) -> u8 {
    match c {
        Chroma::Shade(_) => 0,
        Chroma::Tint(_) => 1,
        Chroma::Neither(_) => 2,
    }
}

fn chroma_rank_exec(c: &Chroma) -> (res: u8)
    ensures
        res == chroma_rank(*c),
{
    match c {
        Chroma::Shade(_) => 0,
        Chroma::Tint(_) => 1,
        Chroma::Neither(_) => 2,
    }
}

impl PartialOrd for Chroma {
    /// Shades before tints before the rest, each kind in the order of its
    /// proportion.
    fn partial_cmp(&self, rhs: &Self) -> (res: Option<Ordering>) {
        Some(rank_then_prop_compare(chroma_rank_exec(self), chroma_rank_exec(rhs), self.prop(), rhs.prop()))
    }
}

impl PartialOrdSpecImpl for Chroma {
    open spec fn obeys_partial_cmp_spec() -> bool {
        true
    }

    open spec fn partial_cmp_spec(&self, rhs: &Self) -> Option<Ordering> {
        Some(rank_then_prop_order(chroma_rank(*self), chroma_rank(*rhs), chroma_prop(*self), chroma_prop(*rhs)))
    }
}

/// The place of a greyness's kind in their order: shades, tints, then the rest.
pub open spec fn greyness_rank(g: Greyness) -> u8 {
    match g {
        Greyness::Shade(_) => 0,
        Greyness::Tint(_) => 1,
        Greyness::Neither(_) => 2,
    }
}

fn greyness_rank_exec(g: &Greyness) -> (res: u8)
    ensures
        res == greyness_rank(*g),
{
    match g {
        Greyness::Shade(_) => 0,
        Greyness::Tint(_) => 1,
        Greyness::Neither(_) => 2,
    }
}

impl PartialOrd for Greyness {
    /// Shades before tints before the rest, each kind in the order of its
    /// proportion.
    fn partial_cmp(&self, rhs: &Self) -> (res: Option<Ordering>) {
        Some(rank_then_prop_compare(greyness_rank_exec(self), greyness_rank_exec(rhs), self.prop(), rhs.prop()))
    }
}

impl PartialOrdSpecImpl for Greyness {
    open spec fn obeys_partial_cmp_spec() -> bool {
        true
    }

    open spec fn partial_cmp_spec(&self, rhs: &Self) -> Option<Ordering> {
        Some(rank_then_prop_order(greyness_rank(*self), greyness_rank(*rhs), greyness_prop(*self), greyness_prop(*rhs)))
    }
}

} // verus!
