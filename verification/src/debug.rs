//! Differences between values and approximate equality.
use vstd::prelude::*;
use vstd::arithmetic::div_mod::*;
use vstd::arithmetic::mul::*;

use crate::fdrn::{prop_from_unsigned, scale, ufdr_div_ok, ufdr_div_spec, Prop, UFDRNumber};

verus! {

/// The magnitude of the difference of two values.
pub trait AbsDiff: Sized {
    spec fn spec_abs_diff(&self, other: &Self) -> Self;

    fn abs_diff(&self, other: &Self) -> (res: Self)
        ensures
            res == self.spec_abs_diff(other),
    ;
}

/// The difference of two values as a proportion, where one is defined.
pub trait PropDiff {
    spec fn prop_diff_req(&self, other: &Self) -> bool;

    spec fn spec_prop_diff(&self, other: &Self) -> Option<Prop>;

    fn prop_diff(&self, other: &Self) -> (res: Option<Prop>)
        requires
            self.prop_diff_req(other),
        ensures
            res == self.spec_prop_diff(other),
    ;
}

/// The largest proportional difference that `approx_eq` accepts by default.
pub open spec fn default_max_diff() -> Prop {
    Prop(0x1000)
}

/// Two values are approximately equal when they are equal or their proportional
/// difference is defined and at most the given (or default) maximum.
pub open spec fn approx_eq_spec(equal: bool, diff: Option<Prop>, max_diff: Option<Prop>) -> bool {
    equal || match diff {
        None => false,
        Some(d) => d.0 <= match max_diff {
            Some(m) => m.0,
            None => default_max_diff().0,
        },
    }
}

/// Approximate equality.
pub trait ApproxEq: PropDiff + Sized {
    fn approx_eq(&self, other: &Self, max_diff: Option<Prop>) -> (res: bool)
        requires
            self.prop_diff_req(other),
        ensures
            res == approx_eq_spec(*self == *other, self.spec_prop_diff(other), max_diff),
    ;
}

/// Decides approximate equality from equality and the proportional difference.
pub fn approx_eq_from_diff(equal: bool, diff: Option<Prop>, max_diff: Option<Prop>) -> (res: bool)
    ensures
        res == approx_eq_spec(equal, diff, max_diff),
{
    if equal {
        true
    } else {
        let max_diff = match max_diff {
            Some(max_diff) => max_diff,
            None => Prop(0x1000),
        };
        match diff {
            None => false,
            Some(prop_diff) => prop_diff.0 <= max_diff.0,
        }
    }
}

/// The magnitude of the difference of two integers.
pub open spec fn int_abs_diff(a: int, b: int) -> int {
    if a > b {
        a - b
    } else {
        b - a
    }
}

impl AbsDiff for u8 {
    open spec fn spec_abs_diff(&self, other: &Self) -> Self {
        int_abs_diff(*self as int, *other as int) as u8
    }

    fn abs_diff(&self, other: &Self) -> (res: Self) {
        if *self > *other {
            *self - *other
        } else {
            *other - *self
        }
    }
}

impl AbsDiff for u16 {
    open spec fn spec_abs_diff(&self, other: &Self) -> Self {
        int_abs_diff(*self as int, *other as int) as u16
    }

    fn abs_diff(&self, other: &Self) -> (res: Self) {
        if *self > *other {
            *self - *other
        } else {
            *other - *self
        }
    }
}

impl AbsDiff for u32 {
    open spec fn spec_abs_diff(&self, other: &Self) -> Self {
        int_abs_diff(*self as int, *other as int) as u32
    }

    fn abs_diff(&self, other: &Self) -> (res: Self) {
        if *self > *other {
            *self - *other
        } else {
            *other - *self
        }
    }
}

impl AbsDiff for u64 {
    open spec fn spec_abs_diff(&self, other: &Self) -> Self {
        int_abs_diff(*self as int, *other as int) as u64
    }

    fn abs_diff(&self, other: &Self) -> (res: Self) {
        if *self > *other {
            *self - *other
        } else {
            *other - *self
        }
    }
}

impl AbsDiff for u128 {
    open spec fn spec_abs_diff(&self, other: &Self) -> Self {
        int_abs_diff(*self as int, *other as int) as u128
    }

    fn abs_diff(&self, other: &Self) -> (res: Self) {
        if *self > *other {
            *self - *other
        } else {
            *other - *self
        }
    }
}

impl AbsDiff for Prop {
    open spec fn spec_abs_diff(&self, other: &Self) -> Self {
        Prop(int_abs_diff(self.0 as int, other.0 as int) as u64)
    }

    fn abs_diff(&self, other: &Self) -> (res: Self) {
        if self.0 > other.0 {
            Prop(self.0 - other.0)
        } else {
            Prop(other.0 - self.0)
        }
    }
}

impl AbsDiff for UFDRNumber {
    open spec fn spec_abs_diff(&self, other: &Self) -> Self {
        UFDRNumber(int_abs_diff(self.0 as int, other.0 as int) as u128)
    }

    fn abs_diff(&self, other: &Self) -> (res: Self) {
        if self.0 > other.0 {
            UFDRNumber(self.0 - other.0)
        } else {
            UFDRNumber(other.0 - self.0)
        }
    }
}

impl PropDiff for u8 {
    open spec fn prop_diff_req(&self, other: &Self) -> bool {
        true
    }

    open spec fn spec_prop_diff(&self, other: &Self) -> Option<Prop> {
        Some(prop_from_unsigned(int_abs_diff(*self as int, *other as int), u8::MAX as int))
    }

    fn prop_diff(&self, other: &Self) -> (res: Option<Prop>) {
        Some(Prop::from(AbsDiff::abs_diff(self, other)))
    }
}

impl PropDiff for u16 {
    open spec fn prop_diff_req(&self, other: &Self) -> bool {
        true
    }

    open spec fn spec_prop_diff(&self, other: &Self) -> Option<Prop> {
        Some(prop_from_unsigned(int_abs_diff(*self as int, *other as int), u16::MAX as int))
    }

    fn prop_diff(&self, other: &Self) -> (res: Option<Prop>) {
        Some(Prop::from(AbsDiff::abs_diff(self, other)))
    }
}

impl PropDiff for u32 {
    open spec fn prop_diff_req(&self, other: &Self) -> bool {
        true
    }

    open spec fn spec_prop_diff(&self, other: &Self) -> Option<Prop> {
        Some(prop_from_unsigned(int_abs_diff(*self as int, *other as int), u32::MAX as int))
    }

    fn prop_diff(&self, other: &Self) -> (res: Option<Prop>) {
        Some(Prop::from(AbsDiff::abs_diff(self, other)))
    }
}

impl PropDiff for u64 {
    open spec fn prop_diff_req(&self, other: &Self) -> bool {
        true
    }

    open spec fn spec_prop_diff(&self, other: &Self) -> Option<Prop> {
        Some(Prop(int_abs_diff(*self as int, *other as int) as u64))
    }

    fn prop_diff(&self, other: &Self) -> (res: Option<Prop>) {
        Some(Prop::from(AbsDiff::abs_diff(self, other)))
    }
}

impl PropDiff for u128 {
    open spec fn prop_diff_req(&self, other: &Self) -> bool {
        int_abs_diff(*self as int, *other as int) * scale() <= u128::MAX
    }

    /// The difference relative to the larger value, truncated to 64 bits.
    open spec fn spec_prop_diff(&self, other: &Self) -> Option<Prop> {
        let denom = if *self >= *other {
            *self
        } else {
            *other
        };
        if denom == 0 {
            Some(Prop(0))
        } else {
            Some(
                Prop(
                    ((int_abs_diff(*self as int, *other as int) * scale()) / (denom as int)) as u64,
                ),
            )
        }
    }

    fn prop_diff(&self, other: &Self) -> (res: Option<Prop>) {
        let denom = if *self >= *other {
            *self
        } else {
            *other
        };
        if denom == 0 {
            Some(Prop(0))
        } else {
            let diff = AbsDiff::abs_diff(self, other);
            Some(Prop((diff * u64::MAX as u128 / denom) as u64))
        }
    }
}

impl PropDiff for Prop {
    open spec fn prop_diff_req(&self, other: &Self) -> bool {
        true
    }

    open spec fn spec_prop_diff(&self, other: &Self) -> Option<Prop> {
        Some(self.spec_abs_diff(other))
    }

    fn prop_diff(&self, other: &Self) -> (res: Option<Prop>) {
        Some(self.abs_diff(other))
    }
}

/// When the proportional difference of two numbers can be computed: directly for
/// proportions, and relative to the larger number otherwise.
pub open spec fn ufdr_prop_diff_ok(a: int, b: int) -> bool {
    let d = int_abs_diff(a, b);
    let denom = if a >= b {
        a
    } else {
        b
    };
    (a <= scale() && b <= scale()) || (denom != 0 && ufdr_div_ok(d, denom) && ufdr_div_spec(
        d,
        denom,
    ) <= scale())
}

impl PropDiff for UFDRNumber {
    open spec fn prop_diff_req(&self, other: &Self) -> bool {
        ufdr_prop_diff_ok(self.0 as int, other.0 as int)
    }

    open spec fn spec_prop_diff(&self, other: &Self) -> Option<Prop> {
        let d = int_abs_diff(self.0 as int, other.0 as int);
        let denom = if self.0 >= other.0 {
            self.0 as int
        } else {
            other.0 as int
        };
        if self.0 <= scale() && other.0 <= scale() {
            Some(Prop(d as u64))
        } else if denom == 0 {
            Some(Prop(0))
        } else {
            Some(Prop(ufdr_div_spec(d, denom) as u64))
        }
    }

    fn prop_diff(&self, other: &Self) -> (res: Option<Prop>) {
        if self.is_proportion() && other.is_proportion() {
            Some(self.abs_diff(other).to_prop())
        } else {
            let denom = if self.0 >= other.0 {
                *self
            } else {
                *other
            };
            if denom.0 == 0 {
                Some(Prop(0))
            } else {
                Some(self.abs_diff(other).div_ufdr(denom).to_prop())
            }
        }
    }
}

impl ApproxEq for u8 {
    fn approx_eq(&self, other: &Self, max_diff: Option<Prop>) -> (res: bool) {
        approx_eq_from_diff(*self == *other, self.prop_diff(other), max_diff)
    }
}

impl ApproxEq for u16 {
    fn approx_eq(&self, other: &Self, max_diff: Option<Prop>) -> (res: bool) {
        approx_eq_from_diff(*self == *other, self.prop_diff(other), max_diff)
    }
}

impl ApproxEq for u32 {
    fn approx_eq(&self, other: &Self, max_diff: Option<Prop>) -> (res: bool) {
        approx_eq_from_diff(*self == *other, self.prop_diff(other), max_diff)
    }
}

impl ApproxEq for u64 {
    fn approx_eq(&self, other: &Self, max_diff: Option<Prop>) -> (res: bool) {
        approx_eq_from_diff(*self == *other, self.prop_diff(other), max_diff)
    }
}

impl ApproxEq for Prop {
    fn approx_eq(&self, other: &Self, max_diff: Option<Prop>) -> (res: bool) {
        approx_eq_from_diff(self.0 == other.0, self.prop_diff(other), max_diff)
    }
}

impl ApproxEq for UFDRNumber {
    fn approx_eq(&self, other: &Self, max_diff: Option<Prop>) -> (res: bool) {
        approx_eq_from_diff(self.0 == other.0, self.prop_diff(other), max_diff)
    }
}

} // verus!
