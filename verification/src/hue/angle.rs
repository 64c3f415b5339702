//! Angles of hue as fixed point numbers of degrees, in `[-180°, 180°)`.
use vstd::prelude::*;

use crate::fdrn::{scale, FDRNumber};

verus! {

/// An angle: `Angle(n)` stands for `n / Angle::degree().0` degrees.
#[derive(Clone, Copy, Debug, Hash, PartialEq, Eq, Structural, PartialOrd, Ord, Default)]
pub struct Angle(pub i64);

/// The units in a millisecond of arc.
pub open spec fn msec_units() -> int {
    14233598822
}

/// The units in a second of arc.
pub open spec fn second_units() -> int {
    1423359882200
}

/// The units in a minute of arc.
pub open spec fn minute_units() -> int {
    85401592932000
}

/// The units in a degree.
pub open spec fn degree_units() -> int {
    5124095575920000
}

/// The units of -180°, the smallest valid angle.
pub open spec fn min_units() -> int {
    degree_units() * -180
}

/// The units of 180°, the bound above the valid angles.
pub open spec fn max_units() -> int {
    degree_units() * 180
}

/// A sum or difference of two angles brought back by one turn where it leaves the
/// valid range.
pub open spec fn wrapped(ws: int) -> int {
    if ws >= max_units() {
        ws - max_units() * 2
    } else if ws < min_units() {
        ws + max_units() * 2
    } else {
        ws
    }
}

/// The opposite of an angle, as `-` gives it.
pub open spec fn angle_neg(a: Angle) -> Angle {
    if a.0 == min_units() {
        a
    } else {
        Angle(-a.0 as i64)
    }
}

/// The sum of two angles, as `+` gives it.
pub open spec fn angle_add(a: Angle, b: Angle) -> Angle {
    Angle(wrapped(a.0 + b.0) as i64)
}

/// The difference of two angles, as `-` gives it.
pub open spec fn angle_sub(a: Angle, b: Angle) -> Angle {
    Angle(wrapped(a.0 - b.0) as i64)
}

/// The angle of a whole number of degrees.
pub open spec fn degrees(n: int) -> Angle {
    Angle((degree_units() * n) as i64)
}

/// A whole number of degrees brought into `[-180, 180)`.
pub open spec fn normalised_degrees(deg: int) -> int {
    (deg + 180) % 360 - 180
}

/// An integer divided by a positive one, rounded toward zero.
pub open spec fn div_toward_zero(a: int, b: int) -> int {
    if a >= 0 {
        a / b
    } else {
        -((-a) / b)
    }
}

impl Angle {
    pub fn msec() -> (res: Angle)
        ensures
            res.0 == msec_units(),
    {
        assert(i64::MAX / 648000000 == msec_units());
        Angle(i64::MAX / (180 * 60 * 60 * 1000))
    }

    pub fn second() -> (res: Angle)
        ensures
            res.0 == second_units(),
    {
        Angle(1423359882200)
    }

    pub fn minute() -> (res: Angle)
        ensures
            res.0 == minute_units(),
    {
        Angle(85401592932000)
    }

    pub fn degree() -> (res: Angle)
        ensures
            res.0 == degree_units(),
    {
        Angle(5124095575920000)
    }

    /// -180°, the smallest valid angle.
    pub fn min() -> (res: Angle)
        ensures
            res.0 == min_units(),
    {
        Angle(-922337203665600000)
    }

    /// 180°, the bound above the valid angles.
    pub fn max() -> (res: Angle)
        ensures
            res.0 == max_units(),
    {
        Angle(922337203665600000)
    }

    /// Whether the angle lies in `[-180°, 180°)`.
    pub fn is_valid(self) -> (res: bool)
        ensures
            res == (min_units() <= self.0 < max_units()),
    {
        self.0 >= Angle::min().0 && self.0 < Angle::max().0
    }

    /// The angle from the smaller of the two to the larger, as their difference.
    pub fn abs_diff(&self, other: &Self) -> (res: Angle)
        ensures
            res.0 == (if self.0 == other.0 {
                0
            } else if self.0 > other.0 {
                wrapped(self.0 - other.0) as i64
            } else {
                wrapped(other.0 - self.0) as i64
            }),
    {
        if self.0 == other.0 {
            Angle(0)
        } else if self.0 > other.0 {
            *self - *other
        } else {
            *other - *self
        }
    }

    /// Whether the difference of the angles is below the given number of units (by
    /// default three).
    pub fn approx_eq(&self, other: &Self, acceptable_rounding_error: Option<u64>) -> (res: bool)
        ensures
            res == (self.abs_diff_spec(other) < match acceptable_rounding_error {
                Some(e) => e as i64 as int,
                None => 3,
            }),
    {
        let diff = self.abs_diff(other);
        match acceptable_rounding_error {
            Some(e) => diff.0 < e as i64,
            None => diff.0 < 3,
        }
    }

    /// What `abs_diff` gives, in units.
    pub open spec fn abs_diff_spec(&self, other: &Self) -> int {
        if self.0 == other.0 {
            0
        } else if self.0 > other.0 {
            wrapped(self.0 - other.0) as i64 as int
        } else {
            wrapped(other.0 - self.0) as i64 as int
        }
    }

    pub fn red() -> (res: Angle)
        ensures
            res.0 == 0,
    {
        Angle(0)
    }

    pub fn green() -> (res: Angle)
        ensures
            res.0 == degree_units() * 120,
    {
        Angle(614891469110400000)
    }

    pub fn blue() -> (res: Angle)
        ensures
            res.0 == degree_units() * -120,
    {
        Angle(-614891469110400000)
    }

    pub fn cyan() -> (res: Angle)
        ensures
            res.0 == degree_units() * -180,
    {
        Angle(-922337203665600000)
    }

    pub fn magenta() -> (res: Angle)
        ensures
            res.0 == degree_units() * -60,
    {
        Angle(-307445734555200000)
    }

    pub fn yellow() -> (res: Angle)
        ensures
            res.0 == degree_units() * 60,
    {
        Angle(307445734555200000)
    }

    pub fn blue_cyan() -> (res: Angle)
        ensures
            res.0 == degree_units() * -150,
    {
        Angle(-768614336388000000)
    }

    pub fn blue_magenta() -> (res: Angle)
        ensures
            res.0 == degree_units() * -90,
    {
        Angle(-461168601832800000)
    }

    pub fn red_magenta() -> (res: Angle)
        ensures
            res.0 == degree_units() * -30,
    {
        Angle(-153722867277600000)
    }

    pub fn red_yellow() -> (res: Angle)
        ensures
            res.0 == degree_units() * 30,
    {
        Angle(153722867277600000)
    }

    pub fn green_yellow() -> (res: Angle)
        ensures
            res.0 == degree_units() * 90,
    {
        Angle(461168601832800000)
    }

    pub fn green_cyan() -> (res: Angle)
        ensures
            res.0 == degree_units() * 150,
    {
        Angle(768614336388000000)
    }
}

impl core::ops::Neg for Angle {
    type Output = Angle;

    /// The opposite angle; -180° is its own opposite.
    fn neg(self) -> (res: Angle)
        ensures
            res.0 == (if self.0 == min_units() {
                self.0 as int
            } else {
                -self.0
            }),
    {
        if self.0 == Angle::min().0 {
            self
        } else {
            Angle(-self.0)
        }
    }
}

impl vstd::std_specs::ops::NegSpecImpl for Angle {
    open spec fn obeys_neg_spec() -> bool {
        true
    }

    open spec fn neg_req(self) -> bool {
        self.0 != i64::MIN
    }

    open spec fn neg_spec(self) -> Angle {
        angle_neg(self)
    }
}

impl core::ops::Add for Angle {
    type Output = Angle;

    /// The sum, brought back by one turn where it leaves the valid range.
    fn add(self, other: Angle) -> (res: Angle)
        ensures
            res.0 == wrapped(self.0 + other.0) as i64,
    {
        let ws: i128 = self.0 as i128 + other.0 as i128;
        let max: i128 = Angle::max().0 as i128;
        let min: i128 = Angle::min().0 as i128;
        if ws >= max {
            Angle((ws - max * 2) as i64)
        } else if ws < min {
            Angle((ws + max * 2) as i64)
        } else {
            Angle(ws as i64)
        }
    }
}

impl vstd::std_specs::ops::AddSpecImpl for Angle {
    open spec fn obeys_add_spec() -> bool {
        true
    }

    open spec fn add_req(self, other: Angle) -> bool {
        true
    }

    open spec fn add_spec(self, other: Angle) -> Angle {
        angle_add(self, other)
    }
}

impl core::ops::Sub for Angle {
    type Output = Angle;

    /// The difference, brought back by one turn where it leaves the valid range.
    fn sub(self, other: Angle) -> (res: Angle)
        ensures
            res.0 == wrapped(self.0 - other.0) as i64,
    {
        let ws: i128 = self.0 as i128 - other.0 as i128;
        let max: i128 = Angle::max().0 as i128;
        let min: i128 = Angle::min().0 as i128;
        if ws >= max {
            Angle((ws - max * 2) as i64)
        } else if ws < min {
            Angle((ws + max * 2) as i64)
        } else {
            Angle(ws as i64)
        }
    }
}

impl vstd::std_specs::ops::SubSpecImpl for Angle {
    open spec fn obeys_sub_spec() -> bool {
        true
    }

    open spec fn sub_req(self, other: Angle) -> bool {
        true
    }

    open spec fn sub_spec(self, other: Angle) -> Angle {
        angle_sub(self, other)
    }
}

impl From<i16> for Angle {
    /// A whole number of degrees, brought into `[-180°, 180°)`.
    fn from(deg: i16) -> (res: Angle)
        ensures
            res.0 == normalised_degrees(deg as int) * degree_units(),
    {
        let mut ws: i32 = deg as i32;
        if deg > 0 {
            while ws >= 180
                invariant
                    -180 <= ws <= deg,
                    (ws - deg) % 360 == 0,
                decreases ws + 180,
            {
                ws -= 360;
            }
        } else {
            while ws < -180
                invariant
                    deg <= ws < 180,
                    (ws - deg) % 360 == 0,
                decreases 180 - ws,
            {
                ws += 360;
            }
        }
        proof {
            lemma_normalised_degrees(deg as int, ws as int);
        }
        Angle(ws as i64 * Angle::degree().0)
    }
}

impl vstd::std_specs::convert::FromSpecImpl<i16> for Angle {
    open spec fn obeys_from_spec() -> bool {
        true
    }

    open spec fn from_spec(deg: i16) -> Angle {
        Angle((normalised_degrees(deg as int) * degree_units()) as i64)
    }
}

/// A number of degrees in `[-180, 180)` that differs from `deg` by whole turns is
/// the normalised one.
proof fn lemma_normalised_degrees(deg: int, ws: int)
    requires
        -180 <= ws < 180,
        (ws - deg) % 360 == 0,
    ensures
        ws == normalised_degrees(deg),
{
    let k = (ws - deg) / 360;
    vstd::arithmetic::div_mod::lemma_fundamental_div_mod(ws - deg, 360);
    assert(deg + 180 == 360 * (-k) + (ws + 180));
    vstd::arithmetic::div_mod::lemma_fundamental_div_mod_converse(deg + 180, 360, -k, ws + 180);
}

impl From<(u8, u8)> for Angle {
    /// Degrees and minutes.
    fn from(arg: (u8, u8)) -> (res: Angle)
        ensures
            res.0 == degree_units() * arg.0 + minute_units() * arg.1,
    {
        let (deg, min) = arg;
        Angle(Angle::degree().0 * deg as i64 + Angle::minute().0 * min as i64)
    }
}

impl vstd::std_specs::convert::FromSpecImpl<(u8, u8)> for Angle {
    open spec fn obeys_from_spec() -> bool {
        true
    }

    open spec fn from_spec(arg: (u8, u8)) -> Angle {
        Angle((degree_units() * arg.0 + minute_units() * arg.1) as i64)
    }
}

impl From<(u8, u8, u8)> for Angle {
    /// Degrees, minutes and seconds.
    fn from(arg: (u8, u8, u8)) -> (res: Angle)
        ensures
            res.0 == degree_units() * arg.0 + minute_units() * arg.1 + second_units() * arg.2,
    {
        let (deg, min, sec) = arg;
        Angle(
            Angle::degree().0 * deg as i64 + Angle::minute().0 * min as i64 + Angle::second().0
                * sec as i64,
        )
    }
}

impl vstd::std_specs::convert::FromSpecImpl<(u8, u8, u8)> for Angle {
    open spec fn obeys_from_spec() -> bool {
        true
    }

    open spec fn from_spec(arg: (u8, u8, u8)) -> Angle {
        Angle(
            (degree_units() * arg.0 + minute_units() * arg.1 + second_units() * arg.2) as i64,
        )
    }
}

impl From<(u8, u8, u8, u16)> for Angle {
    /// Degrees, minutes, seconds and milliseconds.
    fn from(arg: (u8, u8, u8, u16)) -> (res: Angle)
        ensures
            res.0 == degree_units() * arg.0 + minute_units() * arg.1 + second_units() * arg.2
                + msec_units() * arg.3,
    {
        let (deg, min, sec, msec) = arg;
        Angle(
            Angle::degree().0 * deg as i64 + Angle::minute().0 * min as i64 + Angle::second().0
                * sec as i64 + Angle::msec().0 * msec as i64,
        )
    }
}

impl vstd::std_specs::convert::FromSpecImpl<(u8, u8, u8, u16)> for Angle {
    open spec fn obeys_from_spec() -> bool {
        true
    }

    open spec fn from_spec(arg: (u8, u8, u8, u16)) -> Angle {
        Angle(
            (degree_units() * arg.0 + minute_units() * arg.1 + second_units() * arg.2
                + msec_units() * arg.3) as i64,
        )
    }
}

impl From<Angle> for FDRNumber {
    /// The angle as a number of degrees.
    fn from(angle: Angle) -> (res: FDRNumber)
        ensures
            res.0 == div_toward_zero(angle.0 * scale(), degree_units()),
    {
        let units: i128 = angle.0 as i128 * u64::MAX as i128;
        let degree: i128 = Angle::degree().0 as i128;
        assert(-0x8000_0000_0000_0000 * 0xFFFF_FFFF_FFFF_FFFF <= units <= 0x7FFF_FFFF_FFFF_FFFF * 0xFFFF_FFFF_FFFF_FFFF) by (nonlinear_arith)
            requires
                units == angle.0 * 0xFFFF_FFFF_FFFF_FFFFint,
                -0x8000_0000_0000_0000 <= angle.0 <= 0x7FFF_FFFF_FFFF_FFFF,
        ;
        if units >= 0 {
            FDRNumber(units / degree)
        } else {
            FDRNumber(-((-units) / degree))
        }
    }
}

impl vstd::std_specs::convert::FromSpecImpl<Angle> for FDRNumber {
    open spec fn obeys_from_spec() -> bool {
        true
    }

    open spec fn from_spec(angle: Angle) -> FDRNumber {
        FDRNumber(div_toward_zero(angle.0 * scale(), degree_units()) as i128)
    }
}

/// Round trip: adding an angle to a valid angle and then subtracting it gives back
/// the valid angle, whole turns and all.
pub proof fn lemma_angle_add_sub(a: Angle, b: Angle)
    requires
        min_units() <= a.0 < max_units(),
        min_units() <= b.0 < max_units(),
    ensures
        angle_sub(angle_add(a, b), b) == a,
        min_units() <= angle_add(a, b).0 < max_units(),
{
    let s = wrapped(a.0 + b.0);
    assert(min_units() <= s < max_units());
    assert(s as i64 as int == s);
    let t = wrapped(s - b.0);
    assert(t == a.0);
}

/// Negation: a valid angle and its opposite add up to no angle.
pub proof fn lemma_angle_add_neg(a: Angle)
    requires
        min_units() <= a.0 < max_units(),
    ensures
        angle_add(a, angle_neg(a)).0 == 0,
        min_units() <= angle_neg(a).0 < max_units(),
{
}

} // verus!
