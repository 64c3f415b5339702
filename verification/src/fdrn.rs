//! Fixed point numbers with `u64::MAX` standing for one: `Prop` for proportions in
//! the range zero to one, `UFDRNumber` for non-negative values (sums of up to three
//! proportions and more) and `FDRNumber` for signed values.
use vstd::prelude::*;
use vstd::arithmetic::div_mod::*;
use vstd::arithmetic::mul::*;

verus! {

/// The fixed point scale: the raw value `u64::MAX` stands for one.
pub open spec fn scale() -> int {
    u64::MAX as int
}

proof fn lemma_expand_parts(m: int, ai: int, ar: int, bi: int, br: int)
    ensures
        (m * ai + ar) * (m * bi + br) == (ai * bi * m + ai * br + bi * ar) * m + br * ar,
{
    lemma_mul_is_distributive_add_other_way(m * bi + br, m * ai, ar);
    lemma_mul_is_distributive_add(m * ai, m * bi, br);
    lemma_mul_is_distributive_add(ar, m * bi, br);
    assert((m * ai) * (m * bi) == (ai * bi * m) * m) by {
        lemma_mul_is_associative(m * ai, m, bi);
        lemma_mul_is_commutative(m * ai, m);
        lemma_mul_is_associative(m, m * ai, bi);
        lemma_mul_is_associative(m, ai, m);
        lemma_mul_is_commutative(m, ai);
        lemma_mul_is_associative(ai, m, m);
        lemma_mul_is_associative(ai, bi, m);
        lemma_mul_is_commutative(m * m, bi);
        lemma_mul_is_associative(ai, m * m, bi);
        lemma_mul_is_associative(ai, bi, m * m);
        lemma_mul_is_associative(ai * bi, m, m);
    }
    assert((m * ai) * br == (ai * br) * m) by {
        lemma_mul_is_commutative(m, ai);
        lemma_mul_is_associative(ai, m, br);
        lemma_mul_is_commutative(m, br);
        lemma_mul_is_associative(ai, br, m);
    }
    assert(ar * (m * bi) == (bi * ar) * m) by {
        lemma_mul_is_associative(ar, m, bi);
        lemma_mul_is_commutative(ar, m);
        lemma_mul_is_associative(m, ar, bi);
        lemma_mul_is_commutative(ar, bi);
        lemma_mul_is_commutative(m, bi * ar);
    }
    lemma_mul_is_distributive_add_other_way(m, ai * bi * m + ai * br, bi * ar);
    lemma_mul_is_distributive_add_other_way(m, ai * bi * m, ai * br);
    lemma_mul_is_commutative(br, ar);
}

proof fn lemma_expand_whole(m: int, ai: int, ar: int, p: int)
    ensures
        (m * ai + ar) * p == (ai * p) * m + p * ar,
{
    broadcast use group_mul_is_commutative_and_distributive;

    lemma_mul_is_associative(m, ai, p);
    lemma_mul_is_associative(ai, p, m);
}

/// `a * b / scale()` rounded down, split into whole and fractional parts.
pub proof fn lemma_scaled_product_parts(a: int, b: int)
    requires
        a >= 0,
        b >= 0,
    ensures
        (a * b) / scale() == (a / scale()) * (b / scale()) * scale() + (a / scale()) * (b
            % scale()) + (b / scale()) * (a % scale()) + ((b % scale()) * (a % scale()))
            / scale(),
{
    let m = scale();
    let ai = a / m;
    let ar = a % m;
    let bi = b / m;
    let br = b % m;
    lemma_fundamental_div_mod(a, m);
    lemma_fundamental_div_mod(b, m);
    lemma_expand_parts(m, ai, ar, bi, br);
    assert(a * b == (ai * bi * m + ai * br + bi * ar) * m + br * ar);
    lemma_mod_pos_bound(a, m);
    lemma_mod_pos_bound(b, m);
    assert(br * ar >= 0) by (nonlinear_arith)
        requires
            br >= 0,
            ar >= 0,
    ;
    lemma_hoist_over_denominator(br * ar, ai * bi * m + ai * br + bi * ar, m as nat);
}

/// `a * p / scale()` for a value `a` of at least one.
pub proof fn lemma_scaled_product_whole(a: int, p: int)
    requires
        a >= 0,
        p >= 0,
    ensures
        (a * p) / scale() == (a / scale()) * p + (p * (a % scale())) / scale(),
{
    let m = scale();
    let ai = a / m;
    let ar = a % m;
    lemma_fundamental_div_mod(a, m);
    lemma_expand_whole(m, ai, ar, p);
    assert(a * p == (ai * p) * m + p * ar);
    lemma_mod_pos_bound(a, m);
    assert(p * ar >= 0) by (nonlinear_arith)
        requires
            p >= 0,
            ar >= 0,
    ;
    lemma_hoist_over_denominator(p * ar, ai * p, m as nat);
}

/// The largest 128 bit number is `u64::MAX * (u64::MAX + 2)`.
proof fn lemma_u128_max_over_scale()
    ensures
        u128::MAX as int / scale() == scale() + 2,
{
    let m = scale();
    assert(u128::MAX == m * (m + 2)) by (nonlinear_arith)
        requires
            m == u64::MAX,
    ;
    lemma_fundamental_div_mod_converse(u128::MAX as int, m, m + 2, 0);
}

/// A non-negative fixed point proportion: `Prop(n)` stands for `n / u64::MAX`.
#[derive(Clone, Copy, Debug, Hash, PartialEq, Eq, Structural, PartialOrd, Ord, Default)]
pub struct Prop(pub u64);

impl Prop {
    pub fn zero() -> (res: Prop)
        ensures
            res.0 == 0,
    {
        Prop(0)
    }

    pub fn one() -> (res: Prop)
        ensures
            res.0 == u64::MAX,
    {
        Prop(u64::MAX)
    }

    pub fn almost_one() -> (res: Prop)
        ensures
            res.0 == u64::MAX - 1,
    {
        Prop(u64::MAX - 1)
    }

    pub fn half() -> (res: Prop)
        ensures
            res.0 == u64::MAX / 2,
    {
        Prop(u64::MAX / 2)
    }

    /// The product `self * rhs`, rounded down.
    pub fn mul_prop(self, rhs: Prop) -> (res: Prop)
        ensures
            res.0 == (self.0 * rhs.0) / scale(),
    {
        proof {
            lemma_mul_upper_bound(self.0 as int, u64::MAX as int, rhs.0 as int, u64::MAX as int);
            lemma_div_is_ordered(
                self.0 * rhs.0,
                u64::MAX as int * u64::MAX as int,
                u64::MAX as int,
            );
            lemma_div_by_multiple(u64::MAX as int, u64::MAX as int);
        }
        Prop(((self.0 as u128 * rhs.0 as u128) / (u64::MAX as u128)) as u64)
    }

    /// The product of the proportion and a small whole number.
    pub fn mul_u8(self, rhs: u8) -> (res: UFDRNumber)
        ensures
            res.0 == self.0 * rhs,
    {
        proof {
            lemma_mul_upper_bound(self.0 as int, u64::MAX as int, rhs as int, u8::MAX as int);
        }
        UFDRNumber(self.0 as u128 * rhs as u128)
    }

    /// The quotient `self / rhs`, computed through the reciprocal
    /// of `rhs`, truncated to 64 bits.
    pub fn div_prop(self, rhs: Prop) -> (res: Prop)
        requires
            rhs.0 != 0,
            rhs.0 != u64::MAX ==> (u128::MAX / rhs.0 as u128) * self.0 <= u128::MAX,
        ensures
            res == prop_div_spec(self, rhs),
    {
        if rhs.0 == u64::MAX {
            self
        } else {
            let recip = u128::MAX / rhs.0 as u128;
            Prop(((recip * self.0 as u128) / (u64::MAX as u128)) as u64)
        }
    }

    /// Integer division of the raw value.
    pub fn div_u8(self, rhs: u8) -> (res: Prop)
        requires
            rhs != 0,
        ensures
            res.0 == self.0 / (rhs as u64),
    {
        Prop(self.0 / rhs as u64)
    }

    /// The sum of two proportions, which may exceed one.
    pub fn add_prop(self, rhs: Prop) -> (res: UFDRNumber)
        ensures
            res.0 == self.0 + rhs.0,
    {
        UFDRNumber(self.0 as u128 + rhs.0 as u128)
    }

    /// The difference of two proportions, the first being the larger.
    pub fn sub_prop(self, rhs: Prop) -> (res: Prop)
        requires
            self.0 >= rhs.0,
        ensures
            res.0 == self.0 - rhs.0,
    {
        Prop(self.0 - rhs.0)
    }

    /// The proportion `fraction[0] / fraction[1]`, truncated to 64 bits where the
    /// fraction exceeds one.
    pub fn from_fraction(fraction: [u64; 2]) -> (res: Prop)
        requires
            fraction[1] != 0,
        ensures
            res.0 == ((fraction[0] * scale()) / (fraction[1] as int)) as u64,
    {
        proof {
            lemma_mul_upper_bound(fraction[0] as int, u64::MAX as int, scale(), u64::MAX as int);
        }
        Prop(((fraction[0] as u128 * u64::MAX as u128) / fraction[1] as u128) as u64)
    }
}

/// What `Prop::div_prop` computes.
pub open spec fn prop_div_spec(lhs: Prop, rhs: Prop) -> Prop {
    if rhs.0 == u64::MAX {
        lhs
    } else {
        Prop((((u128::MAX as int / rhs.0 as int) * lhs.0) / scale()) as u64)
    }
}

impl core::ops::Mul for Prop {
    type Output = Prop;

    fn mul(self, rhs: Prop) -> (res: Prop)
        ensures
            res.0 == (self.0 * rhs.0) / scale(),
    {
        self.mul_prop(rhs)
    }
}

impl vstd::std_specs::ops::MulSpecImpl for Prop {
    open spec fn obeys_mul_spec() -> bool {
        true
    }

    open spec fn mul_req(self, rhs: Prop) -> bool {
        true
    }

    open spec fn mul_spec(self, rhs: Prop) -> Prop {
        Prop(((self.0 * rhs.0) / scale()) as u64)
    }
}

impl core::ops::Mul<u8> for Prop {
    type Output = UFDRNumber;

    fn mul(self, rhs: u8) -> (res: UFDRNumber)
        ensures
            res.0 == self.0 * rhs,
    {
        self.mul_u8(rhs)
    }
}

impl vstd::std_specs::ops::MulSpecImpl<u8> for Prop {
    open spec fn obeys_mul_spec() -> bool {
        true
    }

    open spec fn mul_req(self, rhs: u8) -> bool {
        true
    }

    open spec fn mul_spec(self, rhs: u8) -> UFDRNumber {
        UFDRNumber((self.0 * rhs) as u128)
    }
}

impl core::ops::Div for Prop {
    type Output = Prop;

    fn div(self, rhs: Prop) -> (res: Prop)
        ensures
            res == prop_div_spec(self, rhs),
    {
        self.div_prop(rhs)
    }
}

impl vstd::std_specs::ops::DivSpecImpl for Prop {
    open spec fn obeys_div_spec() -> bool {
        true
    }

    open spec fn div_req(self, rhs: Prop) -> bool {
        &&& rhs.0 != 0
        &&& rhs.0 != u64::MAX ==> (u128::MAX / rhs.0 as u128) * self.0 <= u128::MAX
    }

    open spec fn div_spec(self, rhs: Prop) -> Prop {
        prop_div_spec(self, rhs)
    }
}

impl core::ops::Div<u8> for Prop {
    type Output = Prop;

    fn div(self, rhs: u8) -> (res: Prop)
        ensures
            res.0 == self.0 / (rhs as u64),
    {
        self.div_u8(rhs)
    }
}

impl vstd::std_specs::ops::DivSpecImpl<u8> for Prop {
    open spec fn obeys_div_spec() -> bool {
        true
    }

    open spec fn div_req(self, rhs: u8) -> bool {
        rhs != 0
    }

    open spec fn div_spec(self, rhs: u8) -> Prop {
        Prop(self.0 / (rhs as u64))
    }
}

impl core::ops::Add for Prop {
    type Output = UFDRNumber;

    fn add(self, rhs: Prop) -> (res: UFDRNumber)
        ensures
            res.0 == self.0 + rhs.0,
    {
        self.add_prop(rhs)
    }
}

impl vstd::std_specs::ops::AddSpecImpl for Prop {
    open spec fn obeys_add_spec() -> bool {
        true
    }

    open spec fn add_req(self, rhs: Prop) -> bool {
        true
    }

    open spec fn add_spec(self, rhs: Prop) -> UFDRNumber {
        UFDRNumber((self.0 + rhs.0) as u128)
    }
}

impl core::ops::Sub for Prop {
    type Output = Prop;

    fn sub(self, rhs: Prop) -> (res: Prop)
        ensures
            res.0 == self.0 - rhs.0,
    {
        self.sub_prop(rhs)
    }
}

impl vstd::std_specs::ops::SubSpecImpl for Prop {
    open spec fn obeys_sub_spec() -> bool {
        true
    }

    open spec fn sub_req(self, rhs: Prop) -> bool {
        self.0 >= rhs.0
    }

    open spec fn sub_spec(self, rhs: Prop) -> Prop {
        Prop((self.0 - rhs.0) as u64)
    }
}

/// A non-negative fixed point number: `UFDRNumber(n)` stands for `n / u64::MAX`.
#[derive(Clone, Copy, Debug, Hash, PartialEq, Eq, Structural, PartialOrd, Ord, Default)]
pub struct UFDRNumber(pub u128);

/// What `UFDRNumber::div` computes.
pub open spec fn ufdr_div_spec(a: int, r: int) -> int {
    if r % scale() == 0 {
        a / (r / scale())
    } else if a == r {
        scale()
    } else {
        (a * (u128::MAX as int / r)) / scale()
    }
}

/// When `UFDRNumber::div` can compute its result without overflow.
pub open spec fn ufdr_div_ok(a: int, r: int) -> bool {
    &&& r != 0
    &&& (r % scale() != 0 && a != r) ==> (a * (u128::MAX as int / r)) / scale()
        <= u128::MAX
}

impl UFDRNumber {
    pub fn zero() -> (res: UFDRNumber)
        ensures
            res.0 == 0,
    {
        UFDRNumber(0)
    }

    pub fn one() -> (res: UFDRNumber)
        ensures
            res.0 == scale(),
    {
        UFDRNumber(u64::MAX as u128)
    }

    pub fn two() -> (res: UFDRNumber)
        ensures
            res.0 == 2 * scale(),
    {
        UFDRNumber(u64::MAX as u128 * 2)
    }

    pub fn three() -> (res: UFDRNumber)
        ensures
            res.0 == 3 * scale(),
    {
        UFDRNumber(u64::MAX as u128 * 3)
    }

    pub fn sqrt_2() -> (res: UFDRNumber)
        ensures
            res.0 == 26087635650665564423,
    {
        UFDRNumber(26087635650665564423)
    }

    pub fn sqrt_3() -> (res: UFDRNumber)
        ensures
            res.0 == 50397442043594580091,
    {
        UFDRNumber(50397442043594580091)
    }

    pub fn is_valid_sum(self) -> (res: bool)
        ensures
            res == (self.0 <= 3 * scale()),
    {
        self.0 <= u64::MAX as u128 * 3
    }

    pub fn is_hue_valid(self) -> (res: bool)
        ensures
            res == (0 < self.0 < 3 * scale()),
    {
        self.0 > 0 && self.0 < u64::MAX as u128 * 3
    }

    pub fn is_proportion(self) -> (res: bool)
        ensures
            res == (self.0 <= scale()),
    {
        self.0 <= u64::MAX as u128
    }

    pub fn to_prop(&self) -> (res: Prop)
        requires
            self.0 <= scale(),
        ensures
            res.0 == self.0,
    {
        Prop(self.0 as u64)
    }

    pub fn add_ufdr(self, rhs: UFDRNumber) -> (res: UFDRNumber)
        requires
            self.0 + rhs.0 <= u128::MAX,
        ensures
            res.0 == self.0 + rhs.0,
    {
        UFDRNumber(self.0 + rhs.0)
    }

    pub fn sub_ufdr(self, rhs: UFDRNumber) -> (res: UFDRNumber)
        requires
            self.0 >= rhs.0,
        ensures
            res.0 == self.0 - rhs.0,
    {
        UFDRNumber(self.0 - rhs.0)
    }

    /// The product `self * rhs`, rounded down.
    pub fn mul_ufdr(self, rhs: UFDRNumber) -> (res: UFDRNumber)
        requires
            (self.0 * rhs.0) / scale() <= u128::MAX,
        ensures
            res.0 == (self.0 * rhs.0) / scale(),
    {
        let one: u128 = u64::MAX as u128;
        let l_int = self.0 / one;
        let l_rem = self.0 % one;
        let r_int = rhs.0 / one;
        let r_rem = rhs.0 % one;
        proof {
            let m = scale();
            lemma_scaled_product_parts(self.0 as int, rhs.0 as int);
            lemma_mul_nonnegative(l_int as int, r_int as int);
            lemma_mul_nonnegative(l_int * r_int, m);
            lemma_mul_nonnegative(l_int as int, r_rem as int);
            lemma_mul_nonnegative(r_int as int, l_rem as int);
            lemma_mul_nonnegative(r_rem as int, l_rem as int);
            lemma_div_pos_is_pos(r_rem * l_rem, m);
            lemma_mul_upper_bound(r_rem as int, m - 1, l_rem as int, m - 1);
            assert((m - 1) * (m - 1) <= u128::MAX);
        }
        UFDRNumber(l_int * r_int * one + l_int * r_rem + r_int * l_rem + r_rem * l_rem / one)
    }

    pub fn mul_i32(self, rhs: i32) -> (res: UFDRNumber)
        requires
            rhs >= 0,
            self.0 * rhs <= u128::MAX,
        ensures
            res.0 == self.0 * rhs,
    {
        UFDRNumber(self.0 * rhs as u128)
    }

    /// The quotient `self / rhs`: exactly where `rhs` is
    /// a whole number and through the reciprocal of `rhs` otherwise.
    pub fn div_ufdr(self, rhs: UFDRNumber) -> (res: UFDRNumber)
        requires
            ufdr_div_ok(self.0 as int, rhs.0 as int),
        ensures
            res.0 == ufdr_div_spec(self.0 as int, rhs.0 as int),
    {
        let one: u128 = u64::MAX as u128;
        if rhs.0 % one == 0 {
            proof {
                lemma_fundamental_div_mod(rhs.0 as int, scale());
            }
            UFDRNumber(self.0 / (rhs.0 / one))
        } else if self.0 == rhs.0 {
            UFDRNumber(one)
        } else {
            self.mul_ufdr(UFDRNumber(u128::MAX / rhs.0))
        }
    }

    pub fn div_i32(self, rhs: i32) -> (res: UFDRNumber)
        requires
            rhs > 0,
        ensures
            res.0 == self.0 as int / (rhs as int),
    {
        UFDRNumber(self.0 / rhs as u128)
    }

    pub fn rem_ufdr(self, rhs: UFDRNumber) -> (res: UFDRNumber)
        requires
            rhs.0 != 0,
        ensures
            res.0 == self.0 % rhs.0,
    {
        UFDRNumber(self.0 % rhs.0)
    }

    pub fn rem_i32(self, rhs: i32) -> (res: UFDRNumber)
        requires
            rhs > 0,
        ensures
            res.0 == self.0 as int % (rhs as int),
    {
        UFDRNumber(self.0 % rhs as u128)
    }

    pub fn add_prop(self, rhs: Prop) -> (res: UFDRNumber)
        requires
            self.0 + rhs.0 <= u128::MAX,
        ensures
            res.0 == self.0 + rhs.0,
    {
        UFDRNumber(self.0 + rhs.0 as u128)
    }

    pub fn sub_prop(self, rhs: Prop) -> (res: UFDRNumber)
        requires
            self.0 >= rhs.0,
        ensures
            res.0 == self.0 - rhs.0,
    {
        UFDRNumber(self.0 - rhs.0 as u128)
    }

    /// The quotient `self / rhs`, through the reciprocal of the proportion.
    pub fn div_prop(self, rhs: Prop) -> (res: UFDRNumber)
        requires
            rhs.0 != 0,
            rhs.0 != u64::MAX && self.0 != rhs.0 ==> (self.0 * (u128::MAX as int / rhs.0 as int))
                / scale() <= u128::MAX,
        ensures
            res.0 == ufdr_div_prop_spec(self.0 as int, rhs.0 as int),
    {
        if rhs.0 == u64::MAX {
            self
        } else if self.0 == rhs.0 as u128 {
            UFDRNumber(u64::MAX as u128)
        } else {
            self.mul_ufdr(UFDRNumber(u128::MAX / rhs.0 as u128))
        }
    }

    /// The product `self * rhs`, rounded down.
    pub fn mul_prop(self, rhs: Prop) -> (res: UFDRNumber)
        ensures
            res.0 == (self.0 * rhs.0) / scale(),
    {
        let one: u128 = u64::MAX as u128;
        if rhs.0 == u64::MAX {
            proof {
                lemma_div_by_multiple(self.0 as int, scale());
            }
            self
        } else if self.0 >= one {
            let l_int = self.0 / one;
            let l_rem = self.0 % one;
            proof {
                let m = scale();
                lemma_scaled_product_whole(self.0 as int, rhs.0 as int);
                lemma_fundamental_div_mod(self.0 as int, m);
                lemma_mod_pos_bound(self.0 as int, m);
                lemma_mul_upper_bound(l_int as int, u128::MAX as int / m, rhs.0 as int, m - 1);
                lemma_u128_max_over_scale();
                assert((m + 2) * (m - 1) + m <= u128::MAX) by (nonlinear_arith)
                    requires
                        m == u64::MAX,
                ;
                lemma_mul_upper_bound(rhs.0 as int, m - 1, l_rem as int, m - 1);
                assert((m - 1) * (m - 1) <= u128::MAX) by (nonlinear_arith)
                    requires
                        m == u64::MAX,
                ;
                lemma_mul_nonnegative(rhs.0 as int, l_rem as int);
                lemma_div_is_ordered(rhs.0 * l_rem, m * m, m);
                lemma_div_by_multiple(m, m);
                lemma_div_is_ordered(self.0 as int, u128::MAX as int, m);
            }
            UFDRNumber(l_int * rhs.0 as u128 + rhs.0 as u128 * l_rem / one)
        } else {
            proof {
                let m = scale();
                lemma_mul_upper_bound(self.0 as int, m, rhs.0 as int, m);
                assert(m * m <= u128::MAX);
                lemma_mul_nonnegative(self.0 as int, rhs.0 as int);
                lemma_div_pos_is_pos(self.0 * rhs.0, m);
                lemma_div_is_ordered(self.0 * rhs.0, m * m, m);
                lemma_div_by_multiple(m, m);
            }
            UFDRNumber((self.0 * rhs.0 as u128) / one)
        }
    }

    pub fn mul_u8(self, rhs: u8) -> (res: UFDRNumber)
        requires
            self.0 * rhs <= u128::MAX,
        ensures
            res.0 == self.0 * rhs,
    {
        UFDRNumber(self.0 * rhs as u128)
    }
}

/// What `UFDRNumber::div_prop` computes.
pub open spec fn ufdr_div_prop_spec(a: int, p: int) -> int {
    if p == scale() {
        a
    } else if a == p {
        scale()
    } else {
        (a * (u128::MAX as int / p)) / scale()
    }
}

/// A signed fixed point number: `FDRNumber(n)` stands for `n / u64::MAX`.
#[derive(Clone, Copy, Debug, Hash, PartialEq, Eq, Structural, PartialOrd, Ord, Default)]
pub struct FDRNumber(pub i128);

/// The magnitude of a signed raw value.
pub open spec fn abs_int(x: int) -> int {
    if x < 0 {
        -x
    } else {
        x
    }
}

/// Applies the sign rule of a product or quotient of `a` and `b` to a magnitude.
pub open spec fn signed_by(a: int, b: int, magnitude: int) -> int {
    if (a < 0) == (b < 0) {
        magnitude
    } else {
        -magnitude
    }
}

impl FDRNumber {
    pub fn zero() -> (res: FDRNumber)
        ensures
            res.0 == 0,
    {
        FDRNumber(0)
    }

    pub fn one() -> (res: FDRNumber)
        ensures
            res.0 == scale(),
    {
        FDRNumber(u64::MAX as i128)
    }

    pub fn sqrt_2() -> (res: FDRNumber)
        ensures
            res.0 == 26087635650665564423,
    {
        FDRNumber(26087635650665564423)
    }

    pub fn sqrt_3() -> (res: FDRNumber)
        ensures
            res.0 == 50397442043594580091,
    {
        FDRNumber(50397442043594580091)
    }

    pub fn abs(self) -> (res: FDRNumber)
        requires
            self.0 != i128::MIN,
        ensures
            res.0 == abs_int(self.0 as int),
    {
        if self.0 < 0 {
            FDRNumber(-self.0)
        } else {
            self
        }
    }

    pub fn is_valid_sum(self) -> (res: bool)
        ensures
            res == (0 <= self.0 <= 3 * scale()),
    {
        self.0 >= 0 && self.0 <= u64::MAX as i128 * 3
    }

    pub fn is_hue_valid(self) -> (res: bool)
        ensures
            res == (0 < self.0 < 3 * scale()),
    {
        self.0 > 0 && self.0 < u64::MAX as i128 * 3
    }

    pub fn is_proportion(self) -> (res: bool)
        ensures
            res == (0 <= self.0 <= scale()),
    {
        self.0 >= 0 && self.0 <= u64::MAX as i128
    }

    pub fn abs_diff(&self, other: &Self) -> (res: FDRNumber)
        requires
            abs_int(self.0 - other.0) <= i128::MAX,
        ensures
            res.0 == abs_int(self.0 - other.0),
    {
        if self.0 > other.0 {
            FDRNumber(self.0 - other.0)
        } else if self.0 < other.0 {
            FDRNumber(other.0 - self.0)
        } else {
            FDRNumber(0)
        }
    }

    /// Whether the difference, scaled by the larger magnitude, is below the given
    /// rounding error (or a default of `u64::MAX / 10^15`).
    pub fn approx_eq(&self, other: &Self, acceptable_rounding_error: Option<u64>) -> (res: bool)
        requires
            self.0 != i128::MIN,
            other.0 != i128::MIN,
            abs_int(self.0 - other.0) <= i128::MAX,
            fdrn_scaled_diff_ok(self.0 as int, other.0 as int),
        ensures
            res == (fdrn_scaled_diff(self.0 as int, other.0 as int) < match acceptable_rounding_error {
                Some(e) => e as int,
                None => u64::MAX as int / 1_000_000_000_000_000,
            }),
    {
        let abs_diff = self.abs_diff(other);
        let mine = self.abs();
        let theirs = other.abs();
        let scaled_diff: u128 = if mine.0 >= theirs.0 {
            if mine.0 > 0 {
                (u128::MAX / mine.0 as u128) * abs_diff.0 as u128 / u64::MAX as u128
            } else {
                abs_diff.0 as u128
            }
        } else {
            (u128::MAX / theirs.0 as u128) * abs_diff.0 as u128 / u64::MAX as u128
        };
        if let Some(acceptable_rounding_error) = acceptable_rounding_error {
            scaled_diff < acceptable_rounding_error as u128
        } else {
            scaled_diff < u64::MAX as u128 / 1_000_000_000_000_000
        }
    }

    pub fn add_fdrn(self, other: FDRNumber) -> (res: FDRNumber)
        requires
            i128::MIN <= self.0 + other.0 <= i128::MAX,
        ensures
            res.0 == self.0 + other.0,
    {
        FDRNumber(self.0 + other.0)
    }

    pub fn sub_fdrn(self, other: FDRNumber) -> (res: FDRNumber)
        requires
            i128::MIN <= self.0 - other.0 <= i128::MAX,
        ensures
            res.0 == self.0 - other.0,
    {
        FDRNumber(self.0 - other.0)
    }

    pub fn neg_fdrn(self) -> (res: FDRNumber)
        requires
            self.0 != i128::MIN,
        ensures
            res.0 == -self.0,
    {
        FDRNumber(-self.0)
    }

    /// The product, computed on the magnitudes and then signed.
    pub fn mul_fdrn(self, rhs: FDRNumber) -> (res: FDRNumber)
        requires
            self.0 != i128::MIN,
            rhs.0 != i128::MIN,
            (abs_int(self.0 as int) * abs_int(rhs.0 as int)) / scale() <= i128::MAX,
        ensures
            res.0 == signed_by(
                self.0 as int,
                rhs.0 as int,
                (abs_int(self.0 as int) * abs_int(rhs.0 as int)) / scale(),
            ),
    {
        let l = UFDRNumber(self.abs().0 as u128);
        let r = UFDRNumber(rhs.abs().0 as u128);
        let val = FDRNumber(l.mul_ufdr(r).0 as i128);
        if self.0 < 0 {
            if rhs.0 < 0 {
                val
            } else {
                val.neg_fdrn()
            }
        } else if rhs.0 < 0 {
            val.neg_fdrn()
        } else {
            val
        }
    }

    /// The quotient, computed on the magnitudes and then signed.
    pub fn div_fdrn(self, rhs: FDRNumber) -> (res: FDRNumber)
        requires
            self.0 != i128::MIN,
            rhs.0 != i128::MIN,
            rhs.0 != scale() ==> ufdr_div_ok(abs_int(self.0 as int), abs_int(rhs.0 as int)),
            rhs.0 != scale() ==> ufdr_div_spec(abs_int(self.0 as int), abs_int(rhs.0 as int))
                <= i128::MAX,
        ensures
            res.0 == if rhs.0 == scale() {
                self.0 as int
            } else {
                signed_by(
                    self.0 as int,
                    rhs.0 as int,
                    ufdr_div_spec(abs_int(self.0 as int), abs_int(rhs.0 as int)),
                )
            },
    {
        if rhs.0 == u64::MAX as i128 {
            self
        } else {
            let l = UFDRNumber(self.abs().0 as u128);
            let r = UFDRNumber(rhs.abs().0 as u128);
            let val = FDRNumber(l.div_ufdr(r).0 as i128);
            if self.0 < 0 {
                if rhs.0 < 0 {
                    val
                } else {
                    val.neg_fdrn()
                }
            } else if rhs.0 < 0 {
                val.neg_fdrn()
            } else {
                val
            }
        }
    }

    pub fn mul_i32(self, rhs: i32) -> (res: FDRNumber)
        requires
            i128::MIN <= self.0 * rhs <= i128::MAX,
        ensures
            res.0 == self.0 * rhs,
    {
        FDRNumber(self.0 * rhs as i128)
    }
}

/// What `FDRNumber::approx_eq` compares with the acceptable error.
pub open spec fn fdrn_scaled_diff(a: int, b: int) -> int {
    let d = abs_int(a - b);
    if abs_int(a) >= abs_int(b) {
        if abs_int(a) > 0 {
            ((u128::MAX as int / abs_int(a)) * d) / scale()
        } else {
            d
        }
    } else {
        ((u128::MAX as int / abs_int(b)) * d) / scale()
    }
}

/// When `FDRNumber::approx_eq` computes without overflow.
pub open spec fn fdrn_scaled_diff_ok(a: int, b: int) -> bool {
    let d = abs_int(a - b);
    if abs_int(a) >= abs_int(b) {
        abs_int(a) > 0 ==> (u128::MAX as int / abs_int(a)) * d <= u128::MAX
    } else {
        (u128::MAX as int / abs_int(b)) * d <= u128::MAX
    }
}

/// Proportions convert to and from unsigned light levels by scaling `0..=T::MAX`
/// onto `0..=u64::MAX`.
pub open spec fn prop_from_unsigned(x: int, t_max: int) -> Prop {
    Prop(((x * scale()) / t_max) as u64)
}

/// The unsigned light level for a proportion, rounded down.
pub open spec fn unsigned_from_prop(p: Prop, t_max: int) -> int {
    (p.0 * t_max) / scale()
}

proof fn lemma_unsigned_scaling(x: int, t_max: int)
    requires
        0 <= x <= t_max,
        0 < t_max <= u64::MAX,
    ensures
        0 <= (x * scale()) / t_max <= u64::MAX,
        0 <= (x * t_max) / scale() <= t_max,
        x * scale() <= u128::MAX,
{
    lemma_mul_inequality(x, t_max, scale());
    lemma_mul_is_commutative(t_max, scale());
    lemma_div_by_multiple(scale(), t_max);
    lemma_div_is_ordered(x * scale(), t_max * scale(), t_max);
    lemma_mul_nonnegative(x, scale());
    lemma_div_pos_is_pos(x * scale(), t_max);
    lemma_mul_upper_bound(x, u64::MAX as int, scale(), u64::MAX as int);
    lemma_mul_inequality(x, scale(), t_max);
    lemma_div_is_ordered(x * t_max, scale() * t_max, scale());
    lemma_div_by_multiple(t_max, scale());
    lemma_mul_is_commutative(scale(), t_max);
    lemma_mul_nonnegative(x, t_max);
    lemma_div_pos_is_pos(x * t_max, scale());
}

/// Round trip: a light level of a type whose maximum divides `u64::MAX` converts to a
/// proportion and back to itself.  Eight, sixteen and thirty-two bit levels are such.
pub proof fn lemma_unsigned_prop_round_trip(x: int, t_max: int)
    requires
        0 <= x <= t_max,
        t_max == 255 || t_max == 65535 || t_max == 4294967295,
    ensures
        unsigned_from_prop(prop_from_unsigned(x, t_max), t_max) == x,
{
    let k = scale() / t_max;
    assert(t_max * k == scale()) by (nonlinear_arith)
        requires
            t_max == 255 || t_max == 65535 || t_max == 4294967295,
            k == scale() / t_max,
            scale() == 18446744073709551615,
    ;
    assert(x * scale() == (x * k) * t_max) by (nonlinear_arith)
        requires
            t_max * k == scale(),
    ;
    lemma_div_multiples_vanish(x * k, t_max);
    lemma_mul_is_commutative(t_max, x * k);
    lemma_unsigned_scaling(x, t_max);
    assert((x * k) * t_max == x * scale()) by (nonlinear_arith)
        requires
            t_max * k == scale(),
    ;
    assert(prop_from_unsigned(x, t_max).0 == x * k);
    lemma_div_multiples_vanish(x, scale());
    lemma_mul_is_commutative(scale(), x);
}

impl From<u64> for Prop {
    fn from(arg: u64) -> (res: Prop)
        ensures
            res.0 == arg,
    {
        Prop(arg)
    }
}

impl vstd::std_specs::convert::FromSpecImpl<u64> for Prop {
    open spec fn obeys_from_spec() -> bool {
        true
    }

    open spec fn from_spec(arg: u64) -> Prop {
        Prop(arg)
    }
}

impl From<Prop> for u64 {
    fn from(arg: Prop) -> (res: u64)
        ensures
            res == arg.0,
    {
        arg.0
    }
}

impl vstd::std_specs::convert::FromSpecImpl<Prop> for u64 {
    open spec fn obeys_from_spec() -> bool {
        true
    }

    open spec fn from_spec(arg: Prop) -> u64 {
        arg.0
    }
}

/// The proportion of the full eight bit level that a level is.
pub(crate) fn prop_of_u8(arg: u8) -> (res: Prop)
    ensures
        res == prop_from_unsigned(arg as int, u8::MAX as int),
{
    proof {
        lemma_unsigned_scaling(arg as int, u8::MAX as int);
    }
    let val: u128 = arg as u128 * u64::MAX as u128 / u8::MAX as u128;
    Prop(val as u64)
}

impl From<u8> for Prop {
    fn from(arg: u8) -> (res: Prop)
        ensures
            res == prop_from_unsigned(arg as int, u8::MAX as int),
    {
        prop_of_u8(arg)
    }
}

impl vstd::std_specs::convert::FromSpecImpl<u8> for Prop {
    open spec fn obeys_from_spec() -> bool {
        true
    }

    open spec fn from_spec(arg: u8) -> Prop {
        prop_from_unsigned(arg as int, u8::MAX as int)
    }
}

impl From<Prop> for u8 {
    fn from(arg: Prop) -> (res: u8)
        ensures
            res == unsigned_from_prop(arg, u8::MAX as int),
    {
        u8_of_prop(arg)
    }
}

/// The eight bit level of a proportion, rounded down.
pub(crate) fn u8_of_prop(arg: Prop) -> (res: u8)
    ensures
        res == unsigned_from_prop(arg, u8::MAX as int),
{
    proof {
        lemma_unsigned_scaling(arg.0 as int, u64::MAX as int);
        lemma_mul_upper_bound(arg.0 as int, u64::MAX as int, u8::MAX as int, u64::MAX as int);
        lemma_mul_inequality(arg.0 as int, u64::MAX as int, u8::MAX as int);
        lemma_div_is_ordered(arg.0 * u8::MAX, u64::MAX * u8::MAX, scale());
        lemma_div_by_multiple(u8::MAX as int, scale());
        lemma_mul_is_commutative(u64::MAX as int, u8::MAX as int);
    }
    let val: u128 = arg.0 as u128 * u8::MAX as u128 / u64::MAX as u128;
    val as u8
}

impl vstd::std_specs::convert::FromSpecImpl<Prop> for u8 {
    open spec fn obeys_from_spec() -> bool {
        true
    }

    open spec fn from_spec(arg: Prop) -> u8 {
        unsigned_from_prop(arg, u8::MAX as int) as u8
    }
}

impl From<u16> for Prop {
    fn from(arg: u16) -> (res: Prop)
        ensures
            res == prop_from_unsigned(arg as int, u16::MAX as int),
    {
        proof {
            lemma_unsigned_scaling(arg as int, u16::MAX as int);
        }
        let val: u128 = arg as u128 * u64::MAX as u128 / u16::MAX as u128;
        Prop(val as u64)
    }
}

impl vstd::std_specs::convert::FromSpecImpl<u16> for Prop {
    open spec fn obeys_from_spec() -> bool {
        true
    }

    open spec fn from_spec(arg: u16) -> Prop {
        prop_from_unsigned(arg as int, u16::MAX as int)
    }
}

impl From<Prop> for u16 {
    fn from(arg: Prop) -> (res: u16)
        ensures
            res == unsigned_from_prop(arg, u16::MAX as int),
    {
        proof {
            lemma_unsigned_scaling(arg.0 as int, u64::MAX as int);
            lemma_mul_upper_bound(arg.0 as int, u64::MAX as int, u16::MAX as int, u64::MAX as int);
            lemma_mul_inequality(arg.0 as int, u64::MAX as int, u16::MAX as int);
            lemma_div_is_ordered(arg.0 * u16::MAX, u64::MAX * u16::MAX, scale());
            lemma_div_by_multiple(u16::MAX as int, scale());
            lemma_mul_is_commutative(u64::MAX as int, u16::MAX as int);
        }
        let val: u128 = arg.0 as u128 * u16::MAX as u128 / u64::MAX as u128;
        val as u16
    }
}

impl vstd::std_specs::convert::FromSpecImpl<Prop> for u16 {
    open spec fn obeys_from_spec() -> bool {
        true
    }

    open spec fn from_spec(arg: Prop) -> u16 {
        unsigned_from_prop(arg, u16::MAX as int) as u16
    }
}

impl From<u32> for Prop {
    fn from(arg: u32) -> (res: Prop)
        ensures
            res == prop_from_unsigned(arg as int, u32::MAX as int),
    {
        proof {
            lemma_unsigned_scaling(arg as int, u32::MAX as int);
        }
        let val: u128 = arg as u128 * u64::MAX as u128 / u32::MAX as u128;
        Prop(val as u64)
    }
}

impl vstd::std_specs::convert::FromSpecImpl<u32> for Prop {
    open spec fn obeys_from_spec() -> bool {
        true
    }

    open spec fn from_spec(arg: u32) -> Prop {
        prop_from_unsigned(arg as int, u32::MAX as int)
    }
}

impl From<Prop> for u32 {
    fn from(arg: Prop) -> (res: u32)
        ensures
            res == unsigned_from_prop(arg, u32::MAX as int),
    {
        proof {
            lemma_unsigned_scaling(arg.0 as int, u64::MAX as int);
            lemma_mul_upper_bound(arg.0 as int, u64::MAX as int, u32::MAX as int, u64::MAX as int);
            lemma_mul_inequality(arg.0 as int, u64::MAX as int, u32::MAX as int);
            lemma_div_is_ordered(arg.0 * u32::MAX, u64::MAX * u32::MAX, scale());
            lemma_div_by_multiple(u32::MAX as int, scale());
            lemma_mul_is_commutative(u64::MAX as int, u32::MAX as int);
        }
        let val: u128 = arg.0 as u128 * u32::MAX as u128 / u64::MAX as u128;
        val as u32
    }
}

impl vstd::std_specs::convert::FromSpecImpl<Prop> for u32 {
    open spec fn obeys_from_spec() -> bool {
        true
    }

    open spec fn from_spec(arg: Prop) -> u32 {
        unsigned_from_prop(arg, u32::MAX as int) as u32
    }
}

impl From<Prop> for UFDRNumber {
    fn from(arg: Prop) -> (res: UFDRNumber)
        ensures
            res.0 == arg.0,
    {
        UFDRNumber(arg.0 as u128)
    }
}

impl vstd::std_specs::convert::FromSpecImpl<Prop> for UFDRNumber {
    open spec fn obeys_from_spec() -> bool {
        true
    }

    open spec fn from_spec(arg: Prop) -> UFDRNumber {
        UFDRNumber(arg.0 as u128)
    }
}

impl From<Prop> for FDRNumber {
    fn from(arg: Prop) -> (res: FDRNumber)
        ensures
            res.0 == arg.0,
    {
        FDRNumber(arg.0 as i128)
    }
}

impl vstd::std_specs::convert::FromSpecImpl<Prop> for FDRNumber {
    open spec fn obeys_from_spec() -> bool {
        true
    }

    open spec fn from_spec(arg: Prop) -> FDRNumber {
        FDRNumber(arg.0 as i128)
    }
}

impl From<UFDRNumber> for FDRNumber {
    /// Raw values beyond `i128::MAX` wrap, as a cast does.
    fn from(arg: UFDRNumber) -> (res: FDRNumber)
        ensures
            res == FDRNumber(arg.0 as i128),
    {
        FDRNumber(arg.0 as i128)
    }
}

impl vstd::std_specs::convert::FromSpecImpl<UFDRNumber> for FDRNumber {
    open spec fn obeys_from_spec() -> bool {
        true
    }

    open spec fn from_spec(arg: UFDRNumber) -> FDRNumber {
        FDRNumber(arg.0 as i128)
    }
}

impl From<u128> for UFDRNumber {
    fn from(arg: u128) -> (res: UFDRNumber)
        ensures
            res.0 == arg,
    {
        UFDRNumber(arg)
    }
}

impl vstd::std_specs::convert::FromSpecImpl<u128> for UFDRNumber {
    open spec fn obeys_from_spec() -> bool {
        true
    }

    open spec fn from_spec(arg: u128) -> UFDRNumber {
        UFDRNumber(arg)
    }
}

impl From<UFDRNumber> for u128 {
    fn from(arg: UFDRNumber) -> (res: u128)
        ensures
            res == arg.0,
    {
        arg.0
    }
}

impl vstd::std_specs::convert::FromSpecImpl<UFDRNumber> for u128 {
    open spec fn obeys_from_spec() -> bool {
        true
    }

    open spec fn from_spec(arg: UFDRNumber) -> u128 {
        arg.0
    }
}

impl From<i128> for FDRNumber {
    fn from(arg: i128) -> (res: FDRNumber)
        ensures
            res.0 == arg,
    {
        FDRNumber(arg)
    }
}

impl vstd::std_specs::convert::FromSpecImpl<i128> for FDRNumber {
    open spec fn obeys_from_spec() -> bool {
        true
    }

    open spec fn from_spec(arg: i128) -> FDRNumber {
        FDRNumber(arg)
    }
}

impl From<FDRNumber> for i128 {
    fn from(arg: FDRNumber) -> (res: i128)
        ensures
            res == arg.0,
    {
        arg.0
    }
}

impl vstd::std_specs::convert::FromSpecImpl<FDRNumber> for i128 {
    open spec fn obeys_from_spec() -> bool {
        true
    }

    open spec fn from_spec(arg: FDRNumber) -> i128 {
        arg.0
    }
}

impl From<u8> for UFDRNumber {
    /// The whole number.
    fn from(arg: u8) -> (res: UFDRNumber)
        ensures
            res.0 == arg * scale(),
    {
        proof {
            lemma_mul_upper_bound(arg as int, u64::MAX as int, scale(), scale());
        }
        UFDRNumber(arg as u128 * u64::MAX as u128)
    }
}

impl vstd::std_specs::convert::FromSpecImpl<u8> for UFDRNumber {
    open spec fn obeys_from_spec() -> bool {
        true
    }

    open spec fn from_spec(arg: u8) -> UFDRNumber {
        UFDRNumber((arg * scale()) as u128)
    }
}

impl From<u16> for UFDRNumber {
    /// The whole number.
    fn from(arg: u16) -> (res: UFDRNumber)
        ensures
            res.0 == arg * scale(),
    {
        proof {
            lemma_mul_upper_bound(arg as int, u64::MAX as int, scale(), scale());
        }
        UFDRNumber(arg as u128 * u64::MAX as u128)
    }
}

impl vstd::std_specs::convert::FromSpecImpl<u16> for UFDRNumber {
    open spec fn obeys_from_spec() -> bool {
        true
    }

    open spec fn from_spec(arg: u16) -> UFDRNumber {
        UFDRNumber((arg * scale()) as u128)
    }
}

impl From<u32> for UFDRNumber {
    /// The whole number.
    fn from(arg: u32) -> (res: UFDRNumber)
        ensures
            res.0 == arg * scale(),
    {
        proof {
            lemma_mul_upper_bound(arg as int, u64::MAX as int, scale(), scale());
        }
        UFDRNumber(arg as u128 * u64::MAX as u128)
    }
}

impl vstd::std_specs::convert::FromSpecImpl<u32> for UFDRNumber {
    open spec fn obeys_from_spec() -> bool {
        true
    }

    open spec fn from_spec(arg: u32) -> UFDRNumber {
        UFDRNumber((arg * scale()) as u128)
    }
}

impl From<u64> for UFDRNumber {
    /// The whole number.
    fn from(arg: u64) -> (res: UFDRNumber)
        ensures
            res.0 == arg * scale(),
    {
        proof {
            lemma_mul_upper_bound(arg as int, u64::MAX as int, scale(), scale());
        }
        UFDRNumber(arg as u128 * u64::MAX as u128)
    }
}

impl vstd::std_specs::convert::FromSpecImpl<u64> for UFDRNumber {
    open spec fn obeys_from_spec() -> bool {
        true
    }

    open spec fn from_spec(arg: u64) -> UFDRNumber {
        UFDRNumber((arg * scale()) as u128)
    }
}

impl From<UFDRNumber> for u8 {
    /// The whole part of the number, truncated to the target width as a cast
    /// does.
    fn from(arg: UFDRNumber) -> (res: u8)
        ensures
            res == (arg.0 as int / scale()) as u8,
    {
        (arg.0 / u64::MAX as u128) as u8
    }
}

impl vstd::std_specs::convert::FromSpecImpl<UFDRNumber> for u8 {
    open spec fn obeys_from_spec() -> bool {
        true
    }

    open spec fn from_spec(arg: UFDRNumber) -> u8 {
        (arg.0 as int / scale()) as u8
    }
}

impl From<UFDRNumber> for u16 {
    /// The whole part of the number, truncated to the target width as a cast
    /// does.
    fn from(arg: UFDRNumber) -> (res: u16)
        ensures
            res == (arg.0 as int / scale()) as u16,
    {
        (arg.0 / u64::MAX as u128) as u16
    }
}

impl vstd::std_specs::convert::FromSpecImpl<UFDRNumber> for u16 {
    open spec fn obeys_from_spec() -> bool {
        true
    }

    open spec fn from_spec(arg: UFDRNumber) -> u16 {
        (arg.0 as int / scale()) as u16
    }
}

impl From<UFDRNumber> for u32 {
    /// The whole part of the number, truncated to the target width as a cast
    /// does.
    fn from(arg: UFDRNumber) -> (res: u32)
        ensures
            res == (arg.0 as int / scale()) as u32,
    {
        (arg.0 / u64::MAX as u128) as u32
    }
}

impl vstd::std_specs::convert::FromSpecImpl<UFDRNumber> for u32 {
    open spec fn obeys_from_spec() -> bool {
        true
    }

    open spec fn from_spec(arg: UFDRNumber) -> u32 {
        (arg.0 as int / scale()) as u32
    }
}

impl From<UFDRNumber> for u64 {
    /// The whole part of the number, truncated to the target width as a cast
    /// does.
    fn from(arg: UFDRNumber) -> (res: u64)
        ensures
            res == (arg.0 as int / scale()) as u64,
    {
        (arg.0 / u64::MAX as u128) as u64
    }
}

impl vstd::std_specs::convert::FromSpecImpl<UFDRNumber> for u64 {
    open spec fn obeys_from_spec() -> bool {
        true
    }

    open spec fn from_spec(arg: UFDRNumber) -> u64 {
        (arg.0 as int / scale()) as u64
    }
}

/// Values that stand for a proportion.
pub trait IntoProp: Sized {
    spec fn spec_into_prop(self) -> Prop;

    fn into_prop(self) -> (res: Prop)
        ensures
            res == self.spec_into_prop(),
    ;
}

impl IntoProp for u64 {
    open spec fn spec_into_prop(self) -> Prop {
        Prop(self)
    }

    fn into_prop(self) -> (res: Prop) {
        Prop(self)
    }
}

impl IntoProp for u8 {
    open spec fn spec_into_prop(self) -> Prop {
        prop_from_unsigned(self as int, u8::MAX as int)
    }

    fn into_prop(self) -> (res: Prop) {
        Prop::from(self)
    }
}

impl IntoProp for u16 {
    open spec fn spec_into_prop(self) -> Prop {
        prop_from_unsigned(self as int, u16::MAX as int)
    }

    fn into_prop(self) -> (res: Prop) {
        Prop::from(self)
    }
}

impl IntoProp for u32 {
    open spec fn spec_into_prop(self) -> Prop {
        prop_from_unsigned(self as int, u32::MAX as int)
    }

    fn into_prop(self) -> (res: Prop) {
        Prop::from(self)
    }
}

impl From<UFDRNumber> for Prop {
    /// The raw value truncated to 64 bits, as a cast does: exact for a proportion.
    fn from(arg: UFDRNumber) -> (res: Prop)
        ensures
            res.0 == arg.0 as u64,
    {
        Prop(arg.0 as u64)
    }
}

impl vstd::std_specs::convert::FromSpecImpl<UFDRNumber> for Prop {
    open spec fn obeys_from_spec() -> bool {
        true
    }

    open spec fn from_spec(arg: UFDRNumber) -> Prop {
        Prop(arg.0 as u64)
    }
}

impl From<FDRNumber> for Prop {
    /// The raw value truncated to 64 bits, as a cast does: exact for a proportion.
    fn from(arg: FDRNumber) -> (res: Prop)
        ensures
            res.0 == arg.0 as u64,
    {
        Prop(arg.0 as u64)
    }
}

impl vstd::std_specs::convert::FromSpecImpl<FDRNumber> for Prop {
    open spec fn obeys_from_spec() -> bool {
        true
    }

    open spec fn from_spec(arg: FDRNumber) -> Prop {
        Prop(arg.0 as u64)
    }
}

impl From<FDRNumber> for UFDRNumber {
    /// The raw value as unsigned, as a cast does: exact where it is not negative.
    fn from(arg: FDRNumber) -> (res: UFDRNumber)
        ensures
            res.0 == arg.0 as u128,
    {
        UFDRNumber(arg.0 as u128)
    }
}

impl vstd::std_specs::convert::FromSpecImpl<FDRNumber> for UFDRNumber {
    open spec fn obeys_from_spec() -> bool {
        true
    }

    open spec fn from_spec(arg: FDRNumber) -> UFDRNumber {
        UFDRNumber(arg.0 as u128)
    }
}

impl From<i32> for UFDRNumber {
    /// A whole number; a negative one wraps as unsigned arithmetic does.
    fn from(arg: i32) -> (res: UFDRNumber)
        ensures
            res.0 == (arg as u128).wrapping_mul(u64::MAX as u128),
            arg >= 0 ==> res.0 == arg * scale(),
    {
        proof {
            if arg >= 0 {
                vstd::arithmetic::mul::lemma_mul_upper_bound(arg as int, i32::MAX as int, scale(), scale());
                assert((arg as u128) * (u64::MAX as u128) <= u128::MAX);
            }
        }
        UFDRNumber((arg as u128).wrapping_mul(u64::MAX as u128))
    }
}

impl vstd::std_specs::convert::FromSpecImpl<i32> for UFDRNumber {
    open spec fn obeys_from_spec() -> bool {
        true
    }

    open spec fn from_spec(arg: i32) -> UFDRNumber {
        UFDRNumber((arg as u128).wrapping_mul(u64::MAX as u128))
    }
}

/// The whole part of a signed number, rounded toward zero.
pub open spec fn whole_part(a: int) -> int {
    if a >= 0 {
        a / scale()
    } else {
        -((-a) / scale())
    }
}

/// The whole part of a signed number, rounded toward zero as `/` on integers does.
fn whole_part_exec(arg: FDRNumber) -> (res: i128)
    ensures
        res == whole_part(arg.0 as int),
{
    let m: i128 = u64::MAX as i128;
    if arg.0 >= 0 {
        arg.0 / m
    } else if arg.0 == i128::MIN {
        let x: i128 = -(arg.0 + m);
        proof {
            vstd::arithmetic::div_mod::lemma_div_plus_one(x as int, scale());
        }
        -(x / m + 1)
    } else {
        -((-arg.0) / m)
    }
}

impl From<i8> for FDRNumber {
    /// The whole number.
    fn from(arg: i8) -> (res: FDRNumber)
        ensures
            res.0 == arg * scale(),
    {
        proof {
            lemma_mul_upper_bound(abs_int(arg as int), i64::MAX as int + 1, scale(), scale());
            lemma_mul_nonnegative(abs_int(arg as int), scale());
            assert(abs_int(arg * scale()) == abs_int(arg as int) * scale()) by (nonlinear_arith);
        }
        FDRNumber(arg as i128 * u64::MAX as i128)
    }
}

impl vstd::std_specs::convert::FromSpecImpl<i8> for FDRNumber {
    open spec fn obeys_from_spec() -> bool {
        true
    }

    open spec fn from_spec(arg: i8) -> FDRNumber {
        FDRNumber((arg * scale()) as i128)
    }
}

impl From<i16> for FDRNumber {
    /// The whole number.
    fn from(arg: i16) -> (res: FDRNumber)
        ensures
            res.0 == arg * scale(),
    {
        proof {
            lemma_mul_upper_bound(abs_int(arg as int), i64::MAX as int + 1, scale(), scale());
            lemma_mul_nonnegative(abs_int(arg as int), scale());
            assert(abs_int(arg * scale()) == abs_int(arg as int) * scale()) by (nonlinear_arith);
        }
        FDRNumber(arg as i128 * u64::MAX as i128)
    }
}

impl vstd::std_specs::convert::FromSpecImpl<i16> for FDRNumber {
    open spec fn obeys_from_spec() -> bool {
        true
    }

    open spec fn from_spec(arg: i16) -> FDRNumber {
        FDRNumber((arg * scale()) as i128)
    }
}

impl From<i32> for FDRNumber {
    /// The whole number.
    fn from(arg: i32) -> (res: FDRNumber)
        ensures
            res.0 == arg * scale(),
    {
        proof {
            lemma_mul_upper_bound(abs_int(arg as int), i64::MAX as int + 1, scale(), scale());
            lemma_mul_nonnegative(abs_int(arg as int), scale());
            assert(abs_int(arg * scale()) == abs_int(arg as int) * scale()) by (nonlinear_arith);
        }
        FDRNumber(arg as i128 * u64::MAX as i128)
    }
}

impl vstd::std_specs::convert::FromSpecImpl<i32> for FDRNumber {
    open spec fn obeys_from_spec() -> bool {
        true
    }

    open spec fn from_spec(arg: i32) -> FDRNumber {
        FDRNumber((arg * scale()) as i128)
    }
}

impl From<i64> for FDRNumber {
    /// The whole number.
    fn from(arg: i64) -> (res: FDRNumber)
        ensures
            res.0 == arg * scale(),
    {
        proof {
            lemma_mul_upper_bound(abs_int(arg as int), i64::MAX as int + 1, scale(), scale());
            lemma_mul_nonnegative(abs_int(arg as int), scale());
            assert(abs_int(arg * scale()) == abs_int(arg as int) * scale()) by (nonlinear_arith);
        }
        FDRNumber(arg as i128 * u64::MAX as i128)
    }
}

impl vstd::std_specs::convert::FromSpecImpl<i64> for FDRNumber {
    open spec fn obeys_from_spec() -> bool {
        true
    }

    open spec fn from_spec(arg: i64) -> FDRNumber {
        FDRNumber((arg * scale()) as i128)
    }
}

impl From<FDRNumber> for i8 {
    /// The whole part of the number, truncated to the target width as a cast
    /// does.
    fn from(arg: FDRNumber) -> (res: i8)
        ensures
            res == whole_part(arg.0 as int) as i8,
    {
        whole_part_exec(arg) as i8
    }
}

impl vstd::std_specs::convert::FromSpecImpl<FDRNumber> for i8 {
    open spec fn obeys_from_spec() -> bool {
        true
    }

    open spec fn from_spec(arg: FDRNumber) -> i8 {
        whole_part(arg.0 as int) as i8
    }
}

impl From<FDRNumber> for i16 {
    /// The whole part of the number, truncated to the target width as a cast
    /// does.
    fn from(arg: FDRNumber) -> (res: i16)
        ensures
            res == whole_part(arg.0 as int) as i16,
    {
        whole_part_exec(arg) as i16
    }
}

impl vstd::std_specs::convert::FromSpecImpl<FDRNumber> for i16 {
    open spec fn obeys_from_spec() -> bool {
        true
    }

    open spec fn from_spec(arg: FDRNumber) -> i16 {
        whole_part(arg.0 as int) as i16
    }
}

impl From<FDRNumber> for i32 {
    /// The whole part of the number, truncated to the target width as a cast
    /// does.
    fn from(arg: FDRNumber) -> (res: i32)
        ensures
            res == whole_part(arg.0 as int) as i32,
    {
        whole_part_exec(arg) as i32
    }
}

impl vstd::std_specs::convert::FromSpecImpl<FDRNumber> for i32 {
    open spec fn obeys_from_spec() -> bool {
        true
    }

    open spec fn from_spec(arg: FDRNumber) -> i32 {
        whole_part(arg.0 as int) as i32
    }
}

impl From<FDRNumber> for i64 {
    /// The whole part of the number, truncated to the target width as a cast
    /// does.
    fn from(arg: FDRNumber) -> (res: i64)
        ensures
            res == whole_part(arg.0 as int) as i64,
    {
        whole_part_exec(arg) as i64
    }
}

impl vstd::std_specs::convert::FromSpecImpl<FDRNumber> for i64 {
    open spec fn obeys_from_spec() -> bool {
        true
    }

    open spec fn from_spec(arg: FDRNumber) -> i64 {
        whole_part(arg.0 as int) as i64
    }
}

impl IntoProp for UFDRNumber {
    open spec fn spec_into_prop(self) -> Prop {
        Prop(self.0 as u64)
    }

    fn into_prop(self) -> (res: Prop) {
        Prop::from(self)
    }
}

impl IntoProp for FDRNumber {
    open spec fn spec_into_prop(self) -> Prop {
        Prop(self.0 as u64)
    }

    fn into_prop(self) -> (res: Prop) {
        Prop::from(self)
    }
}

} // verus!
