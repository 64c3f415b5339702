use colour_math::debug::ApproxEq;
use colour_math::fdrn::{FDRNumber, IntoProp, Prop, UFDRNumber};

/// A proportion or number from a float, as the library's users write them.
fn ufdr(x: f64) -> UFDRNumber {
    UFDRNumber((x * u64::MAX as f64) as u128)
}

fn prop(x: f64) -> Prop {
    Prop((x * u64::MAX as f64) as u64)
}

fn ufdr_to_f64(n: UFDRNumber) -> f64 {
    n.0 as f64 / u64::MAX as f64
}

fn fdrn_to_f64(n: FDRNumber) -> f64 {
    n.0 as f64 / u64::MAX as f64
}

fn prop_to_f64(p: Prop) -> f64 {
    p.0 as f64 / u64::MAX as f64
}

/// Approximate equality of floats: the difference relative to one (or to the larger
/// where either is beyond one) within `max_diff`.
fn f64_approx_eq(a: f64, b: f64, max_diff: Prop) -> bool {
    if a == b {
        return true;
    }
    let diff = if a > b { a - b } else { b - a };
    let prop_diff = if a >= 0.0 && a <= 1.0 && b >= 0.0 && b < 1.0 {
        prop(diff)
    } else {
        let denom = if a > b { a } else { b };
        if denom == 0.0 {
            Prop(0)
        } else {
            Prop((diff * u64::MAX as f64 / denom) as u64)
        }
    };
    prop_diff <= max_diff
}

#[test]
fn sqrt_2() {
    assert_eq!(fdrn_to_f64(FDRNumber::sqrt_2()), std::f64::consts::SQRT_2);
    assert_eq!(ufdr_to_f64(UFDRNumber::sqrt_2()), std::f64::consts::SQRT_2);
}

#[test]
fn ufdrn_mul() {
    for [lhs, rhs] in &[
        [1.1_f64, 3.0],
        [0.0, 0.3],
        [1.024, 0.5],
        [0.18, 0.5],
        [3000.0, 0.02],
        [1.0, 1.001],
        [25.0, 5.0],
    ] {
        let expected = ufdr(lhs * rhs);
        let result = ufdr(*lhs).mul_ufdr(ufdr(*rhs));
        assert!(result.approx_eq(&expected, None));
    }
}

#[test]
fn ufdrn_div() {
    for [lhs, rhs] in &[
        [1.1_f64, 3.0],
        [0.0, 0.3],
        [1.024, 0.5],
        [0.18, 0.5],
        [3000.0, 0.02],
        [1.0, 1.001],
        [25.0, 5.0],
    ] {
        let expected = ufdr(lhs / rhs);
        let result = ufdr(*lhs).div_ufdr(ufdr(*rhs));
        assert!(result.approx_eq(&expected, Some(Prop(0x0000000000001000))));
        let go_back = result.mul_ufdr(ufdr(*rhs));
        assert!(go_back.approx_eq(&ufdr(*lhs), Some(Prop(0x0000000000000002))));
    }
}

#[test]
fn ufdrn_add() {
    for [a, b] in &[
        [0.0f64, 0.3],
        [0.024, 0.5],
        [0.18, 0.5],
        [0.5, 0.8],
        [1.5, 0.6],
    ] {
        let expected = ufdr(a + b);
        let result = ufdr(*a).add_ufdr(ufdr(*b));
        assert!(result.approx_eq(&expected, Some(Prop(0x801))));
        assert!(f64_approx_eq(ufdr_to_f64(result), a + b, prop(0.000_000_01)));
    }
}

#[test]
fn ufdrn_sub() {
    for [a, b] in &[
        [0.5f64, 0.3],
        [0.524, 0.5],
        [0.18, 0.15],
        [0.5, 0.08],
        [1.2, 1.1],
    ] {
        let expected = ufdr(a - b);
        let result = ufdr(*a).sub_ufdr(ufdr(*b));
        assert!(result.approx_eq(&expected, None));
        assert!(f64_approx_eq(ufdr_to_f64(result), a - b, prop(0.000_000_01)));
    }
}

#[test]
fn ufdrn_div_u8() {
    for (a, b) in &[(0.9_f64, 3), (0.6, 2), (0.3, 2)] {
        let expected = ufdr(*a / *b as f64);
        let result = ufdr(*a).div_i32(*b);
        assert!(result.approx_eq(&expected, Some(Prop(0x0000000000005000))));
        assert!(f64_approx_eq(ufdr_to_f64(result), a / *b as f64, prop(0.000_000_01)));
    }
}

#[test]
fn composition() {
    for a in &[0.001_f64] {
        let p = prop(*a);
        for b in &[0.001_f64] {
            let second = prop(*b);
            let left = UFDRNumber::three().sub_ufdr(UFDRNumber::two().sub_prop(second).mul_prop(p));
            let right = UFDRNumber::three().add_prop(second * p).sub_ufdr(p * 2);
            assert!(left > right);
            assert!(left.approx_eq(&right, None));
        }
    }
}

#[test]
fn fdrn_tests_prop_mul() {
    for [a, b] in &[[0.0f64, 0.3], [0.024, 0.5], [0.8, 0.5]] {
        let expected = prop(a * b);
        let result = prop(*a) * prop(*b);
        assert!(result.approx_eq(&expected, Some(Prop(10))));
        assert!(f64_approx_eq(prop_to_f64(result), a * b, prop(0.000_000_01)));
    }
}

#[test]
fn fdrn_tests_prop_mul_u8() {
    for (a, b) in &[(0.9_f64, 3_u8), (0.6, 2), (0.3, 2)] {
        let expected = ufdr(*a * *b as f64);
        let result = prop(*a) * *b;
        assert!(result.approx_eq(&expected, Some(Prop(0x801))));
        assert!(f64_approx_eq(ufdr_to_f64(result), a * *b as f64, prop(0.000_000_01)));
    }
}

#[test]
fn fdrn_tests_prop_div() {
    for [a, b] in &[[0.0f64, 0.3], [0.024, 0.5], [0.18, 0.5], [0.004, 0.6]] {
        let expected = prop(a / b);
        let result = prop(*a) / prop(*b);
        assert!(result.approx_eq(&expected, None));
        assert!(f64_approx_eq(prop_to_f64(result), a / b, Prop(0x0000000000001000)));
        let go_back = result * prop(*b);
        assert!(go_back.approx_eq(&prop(*a), None));
    }
}

#[test]
fn fdrn_tests_prop_add() {
    for [a, b] in &[
        [0.0f64, 0.3],
        [0.024, 0.5],
        [0.18, 0.5],
        [0.5, 0.8],
        [0.9, 0.04],
    ] {
        let expected = ufdr(a + b);
        let result = prop(*a) + prop(*b);
        assert!(result.approx_eq(&expected, Some(Prop(0x0000000000005000))));
        assert!(f64_approx_eq(ufdr_to_f64(result), a + b, prop(0.000_000_01)));
    }
}

#[test]
fn fdrn_tests_prop_sub() {
    for [a, b] in &[[0.5f64, 0.3], [0.524, 0.5], [0.18, 0.15], [0.5, 0.08]] {
        let expected = prop(a - b);
        let result = prop(*a) - prop(*b);
        assert!(result.approx_eq(&expected, Some(Prop(0x101))));
        assert!(f64_approx_eq(prop_to_f64(result), a - b, prop(0.000_000_01)));
    }
}

#[test]
fn from_fraction() {
    assert_eq!(Prop::from_fraction([1, 2]), Prop::half());
}

#[test]
fn from_unsigned() {
    assert_eq!(Prop::from(u32::MAX), Prop::one());
    assert_eq!(Prop::from(u8::MAX / 2), Prop::from_fraction([127, 255]));
}

#[test]
fn unsigned_prop_round_trip() {
    for x in 0..=u8::MAX {
        assert_eq!(u8::from(Prop::from(x)), x);
    }
    for x in [0_u16, 1, 2, 257, 32767, 32768, 65534, 65535] {
        assert_eq!(u16::from(Prop::from(x)), x);
    }
    for x in [0_u32, 1, 65536, 2147483647, 4294967295] {
        assert_eq!(u32::from(Prop::from(x)), x);
    }
}

#[test]
fn prop_formulas() {
    // (a * b) / one, rounded down
    assert_eq!(Prop::half() * Prop::half(), Prop(u64::MAX / 4));
    assert_eq!(Prop::one() * Prop(12345), Prop(12345));
    // a / b through the reciprocal of b
    assert_eq!(Prop(100) / Prop::one(), Prop(100));
    assert_eq!(Prop::half() + Prop::half(), UFDRNumber(u64::MAX as u128 - 1));
    assert_eq!(Prop::one() - Prop::half(), Prop(u64::MAX - u64::MAX / 2));
    assert_eq!(UFDRNumber::three().div_i32(3), UFDRNumber::one());
}

#[test]
fn whole_number_conversions() {
    assert_eq!(UFDRNumber::from(3_i32), UFDRNumber::three());
    assert_eq!(UFDRNumber::from(0_i32), UFDRNumber::zero());
    let m = u64::MAX as i128;
    assert_eq!(i32::from(FDRNumber(7 * m + m / 2)), 7);
    assert_eq!(i32::from(FDRNumber(-7 * m - m / 2)), -7);
    assert_eq!(i8::from(FDRNumber(-m + 1)), 0);
    assert_eq!(i64::from(FDRNumber(i128::MIN)), (i128::MIN / m) as i64);
    assert_eq!(i16::from(FDRNumber(300 * m)), 300);
}

#[test]
fn proportion_conversions() {
    assert_eq!(Prop::from(UFDRNumber(12345)), Prop(12345));
    assert_eq!(Prop::from(FDRNumber(12345)), Prop(12345));
    assert_eq!(UFDRNumber::from(FDRNumber(42)), UFDRNumber(42));
    assert_eq!(UFDRNumber::one().into_prop(), Prop::one());
    assert_eq!(FDRNumber::one().into_prop(), Prop::one());
}

#[test]
fn unsigned_and_signed_whole_numbers() {
    let m = u64::MAX as u128;
    assert_eq!(UFDRNumber::from(2_u8), UFDRNumber(2 * m));
    assert_eq!(UFDRNumber::from(300_u16), UFDRNumber(300 * m));
    assert_eq!(UFDRNumber::from(70_000_u32), UFDRNumber(70_000 * m));
    assert_eq!(UFDRNumber::from(u64::MAX), UFDRNumber(m * m));
    assert_eq!(u8::from(UFDRNumber::from(200_u8)), 200);
    assert_eq!(u64::from(UFDRNumber::from(u64::MAX)), u64::MAX);
    let sm = u64::MAX as i128;
    assert_eq!(FDRNumber::from(-3_i8), FDRNumber(-3 * sm));
    assert_eq!(FDRNumber::from(i16::MIN), FDRNumber(i16::MIN as i128 * sm));
    assert_eq!(FDRNumber::from(i32::MAX), FDRNumber(i32::MAX as i128 * sm));
    assert_eq!(FDRNumber::from(i64::MIN), FDRNumber(i64::MIN as i128 * sm));
    assert_eq!(i64::from(FDRNumber::from(-12_i64)), -12);
}

#[test]
fn fractions_above_one_truncate() {
    assert_eq!(Prop::from_fraction([3, 3]), Prop::one());
    // Two thirds of u64::MAX more than one, truncated to 64 bits.
    let expected = ((5_u128 * u64::MAX as u128) / 3) as u64;
    assert_eq!(Prop::from_fraction([5, 3]), Prop(expected));
}
