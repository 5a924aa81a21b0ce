use ln::sorting::{sort, total_order};
use ln::{degrees, median, radians, Scalar};
use std::cmp::Ordering;

fn s(x: f64) -> Scalar {
    Scalar::from_bits(x.to_bits())
}

fn f(x: Scalar) -> f64 {
    f64::from_bits(x.to_bits())
}

fn samples() -> Vec<f64> {
    vec![
        0.0,
        -0.0,
        1.0,
        -1.0,
        0.1,
        0.2,
        0.3,
        1e-3,
        1e300,
        -1e300,
        1e-310,
        5e-324,
        3.5,
        -7.25,
        1234567.875,
        f64::MAX,
        f64::MIN,
        f64::MIN_POSITIVE,
        f64::INFINITY,
        f64::NEG_INFINITY,
        f64::NAN,
    ]
}

fn same(a: f64, b: f64) -> bool {
    (a.is_nan() && b.is_nan()) || a.to_bits() == b.to_bits()
}

#[test]
fn add_matches_hardware() {
    for &a in &samples() {
        for &b in &samples() {
            assert!(same(f(s(a).add(s(b))), a + b), "{} + {}", a, b);
        }
    }
    assert_eq!(f(s(1.0).add(s(2.0))), 3.0);
}

#[test]
fn sub_matches_hardware() {
    for &a in &samples() {
        for &b in &samples() {
            assert!(same(f(s(a).sub(s(b))), a - b), "{} - {}", a, b);
        }
    }
    assert_eq!(f(s(1.0).sub(s(2.0))), -1.0);
}

#[test]
fn mul_matches_hardware() {
    for &a in &samples() {
        for &b in &samples() {
            assert!(same(f(s(a).mul(s(b))), a * b), "{} * {}", a, b);
        }
    }
    assert_eq!(f(s(3.0).mul(s(2.0))), 6.0);
}

#[test]
fn div_matches_hardware() {
    for &a in &samples() {
        for &b in &samples() {
            assert!(same(f(s(a).div(s(b))), a / b), "{} / {}", a, b);
        }
    }
    assert_eq!(f(s(3.0).div(s(2.0))), 1.5);
    assert_eq!(f(s(1.0).div(s(0.0))), f64::INFINITY);
    assert!(f(s(0.0).div(s(0.0))).is_nan());
}

#[test]
fn sqrt_matches_hardware() {
    for &a in &samples() {
        assert!(same(f(s(a).sqrt()), a.sqrt()), "sqrt {}", a);
    }
    assert_eq!(f(s(9.0).sqrt()), 3.0);
    assert_eq!(f(s(2.0).sqrt()), std::f64::consts::SQRT_2);
}

#[test]
fn sin_and_cos_are_close_to_hardware() {
    for i in -720..=720 {
        let a = i as f64 * 0.01;
        assert!((f(s(a).sin()) - a.sin()).abs() < 1e-15, "sin {}", a);
        assert!((f(s(a).cos()) - a.cos()).abs() < 1e-15, "cos {}", a);
    }
    assert_eq!(f(s(0.0).sin()), 0.0);
    assert_eq!(f(s(0.0).cos()), 1.0);
}

#[test]
fn tan_is_the_quotient_of_sine_and_cosine() {
    let a = s(0.5);
    assert_eq!(a.tan().to_bits(), a.sin().div(a.cos()).to_bits());
    assert!((f(a.tan()) - 0.5f64.tan()).abs() < 1e-15);
}

#[test]
fn comparisons_follow_ieee() {
    for &a in &samples() {
        for &b in &samples() {
            assert_eq!(s(a).lt(s(b)), a < b, "{} < {}", a, b);
            assert_eq!(s(a).le(s(b)), a <= b, "{} <= {}", a, b);
            assert_eq!(s(a).gt(s(b)), a > b, "{} > {}", a, b);
            assert_eq!(s(a).ge(s(b)), a >= b, "{} >= {}", a, b);
            assert_eq!(s(a).eq(s(b)), a == b, "{} == {}", a, b);
        }
        assert_eq!(s(a).is_nan(), a.is_nan());
        assert_eq!(s(a).is_finite(), a.is_finite());
    }
    let nan = s(f64::NAN);
    assert!(s(-0.0).eq(s(0.0)));
    assert!(!nan.eq(nan));
    assert!(!nan.lt(s(1.0)));
    assert!(!s(1.0).le(nan));
}

#[test]
fn min_and_max_skip_nan() {
    for &a in &samples() {
        for &b in &samples() {
            let lo = f(s(a).min(s(b)));
            let hi = f(s(a).max(s(b)));
            let want_lo = a.min(b);
            let want_hi = a.max(b);
            assert!((lo.is_nan() && want_lo.is_nan()) || lo == want_lo, "min {} {}", a, b);
            assert!((hi.is_nan() && want_hi.is_nan()) || hi == want_hi, "max {} {}", a, b);
        }
    }
    assert_eq!(f(s(f64::NAN).min(s(2.0))), 2.0);
    assert_eq!(f(s(2.0).max(s(f64::NAN))), 2.0);
    assert_eq!(f(s(1.0).min(s(2.0))), 1.0);
    assert_eq!(f(s(1.0).max(s(2.0))), 2.0);
}

#[test]
fn neg_and_abs_change_only_the_sign() {
    for &a in &samples() {
        assert!(same(f(s(a).neg()), -a));
        assert!(same(f(s(a).abs()), a.abs()));
    }
    assert_eq!(s(0.0).neg().to_bits(), (-0.0f64).to_bits());
}

#[test]
fn constants_have_their_values() {
    assert_eq!(f(Scalar::zero()), 0.0);
    assert_eq!(f(Scalar::one()), 1.0);
    assert_eq!(f(Scalar::infinity()), f64::INFINITY);
    assert_eq!(f(Scalar::default()), 0.0);
    assert_eq!(f(Scalar::from_bits(ln::scalar::HALF_BITS)), 0.5);
    assert_eq!(f(Scalar::from_bits(ln::scalar::TWO_BITS)), 2.0);
    assert_eq!(f(Scalar::from_bits(ln::scalar::MINUS_ONE_BITS)), -1.0);
    assert_eq!(f(Scalar::from_bits(ln::scalar::HALF_TURN_BITS)), 180.0);
    assert_eq!(f(Scalar::from_bits(ln::scalar::FULL_TURN_BITS)), 360.0);
    assert_eq!(f(Scalar::from_bits(ln::scalar::PI_BITS)), std::f64::consts::PI);
    assert_eq!(f(Scalar::from_bits(ln::scalar::TWO_POW_32_BITS)), 4294967296.0);
    assert_eq!(f(Scalar::from_bits(ln::scene::SIMPLIFY_THRESHOLD_BITS)), 1e-6);
    assert_eq!(f(Scalar::from_bits(ln::csg::FUZZ_BITS)), 1e-3);
    assert_eq!(f(Scalar::from_bits(ln::csg::NUDGE_BITS)), 0.01);
    assert_eq!(f(Scalar::from_bits(ln::cube::CUBE_EPSILON_BITS)), 1e-3);
    assert_eq!(f(Scalar::from_bits(ln::sphere::SPHERE_EPSILON_BITS)), 1e-2);
}

#[test]
fn integers_convert_exactly() {
    let cases: [u32; 12] = [0, 1, 2, 3, 7, 8, 255, 256, 360, 65535, 0x8000_0000, u32::MAX];
    for &n in &cases {
        assert_eq!(f(Scalar::from_u32(n)), n as f64, "{}", n);
    }
    for n in 0..2000u32 {
        assert_eq!(f(Scalar::from_u32(n)), n as f64);
    }
    let signed: [i32; 8] = [0, -1, 1, -80, 80, 360, i32::MIN, i32::MAX];
    for &n in &signed {
        assert_eq!(f(Scalar::from_i32(n)), n as f64, "{}", n);
    }
    let wide: [u64; 9] = [
        0,
        1,
        u32::MAX as u64,
        1 << 32,
        (1 << 53) - 1,
        1 << 53,
        (1 << 53) + 1,
        0x8000_0000_0000_0400,
        u64::MAX,
    ];
    for &n in &wide {
        assert_eq!(f(Scalar::from_u64(n)), n as f64, "{}", n);
    }
}

#[test]
fn angles_convert() {
    assert_eq!(f(radians(s(90.0))), 90.0f64 * std::f64::consts::PI / 180.0);
    assert_eq!(f(radians(s(180.0))), std::f64::consts::PI);
    assert_eq!(f(degrees(s(std::f64::consts::PI))), 180.0);
    assert!((f(degrees(s(1.0))) - 57.29577951308232).abs() < 1e-12);
}

#[test]
fn median_of_sorted_items() {
    let empty: Vec<Scalar> = Vec::new();
    assert_eq!(f(median(&empty)), 0.0);
    assert_eq!(f(median(&[s(4.0)])), 4.0);
    assert_eq!(f(median(&[s(1.0), s(2.0), s(7.0)])), 2.0);
    assert_eq!(f(median(&[s(1.0), s(2.0), s(4.0), s(9.0)])), 3.0);
    assert_eq!(f(median(&[s(1.0), s(2.0)])), 1.5);
}

#[test]
fn sort_orders_numbers_and_puts_nan_last() {
    let mut items = vec![s(3.0), s(f64::NAN), s(-1.0), s(f64::INFINITY), s(0.5), s(-2.5), s(0.0)];
    sort(&mut items);
    let got: Vec<f64> = items.iter().map(|x| f(*x)).collect();
    assert_eq!(&got[..6], &[-2.5, -1.0, 0.0, 0.5, 3.0, f64::INFINITY]);
    assert!(got[6].is_nan());
}

#[test]
fn sort_keeps_tied_items_in_their_order() {
    let mut items = vec![s(0.0), s(-0.0), s(-1.0), s(0.0)];
    sort(&mut items);
    let bits: Vec<u64> = items.iter().map(|x| x.to_bits()).collect();
    assert_eq!(
        bits,
        vec![(-1.0f64).to_bits(), 0.0f64.to_bits(), (-0.0f64).to_bits(), 0.0f64.to_bits()]
    );
}

#[test]
fn total_order_is_consistent_with_comparisons() {
    assert_eq!(total_order(s(1.0), s(2.0)), Ordering::Less);
    assert_eq!(total_order(s(2.0), s(1.0)), Ordering::Greater);
    assert_eq!(total_order(s(0.0), s(-0.0)), Ordering::Equal);
    assert_eq!(total_order(s(f64::NAN), s(1.0)), Ordering::Greater);
    assert_eq!(total_order(s(1.0), s(f64::NAN)), Ordering::Less);
    assert_eq!(total_order(s(f64::NAN), s(f64::NAN)), Ordering::Equal);
}
