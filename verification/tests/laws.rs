use noisy_float::bits::{eq_bits, is_finite, is_infinite, is_nan, is_zero, lt_bits};
use noisy_float::types::{n64, r64, N64, R64};

fn finite_samples() -> Vec<f64> {
    vec![
        0.0,
        -0.0,
        1.0,
        -1.0,
        1.5,
        -1.5,
        2.9,
        3.0,
        71.3,
        -71.3,
        1.0e308,
        -1.0e308,
        5e-324,
        -5e-324,
        f64::MAX,
        f64::MIN,
        f64::MIN_POSITIVE,
    ]
}

#[test]
fn round_trip_preserves_valid_values() {
    for v in finite_samples() {
        assert_eq!(R64::new(v.to_bits()).raw(), v.to_bits());
        assert_eq!(R64::try_new(v.to_bits()).unwrap().raw(), v.to_bits());
        assert_eq!(N64::new(v.to_bits()).raw(), v.to_bits());
    }
    let inf = f64::INFINITY.to_bits();
    assert_eq!(N64::new(inf).raw(), inf);
    let neg_inf = f64::NEG_INFINITY.to_bits();
    assert_eq!(N64::try_new(neg_inf).unwrap().raw(), neg_inf);
}

#[test]
fn invalid_values_are_rejected() {
    let quiet_nan = f64::NAN.to_bits();
    let negative_nan = 0xfff8_0000_0000_0000u64;
    let payload_nan = 0x7ff0_0000_0000_0001u64;
    for b in [quiet_nan, negative_nan, payload_nan] {
        assert!(N64::try_new(b).is_none());
        assert!(R64::try_new(b).is_none());
    }
    assert!(R64::try_new(f64::INFINITY.to_bits()).is_none());
    assert!(R64::try_new(f64::NEG_INFINITY.to_bits()).is_none());
}

#[test]
fn equality_is_an_equivalence() {
    let samples = finite_samples();
    for &a in &samples {
        let x = r64(a.to_bits());
        assert!(x == x);
        for &b in &samples {
            let y = r64(b.to_bits());
            assert_eq!(x == y, y == x);
            for &c in &samples {
                let z = r64(c.to_bits());
                if x == y && y == z {
                    assert!(x == z);
                }
            }
        }
    }
}

#[test]
fn equality_matches_native_equality() {
    let mut samples = finite_samples();
    samples.push(f64::INFINITY);
    samples.push(f64::NEG_INFINITY);
    for &a in &samples {
        for &b in &samples {
            assert_eq!(n64(a.to_bits()) == n64(b.to_bits()), a == b);
            assert_eq!(eq_bits(a.to_bits(), b.to_bits()), a == b);
        }
    }
    assert!(r64((-0.0f64).to_bits()) == r64(0.0f64.to_bits()));
}

#[test]
fn ordering_is_total() {
    let mut samples = finite_samples();
    samples.push(f64::INFINITY);
    samples.push(f64::NEG_INFINITY);
    for &a in &samples {
        for &b in &samples {
            let x = n64(a.to_bits());
            let y = n64(b.to_bits());
            let below = x < y;
            let equal = x == y;
            let above = x > y;
            assert_eq!(
                u8::from(below) + u8::from(equal) + u8::from(above),
                1,
                "exactly one of <, ==, > must hold for {} and {}",
                a,
                b
            );
            assert_eq!(below, a < b);
            assert_eq!(above, a > b);
            assert_eq!(lt_bits(a.to_bits(), b.to_bits()), a < b);
            assert!(x.partial_cmp(&y).is_some());
        }
    }
}

#[test]
fn division_closure_depends_on_checker() {
    // Finite-only: a quotient with a zero divisor is never accepted back.
    for a in [0.0f64, 1.0, -3.0, f64::MAX] {
        let q = a / 0.0f64;
        assert!(R64::try_new(q.to_bits()).is_none());
    }
    // NaN-only: the same division (nonzero dividend) is accepted and holds infinity.
    let q = 1.0f64 / 0.0f64;
    let wrapped = N64::try_new(q.to_bits()).unwrap();
    assert!(is_infinite(wrapped.raw()));
    assert!(wrapped == n64(f64::INFINITY.to_bits()));
}

#[test]
fn geometric_mean_scenario() {
    let a = r64(10.0f64.to_bits());
    let b = r64(20.0f64.to_bits());
    let product = f64::from_bits(a.raw()) * f64::from_bits(b.raw());
    let product = r64(product.to_bits());
    let root = f64::from_bits(product.raw()).sqrt();
    let root = r64(root.to_bits());
    assert_eq!(root.raw(), 14.142135623730951f64.to_bits());
}

#[test]
fn min_max_scenario() {
    let values = vec![
        n64(3.0f64.to_bits()),
        n64((-1.5f64).to_bits()),
        n64(71.3f64.to_bits()),
        n64(f64::INFINITY.to_bits()),
    ];
    let mut smallest = values[0];
    let mut largest = values[0];
    for &v in &values[1..] {
        smallest = smallest.min(v);
        largest = largest.max(v);
    }
    assert!(smallest == n64((-1.5f64).to_bits()));
    assert!(largest == n64(f64::INFINITY.to_bits()));
    assert!(N64::min_of(&values).unwrap() == n64((-1.5f64).to_bits()));
    assert!(N64::max_of(&values).unwrap() == n64(f64::INFINITY.to_bits()));
    let empty: Vec<N64> = vec![];
    assert!(N64::min_of(&empty).is_none());
    assert!(N64::max_of(&empty).is_none());
}

#[test]
fn division_by_zero_is_not_a_silent_infinity() {
    let one = r64(1.0f64.to_bits());
    let zero = r64(0.0f64.to_bits());
    let q = f64::from_bits(one.raw()) / f64::from_bits(zero.raw());
    assert!(q.is_infinite());
    assert!(R64::try_new(q.to_bits()).is_none());
}

#[test]
fn nan_checked_division_by_infinity_is_zero() {
    let one = n64(1.0f64.to_bits());
    let inf = n64(f64::INFINITY.to_bits());
    let q = f64::from_bits(one.raw()) / f64::from_bits(inf.raw());
    let wrapped = n64(q.to_bits());
    assert!(wrapped == n64(0.0f64.to_bits()));
    assert_eq!(wrapped.raw(), 0.0f64.to_bits());
}

#[test]
fn negation_and_absolute_value_are_exact() {
    assert_eq!(r64(1.5f64.to_bits()).neg().raw(), (-1.5f64).to_bits());
    assert_eq!(r64((-0.0f64).to_bits()).neg().raw(), 0.0f64.to_bits());
    assert_eq!(r64((-2.5f64).to_bits()).abs().raw(), 2.5f64.to_bits());
    assert_eq!(r64((-0.0f64).to_bits()).abs().raw(), 0.0f64.to_bits());
    assert_eq!(
        n64(f64::NEG_INFINITY.to_bits()).abs().raw(),
        f64::INFINITY.to_bits()
    );
    assert_eq!(
        r64(7.25f64.to_bits()).try_neg().unwrap().raw(),
        (-7.25f64).to_bits()
    );
    assert_eq!(
        r64((-7.25f64).to_bits()).try_abs().unwrap().raw(),
        7.25f64.to_bits()
    );
}

#[test]
fn live_values_are_never_nan() {
    for v in finite_samples() {
        assert!(!r64(v.to_bits()).is_nan());
        assert!(r64(v.to_bits()).is_finite());
    }
    let inf = n64(f64::INFINITY.to_bits());
    assert!(!inf.is_nan());
    assert!(inf.is_infinite());
    assert!(!inf.is_finite());
    assert!(r64(0.0f64.to_bits()).is_zero());
    assert!(r64((-0.0f64).to_bits()).is_zero());
    assert!(!r64(1.0f64.to_bits()).is_zero());
}

#[test]
fn min_max_return_an_operand_unchanged() {
    let a = r64(2.5f64.to_bits());
    let b = r64((-2.5f64).to_bits());
    assert_eq!(a.min(b).raw(), (-2.5f64).to_bits());
    assert_eq!(a.max(b).raw(), 2.5f64.to_bits());
    assert_eq!(b.min(a).raw(), (-2.5f64).to_bits());
    assert_eq!(b.max(a).raw(), 2.5f64.to_bits());
}

#[test]
fn classification_matches_native_queries() {
    let mut samples = finite_samples();
    samples.push(f64::INFINITY);
    samples.push(f64::NEG_INFINITY);
    samples.push(f64::NAN);
    samples.push(f64::from_bits(0xfff8_0000_0000_0000));
    samples.push(f64::from_bits(0x7ff0_0000_0000_0001));
    for &v in &samples {
        let b = v.to_bits();
        assert_eq!(is_nan(b), v.is_nan());
        assert_eq!(is_finite(b), v.is_finite());
        assert_eq!(is_infinite(b), v.is_infinite());
        assert_eq!(is_zero(b), v == 0.0);
    }
}
