use ray_kernel::scalar::{
    equal, greater, is_nan, less, max, min, neg, INFINITY, MAX, NEG_INFINITY,
    NEG_MAX, NEG_MIN_POSITIVE, ONE, SIGN_BIT, ZERO,
};

fn samples() -> Vec<f64> {
    vec![
        0.0,
        -0.0,
        1.0,
        -1.0,
        0.5,
        -0.5,
        1.5,
        2.8,
        -3.0,
        10.5,
        5e-324,
        -5e-324,
        f64::MIN_POSITIVE,
        -f64::MIN_POSITIVE,
        f64::MAX,
        -f64::MAX,
        f64::INFINITY,
        f64::NEG_INFINITY,
        f64::NAN,
        -f64::NAN,
        1e300,
        -1e300,
        0.1,
        0.30000000000000004,
    ]
}

#[test]
fn constants_are_the_patterns_of_the_values() {
    assert_eq!(ZERO, 0.0f64.to_bits());
    assert_eq!(ONE, 1.0f64.to_bits());
    assert_eq!(MAX, f64::MAX.to_bits());
    assert_eq!(NEG_MAX, (-f64::MAX).to_bits());
    assert_eq!(NEG_MIN_POSITIVE, (-f64::MIN_POSITIVE).to_bits());
    assert_eq!(INFINITY, f64::INFINITY.to_bits());
    assert_eq!(NEG_INFINITY, f64::NEG_INFINITY.to_bits());
    assert_eq!(SIGN_BIT, (-0.0f64).to_bits());
}

#[test]
fn comparisons_agree_with_the_machine() {
    for &a in samples().iter() {
        assert_eq!(is_nan(a.to_bits()), a.is_nan());
        for &b in samples().iter() {
            assert_eq!(less(a.to_bits(), b.to_bits()), a < b);
            assert_eq!(greater(a.to_bits(), b.to_bits()), a > b);
            assert_eq!(equal(a.to_bits(), b.to_bits()), a == b);
        }
    }
}

#[test]
fn neg_agrees_with_the_machine() {
    for &a in samples().iter() {
        assert_eq!(neg(a.to_bits()), (-a).to_bits());
    }
    assert_eq!(neg(ZERO), SIGN_BIT);
    assert_eq!(neg(MAX), NEG_MAX);
}

#[test]
fn min_max_agree_with_the_machine() {
    for &a in samples().iter() {
        for &b in samples().iter() {
            let lo = f64::from_bits(min(a.to_bits(), b.to_bits()));
            let hi = f64::from_bits(max(a.to_bits(), b.to_bits()));
            let want_lo = f64::min(a, b);
            let want_hi = f64::max(a, b);
            assert_eq!(lo.is_nan(), want_lo.is_nan());
            assert_eq!(hi.is_nan(), want_hi.is_nan());
            if !want_lo.is_nan() {
                assert_eq!(lo, want_lo);
            }
            if !want_hi.is_nan() {
                assert_eq!(hi, want_hi);
            }
        }
    }
}

#[test]
fn min_max_exact_patterns() {
    let b = |v: f64| v.to_bits();
    assert_eq!(min(b(1.5), b(-3.0)), b(-3.0));
    assert_eq!(max(b(1.5), b(-3.0)), b(1.5));
    assert_eq!(min(b(f64::NAN), b(4.0)), b(4.0));
    assert_eq!(min(b(4.0), b(f64::NAN)), b(4.0));
    assert_eq!(max(b(f64::NAN), b(4.0)), b(4.0));
    assert_eq!(max(b(4.0), b(f64::NAN)), b(4.0));
    assert_eq!(min(b(0.0), b(-0.0)), b(-0.0));
    assert_eq!(min(b(-0.0), b(0.0)), b(-0.0));
    assert_eq!(max(b(0.0), b(-0.0)), b(0.0));
    assert_eq!(max(b(-0.0), b(0.0)), b(0.0));
    assert_eq!(min(b(f64::NEG_INFINITY), b(-f64::MAX)), b(f64::NEG_INFINITY));
    assert_eq!(max(b(f64::INFINITY), b(f64::MAX)), b(f64::INFINITY));
    let n1: u64 = 0x7ff8_0000_0000_0001;
    let n2: u64 = 0xfff8_0000_0000_0000;
    assert_eq!(min(n1, n2), n1);
    assert_eq!(min(n2, n1), n1);
    assert_eq!(max(n1, n2), n1);
    assert_eq!(max(n2, n1), n1);
}

#[test]
fn min_max_commute_and_associate() {
    for &a in samples().iter() {
        for &b in samples().iter() {
            let (x, y) = (a.to_bits(), b.to_bits());
            assert_eq!(min(x, y), min(y, x));
            assert_eq!(max(x, y), max(y, x));
            for &c in samples().iter() {
                let z = c.to_bits();
                assert_eq!(min(min(x, y), z), min(x, min(y, z)));
                assert_eq!(max(max(x, y), z), max(x, max(y, z)));
            }
        }
    }
}
