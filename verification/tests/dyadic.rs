use can_sandwich::arb_roots::{dyadic_from_bits, isolation_len, trimmed_power_len, Dyadic, RationalPolynomial};

fn dyadic(value: f64) -> Option<(i64, i32)> {
    dyadic_from_bits(value.to_bits()).map(|d| (d.mantissa, d.exponent))
}

#[test]
fn finite_doubles_are_exact_dyadics() {
    assert_eq!(dyadic(1.0), Some((1 << 52, -52)));
    assert_eq!(dyadic(-2.5), Some((-(5 << 50), -51)));
    assert_eq!(dyadic(0.0), Some((0, 0)));
    assert_eq!(dyadic(-0.0), Some((0, 0)));
    assert_eq!(dyadic(f64::from_bits(1)), Some((1, -1074)));
    assert_eq!(dyadic(f64::MAX), Some(((1 << 53) - 1, 971)));
    assert_eq!(dyadic(f64::INFINITY), None);
    assert_eq!(dyadic(f64::NEG_INFINITY), None);
    assert_eq!(dyadic(f64::NAN), None);
    for value in [0.1f64, -3.75, 1e-300, 6.02e23, f64::MIN_POSITIVE] {
        let (m, e) = dyadic(value).unwrap();
        assert_eq!(m as f64 * 2f64.powi(e), value);
    }
}

#[test]
fn negation_negates_the_mantissa() {
    for value in [1.0f64, 0.1, 5e-324, 123456.789] {
        let (m, e) = dyadic(value).unwrap();
        assert_eq!(dyadic(-value), Some((-m, e)));
    }
}

#[test]
fn polynomials_drop_trailing_zero_coefficients() {
    let bits = |c: &[f64]| c.iter().map(|x| x.to_bits()).collect::<Vec<u64>>();
    let p = RationalPolynomial::from_bits(&bits(&[1.0, -2.0, 0.0, 0.0])).unwrap();
    assert_eq!(p.degree(), 1);
    assert_eq!(p.coefficients, vec![Dyadic { mantissa: 1 << 52, exponent: -52 }, Dyadic { mantissa: -(1 << 52), exponent: -51 }]);
    let zero = RationalPolynomial::from_bits(&bits(&[0.0, -0.0])).unwrap();
    assert_eq!(zero.degree(), usize::MAX);
    assert!(zero.coefficients.is_empty());
    assert_eq!(RationalPolynomial::new().degree(), usize::MAX);
    assert_eq!(RationalPolynomial::from_bits(&bits(&[3.0, 0.0, 0.5])).unwrap().degree(), 2);
    assert!(RationalPolynomial::from_bits(&bits(&[1.0, f64::NAN])).is_none());
}

#[test]
fn trimming_keeps_the_constant_term() {
    let bits = |c: &[f64]| c.iter().map(|x| x.to_bits()).collect::<Vec<u64>>();
    assert_eq!(trimmed_power_len(&bits(&[1.0, 2.0, 0.0, -0.0])), 2);
    assert_eq!(trimmed_power_len(&bits(&[0.0, 0.0])), 1);
    assert_eq!(trimmed_power_len(&bits(&[])), 0);
    assert_eq!(trimmed_power_len(&bits(&[0.0, f64::NAN])), 2);
    assert_eq!(isolation_len(&bits(&[1.0, 2.0, 0.0])), Some(2));
    assert_eq!(isolation_len(&bits(&[5.0, 0.0])), None);
    assert_eq!(isolation_len(&bits(&[f64::INFINITY, 1.0])), None);
    assert_eq!(isolation_len(&bits(&[1.0, 1.0, f64::NAN])), None);
}
