use spectremesh::scalar::Scalar;

fn scalar(x: f32) -> Scalar {
    Scalar::from_bits(x.to_bits())
}

fn number(x: Scalar) -> f32 {
    f32::from_bits(x.to_bits())
}

fn samples() -> Vec<f32> {
    let mut values = vec![
        0.0,
        -0.0,
        1.0,
        -1.0,
        0.3,
        0.33,
        0.329,
        0.659,
        0.66,
        0.1,
        0.01,
        1e-45,
        -1e-45,
        1.1754942e-38,
        1.17549435e-38,
        f32::MIN_POSITIVE,
        f32::MAX,
        f32::MIN,
        f32::INFINITY,
        f32::NEG_INFINITY,
        f32::NAN,
        -f32::NAN,
        f32::EPSILON,
        123456.79,
        -0.5,
    ];
    let mut x = 1.0e-40f32;
    while x < 1.0e38 {
        values.push(x);
        values.push(-x);
        x *= 7.3;
    }
    values
}

#[test]
fn order_is_that_of_the_numbers() {
    for a in samples() {
        for b in samples() {
            assert_eq!(scalar(a).less_than(scalar(b)), a < b, "{} < {}", a, b);
            assert_eq!(scalar(a).less_equal(scalar(b)), a <= b, "{} <= {}", a, b);
        }
    }
}

#[test]
fn kinds_are_told_apart() {
    for a in samples() {
        assert_eq!(scalar(a).nan(), a.is_nan());
        assert_eq!(scalar(a).finite(), a.is_finite());
        assert_eq!(scalar(a).has_sign(), a.is_sign_negative());
        assert_eq!(scalar(a).abs().to_bits(), a.abs().to_bits());
    }
}

#[test]
fn larger_and_smaller_give_way_to_numbers() {
    for a in samples() {
        for b in samples() {
            let max = number(scalar(a).max(scalar(b)));
            let min = number(scalar(a).min(scalar(b)));
            if a.is_nan() && b.is_nan() {
                assert!(max.is_nan() && min.is_nan());
            } else {
                assert_eq!(max, a.max(b));
                assert_eq!(min, a.min(b));
            }
        }
    }
}

#[test]
fn clamp_holds_numbers_in_the_interval() {
    for a in samples() {
        let clamped = number(scalar(a).clamp_unit());
        if a.is_nan() {
            assert!(clamped.is_nan());
        } else {
            assert_eq!(clamped, a.clamp(0.0, 1.0));
            assert!((0.0..=1.0).contains(&clamped));
        }
        let clamped = number(scalar(a).clamp(scalar(-2.5), scalar(40.0)));
        if !a.is_nan() {
            assert_eq!(clamped, a.clamp(-2.5, 40.0));
        }
    }
}

#[test]
fn constants_are_the_numbers_they_name() {
    assert_eq!(spectremesh::scalar::ZERO_BITS, 0.0f32.to_bits());
    assert_eq!(spectremesh::scalar::ONE_BITS, 1.0f32.to_bits());
    assert_eq!(spectremesh::scalar::HUNDREDTH_BITS, 0.01f32.to_bits());
    assert_eq!(spectremesh::scalar::TWENTIETH_BITS, 0.05f32.to_bits());
    assert_eq!(spectremesh::scalar::TENTH_BITS, 0.1f32.to_bits());
    assert_eq!(spectremesh::scalar::FIFTH_BITS, 0.2f32.to_bits());
    assert_eq!(spectremesh::scalar::THREE_TENTHS_BITS, 0.3f32.to_bits());
    assert_eq!(spectremesh::scalar::LOW_LIMIT_BITS, 0.33f32.to_bits());
    assert_eq!(spectremesh::scalar::HALF_BITS, 0.5f32.to_bits());
    assert_eq!(spectremesh::scalar::MEDIUM_LIMIT_BITS, 0.66f32.to_bits());
    assert_eq!(spectremesh::scalar::NINE_TENTHS_BITS, 0.9f32.to_bits());
    assert_eq!(spectremesh::scalar::THIRTY_BITS, 30.0f32.to_bits());
    assert_eq!(spectremesh::scalar::ONE_HUNDRED_TWENTY_BITS, 120.0f32.to_bits());
    assert_eq!(spectremesh::scalar::SIGN_BIT, (-0.0f32).to_bits());
    assert_eq!(spectremesh::scalar::INFINITY_BITS, f32::INFINITY.to_bits());
    assert_eq!(Scalar::zero(), scalar(0.0));
    assert_eq!(Scalar::one(), scalar(1.0));
}
