use scrollock::Binary64;

fn number(x: f64) -> Binary64 {
    Binary64 { bits: x.to_bits() }
}

fn samples() -> Vec<f64> {
    let mut out = vec![
        0.0,
        -0.0,
        1.0,
        -1.0,
        0.5,
        1.5,
        1.6,
        32.0,
        0.999_999_999_999_999_9,
        119.999,
        120.0,
        -120.75,
        f64::MIN_POSITIVE,
        f64::from_bits(1),
        f64::MAX,
        f64::MIN,
        f64::INFINITY,
        f64::NEG_INFINITY,
        f64::NAN,
        -f64::NAN,
        2_147_483_646.5,
        2_147_483_647.0,
        2_147_483_647.5,
        2_147_483_648.0,
        -2_147_483_647.5,
        -2_147_483_648.0,
        -2_147_483_648.5,
        -2_147_483_649.0,
        4_294_967_296.0,
        1e300,
        -1e-300,
    ];
    let mut bits: u64 = 0x9E37_79B9_7F4A_7C15;
    for _ in 0..20_000 {
        bits ^= bits << 13;
        bits ^= bits >> 7;
        bits ^= bits << 17;
        out.push(f64::from_bits(bits));
        out.push((bits as i64 as f64) / 2f64.powi((bits % 61) as i32));
    }
    out
}

#[test]
fn truncation_agrees_with_the_machine() {
    for x in samples() {
        assert_eq!(number(x).whole(), x.trunc() as i32, "{x}");
    }
}

#[test]
fn tests_agree_with_the_machine() {
    for x in samples() {
        assert_eq!(number(x).is_finite(), x.is_finite(), "{x}");
        assert_eq!(number(x).is_nan(), x.is_nan(), "{x}");
        assert_eq!(number(x).is_zero(), x == 0.0, "{x}");
        assert_eq!(number(x).is_positive(), x > 0.0, "{x}");
    }
}

#[test]
fn order_agrees_with_the_machine() {
    let all = samples();
    for pair in all.windows(2) {
        let (x, y) = (pair[0], pair[1]);
        assert_eq!(number(x).less_than(number(y)), x < y, "{x} {y}");
        assert_eq!(number(y).less_than(number(x)), y < x, "{x} {y}");
    }
    for x in &all[..40] {
        for y in &all[..40] {
            assert_eq!(number(*x).less_than(number(*y)), x < y, "{x} {y}");
        }
    }
}

#[test]
fn zero_is_zero() {
    assert_eq!(Binary64::zero(), number(0.0));
}
