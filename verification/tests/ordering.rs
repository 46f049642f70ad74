use stellaris::ieee_order::{clamp, ge, gt, le, lt, nan};

fn samples() -> Vec<f32> {
    vec![
        0.0,
        -0.0,
        1.0,
        -1.0,
        0.5,
        -0.5,
        1.48,
        -1.48,
        1.0e-40,
        -1.0e-40,
        f32::MIN_POSITIVE,
        f32::MAX,
        f32::MIN,
        f32::INFINITY,
        f32::NEG_INFINITY,
        f32::NAN,
        -f32::NAN,
        0.0001,
        0.00009999,
        123456.75,
        -987.125,
    ]
}

#[test]
fn comparisons_match_f32() {
    for &a in &samples() {
        for &b in &samples() {
            assert_eq!(lt(a.to_bits(), b.to_bits()), a < b, "{} < {}", a, b);
            assert_eq!(le(a.to_bits(), b.to_bits()), a <= b, "{} <= {}", a, b);
            assert_eq!(gt(a.to_bits(), b.to_bits()), a > b, "{} > {}", a, b);
            assert_eq!(ge(a.to_bits(), b.to_bits()), a >= b, "{} >= {}", a, b);
        }
    }
}

#[test]
fn nan_detection() {
    for &a in &samples() {
        assert_eq!(nan(a.to_bits()), a.is_nan());
    }
}

#[test]
fn clamp_matches_f32() {
    let bounds = [(-1.48f32, 1.48f32), (0.001, 0.999), (-0.0, 0.0), (0.0, 0.0), (-5.0, f32::INFINITY)];
    for &(lo, hi) in &bounds {
        for &x in &samples() {
            let got = f32::from_bits(clamp(x.to_bits(), lo.to_bits(), hi.to_bits()));
            let want = x.clamp(lo, hi);
            if want.is_nan() {
                assert!(got.is_nan());
            } else {
                assert_eq!(got.to_bits(), want.to_bits(), "clamp {} to [{}, {}]", x, lo, hi);
            }
        }
    }
}
