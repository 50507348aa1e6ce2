use hr_neuron::rk4::{rk4_step, DecayDerivative};
use hr_neuron::SCALE;

fn to_real(v: i64) -> f64 {
    v as f64 / SCALE as f64
}

#[test]
fn rk4_decay_matches_exponential_to_fourth_order() {
    // One step of dy/dt = -y from y0 = 1: the answer must match exp(-h)
    // up to the fourth-order local error, which for h = 0.1 is below 1e-7,
    // plus negligible fixed-point rounding.
    let d = DecayDerivative { rate: SCALE };
    let y0: Vec<i64> = vec![SCALE];
    let h: i64 = 100_000_000_000; // 0.1
    let stepped = rk4_step(&d, &y0, h).expect("a small decay step stays in range");
    // Every intermediate happens to divide exactly, so the fixed-point
    // answer is the Runge-Kutta polynomial 1 - h + h^2/2 - h^3/6 + h^4/24
    // at h = 0.1 on the nose.
    assert_eq!(stepped[0], 904_837_500_000);
    let got = to_real(stepped[0]);
    let expect = (-0.1f64).exp();
    assert!((got - expect).abs() < 1.0e-6, "got {}, expected about {}", got, expect);
}

#[test]
fn rk4_decay_error_shrinks_fast_with_step() {
    // Fourth order: shrinking h by 10 shrinks the one-step error by far
    // more than 10 (about 1e5 in exact arithmetic).
    let d = DecayDerivative { rate: SCALE };
    let y0: Vec<i64> = vec![SCALE];
    let coarse = rk4_step(&d, &y0, 100_000_000_000).unwrap();
    let fine = rk4_step(&d, &y0, 10_000_000_000).unwrap();
    let err_coarse = (to_real(coarse[0]) - (-0.1f64).exp()).abs();
    let err_fine = (to_real(fine[0]) - (-0.01f64).exp()).abs();
    assert!(err_fine < err_coarse / 100.0);
}

#[test]
fn rk4_zero_rate_keeps_state() {
    // dy/dt = 0 advances nothing, exactly.
    let d = DecayDerivative { rate: 0 };
    let y0: Vec<i64> = vec![7 * SCALE];
    let stepped = rk4_step(&d, &y0, 100_000_000_000).unwrap();
    assert_eq!(stepped[0], 7 * SCALE);
}

#[test]
fn rk4_overflowing_derivative_reports_none() {
    // An enormous rate overflows the very first product.
    let d = DecayDerivative { rate: i64::MAX };
    let y0: Vec<i64> = vec![i64::MAX];
    assert!(rk4_step(&d, &y0, 100_000_000_000).is_none());
}
