use hr_neuron::selector::select_optimal_dt;
use hr_neuron::SCALE;

#[test]
fn selector_boundary_high_demand() {
    // 600000.0 requested points is above the largest threshold: finest step.
    assert_eq!(select_optimal_dt(600_000 * SCALE), 500_000_000); // 0.0005 s
}

#[test]
fn selector_boundary_low_demand() {
    // 1.0 requested point is below the smallest threshold: coarsest step.
    assert_eq!(select_optimal_dt(SCALE), 100_000_000_000); // 0.1 s
}

#[test]
fn selector_exact_threshold_hit() {
    // 28313.6 is itself a table threshold and picks the paired step.
    assert_eq!(select_optimal_dt(28_313_600_000_000_000), 10_000_000_000); // 0.01 s
}

#[test]
fn selector_zero_and_negative_fall_through() {
    assert_eq!(select_optimal_dt(0), 100_000_000_000);
    assert_eq!(select_optimal_dt(-5 * SCALE), 100_000_000_000);
    assert_eq!(select_optimal_dt(i64::MIN), 100_000_000_000);
}

#[test]
fn selector_extreme_demand_gets_finest() {
    assert_eq!(select_optimal_dt(i64::MAX), 500_000_000);
}

#[test]
fn selector_monotone_over_samples() {
    let samples: Vec<i64> = vec![
        -SCALE,
        0,
        SCALE,
        2_829_700_000_000_000,
        5_716_900_000_000_000,
        9_497_000_000_000_000,
        14_223_200_000_000_000,
        18_381_100_000_000_000,
        28_313_600_000_000_000,
        56_664_400_000_000_000,
        94_527_400_000_000_000,
        142_001_800_000_000_000,
        189_687_000_000_000_000,
        286_092_500_000_000_000,
        577_638_000_000_000_000,
        i64::MAX,
    ];
    let mut prev = select_optimal_dt(samples[0]);
    for &pts in &samples[1..] {
        let cur = select_optimal_dt(pts);
        assert!(cur <= prev, "step size grew from {} to {} at {}", prev, cur, pts);
        prev = cur;
    }
}

#[test]
fn selector_all_twelve_steps_reachable() {
    let thresholds: [i64; 12] = [
        577_638_000_000_000_000,
        286_092_500_000_000_000,
        189_687_000_000_000_000,
        142_001_800_000_000_000,
        94_527_400_000_000_000,
        56_664_400_000_000_000,
        28_313_600_000_000_000,
        18_381_100_000_000_000,
        14_223_200_000_000_000,
        9_497_000_000_000_000,
        5_716_900_000_000_000,
        2_829_700_000_000_000,
    ];
    let steps: [i64; 12] = [
        500_000_000,
        1_000_000_000,
        1_500_000_000,
        2_000_000_000,
        3_000_000_000,
        5_000_000_000,
        10_000_000_000,
        15_000_000_000,
        20_000_000_000,
        30_000_000_000,
        50_000_000_000,
        100_000_000_000,
    ];
    for k in 0..12 {
        assert_eq!(select_optimal_dt(thresholds[k]), steps[k]);
    }
}
