use hr_neuron::hr::HrDerivative;
use hr_neuron::neuron::{
    NeuronCore, DEFAULT_A, DEFAULT_B, DEFAULT_C, DEFAULT_D, DEFAULT_I, DEFAULT_R, DEFAULT_S,
    DEFAULT_VH, DEFAULT_X, DEFAULT_XR, DEFAULT_Y, DEFAULT_Z,
};
use hr_neuron::rk4::rk4_step;
use hr_neuron::SCALE;

fn snapshot(c: &NeuronCore) -> (i64, i64, i64, i64, i64) {
    (
        c.get_internal_value("x").unwrap(),
        c.get_internal_value("y").unwrap(),
        c.get_internal_value("z").unwrap(),
        c.get_output_value("Vm (v)"),
        c.get_output_value("Vm (mV)"),
    )
}

#[test]
fn default_construction_matches_documented_values() {
    let c = NeuronCore::default();
    assert_eq!(c.x, DEFAULT_X);
    assert_eq!(c.y, DEFAULT_Y);
    assert_eq!(c.z, DEFAULT_Z);
    assert_eq!(c.i, 3 * SCALE);
    assert_eq!(c.a, SCALE);
    assert_eq!(c.b, 3 * SCALE);
    assert_eq!(c.c, SCALE);
    assert_eq!(c.d, 5 * SCALE);
    assert_eq!(c.r, 2_100_000_000);
    assert_eq!(c.s, 4 * SCALE);
    assert_eq!(c.xr, -1_600_000_000_000);
    assert_eq!(c.vh, SCALE);
    assert_eq!(c.dt, 1_500_000_000);
    assert_eq!(c.burst_duration_value, SCALE);
    assert_eq!(c.input_syn, 0);
    assert_eq!(c.input_burst_duration, SCALE);
    assert_eq!(c.s_points, 1);
}

#[test]
fn tick_with_invalid_period_is_a_noop() {
    let mut c = NeuronCore::default();
    c.process_tick(0, Some(1_000_000_000));
    let before = snapshot(&c);
    let dt_before = c.dt;
    c.process_tick(1, None); // the non-finite periods arrive as None
    assert_eq!(snapshot(&c), before);
    c.process_tick(2, Some(0));
    assert_eq!(snapshot(&c), before);
    c.process_tick(3, Some(-1_000_000_000));
    assert_eq!(snapshot(&c), before);
    assert_eq!(c.dt, dt_before);
}

#[test]
fn outputs_are_exact_transforms_of_state() {
    let mut c = NeuronCore::default();
    c.process_tick(0, Some(1_000_000_000)); // 0.001 s
    let x = c.get_internal_value("x").unwrap();
    assert_eq!(c.get_output_value("Vm (mV)"), x);
    assert_eq!(c.get_output_value("Vm (v)"), x / 1000);
}

#[test]
fn first_default_tick_selects_coarsest_step_and_advances() {
    // Defaults: override burst 1.0 s, period 0.001 s, so 1000 requested
    // points, below the smallest threshold 2829.7: dt falls back to 0.1 s.
    let mut c = NeuronCore::default();
    c.process_tick(0, Some(1_000_000_000));
    assert_eq!(c.dt, 100_000_000_000);
    assert_eq!(c.s_points, 1);
    // The committed state is exactly one integrator step from the defaults.
    let d = HrDerivative {
        i: DEFAULT_I,
        a: DEFAULT_A,
        b: DEFAULT_B,
        c: DEFAULT_C,
        d: DEFAULT_D,
        r: DEFAULT_R,
        s: DEFAULT_S,
        xr: DEFAULT_XR,
        vh: DEFAULT_VH,
        input_syn: 0,
    };
    let expect = rk4_step(&d, &vec![DEFAULT_X, DEFAULT_Y, DEFAULT_Z], 100_000_000_000)
        .expect("the default step stays in range");
    assert_eq!(c.get_internal_value("x").unwrap(), expect[0]);
    assert_eq!(c.get_internal_value("y").unwrap(), expect[1]);
    assert_eq!(c.get_internal_value("z").unwrap(), expect[2]);
    assert_ne!(c.x, DEFAULT_X);
    assert_eq!(c.get_output_value("Vm (mV)"), expect[0]);
}

#[test]
fn divergent_parameters_keep_last_valid_state() {
    let mut c = NeuronCore::default();
    c.set_config_value("a", Some(i64::MAX));
    for tick in 0..8 {
        c.process_tick(tick, Some(1_000_000_000));
        assert_eq!(c.get_internal_value("x").unwrap(), DEFAULT_X);
        assert_eq!(c.get_internal_value("y").unwrap(), DEFAULT_Y);
        assert_eq!(c.get_internal_value("z").unwrap(), DEFAULT_Z);
    }
    // Outputs still reflect the retained state.
    assert_eq!(c.get_output_value("Vm (mV)"), DEFAULT_X);
    assert_eq!(c.get_output_value("Vm (v)"), DEFAULT_X / 1000);
}

#[test]
fn config_keys_and_aliases_update_their_fields() {
    let mut c = NeuronCore::default();
    c.set_config_value("x0", Some(7));
    assert_eq!(c.get_internal_value("x"), Some(7));
    c.set_config_value("x", Some(9));
    assert_eq!(c.get_internal_value("x"), Some(9));
    c.set_config_value("y0", Some(-4));
    assert_eq!(c.get_internal_value("y"), Some(-4));
    c.set_config_value("z", Some(11));
    assert_eq!(c.get_internal_value("z"), Some(11));
    c.set_config_value("e", Some(21));
    assert_eq!(c.i, 21);
    c.set_config_value("I", Some(22));
    assert_eq!(c.i, 22);
    c.set_config_value("mu", Some(31));
    assert_eq!(c.r, 31);
    c.set_config_value("S", Some(41));
    assert_eq!(c.s, 41);
    c.set_config_value("Vh", Some(51));
    assert_eq!(c.vh, 51);
    c.set_config_value("Burst duration (s)", Some(2 * SCALE));
    assert_eq!(c.burst_duration_value, 2 * SCALE);
}

#[test]
fn unknown_or_absent_config_is_ignored() {
    let mut c = NeuronCore::default();
    let x0 = c.x;
    c.set_config_value("nothing of the sort", Some(123));
    c.set_config_value("x", None);
    assert_eq!(c.x, x0);
    assert_eq!(c.i, 3 * SCALE);
}

#[test]
fn input_coercions() {
    let mut c = NeuronCore::default();
    c.set_input_value("Isyn (nA)", Some(5));
    assert_eq!(c.input_syn, 5);
    c.set_input_value("Isyn (nA)", None); // non-finite current becomes zero
    assert_eq!(c.input_syn, 0);
    c.set_input_value("Burst duration (s)", Some(10 * SCALE));
    assert_eq!(c.input_burst_duration, 10 * SCALE);
    c.set_input_value("Burst duration (s)", Some(-3)); // non-positive becomes 1 s
    assert_eq!(c.input_burst_duration, SCALE);
    c.set_input_value("Burst duration (s)", None); // non-finite becomes 1 s
    assert_eq!(c.input_burst_duration, SCALE);
    c.set_input_value("unknown input", Some(77));
    assert_eq!(c.input_syn, 0);
}

#[test]
fn burst_override_beats_input_until_sentinel() {
    // Override at its default 1.0 s: 0.001 s ticks ask for 1000 points.
    let mut c = NeuronCore::default();
    c.set_input_value("Burst duration (s)", Some(10 * SCALE));
    c.update_burst_settings(1_000_000_000);
    assert_eq!(c.dt, 100_000_000_000); // coarsest: 1000 is under every threshold
    // At or under the sentinel -1.0 the per-tick input takes over:
    // 10 s over 0.001 s asks for 10000 points, between 9497.0 and 14223.2.
    c.set_config_value("Burst duration (s)", Some(-2 * SCALE));
    c.update_burst_settings(1_000_000_000);
    assert_eq!(c.dt, 30_000_000_000); // 0.03 s
}

#[test]
fn degenerate_override_floors_at_epsilon() {
    // An override of 0 is above the sentinel, so it is used, and floored:
    // a vanishing burst asks for almost no points, hence the coarsest step.
    let mut c = NeuronCore::default();
    c.set_config_value("Burst duration (s)", Some(0));
    c.update_burst_settings(1_000_000_000);
    assert_eq!(c.dt, 100_000_000_000);
}

#[test]
fn invalid_period_in_settings_only_resets_substeps() {
    let mut c = NeuronCore::default();
    let dt0 = c.dt;
    c.update_burst_settings(0);
    assert_eq!(c.dt, dt0);
    assert_eq!(c.s_points, 1);
    c.update_burst_settings(-5);
    assert_eq!(c.dt, dt0);
}

#[test]
fn unknown_output_and_probe_names() {
    let c = NeuronCore::default();
    assert_eq!(c.get_output_value("no such output"), 0);
    assert_eq!(c.get_output_value("Vm (mV) "), 0); // near miss, not a prefix match
    assert_eq!(c.get_internal_value("w"), None);
    assert_eq!(c.get_internal_value("x²"), None);
    assert_eq!(c.get_internal_value("x").is_some(), true);
}
