//! The tick-driven neuron core.
//!
//! One instance owns the state vector `(x, y, z)`, the parameter set, and
//! the per-tick inputs. Each tick derives a step size from the tick period
//! and the effective burst duration, advances the state by Runge-Kutta
//! sub-steps (presently always exactly one, with room for up to fifty),
//! discards any sub-step whose result left the representable range, and
//! republishes the two outputs. Nothing here ever fails outward: bad
//! periods skip the tick, bad burst signals are floored, unknown keys are
//! ignored, and a diverging integration keeps the last valid state.

use vstd::prelude::*;
use crate::fixed::{fix_div, fix_div_spec, int_div, tdiv, SCALE};
use crate::hr::HrDerivative;
use crate::rk4::{rk4_spec, rk4_step};
use crate::selector::{select_dt_spec, select_optimal_dt, step_size, step_size_at};
use crate::text::str_eq;

verus! {

// Default state and parameters, fixed-point.
pub const DEFAULT_X: i64 = -901_374_755_102;  // -0.9013747551021072
pub const DEFAULT_Y: i64 = -3_159_488_296_655;  // -3.15948829665501
pub const DEFAULT_Z: i64 = 3_247_826_955_038;  // 3.247826955037619
pub const DEFAULT_I: i64 = 3_000_000_000_000;
pub const DEFAULT_A: i64 = 1_000_000_000_000;
pub const DEFAULT_B: i64 = 3_000_000_000_000;
pub const DEFAULT_C: i64 = 1_000_000_000_000;
pub const DEFAULT_D: i64 = 5_000_000_000_000;
pub const DEFAULT_R: i64 = 2_100_000_000;  // 0.0021
pub const DEFAULT_S: i64 = 4_000_000_000_000;
pub const DEFAULT_XR: i64 = -1_600_000_000_000;  // -1.6
pub const DEFAULT_VH: i64 = 1_000_000_000_000;
pub const DEFAULT_DT: i64 = 1_500_000_000;  // 0.0015 s
pub const DEFAULT_BURST: i64 = 1_000_000_000_000;  // 1 s

/// Floor for a degenerate burst duration: one nanosecond of a unit.
pub const BURST_EPSILON: i64 = 1_000;

/// Upper clamp on the number of sub-steps per tick.
pub const MAX_SUBSTEPS: usize = 50;

/// The neuron instance: state vector, parameters, per-tick inputs, the
/// burst-duration override, the cached step size, and the two outputs.
pub struct NeuronCore {
    pub x: i64,
    pub y: i64,
    pub z: i64,
    pub i: i64,
    pub a: i64,
    pub b: i64,
    pub c: i64,
    pub d: i64,
    pub r: i64,
    pub s: i64,
    pub xr: i64,
    pub vh: i64,
    /// Synaptic current for the next tick; an absent (non-finite) signal
    /// arrives as `None` and is stored as zero.
    pub input_syn: i64,
    /// Per-tick burst-duration input; degenerate signals are stored as one
    /// second.
    pub input_burst_duration: i64,
    /// Configured override: above the sentinel `-1` it takes precedence
    /// over the per-tick input.
    pub burst_duration_value: i64,
    /// Step size cached by the latest tick.
    pub dt: i64,
    /// Sub-step count cached by the latest tick.
    pub s_points: usize,
    /// `Vm (v)`: the committed `x`, in volts.
    pub out_v: i64,
    /// `Vm (mV)`: the committed `x` itself.
    pub out_mv: i64,
}

/// The documented construction defaults.
pub open spec fn default_spec() -> NeuronCore {
    NeuronCore {
        x: DEFAULT_X,
        y: DEFAULT_Y,
        z: DEFAULT_Z,
        i: DEFAULT_I,
        a: DEFAULT_A,
        b: DEFAULT_B,
        c: DEFAULT_C,
        d: DEFAULT_D,
        r: DEFAULT_R,
        s: DEFAULT_S,
        xr: DEFAULT_XR,
        vh: DEFAULT_VH,
        input_syn: 0,
        input_burst_duration: SCALE,
        burst_duration_value: DEFAULT_BURST,
        dt: DEFAULT_DT,
        s_points: 1,
        out_v: 0,
        out_mv: 0,
    }
}

impl Default for NeuronCore {
    fn default() -> (r: NeuronCore)
        ensures
            r == default_spec(),
    {
        NeuronCore {
            x: DEFAULT_X,
            y: DEFAULT_Y,
            z: DEFAULT_Z,
            i: DEFAULT_I,
            a: DEFAULT_A,
            b: DEFAULT_B,
            c: DEFAULT_C,
            d: DEFAULT_D,
            r: DEFAULT_R,
            s: DEFAULT_S,
            xr: DEFAULT_XR,
            vh: DEFAULT_VH,
            input_syn: 0,
            input_burst_duration: SCALE,
            burst_duration_value: DEFAULT_BURST,
            dt: DEFAULT_DT,
            s_points: 1,
            out_v: 0,
            out_mv: 0,
        }
    }
}

/// The derivative a tick integrates with: the right-hand side closed over
/// the instance's current parameters and synaptic input.
pub open spec fn deriv_of(c: NeuronCore) -> HrDerivative {
    HrDerivative {
        i: c.i,
        a: c.a,
        b: c.b,
        c: c.c,
        d: c.d,
        r: c.r,
        s: c.s,
        xr: c.xr,
        vh: c.vh,
        input_syn: c.input_syn,
    }
}

/// What a configuration write does: an absent (non-numeric) value and an
/// unknown key are both silent no-ops; a known key updates exactly its
/// field, aliases included.
pub open spec fn config_updated(pre: NeuronCore, key: Seq<char>, value: Option<i64>) -> NeuronCore {
    match value {
        None => pre,
        Some(v) => {
            if key == "x"@ || key == "x0"@ {
                NeuronCore { x: v, ..pre }
            } else if key == "y"@ || key == "y0"@ {
                NeuronCore { y: v, ..pre }
            } else if key == "z"@ || key == "z0"@ {
                NeuronCore { z: v, ..pre }
            } else if key == "I"@ || key == "i"@ || key == "e"@ || key == "E"@ {
                NeuronCore { i: v, ..pre }
            } else if key == "a"@ {
                NeuronCore { a: v, ..pre }
            } else if key == "b"@ {
                NeuronCore { b: v, ..pre }
            } else if key == "c"@ {
                NeuronCore { c: v, ..pre }
            } else if key == "d"@ {
                NeuronCore { d: v, ..pre }
            } else if key == "r"@ || key == "mu"@ {
                NeuronCore { r: v, ..pre }
            } else if key == "s"@ || key == "S"@ {
                NeuronCore { s: v, ..pre }
            } else if key == "xr"@ {
                NeuronCore { xr: v, ..pre }
            } else if key == "Vh"@ || key == "vh"@ {
                NeuronCore { vh: v, ..pre }
            } else if key == "Burst duration (s)"@ {
                NeuronCore { burst_duration_value: v, ..pre }
            } else {
                pre
            }
        },
    }
}

/// What an input write does: the synaptic current takes the value, with
/// zero for an absent signal; the burst-duration input is coerced to one
/// second when absent or not positive; unknown keys are ignored.
pub open spec fn input_updated(pre: NeuronCore, key: Seq<char>, value: Option<i64>) -> NeuronCore {
    let v = match value {
        Some(v) => v,
        None => 0,
    };
    if key == "Isyn (nA)"@ {
        NeuronCore { input_syn: v, ..pre }
    } else if key == "Burst duration (s)"@ {
        NeuronCore { input_burst_duration: if v > 0 { v } else { SCALE }, ..pre }
    } else {
        pre
    }
}

/// The burst duration a tick resolves against: the configured override
/// when it is above the sentinel `-1`, else the per-tick input; floored at
/// a tiny epsilon when not positive.
pub open spec fn effective_burst(pre: NeuronCore) -> i64 {
    let b = if pre.burst_duration_value <= -SCALE {
        pre.input_burst_duration
    } else {
        pre.burst_duration_value
    };
    if b <= 0 {
        BURST_EPSILON
    } else {
        b
    }
}

/// The step size a tick of the given positive period selects: the table
/// answer for `burst / period` points, the finest step when that ratio is
/// beyond the representable range, and the default step if the answer were
/// ever not positive.
pub open spec fn tick_dt(pre: NeuronCore, period: i64) -> i64 {
    let dt = match fix_div_spec(effective_burst(pre), period) {
        Some(pts) => select_dt_spec(pts),
        None => step_size(0),
    };
    if dt <= 0 {
        DEFAULT_DT
    } else {
        dt
    }
}

/// Step-size and sub-step bookkeeping at the head of a tick: an invalid
/// period only resets the sub-step count; a valid one also caches the
/// selected step size.
pub open spec fn burst_settings_updated(pre: NeuronCore, period: i64) -> NeuronCore {
    if period <= 0 {
        NeuronCore { s_points: 1, ..pre }
    } else {
        NeuronCore { dt: tick_dt(pre, period), s_points: 1, ..pre }
    }
}

/// One sub-step: the integrator's answer when it has one, the unchanged
/// state when the step left the representable range.
pub open spec fn substepped(c: NeuronCore) -> NeuronCore {
    match rk4_spec(deriv_of(c), seq![c.x, c.y, c.z], c.dt) {
        Some(v) => NeuronCore { x: v[0], y: v[1], z: v[2], ..c },
        None => c,
    }
}

/// Output extraction from the committed state.
pub open spec fn outputs_refreshed(c: NeuronCore) -> NeuronCore {
    NeuronCore { out_v: tdiv(c.x as int, 1000) as i64, out_mv: c.x, ..c }
}

/// One whole tick: an absent or non-positive period is a no-op; otherwise
/// settings, one sub-step, and the outputs, in that order.
pub open spec fn tick_spec(pre: NeuronCore, period: Option<i64>) -> NeuronCore {
    match period {
        None => pre,
        Some(p) => {
            if p <= 0 {
                pre
            } else {
                outputs_refreshed(substepped(burst_settings_updated(pre, p)))
            }
        },
    }
}

impl NeuronCore {
    /// Write one named configuration value; `None` stands for a value the
    /// host could not read as a number and changes nothing.
    pub fn set_config_value(&mut self, key: &str, value: Option<i64>)
        ensures
            *final(self) == config_updated(*old(self), key@, value),
    {
        let v = match value {
            Some(v) => v,
            None => {
                return;
            },
        };
        if str_eq(key, "x") || str_eq(key, "x0") {
            self.x = v;
        } else if str_eq(key, "y") || str_eq(key, "y0") {
            self.y = v;
        } else if str_eq(key, "z") || str_eq(key, "z0") {
            self.z = v;
        } else if str_eq(key, "I") || str_eq(key, "i") || str_eq(key, "e") || str_eq(key, "E") {
            self.i = v;
        } else if str_eq(key, "a") {
            self.a = v;
        } else if str_eq(key, "b") {
            self.b = v;
        } else if str_eq(key, "c") {
            self.c = v;
        } else if str_eq(key, "d") {
            self.d = v;
        } else if str_eq(key, "r") || str_eq(key, "mu") {
            self.r = v;
        } else if str_eq(key, "s") || str_eq(key, "S") {
            self.s = v;
        } else if str_eq(key, "xr") {
            self.xr = v;
        } else if str_eq(key, "Vh") || str_eq(key, "vh") {
            self.vh = v;
        } else if str_eq(key, "Burst duration (s)") {
            self.burst_duration_value = v;
        }
    }

    /// Write one named per-tick input; `None` stands for a non-finite
    /// signal.
    pub fn set_input_value(&mut self, key: &str, value: Option<i64>)
        ensures
            *final(self) == input_updated(*old(self), key@, value),
    {
        let v = match value {
            Some(v) => v,
            None => 0,
        };
        if str_eq(key, "Isyn (nA)") {
            self.input_syn = v;
        } else if str_eq(key, "Burst duration (s)") {
            self.input_burst_duration = if v > 0 {
                v
            } else {
                SCALE
            };
        }
    }

    /// Recompute the cached step size and sub-step count from the tick
    /// period and the effective burst duration.
    pub fn update_burst_settings(&mut self, period: i64)
        ensures
            *final(self) == burst_settings_updated(*old(self), period),
    {
        if period <= 0 {
            self.s_points = 1;
            return;
        }
        let sentinel = -SCALE;
        let burst_raw = if self.burst_duration_value <= sentinel {
            self.input_burst_duration
        } else {
            self.burst_duration_value
        };
        let burst = if burst_raw <= 0 {
            BURST_EPSILON
        } else {
            burst_raw
        };
        let dt = match fix_div(burst, period) {
            Some(pts) => select_optimal_dt(pts),
            None => step_size_at(0),
        };
        self.dt = if dt <= 0 {
            DEFAULT_DT
        } else {
            dt
        };
        self.s_points = 1;
    }

    /// One tick: skip it outright on an absent or non-positive period;
    /// otherwise select the step size, run the sub-steps — dropping out the
    /// moment one diverges — and republish the outputs. The tick index is
    /// accepted for the host's sake and plays no part.
    pub fn process_tick(&mut self, _tick: u64, period: Option<i64>)
        ensures
            *final(self) == tick_spec(*old(self), period),
    {
        let p = match period {
            Some(p) => p,
            None => {
                return;
            },
        };
        if p <= 0 {
            return;
        }
        self.update_burst_settings(p);
        let steps = if self.s_points < 1 {
            1
        } else if self.s_points > MAX_SUBSTEPS {
            MAX_SUBSTEPS
        } else {
            self.s_points
        };
        let ghost mid = *self;
        let mut n: usize = 0;
        let mut halted = false;
        while n < steps && !halted
            invariant
                steps == 1,
                n <= 1,
                (n == 0 && !halted) ==> *self == mid,
                (n == 1 || halted) ==> *self == substepped(mid),
            decreases steps - n, (if halted { 0int } else { 1int }),
        {
            let state = vec![self.x, self.y, self.z];
            let d = HrDerivative {
                i: self.i,
                a: self.a,
                b: self.b,
                c: self.c,
                d: self.d,
                r: self.r,
                s: self.s,
                xr: self.xr,
                vh: self.vh,
                input_syn: self.input_syn,
            };
            proof {
                assert(state@ =~= seq![mid.x, mid.y, mid.z]);
            }
            match rk4_step(&d, &state, self.dt) {
                Some(v) => {
                    self.x = v[0];
                    self.y = v[1];
                    self.z = v[2];
                    n = n + 1;
                },
                None => {
                    halted = true;
                },
            }
        }
        self.out_v = int_div(self.x, 1000);
        self.out_mv = self.x;
    }

    /// Read one named output; unknown names answer zero.
    pub fn get_output_value(&self, key: &str) -> (r: i64)
        ensures
            r == output_value_spec(*self, key@),
    {
        if str_eq(key, "Vm (v)") {
            self.out_v
        } else if str_eq(key, "Vm (mV)") {
            self.out_mv
        } else {
            0
        }
    }

    /// Probe one internal state variable by name; unknown names answer
    /// nothing, which a caller can tell from a stored zero.
    pub fn get_internal_value(&self, key: &str) -> (r: Option<i64>)
        ensures
            r == internal_value_spec(*self, key@),
    {
        if str_eq(key, "x") {
            Some(self.x)
        } else if str_eq(key, "y") {
            Some(self.y)
        } else if str_eq(key, "z") {
            Some(self.z)
        } else {
            None
        }
    }
}

pub open spec fn output_value_spec(c: NeuronCore, key: Seq<char>) -> i64 {
    if key == "Vm (v)"@ {
        c.out_v
    } else if key == "Vm (mV)"@ {
        c.out_mv
    } else {
        0
    }
}

pub open spec fn internal_value_spec(c: NeuronCore, key: Seq<char>) -> Option<i64> {
    if key == "x"@ {
        Some(c.x)
    } else if key == "y"@ {
        Some(c.y)
    } else if key == "z"@ {
        Some(c.z)
    } else {
        None
    }
}

/// An invalid tick period — absent (non-finite) or not positive — leaves
/// the instance bit-identical: no state advance, no output recomputation.
pub proof fn lemma_invalid_period_is_noop(pre: NeuronCore, period: Option<i64>)
    requires
        period matches Some(p) ==> p <= 0,
    ensures
        tick_spec(pre, period) == pre,
{
}

/// After any tick with a valid period, the outputs are exact transforms of
/// the committed state: `Vm (mV)` is `x` itself and `Vm (v)` is `x / 1000`.
pub proof fn lemma_output_derivation(pre: NeuronCore, p: i64)
    requires
        p > 0,
    ensures
        tick_spec(pre, Some(p)).out_mv == tick_spec(pre, Some(p)).x,
        tick_spec(pre, Some(p)).out_v as int == tdiv(tick_spec(pre, Some(p)).x as int, 1000),
{
    let c = substepped(burst_settings_updated(pre, p));
    crate::fixed::lemma_tdiv_magnitude(c.x as int, 1000);
}

/// A diverging sub-step is contained: when the integrator answers `None`,
/// the tick keeps the pre-tick state vector exactly, and every later
/// getter answer comes from that retained, in-range state.
pub proof fn lemma_divergence_containment(pre: NeuronCore, p: i64)
    requires
        p > 0,
        ({
            let mid = burst_settings_updated(pre, p);
            rk4_spec(deriv_of(mid), seq![mid.x, mid.y, mid.z], mid.dt) is None
        }),
    ensures
        tick_spec(pre, Some(p)).x == pre.x,
        tick_spec(pre, Some(p)).y == pre.y,
        tick_spec(pre, Some(p)).z == pre.z,
{
}

/// A tick never touches the parameter set, the inputs, or the override:
/// they are immutable for the duration of a tick.
pub proof fn lemma_tick_preserves_config(pre: NeuronCore, period: Option<i64>)
    ensures
        tick_spec(pre, period).i == pre.i,
        tick_spec(pre, period).a == pre.a,
        tick_spec(pre, period).b == pre.b,
        tick_spec(pre, period).c == pre.c,
        tick_spec(pre, period).d == pre.d,
        tick_spec(pre, period).r == pre.r,
        tick_spec(pre, period).s == pre.s,
        tick_spec(pre, period).xr == pre.xr,
        tick_spec(pre, period).vh == pre.vh,
        tick_spec(pre, period).input_syn == pre.input_syn,
        tick_spec(pre, period).input_burst_duration == pre.input_burst_duration,
        tick_spec(pre, period).burst_duration_value == pre.burst_duration_value,
{
}

} // verus!
