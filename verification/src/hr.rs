//! The Hindmarsh-Rose right-hand side.
//!
//! For a state `(x, y, z)` — membrane-potential-like, fast recovery and
//! slow adaptation variables — and the closed-over parameters and synaptic
//! input, the derivative is
//!   `dx = y + b x^2 - a x^3 - vh z + i - input_syn`
//!   `dy = c - d x^2 - y`
//!   `dz = r (s (x - xr) - z vh)`
//! with every product and sum checked, in the evaluation order written
//! below: a `None` anywhere makes the whole derivative `None`.

use vstd::prelude::*;
use crate::fixed::{fix_add, fix_add_spec, fix_mul, fix_mul_spec, fix_sub, fix_sub_spec};
use crate::rk4::Derivative;

verus! {

/// Checked operations lifted over an optional operand.
pub open spec fn omul(a: Option<i64>, b: Option<i64>) -> Option<i64> {
    match (a, b) {
        (Some(x), Some(y)) => fix_mul_spec(x, y),
        _ => None,
    }
}

pub open spec fn oadd(a: Option<i64>, b: Option<i64>) -> Option<i64> {
    match (a, b) {
        (Some(x), Some(y)) => fix_add_spec(x, y),
        _ => None,
    }
}

pub open spec fn osub(a: Option<i64>, b: Option<i64>) -> Option<i64> {
    match (a, b) {
        (Some(x), Some(y)) => fix_sub_spec(x, y),
        _ => None,
    }
}

/// The Hindmarsh-Rose right-hand side, closed over the current parameter
/// set and synaptic input. Field names follow the model's conventional
/// parameter names.
pub struct HrDerivative {
    /// External drive offset.
    pub i: i64,
    /// Cubic shape coefficient.
    pub a: i64,
    /// Quadratic shape coefficient.
    pub b: i64,
    /// Fast recovery offset.
    pub c: i64,
    /// Fast recovery quadratic coefficient.
    pub d: i64,
    /// Slow time scale.
    pub r: i64,
    /// Slow coupling gain.
    pub s: i64,
    /// Slow resting reference.
    pub xr: i64,
    /// Coupling scale on `z` and on the synaptic term.
    pub vh: i64,
    /// Synaptic input current.
    pub input_syn: i64,
}

/// `dx = y + b x^2 - a x^3 - vh z + i - input_syn`, left to right,
/// products associated as written.
pub open spec fn dx_spec(p: HrDerivative, x: i64, y: i64, z: i64) -> Option<i64> {
    let quad = omul(omul(Some(p.b), Some(x)), Some(x));
    let cubic = omul(omul(omul(Some(p.a), Some(x)), Some(x)), Some(x));
    let coupling = omul(Some(p.vh), Some(z));
    osub(oadd(osub(osub(oadd(Some(y), quad), cubic), coupling), Some(p.i)), Some(p.input_syn))
}

/// `dy = c - d x^2 - y`, left to right.
pub open spec fn dy_spec(p: HrDerivative, x: i64, y: i64) -> Option<i64> {
    let quad = omul(omul(Some(p.d), Some(x)), Some(x));
    osub(osub(Some(p.c), quad), Some(y))
}

/// `dz = r (s (x - xr) - z vh)`.
pub open spec fn dz_spec(p: HrDerivative, x: i64, z: i64) -> Option<i64> {
    let pull = omul(Some(p.s), osub(Some(x), Some(p.xr)));
    let damp = omul(Some(z), Some(p.vh));
    omul(Some(p.r), osub(pull, damp))
}

impl Derivative for HrDerivative {
    open spec fn dim(&self) -> nat {
        3
    }

    open spec fn eval_spec(&self, state: Seq<i64>) -> Option<Seq<i64>> {
        match (
            dx_spec(*self, state[0], state[1], state[2]),
            dy_spec(*self, state[0], state[1]),
            dz_spec(*self, state[0], state[2]),
        ) {
            (Some(dx), Some(dy), Some(dz)) => Some(seq![dx, dy, dz]),
            _ => None,
        }
    }

    fn eval(&self, state: &Vec<i64>) -> (r: Option<Vec<i64>>) {
        let x = state[0];
        let y = state[1];
        let z = state[2];
        // dx
        let bx = match fix_mul(self.b, x) {
            Some(v) => v,
            None => {
                return None;
            },
        };
        let quad = match fix_mul(bx, x) {
            Some(v) => v,
            None => {
                return None;
            },
        };
        let ax = match fix_mul(self.a, x) {
            Some(v) => v,
            None => {
                return None;
            },
        };
        let axx = match fix_mul(ax, x) {
            Some(v) => v,
            None => {
                return None;
            },
        };
        let cubic = match fix_mul(axx, x) {
            Some(v) => v,
            None => {
                return None;
            },
        };
        let coupling = match fix_mul(self.vh, z) {
            Some(v) => v,
            None => {
                return None;
            },
        };
        let e1 = match fix_add(y, quad) {
            Some(v) => v,
            None => {
                return None;
            },
        };
        let e2 = match fix_sub(e1, cubic) {
            Some(v) => v,
            None => {
                return None;
            },
        };
        let e3 = match fix_sub(e2, coupling) {
            Some(v) => v,
            None => {
                return None;
            },
        };
        let e4 = match fix_add(e3, self.i) {
            Some(v) => v,
            None => {
                return None;
            },
        };
        let dx = match fix_sub(e4, self.input_syn) {
            Some(v) => v,
            None => {
                return None;
            },
        };
        // dy
        let dxq = match fix_mul(self.d, x) {
            Some(v) => v,
            None => {
                return None;
            },
        };
        let dquad = match fix_mul(dxq, x) {
            Some(v) => v,
            None => {
                return None;
            },
        };
        let f1 = match fix_sub(self.c, dquad) {
            Some(v) => v,
            None => {
                return None;
            },
        };
        let dy = match fix_sub(f1, y) {
            Some(v) => v,
            None => {
                return None;
            },
        };
        // dz
        let g1 = match fix_sub(x, self.xr) {
            Some(v) => v,
            None => {
                return None;
            },
        };
        let pull = match fix_mul(self.s, g1) {
            Some(v) => v,
            None => {
                return None;
            },
        };
        let damp = match fix_mul(z, self.vh) {
            Some(v) => v,
            None => {
                return None;
            },
        };
        let g2 = match fix_sub(pull, damp) {
            Some(v) => v,
            None => {
                return None;
            },
        };
        let dz = match fix_mul(self.r, g2) {
            Some(v) => v,
            None => {
                return None;
            },
        };
        let out = vec![dx, dy, dz];
        proof {
            assert(out@ =~= seq![dx, dy, dz]);
        }
        Some(out)
    }
}

} // verus!
