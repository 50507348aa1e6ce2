//! Classical fourth-order Runge-Kutta stepping, generic over the state
//! arity and the derivative.
//!
//! The stepper advances a state vector `y` by one step `h`:
//! `k1 = f(y)`, `k2 = f(y + h/2 k1)`, `k3 = f(y + h/2 k2)`,
//! `k4 = f(y + h k3)`, `y' = y + h/6 (k1 + 2 k2 + 2 k3 + k4)`,
//! in the fixed-point arithmetic of `crate::fixed`. It knows nothing of the
//! neuron model: any type giving a derivative can drive it. A `None` from
//! any operation (an out-of-range intermediate) makes the whole step `None`;
//! deciding what to do with a failed step is the caller's business.

use vstd::prelude::*;
use crate::fixed::{
    fix_add, fix_add_spec, fix_mul, fix_mul_div, fix_mul_div_spec, fix_mul_spec, fix_sub,
    fix_sub_spec, in_range,
};

verus! {

/// The contents of an optional vector, as an optional sequence.
pub open spec fn opt_vec_view(r: Option<Vec<i64>>) -> Option<Seq<i64>> {
    match r {
        Some(v) => Some(v@),
        None => None,
    }
}

/// A right-hand side `f(state) -> derivative` over fixed-point state
/// vectors of a fixed arity. `None` marks a derivative whose computation
/// left the representable range.
pub trait Derivative: Sized {
    /// Arity of the state vector.
    spec fn dim(&self) -> nat;

    /// What the derivative is, componentwise, on a given state.
    spec fn eval_spec(&self, state: Seq<i64>) -> Option<Seq<i64>>;

    fn eval(&self, state: &Vec<i64>) -> (r: Option<Vec<i64>>)
        requires
            state@.len() == self.dim(),
        ensures
            opt_vec_view(r) == self.eval_spec(state@),
            r matches Some(v) ==> v@.len() == self.dim(),
    ;
}

/// `-(rate * y)` with each operation checked.
pub open spec fn decay_spec(rate: i64, y: i64) -> Option<i64> {
    match fix_mul_spec(rate, y) {
        Some(p) => fix_sub_spec(0, p),
        None => None,
    }
}

/// A textbook one-variable right-hand side, `dy/dt = -(rate * y)`:
/// exponential decay. It stands beside the stepper as the check that the
/// integrator serves any fixed-arity derivative, not only the neuron
/// model's.
pub struct DecayDerivative {
    pub rate: i64,
}

impl Derivative for DecayDerivative {
    open spec fn dim(&self) -> nat {
        1
    }

    open spec fn eval_spec(&self, state: Seq<i64>) -> Option<Seq<i64>> {
        match decay_spec(self.rate, state[0]) {
            Some(d) => Some(seq![d]),
            None => None,
        }
    }

    fn eval(&self, state: &Vec<i64>) -> (r: Option<Vec<i64>>) {
        let p = match fix_mul(self.rate, state[0]) {
            Some(v) => v,
            None => {
                return None;
            },
        };
        let d = match fix_sub(0, p) {
            Some(v) => v,
            None => {
                return None;
            },
        };
        let out = vec![d];
        proof {
            assert(out@ =~= seq![d]);
        }
        Some(out)
    }
}

/// One component of `y + (h/m) k`: the scaled product first, then the sum,
/// each checked.
pub open spec fn axpy_comp_spec(y: i64, h: i64, k: i64, m: i64) -> Option<i64> {
    match fix_mul_div_spec(h, k, m) {
        Some(p) => fix_add_spec(y, p),
        None => None,
    }
}

/// `y + (h/m) k` componentwise; `None` as soon as one component is.
pub open spec fn axpy_spec(y: Seq<i64>, h: i64, k: Seq<i64>, m: i64) -> Option<Seq<i64>>
    recommends
        y.len() == k.len(),
    decreases y.len(),
{
    if y.len() == 0 {
        Some(Seq::empty())
    } else {
        match axpy_spec(y.drop_last(), h, k.drop_last(), m) {
            Some(rest) => match axpy_comp_spec(y.last(), h, k.last(), m) {
                Some(v) => Some(rest.push(v)),
                None => None,
            },
            None => None,
        }
    }
}

proof fn lemma_axpy_none(y: Seq<i64>, h: i64, k: Seq<i64>, m: i64, i: int)
    requires
        y.len() == k.len(),
        0 <= i < y.len(),
        axpy_comp_spec(y[i], h, k[i], m) is None,
    ensures
        axpy_spec(y, h, k, m) is None,
    decreases y.len(),
{
    if i == y.len() - 1 {
    } else {
        lemma_axpy_none(y.drop_last(), h, k.drop_last(), m, i);
    }
}

/// Doubling with the range check.
pub open spec fn twice_spec(x: i64) -> Option<i64> {
    if in_range(2 * x) {
        Some((2 * x) as i64)
    } else {
        None
    }
}

/// One component of the Runge-Kutta combination `k1 + 2 k2 + 2 k3 + k4`,
/// every operation checked.
pub open spec fn comb_comp_spec(a: i64, b: i64, c: i64, d: i64) -> Option<i64> {
    match twice_spec(b) {
        Some(b2) => match twice_spec(c) {
            Some(c2) => match fix_add_spec(a, b2) {
                Some(s1) => match fix_add_spec(s1, c2) {
                    Some(s2) => fix_add_spec(s2, d),
                    None => None,
                },
                None => None,
            },
            None => None,
        },
        None => None,
    }
}

/// `k1 + 2 k2 + 2 k3 + k4` componentwise.
pub open spec fn comb_spec(k1: Seq<i64>, k2: Seq<i64>, k3: Seq<i64>, k4: Seq<i64>) -> Option<
    Seq<i64>,
>
    recommends
        k1.len() == k2.len() == k3.len() == k4.len(),
    decreases k1.len(),
{
    if k1.len() == 0 {
        Some(Seq::empty())
    } else {
        match comb_spec(k1.drop_last(), k2.drop_last(), k3.drop_last(), k4.drop_last()) {
            Some(rest) => match comb_comp_spec(k1.last(), k2.last(), k3.last(), k4.last()) {
                Some(v) => Some(rest.push(v)),
                None => None,
            },
            None => None,
        }
    }
}

proof fn lemma_comb_none(k1: Seq<i64>, k2: Seq<i64>, k3: Seq<i64>, k4: Seq<i64>, i: int)
    requires
        k1.len() == k2.len() == k3.len() == k4.len(),
        0 <= i < k1.len(),
        comb_comp_spec(k1[i], k2[i], k3[i], k4[i]) is None,
    ensures
        comb_spec(k1, k2, k3, k4) is None,
    decreases k1.len(),
{
    if i == k1.len() - 1 {
    } else {
        lemma_comb_none(k1.drop_last(), k2.drop_last(), k3.drop_last(), k4.drop_last(), i);
    }
}

/// `y + (h/m) k`, componentwise and checked.
fn axpy(y: &Vec<i64>, h: i64, k: &Vec<i64>, m: i64) -> (r: Option<Vec<i64>>)
    requires
        y@.len() == k@.len(),
        1 <= m <= 6,
    ensures
        opt_vec_view(r) == axpy_spec(y@, h, k@, m),
        r matches Some(v) ==> v@.len() == y@.len(),
{
    let mut out: Vec<i64> = Vec::new();
    let mut idx: usize = 0;
    while idx < y.len()
        invariant
            idx <= y@.len(),
            y@.len() == k@.len(),
            1 <= m <= 6,
            out@.len() == idx,
            Some(out@) == axpy_spec(y@.take(idx as int), h, k@.take(idx as int), m),
        decreases y@.len() - idx,
    {
        let p = match fix_mul_div(h, k[idx], m) {
            Some(p) => p,
            None => {
                proof {
                    lemma_axpy_none(y@, h, k@, m, idx as int);
                }
                return None;
            },
        };
        let v = match fix_add(y[idx], p) {
            Some(v) => v,
            None => {
                proof {
                    lemma_axpy_none(y@, h, k@, m, idx as int);
                }
                return None;
            },
        };
        out.push(v);
        proof {
            assert(y@.take(idx as int + 1).drop_last() =~= y@.take(idx as int));
            assert(k@.take(idx as int + 1).drop_last() =~= k@.take(idx as int));
        }
        idx = idx + 1;
    }
    proof {
        assert(y@.take(y@.len() as int) =~= y@);
        assert(k@.take(k@.len() as int) =~= k@);
    }
    Some(out)
}

/// `k1 + 2 k2 + 2 k3 + k4`, componentwise and checked.
fn comb(k1: &Vec<i64>, k2: &Vec<i64>, k3: &Vec<i64>, k4: &Vec<i64>) -> (r: Option<Vec<i64>>)
    requires
        k1@.len() == k2@.len() == k3@.len() == k4@.len(),
    ensures
        opt_vec_view(r) == comb_spec(k1@, k2@, k3@, k4@),
        r matches Some(v) ==> v@.len() == k1@.len(),
{
    let mut out: Vec<i64> = Vec::new();
    let mut idx: usize = 0;
    while idx < k1.len()
        invariant
            idx <= k1@.len(),
            k1@.len() == k2@.len() == k3@.len() == k4@.len(),
            out@.len() == idx,
            Some(out@) == comb_spec(
                k1@.take(idx as int),
                k2@.take(idx as int),
                k3@.take(idx as int),
                k4@.take(idx as int),
            ),
        decreases k1@.len() - idx,
    {
        let b2 = match k2[idx].checked_mul(2) {
            Some(v) => v,
            None => {
                proof {
                    lemma_comb_none(k1@, k2@, k3@, k4@, idx as int);
                }
                return None;
            },
        };
        let c2 = match k3[idx].checked_mul(2) {
            Some(v) => v,
            None => {
                proof {
                    lemma_comb_none(k1@, k2@, k3@, k4@, idx as int);
                }
                return None;
            },
        };
        let s1 = match k1[idx].checked_add(b2) {
            Some(v) => v,
            None => {
                proof {
                    lemma_comb_none(k1@, k2@, k3@, k4@, idx as int);
                }
                return None;
            },
        };
        let s2 = match s1.checked_add(c2) {
            Some(v) => v,
            None => {
                proof {
                    lemma_comb_none(k1@, k2@, k3@, k4@, idx as int);
                }
                return None;
            },
        };
        let v = match s2.checked_add(k4[idx]) {
            Some(v) => v,
            None => {
                proof {
                    lemma_comb_none(k1@, k2@, k3@, k4@, idx as int);
                }
                return None;
            },
        };
        out.push(v);
        proof {
            assert(k1@.take(idx as int + 1).drop_last() =~= k1@.take(idx as int));
            assert(k2@.take(idx as int + 1).drop_last() =~= k2@.take(idx as int));
            assert(k3@.take(idx as int + 1).drop_last() =~= k3@.take(idx as int));
            assert(k4@.take(idx as int + 1).drop_last() =~= k4@.take(idx as int));
        }
        idx = idx + 1;
    }
    proof {
        assert(k1@.take(k1@.len() as int) =~= k1@);
        assert(k2@.take(k2@.len() as int) =~= k2@);
        assert(k3@.take(k3@.len() as int) =~= k3@);
        assert(k4@.take(k4@.len() as int) =~= k4@);
    }
    Some(out)
}

/// What one whole Runge-Kutta step is: the four derivative evaluations,
/// their combination, and the final update, in order, with `None`
/// propagated from the first failing piece.
pub open spec fn rk4_spec<D: Derivative>(d: D, y: Seq<i64>, h: i64) -> Option<Seq<i64>> {
    match d.eval_spec(y) {
        Some(k1) => match axpy_spec(y, h, k1, 2) {
            Some(y2) => match d.eval_spec(y2) {
                Some(k2) => match axpy_spec(y, h, k2, 2) {
                    Some(y3) => match d.eval_spec(y3) {
                        Some(k3) => match axpy_spec(y, h, k3, 1) {
                            Some(y4) => match d.eval_spec(y4) {
                                Some(k4) => match comb_spec(k1, k2, k3, k4) {
                                    Some(s) => axpy_spec(y, h, s, 6),
                                    None => None,
                                },
                                None => None,
                            },
                            None => None,
                        },
                        None => None,
                    },
                    None => None,
                },
                None => None,
            },
            None => None,
        },
        None => None,
    }
}

/// Advance `y` by one step `h` under the derivative `d`.
pub fn rk4_step<D: Derivative>(d: &D, y: &Vec<i64>, h: i64) -> (r: Option<Vec<i64>>)
    requires
        y@.len() == d.dim(),
    ensures
        opt_vec_view(r) == rk4_spec(*d, y@, h),
        r matches Some(v) ==> v@.len() == y@.len(),
{
    let k1 = match d.eval(y) {
        Some(v) => v,
        None => {
            return None;
        },
    };
    let y2 = match axpy(y, h, &k1, 2) {
        Some(v) => v,
        None => {
            return None;
        },
    };
    let k2 = match d.eval(&y2) {
        Some(v) => v,
        None => {
            return None;
        },
    };
    let y3 = match axpy(y, h, &k2, 2) {
        Some(v) => v,
        None => {
            return None;
        },
    };
    let k3 = match d.eval(&y3) {
        Some(v) => v,
        None => {
            return None;
        },
    };
    let y4 = match axpy(y, h, &k3, 1) {
        Some(v) => v,
        None => {
            return None;
        },
    };
    let k4 = match d.eval(&y4) {
        Some(v) => v,
        None => {
            return None;
        },
    };
    let s = match comb(&k1, &k2, &k3, &k4) {
        Some(v) => v,
        None => {
            return None;
        },
    };
    axpy(y, h, &s, 6)
}

} // verus!
