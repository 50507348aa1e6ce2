//! Adaptive step-size selection.
//!
//! A tick asks for a number of integration points per burst (`pts_match`,
//! a fixed-point ratio). The selector walks a fixed descending table of
//! point thresholds and returns the step size paired with the first
//! threshold not above the request; when even the smallest threshold is
//! above it, the coarsest step is returned. Higher demands therefore get
//! finer steps, and the mapping is never interpolated.

use vstd::prelude::*;
use crate::fixed::SCALE;

verus! {

/// Number of entries in the step-size table.
pub const TABLE_LEN: usize = 12;

/// Candidate step sizes, ascending, as fixed-point seconds
/// (0.0005 s up to 0.1 s).
pub open spec fn step_size(idx: int) -> i64 {
    if idx == 0 {
        500_000_000
    } else if idx == 1 {
        1_000_000_000
    } else if idx == 2 {
        1_500_000_000
    } else if idx == 3 {
        2_000_000_000
    } else if idx == 4 {
        3_000_000_000
    } else if idx == 5 {
        5_000_000_000
    } else if idx == 6 {
        10_000_000_000
    } else if idx == 7 {
        15_000_000_000
    } else if idx == 8 {
        20_000_000_000
    } else if idx == 9 {
        30_000_000_000
    } else if idx == 10 {
        50_000_000_000
    } else {
        100_000_000_000
    }
}

/// Minimum-points thresholds, descending, as fixed-point counts
/// (577638.0 down to 2829.7).
pub open spec fn threshold(idx: int) -> i64 {
    if idx == 0 {
        577_638_000_000_000_000
    } else if idx == 1 {
        286_092_500_000_000_000
    } else if idx == 2 {
        189_687_000_000_000_000
    } else if idx == 3 {
        142_001_800_000_000_000
    } else if idx == 4 {
        94_527_400_000_000_000
    } else if idx == 5 {
        56_664_400_000_000_000
    } else if idx == 6 {
        28_313_600_000_000_000
    } else if idx == 7 {
        18_381_100_000_000_000
    } else if idx == 8 {
        14_223_200_000_000_000
    } else if idx == 9 {
        9_497_000_000_000_000
    } else if idx == 10 {
        5_716_900_000_000_000
    } else {
        2_829_700_000_000_000
    }
}

/// Index of the first threshold that is at or below the request; the last
/// table slot when none is.
pub open spec fn selected_index(pts_match: i64) -> int {
    if threshold(0) <= pts_match {
        0
    } else if threshold(1) <= pts_match {
        1
    } else if threshold(2) <= pts_match {
        2
    } else if threshold(3) <= pts_match {
        3
    } else if threshold(4) <= pts_match {
        4
    } else if threshold(5) <= pts_match {
        5
    } else if threshold(6) <= pts_match {
        6
    } else if threshold(7) <= pts_match {
        7
    } else if threshold(8) <= pts_match {
        8
    } else if threshold(9) <= pts_match {
        9
    } else if threshold(10) <= pts_match {
        10
    } else {
        11
    }
}

/// The step size the selector answers for a request.
pub open spec fn select_dt_spec(pts_match: i64) -> i64 {
    step_size(selected_index(pts_match))
}

pub fn step_size_at(idx: usize) -> (r: i64)
    requires
        idx < TABLE_LEN,
    ensures
        r == step_size(idx as int),
{
    if idx == 0 {
        500_000_000
    } else if idx == 1 {
        1_000_000_000
    } else if idx == 2 {
        1_500_000_000
    } else if idx == 3 {
        2_000_000_000
    } else if idx == 4 {
        3_000_000_000
    } else if idx == 5 {
        5_000_000_000
    } else if idx == 6 {
        10_000_000_000
    } else if idx == 7 {
        15_000_000_000
    } else if idx == 8 {
        20_000_000_000
    } else if idx == 9 {
        30_000_000_000
    } else if idx == 10 {
        50_000_000_000
    } else {
        100_000_000_000
    }
}

pub fn threshold_at(idx: usize) -> (r: i64)
    requires
        idx < TABLE_LEN,
    ensures
        r == threshold(idx as int),
{
    if idx == 0 {
        577_638_000_000_000_000
    } else if idx == 1 {
        286_092_500_000_000_000
    } else if idx == 2 {
        189_687_000_000_000_000
    } else if idx == 3 {
        142_001_800_000_000_000
    } else if idx == 4 {
        94_527_400_000_000_000
    } else if idx == 5 {
        56_664_400_000_000_000
    } else if idx == 6 {
        28_313_600_000_000_000
    } else if idx == 7 {
        18_381_100_000_000_000
    } else if idx == 8 {
        14_223_200_000_000_000
    } else if idx == 9 {
        9_497_000_000_000_000
    } else if idx == 10 {
        5_716_900_000_000_000
    } else {
        2_829_700_000_000_000
    }
}

/// Walk the thresholds in their descending order and answer the step size
/// paired with the first one at or below the request; the coarsest step
/// when none qualifies. Total: every request, zero and negative ones
/// included, gets a step size.
pub fn select_optimal_dt(pts_match: i64) -> (r: i64)
    ensures
        r == select_dt_spec(pts_match),
{
    let mut idx: usize = 0;
    while idx < TABLE_LEN
        invariant
            idx <= TABLE_LEN,
            forall|j: int| 0 <= j < idx ==> threshold(j) > pts_match,
        decreases TABLE_LEN - idx,
    {
        if threshold_at(idx) <= pts_match {
            return step_size_at(idx);
        }
        idx = idx + 1;
    }
    step_size_at(TABLE_LEN - 1)
}

/// A lower demand for resolution never gets a finer step: the selector is
/// monotonically non-increasing from requested points to step size.
pub proof fn lemma_step_size_monotonic(pts_1: i64, pts_2: i64)
    requires
        pts_1 < pts_2,
    ensures
        select_dt_spec(pts_1) >= select_dt_spec(pts_2),
{
}

/// The selector always answers one of the table's step sizes, and every
/// answer is strictly positive.
pub proof fn lemma_select_dt_positive(pts_match: i64)
    ensures
        select_dt_spec(pts_match) > 0,
        0 <= selected_index(pts_match) < TABLE_LEN,
{
}

} // verus!
