//! The click driver's per-cycle decision: whether to inject one
//! press-and-release of the primary button, and how long to sleep so that
//! successive cycles keep the requested cadence.

use vstd::prelude::*;
use crate::state::{ClickerState, RATE_MAX_TENTHS, StateModel};
use vstd::arithmetic::div_mod::{lemma_div_is_ordered, lemma_div_multiples_vanish};

verus! {

/// How long an idle cycle sleeps, so the loop does not spin while it stays
/// responsive to a toggle (10 ms).
pub const IDLE_SLEEP_MICROS: u64 = 10000;

/// The substitute interval for a rate that is zero or negative (1 ms).
pub const MIN_INTERVAL_MICROS: u64 = 1000;

/// One second's worth of microseconds, scaled by ten because the rate is
/// carried in tenths of a click per second.
pub const TENTHS_PER_SECOND_MICROS: u64 = 10000000;

/// The pause between clicks for a rate of `rate_tenths` tenths of a click
/// per second: one second divided by the rate, with the minimal interval
/// substituted when the rate is zero or negative.
pub open spec fn interval_micros_spec(rate_tenths: int) -> int {
    if rate_tenths <= 0 {
        MIN_INTERVAL_MICROS as int
    } else {
        TENTHS_PER_SECOND_MICROS as int / rate_tenths
    }
}

/// The sleep a driver step takes: the click interval while active, the
/// fixed idle pause while not.
pub open spec fn step_sleep_spec(active: bool, rate_tenths: int) -> int {
    if active {
        interval_micros_spec(rate_tenths)
    } else {
        IDLE_SLEEP_MICROS as int
    }
}

/// Computes the pause between clicks. A rate of zero or less never divides:
/// the minimal interval stands in for it.
pub fn interval_micros(rate_tenths: i64) -> (r: u64)
    ensures
        r as int == interval_micros_spec(rate_tenths as int),
{
    if rate_tenths <= 0 {
        MIN_INTERVAL_MICROS
    } else {
        (TENTHS_PER_SECOND_MICROS as i64 / rate_tenths) as u64
    }
}

/// What one driver step must do: inject one press-and-release of the
/// primary button, or not, and then sleep for `sleep_micros`.
pub struct StepAction {
    pub click: bool,
    pub sleep_micros: u64,
}

/// The decision for one update cycle. A click is called for exactly when
/// the state is active, so no click ever falls outside an active window,
/// and the sleep paces the loop as `step_sleep_spec` says.
pub fn step_action(s: &ClickerState) -> (a: StepAction)
    ensures
        a.click == s@.active,
        a.sleep_micros as int == step_sleep_spec(s@.active, s@.rate_tenths),
{
    if s.is_active() {
        StepAction { click: true, sleep_micros: interval_micros(s.rate_tenths() as i64) }
    } else {
        StepAction { click: false, sleep_micros: IDLE_SLEEP_MICROS }
    }
}

/// A well-formed state never asks for a sleep shorter than the minimal
/// interval: the clamped rate keeps every pause at a millisecond or more,
/// so no cycle degenerates into a zero-length sleep.
pub proof fn lemma_paced_interval_bounded(m: StateModel)
    requires
        m.wf(),
    ensures
        MIN_INTERVAL_MICROS as int <= interval_micros_spec(m.rate_tenths),
{
    let r = m.rate_tenths;
    assert(MIN_INTERVAL_MICROS as int * r <= TENTHS_PER_SECOND_MICROS as int) by (nonlinear_arith)
        requires
            0 < r <= RATE_MAX_TENTHS as int,
    ;
    lemma_div_multiples_vanish(MIN_INTERVAL_MICROS as int, r);
    lemma_div_is_ordered(MIN_INTERVAL_MICROS as int * r, TENTHS_PER_SECOND_MICROS as int, r);
}

} // verus!
