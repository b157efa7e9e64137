//! Step timing: how long the loop waits after each pulse, and how far a run
//! has come.
//!
//! Times are in nanoseconds, flow rates in picolitres per second.
use vstd::prelude::*;

verus! {

/// The driver's minimum pulse / settle width, in nanoseconds.
pub const PULSE_WIDTH_NS: u64 = 10_000;

/// Nanoseconds in one second times picolitres in one millilitre.
pub const NS_PL_PER_S_ML: u64 = 1_000_000_000_000_000_000;

/// Pulse overhead of one step: high for one pulse width, low for another.
pub open spec fn pulse_overhead() -> nat {
    (2 * PULSE_WIDTH_NS) as nat
}

/// `a - b`, or 0 where `b` is the larger.
pub open spec fn clamp_sub(a: int, b: int) -> nat {
    if a > b {
        (a - b) as nat
    } else {
        0
    }
}

/// Mode 1: the wait after a pulse when `remaining_ns` must be spread over
/// `steps` more pulses.
pub open spec fn timed_delay_spec(remaining_ns: nat, steps: nat) -> nat {
    if steps == 0 {
        0
    } else {
        clamp_sub(remaining_ns as int / steps as int, pulse_overhead() as int)
    }
}

/// Mode 3: the fixed wait after a pulse for a flow of `rate_pl_s` picolitres
/// per second: one second over `rate × steps_per_ml` steps (the rate taken in
/// millilitres), less the pulse.
pub open spec fn rate_delay_spec(rate_pl_s: nat, steps_per_ml: nat) -> nat {
    if rate_pl_s * steps_per_ml == 0 {
        0
    } else {
        clamp_sub(
            NS_PL_PER_S_ML as int / (rate_pl_s * steps_per_ml) as int,
            pulse_overhead() as int,
        )
    }
}

/// Percent of a run of `total` steps done when `steps` are left, rounded
/// half up: `round(100 × (1 − steps / total))`.
pub open spec fn progress_spec(total: nat, steps: nat) -> nat {
    if steps == 0 {
        100
    } else if steps >= total {
        0
    } else {
        (200 * (total - steps) + total) as nat / (2 * total) as nat
    }
}

pub fn timed_delay(remaining_ns: u64, steps: u64) -> (r: u64)
    ensures
        r == timed_delay_spec(remaining_ns as nat, steps as nat),
{
    if steps == 0 {
        0
    } else {
        let per_step = remaining_ns / steps;
        if per_step > 2 * PULSE_WIDTH_NS {
            per_step - 2 * PULSE_WIDTH_NS
        } else {
            0
        }
    }
}

pub fn rate_delay(rate_pl_s: u64, steps_per_ml: u64) -> (r: u64)
    ensures
        r == rate_delay_spec(rate_pl_s as nat, steps_per_ml as nat),
{
    let rate = rate_pl_s as u128;
    let per_ml = steps_per_ml as u128;
    assert(rate * per_ml <= u64::MAX * u64::MAX) by (nonlinear_arith)
        requires rate <= u64::MAX, per_ml <= u64::MAX;
    let steps_per_s = rate * per_ml;
    if steps_per_s == 0 {
        0
    } else {
        let period = NS_PL_PER_S_ML as u128 / steps_per_s;
        assert(period <= NS_PL_PER_S_ML) by {
            vstd::arithmetic::div_mod::lemma_div_is_ordered_by_denominator(
                NS_PL_PER_S_ML as int, 1, steps_per_s as int);
        }
        if period > 2 * PULSE_WIDTH_NS as u128 {
            (period - 2 * PULSE_WIDTH_NS as u128) as u64
        } else {
            0
        }
    }
}

pub fn progress(total: u64, steps: u64) -> (r: u8)
    ensures
        r == progress_spec(total as nat, steps as nat),
        r <= 100,
{
    if steps == 0 {
        100
    } else if steps >= total {
        0
    } else {
        let t = total as u128;
        let done = (total - steps) as u128;
        let num = 200 * done + t;
        let pct = num / (2 * t);
        proof {
            lemma_progress_bounded(total as nat, steps as nat);
        }
        pct as u8
    }
}

/// The length of an ideal timed run: each step lasts its wait plus the pulse
/// overhead, and the time left shrinks by exactly that much before the next
/// wait is computed.
pub open spec fn timed_run_length(remaining_ns: nat, steps: nat) -> nat
    decreases steps,
{
    if steps == 0 {
        0
    } else {
        let period = timed_delay_spec(remaining_ns, steps) + pulse_overhead();
        period + timed_run_length(clamp_sub(remaining_ns as int, period as int), (steps - 1) as nat)
    }
}

/// Progress is a percentage.
pub proof fn lemma_progress_bounded(total: nat, steps: nat)
    ensures
        progress_spec(total, steps) <= 100,
{
    if steps != 0 && steps < total {
        let num = (200 * (total - steps) + total) as int;
        assert(num <= 201 * total) by (nonlinear_arith)
            requires num == 200 * (total - steps) + total, steps < total;
        vstd::arithmetic::div_mod::lemma_div_is_ordered(num, 201 * total as int, 2 * total as int);
        vstd::arithmetic::div_mod::lemma_div_by_multiple_is_strongly_ordered(
            201 * total as int, 202 * total as int, 101, 2 * total as int);
        vstd::arithmetic::div_mod::lemma_div_multiples_vanish(101, 2 * total as int);
    }
}

/// Within one run, using up steps never lowers the progress, and a run with
/// no steps left is at exactly 100 percent.
pub proof fn lemma_progress_monotone(total: nat, before: nat, after: nat)
    requires
        after <= before,
    ensures
        progress_spec(total, before) <= progress_spec(total, after),
        progress_spec(total, 0) == 100,
{
    lemma_progress_bounded(total, before);
    if after != 0 && before < total {
        let hi = (200 * (total - after) + total) as int;
        let lo = (200 * (total - before) + total) as int;
        vstd::arithmetic::div_mod::lemma_div_is_ordered(lo, hi, 2 * total as int);
    }
}

/// One step of a timed run with time left for its pulses lasts
/// `remaining / steps` (wait plus pulses), and leaves the steps after it
/// time for theirs; the last step takes all the time left.
pub proof fn lemma_timed_period(remaining_ns: nat, steps: nat)
    requires
        steps > 0,
        remaining_ns >= pulse_overhead() * steps,
    ensures
        ({
            let q = remaining_ns as int / steps as int;
            &&& timed_delay_spec(remaining_ns, steps) + pulse_overhead() == q
            &&& q <= remaining_ns
            &&& steps == 1 ==> q == remaining_ns
            &&& steps > 1 ==> remaining_ns - q >= pulse_overhead() * (steps - 1)
        }),
{
    let w = pulse_overhead() as int;
    let rem = remaining_ns as int;
    let st = steps as int;
    let q = rem / st;
    vstd::arithmetic::div_mod::lemma_fundamental_div_mod(rem, st);
    vstd::arithmetic::div_mod::lemma_mod_bound(rem, st);
    assert(q >= w) by (nonlinear_arith)
        requires rem >= w * st, rem == st * q + rem % st, 0 <= rem % st < st, st > 0;
    assert(q <= rem) by (nonlinear_arith)
        requires st * q <= rem, st > 0, q >= w, w >= 0;
    if steps == 1 {
        assert(q == rem) by (nonlinear_arith)
            requires rem == st * q + rem % st, 0 <= rem % st < st, st == 1;
    } else {
        assert((rem - q) >= w * (st - 1)) by (nonlinear_arith)
            requires rem >= w * st, st * q <= rem, st > 1, q >= w;
    }
}

/// A timed run whose duration leaves every step at least its pulse overhead
/// takes exactly that duration: the waits and pulses add up to it.
pub proof fn lemma_timed_run_length(duration_ns: nat, steps: nat)
    requires
        steps > 0,
        duration_ns >= pulse_overhead() * steps,
    ensures
        timed_run_length(duration_ns, steps) == duration_ns,
    decreases steps,
{
    lemma_timed_period(duration_ns, steps);
    let q = duration_ns as int / steps as int;
    if steps == 1 {
        assert(timed_run_length(0, 0) == 0);
    } else {
        lemma_timed_run_length((duration_ns - q) as nat, (steps - 1) as nat);
    }
    assert(clamp_sub(duration_ns as int, q) == duration_ns - q);
}

} // verus!
