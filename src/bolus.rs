//! The bolus overlay: extra steps at full speed in modes 1 and 3, with a
//! cooldown measured from a timestamp kept in the pump record.
use vstd::prelude::*;
use crate::state::{PumpState, UL_PER_ML, bolus_mode, is_bolus_mode};
use crate::timing::clamp_sub;

verus! {

/// Steps in a bolus of `dose_ul` microlitres: `dose × steps_per_ml`.
pub open spec fn bolus_steps_spec(dose_ul: nat, steps_per_ml: nat) -> nat {
    (dose_ul * steps_per_ml) / (UL_PER_ML as nat)
}

/// Cooldown left at `now_ns`: the cooldown length captured when it started
/// less the time since then, never below zero; a cooldown that is over stays
/// over.
pub open spec fn cooldown_left(s: PumpState, now_ns: u64) -> u64 {
    if s.active_bolus_cooldown_ns == 0 {
        0
    } else {
        clamp_sub(
            s.bolus_cooldown_baseline_ns as int,
            clamp_sub(now_ns as int, s.bolus_started_ns as int) as int,
        ) as u64
    }
}

/// The once-per-tick bolus bookkeeping: the cooldown counts down, and a
/// bolus outside modes 1 and 3 is discarded.
pub open spec fn settled(s: PumpState, now_ns: u64) -> PumpState {
    PumpState {
        active_bolus_cooldown_ns: cooldown_left(s, now_ns),
        active_bolus_dose: if bolus_mode(s.mode) { s.active_bolus_dose } else { 0 },
        ..s
    }
}

/// A step is taken as part of a bolus.
pub open spec fn bolus_applies(s: PumpState) -> bool {
    bolus_mode(s.mode) && s.active_bolus_dose > 0
}

/// The record after one bolus step at `now_ns`: one bolus step fewer, and a
/// cooldown started if none was running, its length captured from the
/// configuration.
pub open spec fn bolus_stepped(s: PumpState, now_ns: u64) -> PumpState {
    if s.active_bolus_cooldown_ns == 0 {
        PumpState {
            active_bolus_dose: (s.active_bolus_dose - 1) as u64,
            active_bolus_cooldown_ns: s.bolus_cooldown_ns,
            bolus_cooldown_baseline_ns: s.bolus_cooldown_ns,
            bolus_started_ns: now_ns,
            ..s
        }
    } else {
        PumpState { active_bolus_dose: (s.active_bolus_dose - 1) as u64, ..s }
    }
}

/// Count the cooldown down and drop a bolus that its mode does not allow.
pub fn settle_bolus(state: &mut PumpState, now_ns: u64)
    ensures
        *final(state) == settled(*old(state), now_ns),
{
    if state.active_bolus_cooldown_ns > 0 {
        let elapsed = if now_ns > state.bolus_started_ns {
            now_ns - state.bolus_started_ns
        } else {
            0
        };
        state.active_bolus_cooldown_ns = if state.bolus_cooldown_baseline_ns > elapsed {
            state.bolus_cooldown_baseline_ns - elapsed
        } else {
            0
        };
    }
    if !is_bolus_mode(state.mode) {
        state.active_bolus_dose = 0;
    }
}

/// Take one step of a pending bolus, if there is one; the caller then steps
/// without waiting.
pub fn take_bolus_step(state: &mut PumpState, now_ns: u64) -> (forced: bool)
    ensures
        forced == bolus_applies(*old(state)),
        *final(state) == if forced { bolus_stepped(*old(state), now_ns) } else { *old(state) },
{
    if is_bolus_mode(state.mode) && state.active_bolus_dose > 0 {
        if state.active_bolus_cooldown_ns == 0 {
            state.active_bolus_cooldown_ns = state.bolus_cooldown_ns;
            state.bolus_cooldown_baseline_ns = state.bolus_cooldown_ns;
            state.bolus_started_ns = now_ns;
        }
        state.active_bolus_dose = state.active_bolus_dose - 1;
        true
    } else {
        false
    }
}

/// Arm a bolus of the configured dose. Only modes 1 and 3 take one; in any
/// other mode, or where the step count would not fit, nothing changes.
pub fn arm_bolus(state: &mut PumpState) -> (armed: bool)
    ensures
        armed == (bolus_mode(old(state).mode) && bolus_steps_spec(
            old(state).bolus_dose_ul as nat,
            old(state).steps_per_ml as nat,
        ) <= u64::MAX),
        armed ==> *final(state) == (PumpState {
            active_bolus_dose: bolus_steps_spec(
                old(state).bolus_dose_ul as nat,
                old(state).steps_per_ml as nat,
            ) as u64,
            ..*old(state)
        }),
        !armed ==> *final(state) == *old(state),
{
    if !is_bolus_mode(state.mode) {
        return false;
    }
    let dose = state.bolus_dose_ul as u128;
    let per_ml = state.steps_per_ml as u128;
    assert(dose * per_ml <= u64::MAX * u64::MAX) by (nonlinear_arith)
        requires dose <= u64::MAX, per_ml <= u64::MAX;
    let n = (dose * per_ml) / UL_PER_ML as u128;
    if n > u64::MAX as u128 {
        false
    } else {
        state.active_bolus_dose = n as u64;
        true
    }
}

} // verus!
