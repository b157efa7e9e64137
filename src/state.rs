//! The shared pump record: commanded targets and live telemetry.
//!
//! Volumes are kept in motor steps where the loop counts them, so that every
//! update is exact: the reservoir holds `reservoir_steps / steps_per_ml`
//! millilitres and a run has `steps / steps_per_ml` millilitres left.
use vstd::prelude::*;

verus! {

/// Microlitres in one millilitre.
pub const UL_PER_ML: u64 = 1000;

/// The pump's shared state.
pub struct PumpState {
    /// The loop is dispensing (or withdrawing).
    pub running: bool,
    /// Stepping is suspended while the loop stays alive.
    pub pause: bool,
    /// Dosing mode, 1 to 6; other values make the loop idle.
    pub mode: u8,
    /// Direction: withdraw when set, dispense otherwise.
    pub pull: bool,
    /// Steps left in the current run.
    pub steps: u64,
    /// Calibration: motor steps per millilitre.
    pub steps_per_ml: u64,
    /// Syringe capacity in microlitres (informational).
    pub syringe_size_ul: u64,
    /// Steps of the current run when it started.
    pub total_steps: u64,
    /// Reservoir level, in steps of the current calibration.
    pub reservoir_steps: i64,
    /// Percent of the current run done.
    pub progress: u8,
    /// Mode 1: time left in nanoseconds; mode 3: flow in picolitres per second.
    pub time_rate: u64,
    /// Volume of one bolus, in microlitres.
    pub bolus_dose_ul: u64,
    /// Steps left of the bolus in progress.
    pub active_bolus_dose: u64,
    /// Cooldown after a bolus starts, in nanoseconds.
    pub bolus_cooldown_ns: u64,
    /// Cooldown left, in nanoseconds.
    pub active_bolus_cooldown_ns: u64,
    /// When the running cooldown started (loop clock, nanoseconds).
    pub bolus_started_ns: u64,
    /// The cooldown length taken from `bolus_cooldown_ns` when it started.
    pub bolus_cooldown_baseline_ns: u64,
}

/// Modes that exist.
pub open spec fn is_mode(mode: u8) -> bool {
    1 <= mode <= 6
}

/// Modes that count steps down and finish at zero.
pub open spec fn counts_steps(mode: u8) -> bool {
    1 <= mode <= 5
}

/// Modes whose steps move fluid in or out of the reservoir (and so persist it).
pub open spec fn moves_reservoir(mode: u8) -> bool {
    mode == 1 || mode == 2 || mode == 3 || mode == 5
}

/// Modes in which a bolus may be given.
pub open spec fn bolus_mode(mode: u8) -> bool {
    mode == 1 || mode == 3
}

pub fn is_bolus_mode(mode: u8) -> (r: bool)
    ensures
        r == bolus_mode(mode),
{
    mode == 1 || mode == 3
}

pub fn is_moving_mode(mode: u8) -> (r: bool)
    ensures
        r == moves_reservoir(mode),
{
    mode == 1 || mode == 2 || mode == 3 || mode == 5
}

/// The reservoir after one step: one step more when withdrawing, one less
/// when dispensing (held at the ends of the range).
pub open spec fn reservoir_after(level: i64, pull: bool) -> i64 {
    if pull {
        if level < i64::MAX { (level + 1) as i64 } else { level }
    } else {
        if level > i64::MIN { (level - 1) as i64 } else { level }
    }
}

pub fn step_reservoir(level: i64, pull: bool) -> (r: i64)
    ensures
        r == reservoir_after(level, pull),
{
    if pull {
        if level < i64::MAX { level + 1 } else { level }
    } else {
        if level > i64::MIN { level - 1 } else { level }
    }
}

/// Volume left in the current run, in microlitres: `steps / steps_per_ml` ml.
pub open spec fn remaining_ul_spec(s: PumpState) -> int {
    if s.steps_per_ml == 0 {
        0
    } else {
        (s.steps * UL_PER_ML) as int / s.steps_per_ml as int
    }
}

impl PumpState {
    /// A stopped pump with the given calibration and reservoir level.
    pub fn new(
        steps_per_ml: u64,
        syringe_size_ul: u64,
        bolus_dose_ul: u64,
        bolus_cooldown_ns: u64,
        reservoir_steps: i64,
    ) -> (r: PumpState)
        ensures
            r == (PumpState {
                running: false,
                pause: false,
                mode: 1,
                pull: false,
                steps: 0,
                steps_per_ml,
                syringe_size_ul,
                total_steps: 0,
                reservoir_steps,
                progress: 0,
                time_rate: 0,
                bolus_dose_ul,
                active_bolus_dose: 0,
                bolus_cooldown_ns,
                active_bolus_cooldown_ns: 0,
                bolus_started_ns: 0,
                bolus_cooldown_baseline_ns: 0,
            }),
    {
        PumpState {
            running: false,
            pause: false,
            mode: 1,
            pull: false,
            steps: 0,
            steps_per_ml,
            syringe_size_ul,
            total_steps: 0,
            reservoir_steps,
            progress: 0,
            time_rate: 0,
            bolus_dose_ul,
            active_bolus_dose: 0,
            bolus_cooldown_ns,
            active_bolus_cooldown_ns: 0,
            bolus_started_ns: 0,
            bolus_cooldown_baseline_ns: 0,
        }
    }

    /// Volume left in the current run, in microlitres (rounded down).
    pub fn remaining_ul(&self) -> (r: u128)
        ensures
            r == remaining_ul_spec(*self),
    {
        if self.steps_per_ml == 0 {
            0
        } else {
            let steps = self.steps as u128;
            assert(steps * 1000 <= u64::MAX * 1000) by (nonlinear_arith)
                requires steps <= u64::MAX;
            (steps * UL_PER_ML as u128) / self.steps_per_ml as u128
        }
    }
}

} // verus!
