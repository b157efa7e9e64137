//! The pump control loop as a state machine: one call per loop iteration,
//! from the loop's own state, the shared record and the clock, to the next
//! loop state, the updated record and the action for the device shell.
use vstd::prelude::*;
use crate::bolus::{bolus_applies, bolus_stepped, settle_bolus, settled, take_bolus_step};
use crate::state::{
    PumpState, counts_steps, is_mode, is_moving_mode, moves_reservoir, reservoir_after,
    step_reservoir,
};
use crate::timing::{
    clamp_sub, progress, progress_spec, rate_delay, rate_delay_spec, timed_delay,
    timed_delay_spec,
};

verus! {

/// Wait while the pump is stopped (or its mode is unknown), in nanoseconds.
pub const IDLE_BACKOFF_NS: u64 = 1_000_000_000;

/// Wait between ticks while a run is paused, in nanoseconds.
pub const PAUSE_TICK_NS: u64 = 100_000_000;

/// The loop's own state: no run, or the run of one mode with what that mode
/// keeps between steps.
#[derive(PartialEq, Eq, Structural, Clone, Copy, Debug)]
pub enum Run {
    /// No run: the next running tick starts one.
    Idle,
    /// Mode 1: time left is `duration_ns` less the time since `started_ns`.
    Timed { started_ns: u64, duration_ns: u64 },
    /// Mode 2: as fast as possible.
    Bulk,
    /// Mode 3: a fixed wait after each step.
    Rate { delay_ns: u64 },
    /// Mode 4: dispense without touching the reservoir.
    Calibration,
    /// Mode 5: manual jog.
    Jog,
    /// Mode 6: pulse until stopped.
    Continuous,
}

/// What the device shell does after a tick.
#[derive(PartialEq, Eq, Structural, Clone, Copy, Debug)]
pub enum Action {
    /// Keep the driver disabled and wait, waking early if `running` changes.
    Idle { wait_ns: u64 },
    /// Enable the driver, set the direction, and settle for one pulse width.
    Start { pull: bool },
    /// Step nothing and wait (a paused run, or an unknown mode).
    Hold { wait_ns: u64 },
    /// Pulse the step line once, then wait, waking early if `running` changes.
    Step { wait_ns: u64 },
    /// The run is over: disable the driver, and save the reservoir level if asked.
    Finish { persist: bool },
}

impl Run {
    /// The mode of the run; 0 for no run.
    pub open spec fn mode_spec(self) -> u8 {
        match self {
            Run::Idle => 0,
            Run::Timed { .. } => 1,
            Run::Bulk => 2,
            Run::Rate { .. } => 3,
            Run::Calibration => 4,
            Run::Jog => 5,
            Run::Continuous => 6,
        }
    }

    pub fn mode(&self) -> (r: u8)
        ensures
            r == self.mode_spec(),
    {
        match self {
            Run::Idle => 0,
            Run::Timed { .. } => 1,
            Run::Bulk => 2,
            Run::Rate { .. } => 3,
            Run::Calibration => 4,
            Run::Jog => 5,
            Run::Continuous => 6,
        }
    }
}

/// Starting a run of the record's mode at `now_ns`: the run's total is
/// snapshotted, mode 1 takes `time_rate` as its duration, mode 3 fixes its
/// wait from the flow rate, and calibration always dispenses.
pub open spec fn started(s: PumpState, now_ns: u64) -> (Run, PumpState) {
    let s1 = PumpState {
        total_steps: s.steps,
        progress: progress_spec(s.steps as nat, s.steps as nat) as u8,
        ..s
    };
    if s.mode == 1 {
        (Run::Timed { started_ns: now_ns, duration_ns: s.time_rate }, s1)
    } else if s.mode == 2 {
        (Run::Bulk, s1)
    } else if s.mode == 3 {
        (Run::Rate { delay_ns: rate_delay_spec(s.time_rate as nat, s.steps_per_ml as nat) as u64 }, s1)
    } else if s.mode == 4 {
        (Run::Calibration, PumpState { pull: false, ..s1 })
    } else if s.mode == 5 {
        (Run::Jog, s1)
    } else {
        (Run::Continuous, s1)
    }
}

/// Mode 1: the time left at `now_ns`.
pub open spec fn time_left(run: Run, s: PumpState, now_ns: u64) -> u64 {
    match run {
        Run::Timed { started_ns, duration_ns } => clamp_sub(
            duration_ns as int,
            clamp_sub(now_ns as int, started_ns as int) as int,
        ) as u64,
        _ => s.time_rate,
    }
}

/// The wait after a step of `run`, before any bolus.
pub open spec fn step_wait(run: Run, s: PumpState, now_ns: u64) -> u64 {
    match run {
        Run::Timed { .. } => timed_delay_spec(time_left(run, s, now_ns) as nat, s.steps as nat) as u64,
        Run::Rate { delay_ns } => delay_ns,
        _ => 0,
    }
}

/// The record after one counted step: the time left is recomputed, a bolus
/// step is taken, one step is used, progress follows, and the reservoir
/// moves by one step in the pump's direction where the mode moves fluid.
pub open spec fn counted(run: Run, s: PumpState, now_ns: u64) -> PumpState {
    let s1 = PumpState { time_rate: time_left(run, s, now_ns), ..s };
    let s2 = if bolus_applies(s1) { bolus_stepped(s1, now_ns) } else { s1 };
    PumpState {
        steps: (s.steps - 1) as u64,
        progress: progress_spec(s.total_steps as nat, (s.steps - 1) as nat) as u8,
        reservoir_steps: if moves_reservoir(s.mode) {
            reservoir_after(s.reservoir_steps, s.pull)
        } else {
            s.reservoir_steps
        },
        ..s2
    }
}

/// The record when a run reaches zero steps.
pub open spec fn completed(s: PumpState) -> PumpState {
    if s.mode == 1 || s.mode == 3 {
        PumpState { running: false, time_rate: 0, active_bolus_dose: 0, ..s }
    } else {
        PumpState { running: false, ..s }
    }
}

/// One loop iteration at `now_ns`, after the bolus bookkeeping. A run whose
/// mode the shell has changed is finished (its reservoir saved) before a run
/// of the new mode starts.
pub open spec fn tick_settled(run: Run, s: PumpState, now_ns: u64) -> (Run, PumpState, Action) {
    if !s.running {
        match run {
            Run::Idle => (Run::Idle, s, Action::Idle { wait_ns: IDLE_BACKOFF_NS }),
            _ => (Run::Idle, s, Action::Finish { persist: moves_reservoir(run.mode_spec()) }),
        }
    } else if run != Run::Idle && run.mode_spec() != s.mode {
        (Run::Idle, s, Action::Finish { persist: moves_reservoir(run.mode_spec()) })
    } else if !is_mode(s.mode) {
        (Run::Idle, s, Action::Hold { wait_ns: IDLE_BACKOFF_NS })
    } else if run == Run::Idle {
        let (r, s1) = started(s, now_ns);
        (r, s1, Action::Start { pull: s1.pull })
    } else if s.pause {
        match run {
            Run::Timed { .. } => (
                Run::Timed { started_ns: now_ns, duration_ns: s.time_rate },
                s,
                Action::Hold { wait_ns: PAUSE_TICK_NS },
            ),
            _ => (run, s, Action::Hold { wait_ns: PAUSE_TICK_NS }),
        }
    } else if !counts_steps(s.mode) {
        (run, s, Action::Step { wait_ns: 0 })
    } else if s.steps == 0 {
        (Run::Idle, completed(s), Action::Finish { persist: moves_reservoir(s.mode) })
    } else {
        let s1 = PumpState { time_rate: time_left(run, s, now_ns), ..s };
        let wait = if bolus_applies(s1) { 0 } else { step_wait(run, s, now_ns) };
        (run, counted(run, s, now_ns), Action::Step { wait_ns: wait })
    }
}

/// One loop iteration at `now_ns`.
pub open spec fn tick_spec(run: Run, s: PumpState, now_ns: u64) -> (Run, PumpState, Action) {
    tick_settled(run, settled(s, now_ns), now_ns)
}

/// Start a run of the record's mode (1 to 6).
fn start_run(state: &mut PumpState, now_ns: u64) -> (r: Run)
    requires
        is_mode(old(state).mode),
    ensures
        (r, *final(state)) == started(*old(state), now_ns),
{
    state.total_steps = state.steps;
    state.progress = progress(state.steps, state.steps);
    if state.mode == 1 {
        Run::Timed { started_ns: now_ns, duration_ns: state.time_rate }
    } else if state.mode == 2 {
        Run::Bulk
    } else if state.mode == 3 {
        Run::Rate { delay_ns: rate_delay(state.time_rate, state.steps_per_ml) }
    } else if state.mode == 4 {
        state.pull = false;
        Run::Calibration
    } else if state.mode == 5 {
        Run::Jog
    } else {
        Run::Continuous
    }
}

/// Take one counted step of `run`; returns the wait that follows it.
fn count_step(run: Run, state: &mut PumpState, now_ns: u64) -> (wait: u64)
    requires
        old(state).steps > 0,
    ensures
        *final(state) == counted(run, *old(state), now_ns),
        wait == if bolus_applies(PumpState { time_rate: time_left(run, *old(state), now_ns), ..*old(state) }) {
            0
        } else {
            step_wait(run, *old(state), now_ns)
        },
{
    let mut wait: u64 = 0;
    match run {
        Run::Timed { started_ns, duration_ns } => {
            let elapsed = if now_ns > started_ns { now_ns - started_ns } else { 0 };
            let left = if duration_ns > elapsed { duration_ns - elapsed } else { 0 };
            state.time_rate = left;
            wait = timed_delay(left, state.steps);
        },
        Run::Rate { delay_ns } => {
            wait = delay_ns;
        },
        _ => {},
    }
    if take_bolus_step(state, now_ns) {
        wait = 0;
    }
    state.steps = state.steps - 1;
    state.progress = progress(state.total_steps, state.steps);
    if is_moving_mode(state.mode) {
        state.reservoir_steps = step_reservoir(state.reservoir_steps, state.pull);
    }
    wait
}

/// Finish a run whose steps are used up.
fn complete_run(state: &mut PumpState)
    ensures
        *final(state) == completed(*old(state)),
{
    state.running = false;
    if state.mode == 1 || state.mode == 3 {
        state.time_rate = 0;
        state.active_bolus_dose = 0;
    }
}

impl Run {
    /// One iteration of the control loop at `now_ns` on the loop clock.
    pub fn tick(&mut self, state: &mut PumpState, now_ns: u64) -> (action: Action)
        ensures
            (*final(self), *final(state), action) == tick_spec(*old(self), *old(state), now_ns),
    {
        settle_bolus(state, now_ns);
        let mode = state.mode;
        if !state.running {
            let was = self.mode();
            *self = Run::Idle;
            if was == 0 {
                Action::Idle { wait_ns: IDLE_BACKOFF_NS }
            } else {
                Action::Finish { persist: is_moving_mode(was) }
            }
        } else if self.mode() != 0 && self.mode() != mode {
            let was = self.mode();
            *self = Run::Idle;
            Action::Finish { persist: is_moving_mode(was) }
        } else if mode < 1 || mode > 6 {
            Action::Hold { wait_ns: IDLE_BACKOFF_NS }
        } else if self.mode() == 0 {
            *self = start_run(state, now_ns);
            Action::Start { pull: state.pull }
        } else if state.pause {
            if let Run::Timed { .. } = *self {
                *self = Run::Timed { started_ns: now_ns, duration_ns: state.time_rate };
            }
            Action::Hold { wait_ns: PAUSE_TICK_NS }
        } else if mode == 6 {
            Action::Step { wait_ns: 0 }
        } else if state.steps == 0 {
            complete_run(state);
            *self = Run::Idle;
            Action::Finish { persist: is_moving_mode(mode) }
        } else {
            let wait = count_step(*self, state, now_ns);
            Action::Step { wait_ns: wait }
        }
    }
}

} // verus!
