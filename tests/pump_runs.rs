use syringe_pump::bolus::arm_bolus;
use syringe_pump::machine::{Action, Run, IDLE_BACKOFF_NS, PAUSE_TICK_NS};
use syringe_pump::state::PumpState;
use syringe_pump::timing::{progress, rate_delay, timed_delay, PULSE_WIDTH_NS};
use syringe_pump::wait::{Wait, WaitStep, Wake, POLL_INTERVAL_NS};

fn pump(mode: u8, steps: u64, steps_per_ml: u64, pull: bool, reservoir: i64) -> PumpState {
    let mut s = PumpState::new(steps_per_ml, 10_000, 0, 0, reservoir);
    s.mode = mode;
    s.steps = steps;
    s.pull = pull;
    s.running = true;
    s
}

/// Ticks until the run finishes; returns the step pulses and the finishing action.
fn run_to_end(run: &mut Run, s: &mut PumpState, mut now: u64) -> (u64, Action, u64) {
    let mut pulses: u64 = 0;
    for _ in 0..1_000_000 {
        let a = run.tick(s, now);
        match a {
            Action::Step { wait_ns } => {
                pulses += 1;
                now += wait_ns + 2 * PULSE_WIDTH_NS;
            }
            Action::Finish { .. } => return (pulses, a, now),
            Action::Start { .. } => now += PULSE_WIDTH_NS,
            other => panic!("unexpected action {:?}", other),
        }
    }
    panic!("run did not finish");
}

#[test]
fn bulk_run_of_one_hundred_steps() {
    for pull in [true, false] {
        let mut s = pump(2, 100, 50, pull, 1_000);
        let mut run = Run::Idle;
        let (pulses, last, _) = run_to_end(&mut run, &mut s, 0);
        assert_eq!(pulses, 100);
        assert_eq!(last, Action::Finish { persist: true });
        assert_eq!(s.steps, 0);
        assert_eq!(s.remaining_ul(), 0);
        assert_eq!(s.progress, 100);
        assert!(!s.running);
        assert_eq!(run, Run::Idle);
        // 100 steps at 50 steps per millilitre: 2.0 ml
        let moved = (s.reservoir_steps - 1_000) as f64 / 50.0;
        assert_eq!(moved, if pull { 2.0 } else { -2.0 });
        assert_eq!(run.tick(&mut s, 0), Action::Idle { wait_ns: IDLE_BACKOFF_NS });
    }
}

#[test]
fn rate_mode_fixed_delay() {
    // 2.0 ml/s at 100 steps/ml: 5 ms per step, less two pulse widths
    let expected = 5_000_000 - 2 * PULSE_WIDTH_NS;
    assert_eq!(rate_delay(2_000_000_000, 100), expected);
    let mut s = pump(3, 10, 100, false, 0);
    s.time_rate = 2_000_000_000;
    let mut run = Run::Idle;
    assert_eq!(run.tick(&mut s, 0), Action::Start { pull: false });
    assert_eq!(run, Run::Rate { delay_ns: expected });
    assert_eq!(run.tick(&mut s, 1), Action::Step { wait_ns: expected });
    assert_eq!(run.tick(&mut s, 2), Action::Step { wait_ns: expected });
}

#[test]
fn rate_delay_degenerate_inputs_clamp_to_zero() {
    assert_eq!(rate_delay(0, 100), 0);
    assert_eq!(rate_delay(2_000_000_000, 0), 0);
    assert_eq!(rate_delay(u64::MAX, u64::MAX), 0);
    // faster than the pulse itself allows
    assert_eq!(rate_delay(1_000_000_000_000_000, 1_000_000), 0);
}

#[test]
fn low_rates_keep_long_delays() {
    // 0.1 microlitre per second at 100 steps/ml: one step every 100 s
    assert_eq!(rate_delay(100_000, 100), 100_000_000_000 - 2 * PULSE_WIDTH_NS);
    // 1.8 ml/h = 0.5 microlitre per second at 200 steps/ml: one step every 10 s
    assert_eq!(rate_delay(500_000, 200), 10_000_000_000 - 2 * PULSE_WIDTH_NS);
    // a rate of one picolitre per second still yields a finite, huge wait
    assert_eq!(rate_delay(1, 1), 1_000_000_000_000_000_000 - 2 * PULSE_WIDTH_NS);
}

#[test]
fn timed_delay_values() {
    assert_eq!(timed_delay(1_000_000_000, 100), 10_000_000 - 2 * PULSE_WIDTH_NS);
    assert_eq!(timed_delay(1_000, 100), 0);
    assert_eq!(timed_delay(1_000_000, 0), 0);
}

#[test]
fn timed_run_takes_its_duration() {
    let duration: u64 = 3_000_000_000;
    let mut s = pump(1, 700, 100, false, 0);
    s.time_rate = duration;
    let mut run = Run::Idle;
    let start: u64 = 5_000;
    assert_eq!(run.tick(&mut s, start), Action::Start { pull: false });
    let (pulses, last, end) = run_to_end(&mut run, &mut s, start);
    assert_eq!(pulses, 700);
    assert_eq!(last, Action::Finish { persist: true });
    assert_eq!(end - start, duration);
    assert_eq!(s.time_rate, 0);
    assert_eq!(s.reservoir_steps, -700);
}

#[test]
fn progress_rounds_and_never_falls() {
    assert_eq!(progress(100, 50), 50);
    assert_eq!(progress(3, 1), 67);
    assert_eq!(progress(3, 2), 33);
    assert_eq!(progress(200, 1), 100);
    assert_eq!(progress(0, 0), 100);
    assert_eq!(progress(10, 10), 0);
    let mut s = pump(5, 37, 10, true, 0);
    let mut run = Run::Idle;
    run.tick(&mut s, 0);
    assert_eq!(s.progress, 0);
    let mut last = s.progress;
    while s.running {
        run.tick(&mut s, 0);
        assert!(s.progress >= last);
        last = s.progress;
    }
    assert_eq!(s.steps, 0);
    assert_eq!(s.progress, 100);
}

#[test]
fn reservoir_follows_direction() {
    let mut s = pump(5, 7, 10, true, 3);
    let mut run = Run::Idle;
    run_to_end(&mut run, &mut s, 0);
    assert_eq!(s.reservoir_steps, 10);
    let mut s = pump(5, 7, 10, false, 3);
    let mut run = Run::Idle;
    run_to_end(&mut run, &mut s, 0);
    assert_eq!(s.reservoir_steps, -4);
}

#[test]
fn calibration_dispenses_without_touching_reservoir() {
    let mut s = pump(4, 5, 10, true, 42);
    let mut run = Run::Idle;
    assert_eq!(run.tick(&mut s, 0), Action::Start { pull: false });
    assert!(!s.pull);
    let (pulses, last, _) = run_to_end(&mut run, &mut s, 0);
    assert_eq!(pulses, 5);
    assert_eq!(last, Action::Finish { persist: false });
    assert_eq!(s.reservoir_steps, 42);
    assert_eq!(s.progress, 100);
}

#[test]
fn continuous_run_counts_nothing() {
    let mut s = pump(6, 3, 10, false, 0);
    let mut run = Run::Idle;
    run.tick(&mut s, 0);
    for t in 0..10 {
        assert_eq!(run.tick(&mut s, t), Action::Step { wait_ns: 0 });
    }
    assert_eq!(s.steps, 3);
    assert_eq!(s.reservoir_steps, 0);
    s.running = false;
    assert_eq!(run.tick(&mut s, 11), Action::Finish { persist: false });
}

#[test]
fn stop_mid_run_persists() {
    let mut s = pump(2, 10, 10, false, 0);
    let mut run = Run::Idle;
    run.tick(&mut s, 0);
    run.tick(&mut s, 0);
    run.tick(&mut s, 0);
    s.running = false;
    assert_eq!(run.tick(&mut s, 0), Action::Finish { persist: true });
    assert_eq!(run, Run::Idle);
    assert_eq!(s.steps, 8);
    assert_eq!(s.reservoir_steps, -2);
}

#[test]
fn unknown_mode_is_ignored() {
    let mut s = pump(9, 10, 10, false, 0);
    let mut run = Run::Idle;
    assert_eq!(run.tick(&mut s, 0), Action::Hold { wait_ns: IDLE_BACKOFF_NS });
    assert_eq!(s.steps, 10);
    assert_eq!(run, Run::Idle);
}

#[test]
fn pause_holds_and_rebases_timed_run() {
    let mut s = pump(1, 10, 10, false, 0);
    s.time_rate = 1_000_000_000;
    let mut run = Run::Idle;
    run.tick(&mut s, 0);
    run.tick(&mut s, 100_000_000);
    assert_eq!(s.time_rate, 900_000_000);
    s.pause = true;
    assert_eq!(run.tick(&mut s, 5_000_000_000), Action::Hold { wait_ns: PAUSE_TICK_NS });
    assert_eq!(s.steps, 9);
    assert_eq!(run, Run::Timed { started_ns: 5_000_000_000, duration_ns: 900_000_000 });
    s.pause = false;
    run.tick(&mut s, 5_100_000_000);
    assert_eq!(s.time_rate, 800_000_000);
}

#[test]
fn bolus_steps_go_without_waiting() {
    let mut s = pump(3, 50, 100, false, 0);
    s.time_rate = 2_000_000_000;
    s.bolus_dose_ul = 30; // 3 steps at 100 steps/ml
    s.bolus_cooldown_ns = 60_000_000_000;
    let mut run = Run::Idle;
    run.tick(&mut s, 0);
    assert!(arm_bolus(&mut s));
    assert_eq!(s.active_bolus_dose, 3);
    assert_eq!(run.tick(&mut s, 10), Action::Step { wait_ns: 0 });
    assert_eq!(s.active_bolus_cooldown_ns, 60_000_000_000);
    assert_eq!(s.bolus_started_ns, 10);
    assert_eq!(run.tick(&mut s, 20), Action::Step { wait_ns: 0 });
    assert_eq!(run.tick(&mut s, 30), Action::Step { wait_ns: 0 });
    assert_eq!(s.active_bolus_dose, 0);
    let regular = rate_delay(2_000_000_000, 100);
    assert_eq!(run.tick(&mut s, 1_000_000_010), Action::Step { wait_ns: regular });
    assert_eq!(s.active_bolus_cooldown_ns, 59_000_000_000);
    // changing the configuration does not move a cooldown already running
    s.bolus_cooldown_ns = 1_000;
    run.tick(&mut s, 2_000_000_010);
    assert_eq!(s.active_bolus_cooldown_ns, 58_000_000_000);
    run.tick(&mut s, 70_000_000_000);
    assert_eq!(s.active_bolus_cooldown_ns, 0);
}

#[test]
fn mode_change_finishes_the_run_first() {
    let mut s = pump(2, 10, 10, false, 0);
    let mut run = Run::Idle;
    run.tick(&mut s, 0);
    run.tick(&mut s, 0);
    s.mode = 4;
    assert_eq!(run.tick(&mut s, 0), Action::Finish { persist: true });
    assert_eq!(run, Run::Idle);
    assert_eq!(run.tick(&mut s, 0), Action::Start { pull: false });
    assert_eq!(run, Run::Calibration);
    s.mode = 9;
    assert_eq!(run.tick(&mut s, 0), Action::Finish { persist: false });
    assert_eq!(run.tick(&mut s, 0), Action::Hold { wait_ns: IDLE_BACKOFF_NS });
    assert_eq!(s.steps, 9);
}

#[test]
fn bolus_outside_infusion_modes_has_no_effect() {
    let mut s = pump(2, 50, 100, false, 0);
    s.bolus_dose_ul = 30;
    assert!(!arm_bolus(&mut s));
    assert_eq!(s.active_bolus_dose, 0);
    // a bolus left over when the mode changes is dropped
    let mut s = pump(3, 50, 100, false, 0);
    s.bolus_dose_ul = 30;
    assert!(arm_bolus(&mut s));
    s.mode = 2;
    let mut run = Run::Idle;
    run.tick(&mut s, 0);
    assert_eq!(s.active_bolus_dose, 0);
}

#[test]
fn completed_infusion_clears_bolus() {
    let mut s = pump(3, 2, 100, false, 0);
    s.time_rate = 1_000;
    s.bolus_dose_ul = 100;
    let mut run = Run::Idle;
    run.tick(&mut s, 0);
    assert!(arm_bolus(&mut s));
    let (_, last, _) = run_to_end(&mut run, &mut s, 0);
    assert_eq!(last, Action::Finish { persist: true });
    assert_eq!(s.active_bolus_dose, 0);
    assert_eq!(s.time_rate, 0);
}

/// Follows a wait as the shell would: `running` flips at `change_at`.
fn follow_wait(delay: u64, change_at: u64) -> (u64, Wake) {
    let w = Wait::new(delay, true);
    let mut elapsed: u64 = 0;
    loop {
        let running = elapsed < change_at;
        match w.next(elapsed, running) {
            WaitStep::Sleep { ns } => elapsed += ns,
            WaitStep::Done { reason } => return (elapsed, reason),
        }
    }
}

#[test]
fn stop_is_seen_within_one_poll() {
    let (end, why) = follow_wait(10_000_000_000, 1_200_000_000);
    assert_eq!(why, Wake::Changed);
    assert_eq!(end, 1_500_000_000);
    assert!(end - 1_200_000_000 <= POLL_INTERVAL_NS);
    let (end, why) = follow_wait(10_000_000_000, 20_000_000_000);
    assert_eq!(why, Wake::Elapsed);
    assert_eq!(end, 10_000_000_000);
    let (end, why) = follow_wait(700_000_000, u64::MAX);
    assert_eq!((end, why), (700_000_000, Wake::Elapsed));
    let (end, why) = follow_wait(10_000_000_000, 0);
    assert_eq!((end, why), (0, Wake::Changed));
}
