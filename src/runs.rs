//! What runs of the control loop do over many ticks.
use vstd::prelude::*;
use crate::machine::{Action, Run, tick_spec, time_left};
use crate::state::{PumpState, bolus_mode, counts_steps, moves_reservoir};
use crate::timing::{
    lemma_progress_bounded, lemma_progress_monotone, lemma_timed_period, progress_spec,
    pulse_overhead, rate_delay_spec, timed_delay_spec,
};

verus! {

/// The loop after one tick at each clock reading of `times`, in order, with
/// the actions it asked for.
pub open spec fn ticks(run: Run, s: PumpState, times: Seq<u64>) -> (Run, PumpState, Seq<Action>)
    decreases times.len(),
{
    if times.len() == 0 {
        (run, s, Seq::empty())
    } else {
        let (r1, s1, a) = tick_spec(run, s, times[0]);
        let (r2, s2, rest) = ticks(r1, s1, times.drop_first());
        (r2, s2, seq![a].add(rest))
    }
}

/// A run of the record's mode is under way and stepping.
pub open spec fn stepping(run: Run, s: PumpState) -> bool {
    &&& run.mode_spec() == s.mode
    &&& counts_steps(s.mode)
    &&& s.running
    &&& !s.pause
}

/// The reservoir after `n` steps in direction `pull`.
pub open spec fn reservoir_after_steps(level: int, pull: bool, n: nat) -> int {
    if pull { level + n } else { level - n }
}

/// Within a run, a tick never lowers the progress, and the tick that uses
/// the last step leaves it at exactly 100.
pub proof fn lemma_tick_progress(run: Run, s: PumpState, now_ns: u64)
    requires
        stepping(run, s),
        s.steps <= s.total_steps,
        s.progress == progress_spec(s.total_steps as nat, s.steps as nat),
    ensures
        ({
            let (r, s2, a) = tick_spec(run, s, now_ns);
            &&& s2.progress >= s.progress
            &&& s2.steps <= s2.total_steps
            &&& s2.total_steps == s.total_steps
            &&& s2.steps == 0 ==> s2.progress == 100
            &&& s2.progress == progress_spec(s2.total_steps as nat, s2.steps as nat)
        }),
{
    if s.steps > 0 {
        lemma_progress_monotone(s.total_steps as nat, s.steps as nat, (s.steps - 1) as nat);
        lemma_progress_bounded(s.total_steps as nat, (s.steps - 1) as nat);
    } else {
        lemma_progress_monotone(s.total_steps as nat, 0, 0);
    }
}

/// `n` ticks of a run that moves fluid, with at least `n` steps left, change
/// the reservoir by exactly `n` steps: up when withdrawing, down when
/// dispensing (that is, by `n / steps_per_ml` millilitres).
pub proof fn lemma_reservoir_moves_by_steps(run: Run, s: PumpState, times: Seq<u64>)
    requires
        stepping(run, s),
        moves_reservoir(s.mode),
        s.steps >= times.len(),
        i64::MIN + times.len() <= s.reservoir_steps <= i64::MAX - times.len(),
    ensures
        ({
            let (r, s2, acts) = ticks(run, s, times);
            &&& s2.reservoir_steps == reservoir_after_steps(
                s.reservoir_steps as int,
                s.pull,
                times.len(),
            )
            &&& s2.steps == s.steps - times.len()
            &&& acts.len() == times.len()
            &&& forall|i: int| 0 <= i < acts.len() ==> (acts[i] is Step)
        }),
    decreases times.len(),
{
    if times.len() > 0 {
        let (r1, s1, a) = tick_spec(run, s, times[0]);
        assert(stepping(r1, s1));
        lemma_reservoir_moves_by_steps(r1, s1, times.drop_first());
        let (r2, s2, rest) = ticks(r1, s1, times.drop_first());
        assert forall|i: int| 0 <= i < seq![a].add(rest).len() implies (seq![a].add(rest)[i] is Step) by {
            if i > 0 {
                assert(seq![a].add(rest)[i] == rest[i - 1]);
            }
        }
    }
}

/// A bolus tick: with a bolus pending, the step is taken without waiting and
/// uses one bolus step; if no cooldown was running, one starts at once, from
/// the configured length.
pub proof fn lemma_bolus_tick(run: Run, s: PumpState, now_ns: u64)
    requires
        stepping(run, s),
        bolus_mode(s.mode),
        s.steps > 0,
        s.active_bolus_dose > 0,
    ensures
        ({
            let (r, s2, a) = tick_spec(run, s, now_ns);
            &&& a == Action::Step { wait_ns: 0 }
            &&& s2.active_bolus_dose == s.active_bolus_dose - 1
            &&& s.active_bolus_cooldown_ns == 0 ==> {
                &&& s2.active_bolus_cooldown_ns == s.bolus_cooldown_ns
                &&& s2.bolus_started_ns == now_ns
            }
            &&& stepping(r, s2)
        }),
{
}

/// A bolus of `d` steps makes exactly the next `d` steps of a mode-1 or
/// mode-3 run go without waiting, after which no bolus is pending.
pub proof fn lemma_bolus_length(run: Run, s: PumpState, times: Seq<u64>)
    requires
        stepping(run, s),
        bolus_mode(s.mode),
        times.len() == s.active_bolus_dose,
        s.steps >= times.len(),
    ensures
        ({
            let (r, s2, acts) = ticks(run, s, times);
            &&& forall|i: int| 0 <= i < acts.len() ==> acts[i] == Action::Step { wait_ns: 0 }
            &&& acts.len() == times.len()
            &&& s2.active_bolus_dose == 0
            &&& stepping(r, s2)
        }),
    decreases times.len(),
{
    if times.len() > 0 {
        lemma_bolus_tick(run, s, times[0]);
        let (r1, s1, a) = tick_spec(run, s, times[0]);
        lemma_bolus_length(r1, s1, times.drop_first());
        let (r2, s2, rest) = ticks(r1, s1, times.drop_first());
        assert forall|i: int| 0 <= i < seq![a].add(rest).len() implies seq![a].add(rest)[i]
            == Action::Step { wait_ns: 0 } by {
            if i > 0 {
                assert(seq![a].add(rest)[i] == rest[i - 1]);
            }
        }
    }
}

/// The record's invariants hold after every tick, whatever the shell wrote
/// before it: a pending bolus belongs to mode 1 or 3, and progress is a
/// percentage.
pub proof fn lemma_tick_invariants(run: Run, s: PumpState, now_ns: u64)
    requires
        s.progress <= 100,
    ensures
        ({
            let (r, s2, a) = tick_spec(run, s, now_ns);
            &&& s2.active_bolus_dose > 0 ==> bolus_mode(s2.mode)
            &&& s2.progress <= 100
        }),
{
    lemma_progress_bounded(s.steps as nat, s.steps as nat);
    lemma_progress_bounded(s.total_steps as nat, (s.steps - 1) as nat);
}

/// A run with `n` steps left takes exactly `n` step ticks and then one tick
/// that finishes it: the pump stops with no steps left at 100 percent, the
/// loop goes back to idle, and the reservoir is saved where the mode moves
/// fluid.
pub proof fn lemma_run_completes(run: Run, s: PumpState, times: Seq<u64>)
    requires
        stepping(run, s),
        times.len() == s.steps + 1,
        s.steps <= s.total_steps,
        s.progress == progress_spec(s.total_steps as nat, s.steps as nat),
    ensures
        ({
            let (r, s2, acts) = ticks(run, s, times);
            &&& r == Run::Idle
            &&& !s2.running
            &&& s2.steps == 0
            &&& s2.progress == 100
            &&& acts.len() == times.len()
            &&& forall|i: int| 0 <= i < s.steps ==> (acts[i] is Step)
            &&& acts[s.steps as int] == Action::Finish { persist: moves_reservoir(s.mode) }
        }),
    decreases times.len(),
{
    lemma_tick_progress(run, s, times[0]);
    let (r1, s1, a) = tick_spec(run, s, times[0]);
    if s.steps == 0 {
        assert(times.drop_first().len() == 0);
        assert(ticks(r1, s1, times.drop_first()) == (r1, s1, Seq::<Action>::empty()));
        assert(seq![a].add(Seq::<Action>::empty()) =~= seq![a]);
    } else {
        lemma_run_completes(r1, s1, times.drop_first());
        let (r2, s2, rest) = ticks(r1, s1, times.drop_first());
        assert forall|i: int| 0 <= i < s.steps implies (seq![a].add(rest)[i] is Step) by {
            if i > 0 {
                assert(seq![a].add(rest)[i] == rest[i - 1]);
            }
        }
        assert(seq![a].add(rest)[s.steps as int] == rest[s.steps - 1]);
    }
}

/// The time an action takes on an ideal clock: a step lasts its wait plus
/// the pulse overhead; anything else takes no time.
pub open spec fn action_time(a: Action) -> nat {
    match a {
        Action::Step { wait_ns } => (wait_ns + pulse_overhead()) as nat,
        _ => 0,
    }
}

/// The loop after `n` ticks on an ideal clock that starts at `now_ns` and
/// advances by the time each action takes; the last component is the clock.
pub open spec fn ideal_ticks(run: Run, s: PumpState, now_ns: u64, n: nat) -> (Run, PumpState, nat)
    decreases n,
{
    if n == 0 {
        (run, s, now_ns as nat)
    } else {
        let (r1, s1, a) = tick_spec(run, s, now_ns);
        let next = now_ns + action_time(a);
        if next > u64::MAX {
            (r1, s1, next as nat)
        } else {
            ideal_ticks(r1, s1, next as u64, (n - 1) as nat)
        }
    }
}

/// On an ideal clock, a mode-1 run keeps to its budget: from any point with
/// time left for each step's pulses, the remaining steps end exactly when
/// the time left runs out.
proof fn lemma_timed_steps_fill_time(run: Run, s: PumpState, now_ns: u64)
    requires
        stepping(run, s),
        s.mode == 1,
        s.active_bolus_dose == 0,
        s.steps > 0,
        run matches Run::Timed { started_ns, duration_ns } && started_ns <= now_ns
            && now_ns - started_ns <= duration_ns && now_ns + (duration_ns - (now_ns
            - started_ns)) <= u64::MAX,
        time_left(run, s, now_ns) >= pulse_overhead() * s.steps,
    ensures
        ideal_ticks(run, s, now_ns, s.steps as nat).2 == now_ns + time_left(run, s, now_ns),
        ideal_ticks(run, s, now_ns, s.steps as nat).1.steps == 0,
    decreases s.steps,
{
    let rem = time_left(run, s, now_ns) as int;
    let (r1, s1, a) = tick_spec(run, s, now_ns);
    lemma_timed_period(rem as nat, s.steps as nat);
    let q = rem / s.steps as int;
    let period = timed_delay_spec(rem as nat, s.steps as nat) + pulse_overhead();
    assert(a == Action::Step { wait_ns: timed_delay_spec(rem as nat, s.steps as nat) as u64 });
    assert(action_time(a) == period);
    let next = (now_ns + period) as u64;
    assert(now_ns + period <= u64::MAX);
    assert(ideal_ticks(run, s, now_ns, s.steps as nat) == ideal_ticks(r1, s1, next, (s.steps - 1) as nat));
    if s.steps == 1 {
        assert(ideal_ticks(r1, s1, next, 0) == (r1, s1, next as nat));
    } else {
        assert(time_left(r1, s1, next) == rem - q);
        lemma_timed_steps_fill_time(r1, s1, next);
    }
}

/// A mode-1 run of `steps` over a duration that leaves each step at least
/// its pulse overhead, run on an ideal clock from the tick that starts it,
/// uses its steps in exactly that duration.
pub proof fn lemma_timed_run_keeps_duration(s: PumpState, start_ns: u64)
    requires
        s.mode == 1,
        s.running,
        !s.pause,
        s.active_bolus_dose == 0,
        s.steps > 0,
        s.time_rate >= pulse_overhead() * s.steps,
        start_ns + s.time_rate <= u64::MAX,
    ensures
        ({
            let (r, s2, end) = ideal_ticks(Run::Idle, s, start_ns, (s.steps + 1) as nat);
            &&& end == start_ns + s.time_rate
            &&& s2.steps == 0
        }),
{
    let (r1, s1, a) = tick_spec(Run::Idle, s, start_ns);
    assert(a is Start);
    assert(r1 == Run::Timed { started_ns: start_ns, duration_ns: s.time_rate });
    assert(time_left(r1, s1, start_ns) == s.time_rate);
    lemma_timed_steps_fill_time(r1, s1, start_ns);
}

/// `ticks` one tick further: the ticks at `times` and then one at `t`.
pub proof fn lemma_ticks_push(run: Run, s: PumpState, times: Seq<u64>, t: u64)
    ensures
        ({
            let (r1, s1, acts) = ticks(run, s, times);
            let (r2, s2, a) = tick_spec(r1, s1, t);
            ticks(run, s, times.push(t)) == (r2, s2, acts.push(a))
        }),
    decreases times.len(),
{
    if times.len() == 0 {
        assert(times.push(t).drop_first() =~= Seq::<u64>::empty());
        let (r2, s2, a) = tick_spec(run, s, t);
        assert(ticks(r2, s2, Seq::<u64>::empty()) == (r2, s2, Seq::<Action>::empty()));
        assert(seq![a].add(Seq::<Action>::empty()) =~= Seq::<Action>::empty().push(a));
    } else {
        let (r1, s1, a) = tick_spec(run, s, times[0]);
        assert(times.push(t).drop_first() =~= times.drop_first().push(t));
        lemma_ticks_push(r1, s1, times.drop_first(), t);
        let (r2, s2, rest) = ticks(r1, s1, times.drop_first());
        let (r3, s3, b) = tick_spec(r2, s2, t);
        assert(seq![a].add(rest.push(b)) =~= seq![a].add(rest).push(b));
    }
}

/// The record's mode names a mode that counts steps, and the pump is told
/// to run, unpaused.
pub open spec fn ready_to_run(s: PumpState) -> bool {
    &&& counts_steps(s.mode)
    &&& s.running
    &&& !s.pause
}

/// The tick that starts a run from idle: the run takes the record's mode,
/// the total is the steps left, and progress starts from it.
pub proof fn lemma_start_tick(s: PumpState, now_ns: u64)
    requires
        ready_to_run(s),
    ensures
        ({
            let (r, s2, a) = tick_spec(Run::Idle, s, now_ns);
            &&& a is Start
            &&& stepping(r, s2)
            &&& s2.steps == s.steps
            &&& s2.total_steps == s.steps
            &&& s2.progress == progress_spec(s.steps as nat, s.steps as nat)
            &&& s2.reservoir_steps == s.reservoir_steps
            &&& s2.mode == s.mode
            &&& s2.active_bolus_dose == if bolus_mode(s.mode) { s.active_bolus_dose } else { 0 }
            &&& s2.time_rate == s.time_rate
            &&& s2.steps_per_ml == s.steps_per_ml
            &&& (s.mode != 4 ==> s2.pull == s.pull)
            &&& (s.mode == 3 ==> r == Run::Rate {
                delay_ns: rate_delay_spec(s.time_rate as nat, s.steps_per_ml as nat) as u64,
            })
        }),
{
}

/// Where a run stands: under way with its progress matching the steps left,
/// or over, stopped at 100 percent.
pub open spec fn run_state(run: Run, s: PumpState) -> bool {
    ||| {
        &&& stepping(run, s)
        &&& s.steps <= s.total_steps
        &&& s.progress == progress_spec(s.total_steps as nat, s.steps as nat)
        &&& s.progress <= 100
    }
    ||| {
        &&& run == Run::Idle
        &&& !s.running
        &&& s.progress == 100
    }
}

proof fn lemma_run_state_tick(run: Run, s: PumpState, now_ns: u64)
    requires
        run_state(run, s),
    ensures
        ({
            let (r, s2, a) = tick_spec(run, s, now_ns);
            &&& run_state(r, s2)
            &&& s2.progress >= s.progress
        }),
{
    if stepping(run, s) && s.steps <= s.total_steps && s.progress == progress_spec(
        s.total_steps as nat,
        s.steps as nat,
    ) {
        lemma_tick_progress(run, s, now_ns);
        lemma_progress_bounded(s.total_steps as nat, (s.steps - 1) as nat);
    }
}

proof fn lemma_run_state_after(s: PumpState, times: Seq<u64>, k: int)
    requires
        ready_to_run(s),
        1 <= k <= times.len(),
    ensures
        run_state(ticks(Run::Idle, s, times.take(k)).0, ticks(Run::Idle, s, times.take(k)).1),
    decreases k,
{
    lemma_ticks_push(Run::Idle, s, times.take(k - 1), times[k - 1]);
    assert(times.take(k - 1).push(times[k - 1]) =~= times.take(k));
    if k == 1 {
        assert(times.take(0) =~= Seq::<u64>::empty());
        lemma_start_tick(s, times[0]);
        lemma_progress_bounded(s.steps as nat, s.steps as nat);
    } else {
        lemma_run_state_after(s, times, k - 1);
        let (r, s1, acts) = ticks(Run::Idle, s, times.take(k - 1));
        lemma_run_state_tick(r, s1, times[k - 1]);
    }
}

/// Within a run started from idle, and after it ends, progress never falls
/// and stays a percentage: of any two points `i <= j` ticks into it, the
/// later shows at least the earlier's progress.
pub proof fn lemma_progress_never_falls(s: PumpState, times: Seq<u64>, i: int, j: int)
    requires
        ready_to_run(s),
        1 <= i <= j <= times.len(),
    ensures
        ticks(Run::Idle, s, times.take(i)).1.progress <= ticks(Run::Idle, s, times.take(j)).1.progress,
        ticks(Run::Idle, s, times.take(j)).1.progress <= 100,
    decreases j - i,
{
    lemma_run_state_after(s, times, j);
    if i < j {
        lemma_progress_never_falls(s, times, i, j - 1);
        lemma_run_state_after(s, times, j - 1);
        lemma_ticks_push(Run::Idle, s, times.take(j - 1), times[j - 1]);
        assert(times.take(j - 1).push(times[j - 1]) =~= times.take(j));
        let (r, s1, acts) = ticks(Run::Idle, s, times.take(j - 1));
        lemma_run_state_tick(r, s1, times[j - 1]);
    }
}

/// A run that moves fluid, started from idle: after the starting tick and
/// `n` step ticks the reservoir has moved by exactly `n` steps, up when
/// withdrawing and down when dispensing (`n / steps_per_ml` millilitres).
pub proof fn lemma_run_moves_reservoir(s: PumpState, times: Seq<u64>)
    requires
        ready_to_run(s),
        moves_reservoir(s.mode),
        times.len() >= 1,
        s.steps >= times.len() - 1,
        i64::MIN + times.len() <= s.reservoir_steps <= i64::MAX - times.len(),
    ensures
        ({
            let (r, s2, acts) = ticks(Run::Idle, s, times);
            &&& s2.reservoir_steps == reservoir_after_steps(
                s.reservoir_steps as int,
                s.pull,
                (times.len() - 1) as nat,
            )
            &&& acts[0] is Start
            &&& forall|i: int| 1 <= i < acts.len() ==> (acts[i] is Step)
        }),
{
    lemma_start_tick(s, times[0]);
    let (r1, s1, a) = tick_spec(Run::Idle, s, times[0]);
    lemma_reservoir_moves_by_steps(r1, s1, times.drop_first());
    let (r2, s2, rest) = ticks(r1, s1, times.drop_first());
    assert forall|i: int| 1 <= i < seq![a].add(rest).len() implies (seq![a].add(rest)[i] is Step) by {
        assert(seq![a].add(rest)[i] == rest[i - 1]);
    }
}

/// Mode-3 steps without a bolus wait the run's fixed delay.
proof fn lemma_rate_steps(run: Run, s: PumpState, times: Seq<u64>, delay: u64)
    requires
        stepping(run, s),
        s.mode == 3,
        run == (Run::Rate { delay_ns: delay }),
        s.active_bolus_dose == 0,
        s.steps >= times.len(),
    ensures
        ({
            let (r, s2, acts) = ticks(run, s, times);
            &&& acts.len() == times.len()
            &&& forall|i: int| 0 <= i < acts.len() ==> acts[i] == Action::Step { wait_ns: delay }
        }),
    decreases times.len(),
{
    if times.len() > 0 {
        let (r1, s1, a) = tick_spec(run, s, times[0]);
        lemma_rate_steps(r1, s1, times.drop_first(), delay);
        let (r2, s2, rest) = ticks(r1, s1, times.drop_first());
        assert forall|i: int| 0 <= i < seq![a].add(rest).len() implies seq![a].add(rest)[i]
            == Action::Step { wait_ns: delay } by {
            if i > 0 {
                assert(seq![a].add(rest)[i] == rest[i - 1]);
            }
        }
    }
}

/// A mode-3 run started from idle with no bolus: every step waits the same
/// delay, fixed at the start from the flow rate and calibration, whatever
/// the clock says and however many steps are left.
pub proof fn lemma_rate_run_fixed_delay(s: PumpState, times: Seq<u64>)
    requires
        ready_to_run(s),
        s.mode == 3,
        s.active_bolus_dose == 0,
        times.len() >= 1,
        s.steps >= times.len() - 1,
    ensures
        ({
            let (r, s2, acts) = ticks(Run::Idle, s, times);
            let d = rate_delay_spec(s.time_rate as nat, s.steps_per_ml as nat) as u64;
            &&& acts[0] is Start
            &&& forall|i: int| 1 <= i < acts.len() ==> acts[i] == Action::Step { wait_ns: d }
        }),
{
    lemma_start_tick(s, times[0]);
    let d = rate_delay_spec(s.time_rate as nat, s.steps_per_ml as nat) as u64;
    let (r1, s1, a) = tick_spec(Run::Idle, s, times[0]);
    lemma_rate_steps(r1, s1, times.drop_first(), d);
    let (r2, s2, rest) = ticks(r1, s1, times.drop_first());
    assert forall|i: int| 1 <= i < seq![a].add(rest).len() implies seq![a].add(rest)[i]
        == Action::Step { wait_ns: d } by {
        assert(seq![a].add(rest)[i] == rest[i - 1]);
    }
}

} // verus!
