//! The interruptible wait between steps: a timer for the step's wait races a
//! watcher that re-reads `running` at a fixed interval, and whichever ends
//! first ends the wait. The device shell sleeps as `Wait::next` tells it.
use vstd::prelude::*;

verus! {

/// How often the watcher re-reads `running`, in nanoseconds.
pub const POLL_INTERVAL_NS: u64 = 500_000_000;

/// Why a wait ended.
#[derive(PartialEq, Eq, Structural, Clone, Copy, Debug)]
pub enum Wake {
    /// The timer ran out.
    Elapsed,
    /// `running` changed.
    Changed,
}

/// What the shell does next during a wait.
#[derive(PartialEq, Eq, Structural, Clone, Copy, Debug)]
pub enum WaitStep {
    /// Sleep this long, then read `running` and ask again.
    Sleep { ns: u64 },
    /// The wait is over.
    Done { reason: Wake },
}

/// One wait: its length and the value of `running` when it began.
#[derive(PartialEq, Eq, Structural, Clone, Copy, Debug)]
pub struct Wait {
    pub delay_ns: u64,
    pub running_at_start: bool,
}

/// The next move at `elapsed_ns` into the wait, with `running` read as
/// `running_now`: the watcher wins as soon as it sees a change; otherwise
/// the timer ends the wait at its length; otherwise sleep until the next
/// poll or the end of the timer, whichever comes first.
pub open spec fn next_spec(w: Wait, elapsed_ns: nat, running_now: bool) -> WaitStep {
    if running_now != w.running_at_start {
        WaitStep::Done { reason: Wake::Changed }
    } else if elapsed_ns >= w.delay_ns {
        WaitStep::Done { reason: Wake::Elapsed }
    } else if w.delay_ns - elapsed_ns < POLL_INTERVAL_NS {
        WaitStep::Sleep { ns: (w.delay_ns - elapsed_ns) as u64 }
    } else {
        WaitStep::Sleep { ns: POLL_INTERVAL_NS }
    }
}

/// When and why a wait ends, from `elapsed_ns` on, if `running` flips at
/// `change_at_ns` and the shell sleeps as told.
pub open spec fn wait_end(w: Wait, elapsed_ns: nat, change_at_ns: nat) -> (nat, Wake)
    decreases w.delay_ns - elapsed_ns,
{
    let running_now = if elapsed_ns >= change_at_ns {
        !w.running_at_start
    } else {
        w.running_at_start
    };
    match next_spec(w, elapsed_ns, running_now) {
        WaitStep::Done { reason } => (elapsed_ns, reason),
        WaitStep::Sleep { ns } => wait_end(w, (elapsed_ns + ns) as nat, change_at_ns),
    }
}

impl Wait {
    pub fn new(delay_ns: u64, running_at_start: bool) -> (r: Wait)
        ensures
            r.delay_ns == delay_ns,
            r.running_at_start == running_at_start,
    {
        Wait { delay_ns, running_at_start }
    }

    /// The next move at `elapsed_ns` into the wait, with `running` now read
    /// as `running_now`.
    pub fn next(&self, elapsed_ns: u64, running_now: bool) -> (r: WaitStep)
        ensures
            r == next_spec(*self, elapsed_ns as nat, running_now),
            r matches WaitStep::Sleep { ns } ==> 0 < ns <= POLL_INTERVAL_NS,
    {
        if running_now != self.running_at_start {
            WaitStep::Done { reason: Wake::Changed }
        } else if elapsed_ns >= self.delay_ns {
            WaitStep::Done { reason: Wake::Elapsed }
        } else if self.delay_ns - elapsed_ns < POLL_INTERVAL_NS {
            WaitStep::Sleep { ns: self.delay_ns - elapsed_ns }
        } else {
            WaitStep::Sleep { ns: POLL_INTERVAL_NS }
        }
    }
}

/// A wait never outlasts its timer and ends for a change only once the
/// change has happened; and a change of `running` during the wait is seen
/// less than one poll interval after it happens, however long the wait.
pub proof fn lemma_wait_latency(w: Wait, elapsed_ns: nat, change_at_ns: nat)
    requires
        elapsed_ns <= w.delay_ns,
        elapsed_ns < change_at_ns + POLL_INTERVAL_NS,
    ensures
        ({
            let (end, why) = wait_end(w, elapsed_ns, change_at_ns);
            &&& elapsed_ns <= end <= w.delay_ns
            &&& change_at_ns <= w.delay_ns ==> end < change_at_ns + POLL_INTERVAL_NS
            &&& why == Wake::Changed ==> end >= change_at_ns
            &&& why == Wake::Elapsed ==> end == w.delay_ns && end < change_at_ns
        }),
    decreases w.delay_ns - elapsed_ns,
{
    let running_now = if elapsed_ns >= change_at_ns {
        !w.running_at_start
    } else {
        w.running_at_start
    };
    match next_spec(w, elapsed_ns, running_now) {
        WaitStep::Done { reason } => {},
        WaitStep::Sleep { ns } => {
            lemma_wait_latency(w, (elapsed_ns + ns) as nat, change_at_ns);
        },
    }
}

} // verus!
