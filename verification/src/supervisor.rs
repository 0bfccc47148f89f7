//! Keeping workers alive: the restart cycle of one worker, and the count
//! of workers that are still there.

use vstd::prelude::*;

verus! {

/// The wait between a worker's failure and its relaunch, in milliseconds.
pub const RESTART_COOLDOWN_MS: u64 = 1_000;

/// The time between two liveness reports, in milliseconds.
pub const LIVENESS_INTERVAL_MS: u64 = 60_000;

/// Where a supervised worker stands.
#[derive(Clone, Copy, Debug, PartialEq, Eq, Structural)]
pub enum Lifecycle {
    /// The worker's loop is running.
    Running,
    /// The loop ended with an error that has yet to be reported.
    Failed,
    /// The error is reported; the cooldown is being waited out.
    Cooldown,
}

/// What the supervisor saw happen.
#[derive(Clone, Copy, Debug, PartialEq, Eq, Structural)]
pub enum Signal {
    /// The worker's loop ended with an error.
    Exited,
    /// The error has been reported.
    Reported,
    /// The cooldown is over.
    Elapsed,
}

/// What the supervisor is to do next for the worker.
#[derive(Clone, Copy, Debug, PartialEq, Eq, Structural)]
pub enum Directive {
    /// Report the worker's error, then signal `Reported`.
    ReportFailure,
    /// Wait `millis`, then signal `Elapsed`.
    Wait { millis: u64 },
    /// Start the worker's loop again, under the same number.
    Relaunch,
}

/// A signal that does not fit the worker's place in the cycle.
#[derive(Clone, Copy, Debug, PartialEq, Eq, Structural)]
pub struct OutOfTurn {
    /// Where the worker stood, and still stands.
    pub state: Lifecycle,
    /// The signal that was refused.
    pub signal: Signal,
}

/// The signal that moves a worker on from `state`.
pub open spec fn awaited(state: Lifecycle) -> Signal {
    match state {
        Lifecycle::Running => Signal::Exited,
        Lifecycle::Failed => Signal::Reported,
        Lifecycle::Cooldown => Signal::Elapsed,
    }
}

/// The state that follows `state`: running, failed, cooling down, running.
pub open spec fn successor(state: Lifecycle) -> Lifecycle {
    match state {
        Lifecycle::Running => Lifecycle::Failed,
        Lifecycle::Failed => Lifecycle::Cooldown,
        Lifecycle::Cooldown => Lifecycle::Running,
    }
}

/// What is to be done on leaving `state`, with a cooldown of `cooldown_ms`.
pub open spec fn directive_on_leaving(state: Lifecycle, cooldown_ms: u64) -> Directive {
    match state {
        Lifecycle::Running => Directive::ReportFailure,
        Lifecycle::Failed => Directive::Wait { millis: cooldown_ms },
        Lifecycle::Cooldown => Directive::Relaunch,
    }
}

/// The restart cycle of one worker.
#[derive(Clone, Copy, Debug, PartialEq, Eq, Structural)]
pub struct RestartCycle {
    /// The worker's number.
    pub worker: usize,
    /// The wait before every relaunch, in milliseconds. It does not grow.
    pub cooldown_ms: u64,
    /// Where the worker stands.
    pub state: Lifecycle,
}

impl RestartCycle {
    /// The cycle after `signal`: one state further if the signal is the
    /// awaited one, unchanged if not.
    pub open spec fn after(self, signal: Signal) -> RestartCycle {
        if signal == awaited(self.state) {
            RestartCycle { state: successor(self.state), ..self }
        } else {
            self
        }
    }

    /// The cycle of a running worker, with the standard cooldown.
    pub fn new(worker: usize) -> (cycle: RestartCycle)
        ensures
            cycle == (RestartCycle {
                worker,
                cooldown_ms: RESTART_COOLDOWN_MS,
                state: Lifecycle::Running,
            }),
    {
        RestartCycle { worker, cooldown_ms: RESTART_COOLDOWN_MS, state: Lifecycle::Running }
    }

    /// The cycle of a running worker, with a cooldown of `cooldown_ms`.
    pub fn with_cooldown(worker: usize, cooldown_ms: u64) -> (cycle: RestartCycle)
        ensures
            cycle == (RestartCycle { worker, cooldown_ms, state: Lifecycle::Running }),
    {
        RestartCycle { worker, cooldown_ms, state: Lifecycle::Running }
    }

    /// Moves the cycle on by one signal. The awaited signal takes the
    /// worker to the next state and yields what to do there; any other is
    /// refused and changes nothing.
    pub fn on_signal(&mut self, signal: Signal) -> (result: Result<Directive, OutOfTurn>)
        ensures
            *final(self) == old(self).after(signal),
            result is Ok <==> signal == awaited(old(self).state),
            result matches Ok(directive) ==> directive == directive_on_leaving(
                old(self).state,
                old(self).cooldown_ms,
            ),
            result matches Err(e) ==> e == (OutOfTurn { state: old(self).state, signal }),
    {
        match (self.state, signal) {
            (Lifecycle::Running, Signal::Exited) => {
                self.state = Lifecycle::Failed;
                Ok(Directive::ReportFailure)
            },
            (Lifecycle::Failed, Signal::Reported) => {
                self.state = Lifecycle::Cooldown;
                Ok(Directive::Wait { millis: self.cooldown_ms })
            },
            (Lifecycle::Cooldown, Signal::Elapsed) => {
                self.state = Lifecycle::Running;
                Ok(Directive::Relaunch)
            },
            (state, signal) => Err(OutOfTurn { state, signal }),
        }
    }
}

/// A worker that fails is reported, waits out the cooldown, and runs again
/// under the same number and with the same cooldown, however often it has
/// failed before.
pub proof fn lemma_failed_worker_runs_again(cycle: RestartCycle)
    requires
        cycle.state == Lifecycle::Running,
    ensures
        directive_on_leaving(cycle.state, cycle.cooldown_ms) == Directive::ReportFailure,
        directive_on_leaving(cycle.after(Signal::Exited).state, cycle.cooldown_ms)
            == (Directive::Wait { millis: cycle.cooldown_ms }),
        directive_on_leaving(
            cycle.after(Signal::Exited).after(Signal::Reported).state,
            cycle.cooldown_ms,
        ) == Directive::Relaunch,
        cycle.after(Signal::Exited).after(Signal::Reported).after(Signal::Elapsed) == cycle,
{
}

/// How many workers there should be and how many there are.
#[derive(Clone, Copy, Debug, PartialEq, Eq, Structural)]
pub struct LivenessReport {
    /// Workers still there.
    pub active: usize,
    /// Workers started.
    pub expected: usize,
    /// Whether a warning is called for: fewer workers than were started.
    pub degraded: bool,
}

/// The supervisor's count of workers.
pub struct Supervisor {
    expected: usize,
    active: usize,
}

impl Supervisor {
    /// Workers started.
    pub closed spec fn expected(&self) -> usize {
        self.expected
    }

    /// Workers still there.
    pub closed spec fn active(&self) -> usize {
        self.active
    }

    #[verifier::type_invariant]
    spec fn sound(self) -> bool {
        self.active <= self.expected
    }

    /// The count for `workers` workers, all of them there.
    pub fn new(workers: usize) -> (supervisor: Supervisor)
        ensures
            supervisor.expected() == workers,
            supervisor.active() == workers,
    {
        Supervisor { expected: workers, active: workers }
    }

    /// Notes that a worker is gone for good, and returns how many are
    /// left.
    pub fn worker_lost(&mut self) -> (active: usize)
        ensures
            final(self).expected() == old(self).expected(),
            final(self).active() == if old(self).active() > 0 {
                old(self).active() - 1
            } else {
                0
            },
            active == final(self).active(),
    {
        proof {
            use_type_invariant(&*self);
        }
        if self.active > 0 {
            self.active = self.active - 1;
        }
        self.active
    }

    /// The figures for a liveness report. Never more workers than were
    /// started, and a warning exactly when there are fewer.
    pub fn liveness(&self) -> (report: LivenessReport)
        ensures
            report.expected == self.expected(),
            report.active == self.active(),
            report.active <= report.expected,
            report.degraded == (report.active < report.expected),
    {
        proof {
            use_type_invariant(self);
        }
        LivenessReport {
            active: self.active,
            expected: self.expected,
            degraded: self.active < self.expected,
        }
    }
}

} // verus!
