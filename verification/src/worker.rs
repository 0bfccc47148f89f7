//! One worker of the search, as a state machine.
//!
//! A worker is either generating or persisting a match. The caller feeds it
//! events (a candidate keypair, the result of a store call) and carries out
//! the action each step asks for.

use vstd::prelude::*;
use crate::document::WalletDocument;
use crate::keypair::Keypair;
use crate::progress::{lemma_attempts_add_up, ProgressTracker, Snapshot};
use crate::retry::{Decision, RetryPolicy};
use crate::wallet_generator::WalletGenerator;

verus! {

/// Where a worker stands.
#[derive(Clone, Copy, Debug, PartialEq, Eq, Structural)]
pub enum Phase {
    /// Waiting for the next candidate keypair.
    Generating,
    /// Storing a match; `failures` store calls have failed so far.
    Persisting { failures: u32 },
}

/// What happened outside since the last step.
pub enum Event {
    /// A keypair was generated.
    Candidate(Keypair),
    /// The store call asked for succeeded.
    StoreSucceeded,
    /// The store call asked for failed.
    StoreFailed,
}

/// What the caller is to do next.
#[derive(Clone, Copy, Debug, PartialEq, Eq, Structural)]
pub enum Action {
    /// Generate a keypair and report it as a candidate. With `yield_first`,
    /// give other tasks a turn before that.
    Generate { yield_first: bool },
    /// Wait `delay_ms`, then make store call number `attempt` for the
    /// pending record and report its result.
    Store { attempt: u32, delay_ms: u64 },
}

/// The result of one step: the next action, and what there is to report.
#[derive(Clone, Copy, Debug, PartialEq, Eq, Structural)]
pub struct Step {
    /// What to do next.
    pub action: Action,
    /// The counters as this attempt left them, when a progress report is
    /// due.
    pub progress: Option<Snapshot>,
    /// The counters right after a match was counted, when the candidate
    /// matched.
    pub discovery: Option<Snapshot>,
    /// What became of the store call, when its result was the event.
    pub decision: Option<Decision>,
}

/// An event that does not fit the worker's phase. The worker is left as it
/// was.
#[derive(Clone, Copy, Debug, PartialEq, Eq, Structural)]
pub enum WorkerError {
    /// A candidate arrived while a match was being stored.
    UnexpectedCandidate,
    /// A store result arrived while nothing was being stored.
    UnexpectedStoreResult,
}

/// What a search came to.
#[derive(Clone, Copy, Debug, PartialEq, Eq, Structural)]
pub struct Search {
    /// Keypairs generated and tested.
    pub attempts: u32,
    /// The step on the last of them.
    pub step: Step,
}

impl Step {
    /// Nothing for the caller to do but ask for the next candidate: no
    /// match, no report, no yield.
    pub open spec fn quiet(self) -> bool {
        &&& self.action == (Action::Generate { yield_first: false })
        &&& self.progress is None
    }

    /// Executable form of [`Step::quiet`].
    pub fn is_quiet(&self) -> (quiet: bool)
        ensures
            quiet == self.quiet(),
    {
        let idle = match self.action {
            Action::Generate { yield_first } => !yield_first,
            Action::Store { .. } => false,
        };
        idle && self.progress.is_none()
    }
}

/// One worker: its identity, what it looks for, how it retries, and the
/// match it is storing, if any.
pub struct Worker {
    id: usize,
    generator: WalletGenerator,
    policy: RetryPolicy,
    pending: Option<WalletDocument>,
    failures: u32,
}

impl Worker {
    /// The worker's number; it stays the same across restarts.
    pub closed spec fn id(&self) -> usize {
        self.id
    }

    /// What the worker looks for.
    pub closed spec fn generator(&self) -> WalletGenerator {
        self.generator
    }

    /// How the worker retries a failed store.
    pub closed spec fn policy(&self) -> RetryPolicy {
        self.policy
    }

    /// The record being stored, if any.
    pub closed spec fn pending(&self) -> Option<WalletDocument> {
        self.pending
    }

    /// Store calls that have failed for the pending record.
    pub closed spec fn failures(&self) -> u32 {
        self.failures
    }

    /// Where the worker stands.
    pub open spec fn phase(&self) -> Phase {
        if self.pending() is Some {
            Phase::Persisting { failures: self.failures() }
        } else {
            Phase::Generating
        }
    }

    /// The worker is storing the record of some keypair whose address ends
    /// with the suffix.
    pub open spec fn holds_match(&self) -> bool {
        &&& self.pending() is Some
        &&& exists|keypair: Keypair|
            self.generator().wants(&keypair) && #[trigger] self.pending()->Some_0.describes(
                &keypair,
            )
    }

    /// Identity, pattern and retry policy are the same in both workers.
    pub open spec fn same_setup(&self, other: &Worker) -> bool {
        &&& self.id() == other.id()
        &&& self.generator() == other.generator()
        &&& self.policy() == other.policy()
    }

    #[verifier::type_invariant]
    spec fn sound(self) -> bool {
        &&& self.policy.valid()
        &&& self.failures < self.policy.max_attempts()
        &&& self.pending is None ==> self.failures == 0
    }

    /// A worker that is about to generate its first candidate.
    pub fn new(id: usize, generator: WalletGenerator, policy: RetryPolicy) -> (worker: Worker)
        ensures
            worker.id() == id,
            worker.generator() == generator,
            worker.policy() == policy,
            worker.phase() is Generating,
    {
        proof {
            use_type_invariant(&policy);
        }
        Worker { id, generator, policy, pending: None, failures: 0 }
    }

    /// The worker's number.
    pub fn number(&self) -> (id: usize)
        ensures
            id == self.id(),
    {
        self.id
    }

    /// What the worker looks for, and the source of its keypairs.
    pub fn wallet_generator(&self) -> (generator: &WalletGenerator)
        ensures
            *generator == self.generator(),
    {
        &self.generator
    }

    /// The record the next store call is for, if the worker is persisting.
    pub fn pending_record(&self) -> (record: Option<&WalletDocument>)
        ensures
            record is Some == self.pending() is Some,
            record matches Some(r) ==> Some(*r) == self.pending(),
    {
        self.pending.as_ref()
    }

    /// Whether the worker is persisting a match.
    pub fn is_persisting(&self) -> (persisting: bool)
        ensures
            persisting == self.phase() is Persisting,
    {
        self.pending.is_some()
    }

    /// Starts over after a failure: a match that was being stored is
    /// dropped, and the worker generates again under the same identity.
    pub fn restart(&mut self)
        ensures
            final(self).same_setup(old(self)),
            final(self).phase() is Generating,
    {
        proof {
            use_type_invariant(&*self);
        }
        self.failures = 0;
        self.pending = None;
    }

    /// Takes in a candidate: counts the attempt, tests the address, and on
    /// a match counts that too and starts persisting.
    fn take_candidate(&mut self, tracker: &mut ProgressTracker, keypair: Keypair) -> (step: Step)
        requires
            old(self).phase() is Generating,
        ensures
            final(self).same_setup(old(self)),
            step.progress == report_at(old(tracker)@.after_attempt()),
            step.decision is None,
            old(self).generator().wants(&keypair) ==> {
                &&& final(tracker)@ == old(tracker)@.after_attempt().after_match()
                &&& step.discovery == Some(final(tracker)@)
                &&& step.action == (Action::Store { attempt: 1, delay_ms: 0 })
                &&& final(self).phase() == (Phase::Persisting { failures: 0 })
                &&& final(self).pending() matches Some(record) && record.describes(&keypair)
            },
            !old(self).generator().wants(&keypair) ==> {
                &&& final(tracker)@ == old(tracker)@.after_attempt()
                &&& step.discovery is None
                &&& step.action == (Action::Generate { yield_first: final(tracker)@.yield_due() })
                &&& final(self).phase() is Generating
            },
    {
        proof {
            use_type_invariant(&*self);
        }
        tracker.record_attempt();
        let seen = tracker.snapshot();
        let progress = if seen.is_report_due() {
            Some(seen)
        } else {
            None
        };
        if self.generator.is_vanity_wallet(&keypair) {
            tracker.record_match();
            let found = tracker.snapshot();
            self.pending = Some(WalletDocument::stamped_now(&keypair));
            Step {
                action: Action::Store { attempt: 1, delay_ms: 0 },
                progress,
                discovery: Some(found),
                decision: None,
            }
        } else {
            Step {
                action: Action::Generate { yield_first: seen.is_yield_due() },
                progress,
                discovery: None,
                decision: None,
            }
        }
    }

    /// Takes in the result of a store call and decides between another
    /// call and going back to generating.
    fn take_store_result(&mut self, tracker: &ProgressTracker, succeeded: bool) -> (step: Step)
        requires
            old(self).phase() is Persisting,
        ensures
            final(self).same_setup(old(self)),
            step.progress is None,
            step.discovery is None,
            step.decision == Some(old(self).policy().decision(old(self).failures() as nat, succeeded)),
            step.action == action_after(step.decision->Some_0, tracker@),
            final(self).phase() == phase_after(step.decision->Some_0),
            step.decision->Some_0 is RetryAfter ==> final(self).pending() == old(self).pending(),
    {
        proof {
            use_type_invariant(&*self);
        }
        let decision = self.policy.decide(self.failures, succeeded);
        match decision {
            Decision::RetryAfter { delay_ms, failures } => {
                self.failures = failures;
                Step {
                    action: Action::Store { attempt: failures + 1, delay_ms },
                    progress: None,
                    discovery: None,
                    decision: Some(decision),
                }
            },
            _ => {
                self.failures = 0;
                self.pending = None;
                Step {
                    action: Action::Generate { yield_first: tracker.snapshot().is_yield_due() },
                    progress: None,
                    discovery: None,
                    decision: Some(decision),
                }
            },
        }
    }

    /// Whether `event` fits the worker's phase.
    pub open spec fn accepts(&self, event: &Event) -> bool {
        match event {
            Event::Candidate(_) => self.phase() is Generating,
            _ => self.phase() is Persisting,
        }
    }

    /// One step of the worker.
    ///
    /// While generating, a candidate is counted as an attempt and tested.
    /// If its address does not end with the suffix the worker asks for the
    /// next candidate. If it does, the match is counted, its record is
    /// made, and the worker asks for the first store call.
    ///
    /// While persisting, a successful store call or the last failed one
    /// allowed sends the worker back to generating; any other failure asks
    /// for one more call after the delay of the retry policy.
    ///
    /// An event that does not fit the phase is refused and changes nothing.
    pub fn step(&mut self, tracker: &mut ProgressTracker, event: Event) -> (result: Result<
        Step,
        WorkerError,
    >)
        ensures
            final(self).same_setup(old(self)),
            result is Ok <==> old(self).accepts(&event),
            result matches Err(e) ==> {
                &&& *final(self) == *old(self)
                &&& final(tracker)@ == old(tracker)@
                &&& e == if event is Candidate {
                    WorkerError::UnexpectedCandidate
                } else {
                    WorkerError::UnexpectedStoreResult
                }
            },
            result matches Ok(step) ==> match event {
                Event::Candidate(keypair) => {
                    let hit = old(self).generator().wants(&keypair);
                    let attempted = old(tracker)@.after_attempt();
                    &&& step.progress == report_at(attempted)
                    &&& step.decision is None
                    &&& hit ==> {
                        &&& final(tracker)@ == attempted.after_match()
                        &&& step.discovery == Some(final(tracker)@)
                        &&& step.action == (Action::Store { attempt: 1, delay_ms: 0 })
                        &&& final(self).phase() == (Phase::Persisting { failures: 0 })
                        &&& final(self).pending() matches Some(record) && record.describes(
                            &keypair,
                        )
                    }
                    &&& !hit ==> {
                        &&& final(tracker)@ == attempted
                        &&& step.discovery is None
                        &&& step.action == (Action::Generate {
                            yield_first: attempted.yield_due(),
                        })
                        &&& final(self).phase() is Generating
                    }
                },
                _ => {
                    let decision = old(self).policy().decision(
                        old(self).failures() as nat,
                        event is StoreSucceeded,
                    );
                    &&& final(tracker)@ == old(tracker)@
                    &&& step.progress is None
                    &&& step.discovery is None
                    &&& step.decision == Some(decision)
                    &&& step.action == action_after(decision, old(tracker)@)
                    &&& final(self).phase() == phase_after(decision)
                    &&& decision is RetryAfter ==> final(self).pending() == old(self).pending()
                },
            },
    {
        match event {
            Event::Candidate(keypair) => {
                if self.pending.is_some() {
                    Err(WorkerError::UnexpectedCandidate)
                } else {
                    Ok(self.take_candidate(tracker, keypair))
                }
            },
            Event::StoreSucceeded => {
                if self.pending.is_some() {
                    Ok(self.take_store_result(tracker, true))
                } else {
                    Err(WorkerError::UnexpectedStoreResult)
                }
            },
            Event::StoreFailed => {
                if self.pending.is_some() {
                    Ok(self.take_store_result(tracker, false))
                } else {
                    Err(WorkerError::UnexpectedStoreResult)
                }
            },
        }
    }

    /// Generates one keypair and steps on it. Which keypair that is, and
    /// so whether it matches, is up to the random source; the attempt is
    /// counted either way.
    pub fn generate_and_step(&mut self, tracker: &mut ProgressTracker) -> (result: Result<
        Step,
        WorkerError,
    >)
        ensures
            final(self).same_setup(old(self)),
            result is Ok <==> old(self).phase() is Generating,
            result matches Err(e) ==> {
                &&& *final(self) == *old(self)
                &&& final(tracker)@ == old(tracker)@
                &&& e == WorkerError::UnexpectedCandidate
            },
            result matches Ok(step) ==> {
                &&& tested_one(old(tracker)@, step, final(tracker)@, final(self).phase())
                &&& step.discovery is Some ==> final(self).holds_match()
            },
    {
        let keypair = self.generator.generate_wallet();
        let ghost candidate = keypair;
        let result = self.step(tracker, Event::Candidate(keypair));
        proof {
            if result is Ok && result->Ok_0.discovery is Some {
                assert(self.generator().wants(&candidate));
                assert(self.pending()->Some_0.describes(&candidate));
            }
        }
        result
    }

    /// Generates and tests keypairs one after another, for as long as the
    /// steps are quiet and fewer than `budget` keypairs have been tried.
    /// At least one keypair is tried. The search ends on the first step
    /// that brings a match, a progress report or an offer to yield.
    pub fn search(&mut self, tracker: &mut ProgressTracker, budget: u32) -> (result: Result<
        Search,
        WorkerError,
    >)
        ensures
            final(self).same_setup(old(self)),
            result is Ok <==> old(self).phase() is Generating,
            result matches Err(e) ==> {
                &&& *final(self) == *old(self)
                &&& final(tracker)@ == old(tracker)@
                &&& e == WorkerError::UnexpectedCandidate
            },
            result matches Ok(found) ==> {
                &&& 1 <= found.attempts
                &&& found.attempts <= budget || found.attempts == 1
                &&& found.attempts < budget ==> !found.step.quiet()
                &&& forall|n: nat|
                    1 <= n < found.attempts ==> {
                        &&& !(#[trigger] old(tracker)@.after_attempts(n)).report_due()
                        &&& !old(tracker)@.after_attempts(n).yield_due()
                    }
                &&& tested_one(
                    old(tracker)@.after_attempts((found.attempts - 1) as nat),
                    found.step,
                    final(tracker)@,
                    final(self).phase(),
                )
                &&& found.step.discovery is Some ==> final(self).holds_match()
            },
    {
        let ghost start = tracker@;
        let mut step = match self.generate_and_step(tracker) {
            Ok(step) => step,
            Err(e) => {
                return Err(e);
            },
        };
        let mut attempts: u32 = 1;
        proof {
            lemma_attempts_add_up(start, 0);
        }
        while attempts < budget && step.is_quiet()
            invariant
                self.same_setup(old(self)),
                1 <= attempts,
                attempts <= budget || attempts == 1,
                forall|n: nat|
                    1 <= n < attempts ==> {
                        &&& !(#[trigger] start.after_attempts(n)).report_due()
                        &&& !start.after_attempts(n).yield_due()
                    },
                tested_one(start.after_attempts((attempts - 1) as nat), step, tracker@, self.phase()),
                step.discovery is Some ==> self.holds_match(),
            decreases budget - attempts,
        {
            proof {
                lemma_attempts_add_up(start, (attempts - 1) as nat);
            }
            match self.generate_and_step(tracker) {
                Ok(next) => {
                    step = next;
                    attempts += 1;
                },
                Err(e) => {
                    return Err(e);
                },
            }
        }
        Ok(Search { attempts, step })
    }
}

/// The progress report for an attempt that left the counters at `counts`:
/// the counters themselves, at every multiple of the reporting interval.
pub open spec fn report_at(counts: Snapshot) -> Option<Snapshot> {
    if counts.report_due() {
        Some(counts)
    } else {
        None
    }
}

/// What one tested candidate leaves behind, when the counters stood at
/// `before`: the attempt is counted, and a report is due by the count alone.
/// A match is counted too, and the first store call asked for; without one
/// the next candidate is asked for, after a yield if the count calls for it.
pub open spec fn tested_one(before: Snapshot, step: Step, after: Snapshot, phase: Phase) -> bool {
    let attempted = before.after_attempt();
    &&& step.progress == report_at(attempted)
    &&& step.decision is None
    &&& step.discovery is Some ==> {
        &&& after == attempted.after_match()
        &&& step.discovery == Some(after)
        &&& step.action == (Action::Store { attempt: 1, delay_ms: 0 })
        &&& phase == (Phase::Persisting { failures: 0 })
    }
    &&& step.discovery is None ==> {
        &&& after == attempted
        &&& step.action == (Action::Generate { yield_first: attempted.yield_due() })
        &&& phase is Generating
    }
}

/// The action that follows a store call: the next call while the protocol
/// goes on, and generating again once it has ended, however it ended.
pub open spec fn action_after(decision: Decision, counts: Snapshot) -> Action {
    match decision {
        Decision::RetryAfter { delay_ms, failures } => Action::Store {
            attempt: (failures + 1) as u32,
            delay_ms,
        },
        _ => Action::Generate { yield_first: counts.yield_due() },
    }
}

/// The phase that follows a store call.
pub open spec fn phase_after(decision: Decision) -> Phase {
    match decision {
        Decision::RetryAfter { delay_ms, failures } => Phase::Persisting { failures },
        _ => Phase::Generating,
    }
}

} // verus!
