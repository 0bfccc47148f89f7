//! Process-wide progress counters and the figures reported from them.

use vstd::prelude::*;

verus! {

/// A progress report is due each time the generated count reaches a
/// multiple of this.
pub const REPORT_INTERVAL: u64 = 100_000;

/// A worker offers to yield each time the generated count reaches a
/// multiple of this.
pub const YIELD_INTERVAL: u64 = 1_000;

/// The two counters as read at one instant.
#[derive(Clone, Copy, Debug, PartialEq, Eq, Structural)]
pub struct Snapshot {
    /// Keypairs generated so far, by all workers together.
    pub generated: u64,
    /// Of those, the ones whose address matched.
    pub matched: u64,
}

/// One update of the counters.
#[derive(Clone, Copy, Debug, PartialEq, Eq, Structural)]
pub enum CounterEvent {
    /// A keypair was generated.
    Attempt,
    /// A generated keypair matched.
    Match,
}

impl Snapshot {
    /// No more matches than attempts.
    pub open spec fn consistent(self) -> bool {
        self.matched <= self.generated
    }

    /// The counters after one more attempt. The count stops at `u64::MAX`
    /// rather than wrapping, so that it never decreases.
    pub open spec fn after_attempt(self) -> Snapshot {
        Snapshot {
            generated: if self.generated < u64::MAX {
                (self.generated + 1) as u64
            } else {
                self.generated
            },
            matched: self.matched,
        }
    }

    /// The counters after one more match. A match is counted only while
    /// there is an attempt it can belong to.
    pub open spec fn after_match(self) -> Snapshot {
        Snapshot {
            generated: self.generated,
            matched: if self.matched < self.generated {
                (self.matched + 1) as u64
            } else {
                self.matched
            },
        }
    }

    /// The counters after `event`.
    pub open spec fn after(self, event: CounterEvent) -> Snapshot {
        match event {
            CounterEvent::Attempt => self.after_attempt(),
            CounterEvent::Match => self.after_match(),
        }
    }

    /// The counters after all of `events`, first to last.
    pub open spec fn after_all(self, events: Seq<CounterEvent>) -> Snapshot
        decreases events.len(),
    {
        if events.len() == 0 {
            self
        } else {
            self.after_all(events.drop_last()).after(events.last())
        }
    }

    /// The counters after `n` more attempts.
    pub open spec fn after_attempts(self, n: nat) -> Snapshot {
        Snapshot {
            generated: if self.generated + n <= u64::MAX {
                (self.generated + n) as u64
            } else {
                u64::MAX
            },
            matched: self.matched,
        }
    }

    /// Whether a progress report is due at this generated count.
    pub open spec fn report_due(self) -> bool {
        self.generated % REPORT_INTERVAL == 0
    }

    /// Whether a worker should offer to yield at this generated count.
    pub open spec fn yield_due(self) -> bool {
        self.generated % YIELD_INTERVAL == 0
    }

    /// Attempts per match, rounded down; `None` before the first match.
    pub open spec fn attempts_per_match(self) -> Option<u64> {
        if self.matched > 0 {
            Some(self.generated / self.matched)
        } else {
            None
        }
    }

    /// Attempts per second, rounded down, when `attempts` were made in
    /// `elapsed_ms` milliseconds; `None` when no time has passed.
    pub open spec fn rate_per_second(attempts: u64, elapsed_ms: u64) -> Option<u128> {
        if elapsed_ms > 0 {
            Some((attempts * 1000 / (elapsed_ms as int)) as u128)
        } else {
            None
        }
    }

    /// Attempts made between `earlier` and this reading.
    pub fn attempts_since(&self, earlier: &Snapshot) -> (attempts: u64)
        ensures
            attempts == if earlier.generated <= self.generated {
                self.generated - earlier.generated
            } else {
                0
            },
    {
        if earlier.generated <= self.generated {
            self.generated - earlier.generated
        } else {
            0
        }
    }

    /// Executable form of [`Snapshot::rate_per_second`].
    pub fn throughput(attempts: u64, elapsed_ms: u64) -> (rate: Option<u128>)
        ensures
            rate == Self::rate_per_second(attempts, elapsed_ms),
    {
        if elapsed_ms > 0 {
            let scaled: u128 = (attempts as u128) * 1000;
            Some(scaled / (elapsed_ms as u128))
        } else {
            None
        }
    }

    /// Executable form of [`Snapshot::report_due`].
    pub fn is_report_due(&self) -> (due: bool)
        ensures
            due == self.report_due(),
    {
        self.generated % REPORT_INTERVAL == 0
    }

    /// Executable form of [`Snapshot::yield_due`].
    pub fn is_yield_due(&self) -> (due: bool)
        ensures
            due == self.yield_due(),
    {
        self.generated % YIELD_INTERVAL == 0
    }

    /// Executable form of [`Snapshot::attempts_per_match`].
    pub fn success_rate(&self) -> (rate: Option<u64>)
        ensures
            rate == self.attempts_per_match(),
    {
        if self.matched > 0 {
            Some(self.generated / self.matched)
        } else {
            None
        }
    }
}

/// The shared counters. Both start at zero and only ever grow.
pub struct ProgressTracker {
    generated: u64,
    matched: u64,
}

impl View for ProgressTracker {
    type V = Snapshot;

    closed spec fn view(&self) -> Snapshot {
        Snapshot { generated: self.generated, matched: self.matched }
    }
}

impl ProgressTracker {
    #[verifier::type_invariant]
    spec fn ordered(self) -> bool {
        self.matched <= self.generated
    }

    /// Fresh counters, both zero.
    pub fn new() -> (tracker: Self)
        ensures
            tracker@ == (Snapshot { generated: 0, matched: 0 }),
    {
        ProgressTracker { generated: 0, matched: 0 }
    }

    /// Counts one generated keypair and returns the generated count that
    /// includes it.
    pub fn record_attempt(&mut self) -> (count: u64)
        ensures
            final(self)@ == old(self)@.after_attempt(),
            count == final(self)@.generated,
    {
        proof {
            use_type_invariant(&*self);
        }
        if self.generated < u64::MAX {
            self.generated = self.generated + 1;
        }
        self.generated
    }

    /// Counts one match and returns the matched count that includes it.
    pub fn record_match(&mut self) -> (count: u64)
        ensures
            final(self)@ == old(self)@.after_match(),
            count == final(self)@.matched,
    {
        if self.matched < self.generated {
            self.matched = self.matched + 1;
        }
        self.matched
    }

    /// Reads both counters at once.
    pub fn snapshot(&self) -> (counts: Snapshot)
        ensures
            counts == self@,
            counts.consistent(),
    {
        proof {
            use_type_invariant(self);
        }
        Snapshot { generated: self.generated, matched: self.matched }
    }
}

/// Attempts add up: one more after `n` is `n + 1`, and none is none.
pub proof fn lemma_attempts_add_up(before: Snapshot, n: nat)
    ensures
        before.after_attempts(0) == before,
        before.after_attempts(n).after_attempt() == before.after_attempts(n + 1),
{
}

/// One update keeps the counters consistent and lowers neither of them.
pub proof fn lemma_event_keeps_order(before: Snapshot, event: CounterEvent)
    requires
        before.consistent(),
    ensures
        before.after(event).consistent(),
        before.generated <= before.after(event).generated,
        before.matched <= before.after(event).matched,
{
}

/// Whatever updates arrive and in whatever order, the counters read after
/// any number of them are consistent, and a later reading is never below an
/// earlier one.
pub proof fn lemma_counters_consistent_and_monotonic(
    start: Snapshot,
    events: Seq<CounterEvent>,
    earlier: int,
    later: int,
)
    requires
        start.consistent(),
        0 <= earlier <= later <= events.len(),
    ensures
        start.after_all(events.take(earlier)).consistent(),
        start.after_all(events.take(later)).consistent(),
        start.after_all(events.take(earlier)).generated <= start.after_all(
            events.take(later),
        ).generated,
        start.after_all(events.take(earlier)).matched <= start.after_all(
            events.take(later),
        ).matched,
    decreases later - earlier, later,
{
    if earlier < later {
        let head = events.take(later);
        assert(head.drop_last() =~= events.take(later - 1));
        lemma_counters_consistent_and_monotonic(start, events, earlier, later - 1);
        lemma_event_keeps_order(start.after_all(events.take(later - 1)), head.last());
    } else if later > 0 {
        let head = events.take(later);
        assert(head.drop_last() =~= events.take(later - 1));
        lemma_counters_consistent_and_monotonic(start, events, later - 1, later - 1);
        lemma_event_keeps_order(start.after_all(events.take(later - 1)), head.last());
    }
}

} // verus!
