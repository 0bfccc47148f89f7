//! Bounded retry of a failed store, with linear backoff.
//!
//! The caller makes the store calls and does the waiting; this module says,
//! after each call, what comes next.

use vstd::prelude::*;

verus! {

/// How often a store is attempted before the match is given up.
pub const MAX_STORE_ATTEMPTS: u32 = 3;

/// The wait after the first failed store, in milliseconds; the wait after
/// the n-th failure is n times this.
pub const BASE_DELAY_MS: u64 = 500;

/// How often to try, and how long to wait in between.
#[derive(Clone, Copy, Debug)]
pub struct RetryPolicy {
    max_attempts: u32,
    base_delay_ms: u64,
}

/// What follows one store call.
#[derive(Clone, Copy, Debug, PartialEq, Eq, Structural)]
pub enum Decision {
    /// The call succeeded; it was call number `attempts`.
    Saved { attempts: u32 },
    /// The call failed and another is allowed: wait `delay_ms`, then call
    /// again. `failures` calls have failed so far.
    RetryAfter { delay_ms: u64, failures: u32 },
    /// The call failed and it was the last one allowed; `attempts` calls
    /// were made in all.
    Exhausted { attempts: u32 },
}

/// How a whole run of the protocol ended.
pub struct Trace {
    /// Store calls made.
    pub attempts: nat,
    /// Milliseconds waited in all; every wait lies before the last call.
    pub waited_ms: nat,
    /// Whether the last call succeeded.
    pub saved: bool,
}

/// 1 + 2 + ... + n.
pub open spec fn triangle(n: nat) -> nat
    decreases n,
{
    if n == 0 {
        0
    } else {
        n + triangle((n - 1) as nat)
    }
}

impl RetryPolicy {
    /// The most store calls that one match gets.
    pub closed spec fn max_attempts(self) -> nat {
        self.max_attempts as nat
    }

    /// The wait after the first failure, in milliseconds.
    pub closed spec fn base_delay_ms(self) -> nat {
        self.base_delay_ms as nat
    }

    /// At least one attempt, and the longest wait fits in 64 bits. Every
    /// policy there is meets this.
    #[verifier::type_invariant]
    pub open spec fn valid(self) -> bool {
        &&& 1 <= self.max_attempts() <= u32::MAX
        &&& self.base_delay_ms() * self.max_attempts() <= u64::MAX
    }

    /// The wait that follows the `failures`-th failed call.
    pub open spec fn delay_after(self, failures: nat) -> nat {
        self.base_delay_ms() * failures
    }

    /// What follows a store call made after `failures` earlier failures.
    pub open spec fn decision(self, failures: nat, succeeded: bool) -> Decision {
        if succeeded {
            Decision::Saved { attempts: (failures + 1) as u32 }
        } else if failures + 1 >= self.max_attempts() {
            Decision::Exhausted { attempts: (failures + 1) as u32 }
        } else {
            Decision::RetryAfter {
                delay_ms: self.delay_after(failures + 1) as u64,
                failures: (failures + 1) as u32,
            }
        }
    }

    /// The protocol from the point where `failures` calls have failed and
    /// `waited_ms` have been waited. `store(n)` says whether the n-th call
    /// succeeds, counting from 1.
    pub open spec fn run_from(
        self,
        store: spec_fn(nat) -> bool,
        failures: nat,
        waited_ms: nat,
    ) -> Trace
        decreases self.max_attempts() - failures,
    {
        if failures >= self.max_attempts() {
            Trace { attempts: failures, waited_ms, saved: false }
        } else if store(failures + 1) {
            Trace { attempts: failures + 1, waited_ms, saved: true }
        } else if failures + 1 >= self.max_attempts() {
            Trace { attempts: failures + 1, waited_ms, saved: false }
        } else {
            self.run_from(store, failures + 1, waited_ms + self.delay_after(failures + 1))
        }
    }

    /// The whole protocol against `store`.
    pub open spec fn run(self, store: spec_fn(nat) -> bool) -> Trace {
        self.run_from(store, 0, 0)
    }

    /// A policy of `max_attempts` calls with waits of `base_delay_ms`,
    /// twice that, and so on. `None` if no call would be allowed or a wait
    /// would not fit in 64 bits.
    pub fn new(max_attempts: u32, base_delay_ms: u64) -> (policy: Option<RetryPolicy>)
        ensures
            policy is Some <==> max_attempts >= 1 && base_delay_ms * max_attempts <= u64::MAX,
            policy matches Some(p) ==> {
                &&& p.valid()
                &&& p.max_attempts() == max_attempts
                &&& p.base_delay_ms() == base_delay_ms
            },
    {
        if max_attempts == 0 {
            return None;
        }
        match base_delay_ms.checked_mul(max_attempts as u64) {
            Some(_) => Some(RetryPolicy { max_attempts, base_delay_ms }),
            None => None,
        }
    }

    /// Three calls, with waits of 500 ms and 1000 ms between them.
    pub fn standard() -> (policy: RetryPolicy)
        ensures
            policy.valid(),
            policy.max_attempts() == MAX_STORE_ATTEMPTS,
            policy.base_delay_ms() == BASE_DELAY_MS,
    {
        RetryPolicy { max_attempts: MAX_STORE_ATTEMPTS, base_delay_ms: BASE_DELAY_MS }
    }

    /// The most store calls that one match gets.
    pub fn attempt_limit(&self) -> (limit: u32)
        ensures
            limit == self.max_attempts(),
    {
        self.max_attempts
    }

    /// The wait after the first failure, in milliseconds.
    pub fn base_delay(&self) -> (delay: u64)
        ensures
            delay == self.base_delay_ms(),
    {
        self.base_delay_ms
    }

    /// Decides what follows a store call that was made after `failures`
    /// earlier failures of the same match.
    pub fn decide(&self, failures: u32, succeeded: bool) -> (decision: Decision)
        requires
            failures < self.max_attempts(),
        ensures
            decision == self.decision(failures as nat, succeeded),
            decision matches Decision::RetryAfter { delay_ms, failures: failed } ==> {
                &&& failed < self.max_attempts()
                &&& delay_ms == self.delay_after(failed as nat)
            },
    {
        proof {
            use_type_invariant(self);
        }
        let failed: u32 = failures + 1;
        if succeeded {
            Decision::Saved { attempts: failed }
        } else if failed >= self.max_attempts {
            Decision::Exhausted { attempts: failed }
        } else {
            assert(self.base_delay_ms * failed <= self.base_delay_ms * self.max_attempts)
                by (nonlinear_arith)
                requires
                    failed <= self.max_attempts,
            ;
            Decision::RetryAfter { delay_ms: self.base_delay_ms * (failed as u64), failures: failed }
        }
    }
}

/// A run is made of decisions: from any point short of the limit, the
/// decision on the next call either ends the run as it stands or moves it
/// one failure on, with the decided delay added to the wait.
pub proof fn lemma_run_follows_decisions(
    policy: RetryPolicy,
    store: spec_fn(nat) -> bool,
    failures: nat,
    waited_ms: nat,
)
    requires
        policy.valid(),
        failures < policy.max_attempts(),
    ensures
        match policy.decision(failures, store(failures + 1)) {
            Decision::Saved { attempts } => policy.run_from(store, failures, waited_ms) == (Trace {
                attempts: attempts as nat,
                waited_ms,
                saved: true,
            }),
            Decision::Exhausted { attempts } => policy.run_from(store, failures, waited_ms)
                == (Trace { attempts: attempts as nat, waited_ms, saved: false }),
            Decision::RetryAfter { delay_ms, failures: failed } => policy.run_from(
                store,
                failures,
                waited_ms,
            ) == policy.run_from(store, failed as nat, waited_ms + delay_ms as nat),
        },
{
    let limit = policy.max_attempts();
    assert(policy.base_delay_ms() * (failures + 1) <= policy.base_delay_ms() * limit)
        by (nonlinear_arith)
        requires
            failures + 1 <= limit,
    ;
}

/// From any point of the protocol: if the next `k - failures` calls fail and
/// call `k + 1` succeeds, the run ends saved at call `k + 1`, having waited
/// after each failure.
proof fn lemma_run_from_saved(
    policy: RetryPolicy,
    store: spec_fn(nat) -> bool,
    failures: nat,
    waited_ms: nat,
    k: nat,
)
    requires
        failures <= k < policy.max_attempts(),
        forall|n: nat| failures < n <= k ==> !#[trigger] store(n),
        store(k + 1),
    ensures
        policy.run_from(store, failures, waited_ms).attempts == k + 1,
        policy.run_from(store, failures, waited_ms).waited_ms == waited_ms + policy.base_delay_ms()
            * (triangle(k) - triangle(failures)),
        policy.run_from(store, failures, waited_ms).saved,
    decreases k - failures,
{
    if failures < k {
        assert(!store(failures + 1));
        let next = waited_ms + policy.delay_after(failures + 1);
        lemma_run_from_saved(policy, store, failures + 1, next, k);
        let b = policy.base_delay_ms() as int;
        let f = failures as int;
        let tk = triangle(k) as int;
        let tf = triangle(failures) as int;
        assert(triangle(failures + 1) == f + 1 + tf);
        assert(b * (f + 1) + b * (tk - (f + 1 + tf)) == b * (tk - tf)) by (nonlinear_arith);
    } else {
        assert(policy.base_delay_ms() * (triangle(k) - triangle(failures)) == 0)
            by (nonlinear_arith)
            requires
                triangle(k) == triangle(failures),
        ;
    }
}

/// From any point of the protocol: if every remaining call fails, the run
/// ends exhausted at the last call allowed.
proof fn lemma_run_from_exhausted(
    policy: RetryPolicy,
    store: spec_fn(nat) -> bool,
    failures: nat,
    waited_ms: nat,
)
    requires
        failures < policy.max_attempts(),
        forall|n: nat| failures < n <= policy.max_attempts() ==> !#[trigger] store(n),
    ensures
        policy.run_from(store, failures, waited_ms).attempts == policy.max_attempts(),
        policy.run_from(store, failures, waited_ms).waited_ms == waited_ms + policy.base_delay_ms()
            * (triangle((policy.max_attempts() - 1) as nat) - triangle(failures)),
        !policy.run_from(store, failures, waited_ms).saved,
    decreases policy.max_attempts() - failures,
{
    assert(!store(failures + 1));
    if failures + 1 < policy.max_attempts() {
        let next = waited_ms + policy.delay_after(failures + 1);
        lemma_run_from_exhausted(policy, store, failures + 1, next);
        let b = policy.base_delay_ms() as int;
        let f = failures as int;
        let tk = triangle((policy.max_attempts() - 1) as nat) as int;
        let tf = triangle(failures) as int;
        assert(triangle(failures + 1) == f + 1 + tf);
        assert(b * (f + 1) + b * (tk - (f + 1 + tf)) == b * (tk - tf)) by (nonlinear_arith);
    } else {
        let last = (policy.max_attempts() - 1) as nat;
        assert(policy.base_delay_ms() * (triangle(last) - triangle(failures)) == 0)
            by (nonlinear_arith)
            requires
                triangle(last) == triangle(failures),
        ;
    }
}

/// A store whose first `k` calls fail and whose next call succeeds, with
/// `k` below the limit, is reported saved after exactly `k + 1` calls, and
/// the waits before that last call add up to the base delay times
/// 1 + 2 + ... + k.
pub proof fn lemma_saved_after_failures(policy: RetryPolicy, store: spec_fn(nat) -> bool, k: nat)
    requires
        policy.valid(),
        k < policy.max_attempts(),
        forall|n: nat| 1 <= n <= k ==> !#[trigger] store(n),
        store(k + 1),
    ensures
        policy.run(store) == (Trace {
            attempts: k + 1,
            waited_ms: policy.base_delay_ms() * triangle(k),
            saved: true,
        }),
{
    lemma_run_from_saved(policy, store, 0, 0, k);
}

/// A store that fails every call it gets is called exactly as often as the
/// policy allows, and the run then ends unsaved.
pub proof fn lemma_exhausted_when_all_fail(policy: RetryPolicy, store: spec_fn(nat) -> bool)
    requires
        policy.valid(),
        forall|n: nat| 1 <= n <= policy.max_attempts() ==> !#[trigger] store(n),
    ensures
        policy.run(store) == (Trace {
            attempts: policy.max_attempts(),
            waited_ms: policy.base_delay_ms() * triangle((policy.max_attempts() - 1) as nat),
            saved: false,
        }),
{
    lemma_run_from_exhausted(policy, store, 0, 0);
}

/// Whatever the store does, it is called at least once and never more often
/// than the policy allows.
pub proof fn lemma_attempts_bounded(policy: RetryPolicy, store: spec_fn(nat) -> bool)
    requires
        policy.valid(),
    ensures
        1 <= policy.run(store).attempts <= policy.max_attempts(),
{
    lemma_run_from_bounded(policy, store, 0, 0);
}

proof fn lemma_run_from_bounded(
    policy: RetryPolicy,
    store: spec_fn(nat) -> bool,
    failures: nat,
    waited_ms: nat,
)
    requires
        failures < policy.max_attempts(),
    ensures
        failures < policy.run_from(store, failures, waited_ms).attempts <= policy.max_attempts(),
    decreases policy.max_attempts() - failures,
{
    if !store(failures + 1) && failures + 1 < policy.max_attempts() {
        lemma_run_from_bounded(
            policy,
            store,
            failures + 1,
            waited_ms + policy.delay_after(failures + 1),
        );
    }
}

} // verus!
