use vanity_wallet::retry::{Decision, RetryPolicy, BASE_DELAY_MS, MAX_STORE_ATTEMPTS};

struct Run {
    calls: u32,
    waited_before_last_call: u64,
    last: Decision,
}

fn run_against(policy: &RetryPolicy, failing_calls: u32) -> Run {
    let mut calls: u32 = 0;
    let mut waited: u64 = 0;
    let mut failures: u32 = 0;
    loop {
        calls += 1;
        let succeeded = calls > failing_calls;
        let decision = policy.decide(failures, succeeded);
        match decision {
            Decision::RetryAfter { delay_ms, failures: failed } => {
                waited += delay_ms;
                failures = failed;
            }
            _ => {
                return Run { calls, waited_before_last_call: waited, last: decision };
            }
        }
    }
}

#[test]
fn standard_policy_is_three_calls_and_half_a_second() {
    assert_eq!(MAX_STORE_ATTEMPTS, 3);
    assert_eq!(BASE_DELAY_MS, 500);
    let policy = RetryPolicy::standard();
    assert_eq!(policy.attempt_limit(), 3);
    assert_eq!(policy.base_delay(), 500);
}

#[test]
fn backoff_grows_linearly() {
    let policy = RetryPolicy::standard();
    assert_eq!(policy.decide(0, false), Decision::RetryAfter { delay_ms: 500, failures: 1 });
    assert_eq!(policy.decide(1, false), Decision::RetryAfter { delay_ms: 1000, failures: 2 });
    assert_eq!(policy.decide(2, false), Decision::Exhausted { attempts: 3 });
    let slow = RetryPolicy::new(5, 200).unwrap();
    assert_eq!(slow.decide(3, false), Decision::RetryAfter { delay_ms: 800, failures: 4 });
    assert_eq!(slow.decide(4, false), Decision::Exhausted { attempts: 5 });
}

#[test]
fn success_ends_the_protocol_at_once() {
    let policy = RetryPolicy::standard();
    assert_eq!(policy.decide(0, true), Decision::Saved { attempts: 1 });
    assert_eq!(policy.decide(1, true), Decision::Saved { attempts: 2 });
    assert_eq!(policy.decide(2, true), Decision::Saved { attempts: 3 });
}

#[test]
fn store_that_fails_twice_is_saved_on_the_third_call() {
    let run = run_against(&RetryPolicy::standard(), 2);
    assert_eq!(run.last, Decision::Saved { attempts: 3 });
    assert_eq!(run.calls, 3);
    assert_eq!(run.waited_before_last_call, 500 + 1000);
}

#[test]
fn store_that_always_fails_is_called_exactly_three_times() {
    let run = run_against(&RetryPolicy::standard(), u32::MAX);
    assert_eq!(run.last, Decision::Exhausted { attempts: 3 });
    assert_eq!(run.calls, 3);
    assert_eq!(run.waited_before_last_call, 1500);
}

#[test]
fn store_that_succeeds_at_once_is_called_once() {
    let run = run_against(&RetryPolicy::standard(), 0);
    assert_eq!(run.last, Decision::Saved { attempts: 1 });
    assert_eq!(run.calls, 1);
    assert_eq!(run.waited_before_last_call, 0);
}

#[test]
fn single_attempt_policy_never_waits() {
    let policy = RetryPolicy::new(1, 500).unwrap();
    assert_eq!(policy.decide(0, false), Decision::Exhausted { attempts: 1 });
    assert_eq!(policy.decide(0, true), Decision::Saved { attempts: 1 });
}

#[test]
fn policies_that_cannot_work_are_refused() {
    assert!(RetryPolicy::new(0, 500).is_none());
    assert!(RetryPolicy::new(3, u64::MAX).is_none());
    assert!(RetryPolicy::new(2, u64::MAX / 2 + 1).is_none());
    assert!(RetryPolicy::new(2, u64::MAX / 2).is_some());
    assert!(RetryPolicy::new(1, u64::MAX).is_some());
    assert!(RetryPolicy::new(u32::MAX, 0).is_some());
}
