use vanity_wallet::progress::{ProgressTracker, Snapshot, REPORT_INTERVAL, YIELD_INTERVAL};

#[test]
fn counters_start_at_zero() {
    let tracker = ProgressTracker::new();
    assert_eq!(tracker.snapshot(), Snapshot { generated: 0, matched: 0 });
}

#[test]
fn record_attempt_returns_the_new_count() {
    let mut tracker = ProgressTracker::new();
    assert_eq!(tracker.record_attempt(), 1);
    assert_eq!(tracker.record_attempt(), 2);
    assert_eq!(tracker.record_attempt(), 3);
    assert_eq!(tracker.snapshot(), Snapshot { generated: 3, matched: 0 });
}

#[test]
fn record_match_returns_the_new_count() {
    let mut tracker = ProgressTracker::new();
    tracker.record_attempt();
    assert_eq!(tracker.record_match(), 1);
    tracker.record_attempt();
    tracker.record_attempt();
    assert_eq!(tracker.record_match(), 2);
    assert_eq!(tracker.snapshot(), Snapshot { generated: 3, matched: 2 });
}

#[test]
fn a_match_without_an_attempt_is_not_counted() {
    let mut tracker = ProgressTracker::new();
    assert_eq!(tracker.record_match(), 0);
    assert_eq!(tracker.snapshot(), Snapshot { generated: 0, matched: 0 });
    tracker.record_attempt();
    assert_eq!(tracker.record_match(), 1);
    assert_eq!(tracker.record_match(), 1);
    assert_eq!(tracker.snapshot(), Snapshot { generated: 1, matched: 1 });
}

#[test]
fn matched_never_passes_generated_and_nothing_decreases() {
    let mut tracker = ProgressTracker::new();
    let mut last = tracker.snapshot();
    let mut seed: u32 = 12345;
    for _ in 0..5000 {
        seed = seed.wrapping_mul(1_103_515_245).wrapping_add(12345);
        if (seed >> 16) % 3 == 0 {
            tracker.record_attempt();
        } else {
            tracker.record_match();
        }
        let now = tracker.snapshot();
        assert!(now.matched <= now.generated);
        assert!(last.generated <= now.generated);
        assert!(last.matched <= now.matched);
        last = now;
    }
    assert!(last.generated > 0);
    assert_eq!(last.matched, last.generated);
}

#[test]
fn report_is_due_at_every_hundred_thousand() {
    assert_eq!(REPORT_INTERVAL, 100_000);
    assert!(Snapshot { generated: 100_000, matched: 0 }.is_report_due());
    assert!(Snapshot { generated: 300_000, matched: 7 }.is_report_due());
    assert!(!Snapshot { generated: 99_999, matched: 0 }.is_report_due());
    assert!(!Snapshot { generated: 100_001, matched: 0 }.is_report_due());
    assert!(!Snapshot { generated: 1, matched: 0 }.is_report_due());
}

#[test]
fn yield_is_due_at_every_thousand() {
    assert_eq!(YIELD_INTERVAL, 1_000);
    assert!(Snapshot { generated: 1_000, matched: 0 }.is_yield_due());
    assert!(Snapshot { generated: 42_000, matched: 0 }.is_yield_due());
    assert!(!Snapshot { generated: 999, matched: 0 }.is_yield_due());
    assert!(!Snapshot { generated: 1_001, matched: 0 }.is_yield_due());
}

#[test]
fn success_rate_is_attempts_per_match_rounded_down() {
    assert_eq!(Snapshot { generated: 100_000, matched: 0 }.success_rate(), None);
    assert_eq!(Snapshot { generated: 100_000, matched: 1 }.success_rate(), Some(100_000));
    assert_eq!(Snapshot { generated: 100_000, matched: 3 }.success_rate(), Some(33_333));
    assert_eq!(Snapshot { generated: 7, matched: 7 }.success_rate(), Some(1));
}

#[test]
fn throughput_is_attempts_per_second_rounded_down() {
    assert_eq!(Snapshot::throughput(100_000, 10_000), Some(10_000));
    assert_eq!(Snapshot::throughput(100_000, 3_000), Some(33_333));
    assert_eq!(Snapshot::throughput(1, 1_001), Some(0));
    assert_eq!(Snapshot::throughput(0, 5), Some(0));
    assert_eq!(Snapshot::throughput(1, 0), None);
    assert_eq!(Snapshot::throughput(u64::MAX, 1), Some(u64::MAX as u128 * 1000));
}

#[test]
fn attempts_since_is_the_difference_of_the_generated_counts() {
    let earlier = Snapshot { generated: 100_000, matched: 1 };
    let later = Snapshot { generated: 250_000, matched: 4 };
    assert_eq!(later.attempts_since(&earlier), 150_000);
    assert_eq!(later.attempts_since(&later), 0);
    assert_eq!(earlier.attempts_since(&later), 0);
}
