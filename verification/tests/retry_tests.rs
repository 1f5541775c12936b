//! The retry scheduler: growth, caps, budgets, and the driver loop.

use firmata::error::Error;
use firmata::retry::RetryPolicy;
use firmata::retry::RetryStep;

#[test]
fn default_policy_matches_documentation() {
    let p = RetryPolicy::new();
    assert_eq!(p.current_interval_ms, 500);
    assert_eq!(p.max_interval_ms, 5000);
    assert_eq!(p.elapsed_ms, 0);
    assert_eq!(p.max_elapsed_ms, 900_000);
    assert_eq!(p.attempts, 0);
    assert_eq!(p.max_attempts, u64::MAX);
}

#[test]
fn delays_grow_by_half_until_the_cap() {
    let mut p = RetryPolicy::with_limits(100, 450, 1_000_000, 100);
    let mut delays = Vec::new();
    for _ in 0..6 {
        match p.on_failure(Error::IoError) {
            RetryStep::Retry { delay_ms } => delays.push(delay_ms),
            RetryStep::GiveUp { .. } => panic!("budget should not be spent"),
        }
    }
    assert_eq!(delays, vec![100, 150, 225, 337, 450, 450]);
}

#[test]
fn a_failing_then_succeeding_operation_retries_with_non_decreasing_sleeps() {
    // The operation fails four times and succeeds on the fifth attempt.
    let mut remaining_failures = 4;
    let mut op = || {
        if remaining_failures > 0 {
            remaining_failures -= 1;
            Err(Error::IoError)
        } else {
            Ok(())
        }
    };

    let mut p = RetryPolicy::with_limits(100, 450, 1_000_000, 100);
    let mut slept = Vec::new();
    let outcome = loop {
        match op() {
            Ok(v) => break Ok(v),
            Err(e) => match p.on_failure(e) {
                RetryStep::Retry { delay_ms } => slept.push(delay_ms),
                RetryStep::GiveUp { error } => break Err(error),
            },
        }
    };

    assert_eq!(outcome, Ok(()));
    assert_eq!(slept.len(), 4);
    for w in slept.windows(2) {
        assert!(w[0] <= w[1]);
    }
    for d in &slept {
        assert!(*d <= 450);
    }
}

#[test]
fn attempt_budget_exhaustion_wraps_the_last_error() {
    let mut p = RetryPolicy::with_limits(10, 10, 1_000_000, 2);
    assert!(matches!(p.on_failure(Error::IoError), RetryStep::Retry { .. }));
    assert!(matches!(p.on_failure(Error::IoError), RetryStep::Retry { .. }));
    let step = p.on_failure(Error::BadByte { byte: 9 });
    match step {
        RetryStep::GiveUp { error: Error::AttemptsExceeded { source } } => {
            assert_eq!(*source, Error::BadByte { byte: 9 });
        }
        other => panic!("expected AttemptsExceeded, got {:?}", other),
    }
}

#[test]
fn time_budget_exhaustion_wraps_the_last_error() {
    let mut p = RetryPolicy::with_limits(100, 100, 150, u64::MAX);
    assert!(matches!(
        p.on_failure(Error::IoError),
        RetryStep::Retry { delay_ms: 100 }
    ));
    assert!(matches!(
        p.on_failure(Error::IoError),
        RetryStep::Retry { delay_ms: 100 }
    ));
    let step = p.on_failure(Error::MessageTooShort);
    match step {
        RetryStep::GiveUp { error: Error::TimeoutExceeded { source } } => {
            assert_eq!(*source, Error::MessageTooShort);
        }
        other => panic!("expected TimeoutExceeded, got {:?}", other),
    }
}

#[test]
fn giving_up_leaves_the_policy_unchanged() {
    let mut p = RetryPolicy::with_limits(10, 10, 1_000_000, 0);
    let before = p.clone();
    let step = p.on_failure(Error::IoError);
    assert!(matches!(step, RetryStep::GiveUp { .. }));
    assert_eq!(p, before);
}
