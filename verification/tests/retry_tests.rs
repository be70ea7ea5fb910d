use lastfm_edit::retry::{backoff_delay, AttemptOutcome, RetryAction, RetryState};
use lastfm_edit::types::RetryConfig;

/// Drives the retry machine over a scripted list of outcomes, as the client's loop does, and
/// returns the final action together with the number of attempts made.
fn drive(config: &RetryConfig, outcomes: &[AttemptOutcome]) -> (RetryAction, usize) {
    let mut state = RetryState::new();
    let mut calls = 0;
    loop {
        let outcome = outcomes[calls];
        calls += 1;
        match state.step(config, outcome) {
            RetryAction::Wait { .. } => continue,
            other => return (other, calls),
        }
    }
}

#[test]
fn test_successful_operation() {
    let config = RetryConfig { max_retries: 3, base_delay: 1, max_delay: 60, enabled: true };
    let (action, calls) = drive(&config, &[AttemptOutcome::Succeeded]);
    assert_eq!(calls, 1);
    assert_eq!(
        action,
        RetryAction::Finish { attempts_made: 0, total_retry_time: 0, rate_limit_ended: false }
    );
}

#[test]
fn test_retry_on_rate_limit() {
    let config = RetryConfig { max_retries: 2, base_delay: 1, max_delay: 60, enabled: true };
    let rl = AttemptOutcome::RateLimited { retry_after: 1 };
    let (action, calls) = drive(&config, &[rl, rl, AttemptOutcome::Succeeded]);
    assert_eq!(calls, 3);
    match action {
        RetryAction::Finish { attempts_made, total_retry_time, rate_limit_ended } => {
            assert_eq!(attempts_made, 2);
            assert!(total_retry_time >= 2);
            assert!(rate_limit_ended);
        }
        other => panic!("unexpected {:?}", other),
    }
}

#[test]
fn test_max_retries_exceeded() {
    let config = RetryConfig { max_retries: 1, base_delay: 1, max_delay: 60, enabled: true };
    let rl = AttemptOutcome::RateLimited { retry_after: 1 };
    let (action, calls) = drive(&config, &[rl, rl, rl]);
    assert_eq!(calls, 2);
    match action {
        RetryAction::GiveUp { .. } => {}
        other => panic!("Expected rate limit error, got: {:?}", other),
    }
}

#[test]
fn test_retries_disabled() {
    let config = RetryConfig::disabled();
    let rl = AttemptOutcome::RateLimited { retry_after: 1 };
    let (action, calls) = drive(&config, &[rl, rl]);
    assert_eq!(calls, 1);
    match action {
        RetryAction::GiveUp { retry_after } => assert_eq!(retry_after, 1),
        other => panic!("Expected rate limit error, got: {:?}", other),
    }
}

#[test]
fn retry_other_error_fails_at_once() {
    let config = RetryConfig::default();
    let (action, calls) = drive(&config, &[AttemptOutcome::Failed, AttemptOutcome::Succeeded]);
    assert_eq!(calls, 1);
    assert_eq!(action, RetryAction::Fail);
}

#[test]
fn retry_wait_delays_follow_backoff() {
    let config = RetryConfig { max_retries: 3, base_delay: 5, max_delay: 300, enabled: true };
    let mut state = RetryState::new();
    let rl = AttemptOutcome::RateLimited { retry_after: 10 };
    // min(min(10 + 5, 300), 10 + 0) = 10
    assert_eq!(state.step(&config, rl), RetryAction::Wait { delay: 10 });
    // min(min(10 + 10, 300), 10 + 30) = 20
    assert_eq!(state.step(&config, rl), RetryAction::Wait { delay: 20 });
    // min(min(10 + 20, 300), 10 + 60) = 30
    assert_eq!(state.step(&config, rl), RetryAction::Wait { delay: 30 });
    assert_eq!(state.retries, 3);
    assert_eq!(state.total_retry_time, 60);
    assert_eq!(state.step(&config, rl), RetryAction::GiveUp { retry_after: 10 });
}

#[test]
fn backoff_is_capped_by_max_delay() {
    let config = RetryConfig { max_retries: 10, base_delay: 100, max_delay: 50, enabled: true };
    assert_eq!(backoff_delay(&config, 4, 200), 50);
    assert_eq!(backoff_delay(&config, 0, 0), 0);
    let config = RetryConfig::with_delays(1, 1000);
    assert_eq!(backoff_delay(&config, 5, 3), 35);
}

#[test]
fn retry_config_constructors() {
    assert_eq!(
        RetryConfig::default(),
        RetryConfig { max_retries: 3, base_delay: 5, max_delay: 300, enabled: true }
    );
    assert!(!RetryConfig::with_retries(0).enabled);
    assert!(RetryConfig::with_retries(2).enabled);
    assert_eq!(RetryConfig::disabled().max_retries, 0);
}
