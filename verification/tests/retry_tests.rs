use contact_manager::classify::ErrorKind;
use contact_manager::retry::{
    backoff_delay, run_retry, should_retry, AttemptResult, RetryConfig,
};

fn throttled() -> AttemptResult {
    AttemptResult::Failed("Throttling: rate exceeded".to_string())
}

#[test]
fn default_policy_values() {
    let config = RetryConfig::default();
    assert_eq!(config.max_attempts, 3);
    assert_eq!(config.base_delay_ms, 100);
    assert_eq!(config.max_delay_ms, 5000);
}

#[test]
fn backoff_doubles_per_attempt() {
    let config = RetryConfig::default();
    assert_eq!(backoff_delay(&config, 1), 100);
    assert_eq!(backoff_delay(&config, 2), 200);
    assert_eq!(backoff_delay(&config, 3), 400);
    assert_eq!(backoff_delay(&config, 4), 800);
}

#[test]
fn backoff_caps_at_max_delay() {
    let config = RetryConfig::default();
    assert_eq!(backoff_delay(&config, 6), 3200);
    assert_eq!(backoff_delay(&config, 7), 5000);
    assert_eq!(backoff_delay(&config, 30), 5000);
}

#[test]
fn backoff_of_zero_base_stays_zero() {
    let config = RetryConfig {
        max_attempts: 3,
        base_delay_ms: 0,
        max_delay_ms: 5000,
    };
    assert_eq!(backoff_delay(&config, 5), 0);
}

#[test]
fn retry_exhausts_budget_on_persistent_throttle() {
    // at most maxAttempts invocations; delays 100ms then 200ms
    let config = RetryConfig::default();
    let script = vec![throttled(), throttled(), throttled()];
    let t = run_retry(&config, &script);
    assert_eq!(t.attempts, 3);
    assert_eq!(t.delays, vec![100, 200]);
}

#[test]
fn retry_stops_at_first_success() {
    let config = RetryConfig::default();
    let script = vec![
        AttemptResult::Done,
        AttemptResult::Done,
        AttemptResult::Done,
    ];
    let t = run_retry(&config, &script);
    assert_eq!(t.attempts, 1);
    assert!(t.delays.is_empty());
}

#[test]
fn retry_recovers_after_one_outage() {
    let config = RetryConfig::default();
    let script = vec![
        AttemptResult::Failed("ServiceUnavailable".to_string()),
        AttemptResult::Done,
        AttemptResult::Done,
    ];
    let t = run_retry(&config, &script);
    assert_eq!(t.attempts, 2);
    assert_eq!(t.delays, vec![100]);
}

#[test]
fn retry_never_reinvokes_after_access_denial() {
    // exactly one invocation on a permanent classification
    let config = RetryConfig::default();
    let script = vec![
        AttemptResult::Failed("AccessDenied".to_string()),
        AttemptResult::Done,
        AttemptResult::Done,
    ];
    let t = run_retry(&config, &script);
    assert_eq!(t.attempts, 1);
    assert!(t.delays.is_empty());
}

#[test]
fn retry_never_reinvokes_after_not_found() {
    let config = RetryConfig::default();
    let script = vec![
        AttemptResult::Failed("ResourceNotFoundException".to_string()),
        AttemptResult::Done,
        AttemptResult::Done,
    ];
    let t = run_retry(&config, &script);
    assert_eq!(t.attempts, 1);
}

#[test]
fn retry_decision_requires_transient_and_budget() {
    assert!(should_retry(&ErrorKind::Throttled, 1, 3));
    assert!(should_retry(&ErrorKind::ServiceUnavailable, 2, 3));
    assert!(!should_retry(&ErrorKind::Throttled, 3, 3));
    assert!(!should_retry(&ErrorKind::AccessDenied, 1, 3));
    assert!(!should_retry(&ErrorKind::NotFound, 1, 3));
    assert!(!should_retry(&ErrorKind::Other("x".to_string()), 1, 3));
}
