use gemini_rust::retry::{
    calculate_retry_delay, execute_with_retry, AttemptOutcome, RetryRunner, RetryStep,
};
use gemini_rust::{Error, RetryConfig};

fn policy(jitter: bool) -> RetryConfig {
    RetryConfig {
        max_attempts: 3,
        initial_delay_millis: 1000,
        max_delay_millis: 10000,
        backoff_multiplier_hundredths: 200,
        jitter,
    }
}

#[test]
fn first_delay_equals_initial_delay() {
    let p = policy(false);
    assert_eq!(calculate_retry_delay(&p, 1), 1000);
}

#[test]
fn delays_double_and_cap_at_ceiling() {
    let p = policy(false);
    assert_eq!(calculate_retry_delay(&p, 1), 1000);
    assert_eq!(calculate_retry_delay(&p, 2), 2000);
    assert_eq!(calculate_retry_delay(&p, 3), 4000);
    assert_eq!(calculate_retry_delay(&p, 4), 8000);
    assert_eq!(calculate_retry_delay(&p, 5), 10000);
    assert_eq!(calculate_retry_delay(&p, 6), 10000);
}

#[test]
fn delays_are_non_decreasing_in_attempt() {
    let p = policy(false);
    let mut last = 0u64;
    for attempt in 1..12u32 {
        let d = calculate_retry_delay(&p, attempt);
        assert!(d >= last);
        assert!(d <= p.max_delay_millis);
        last = d;
    }
}

#[test]
fn jittered_delay_stays_within_a_quarter() {
    let p = policy(true);
    for _ in 0..50 {
        let d = calculate_retry_delay(&p, 2);
        assert!((2000..=2500).contains(&d));
    }
}

#[test]
fn transport_failures_use_every_attempt() {
    let p = policy(false);
    let outcomes = vec![
        AttemptOutcome::TransportFailure,
        AttemptOutcome::TransportFailure,
        AttemptOutcome::TransportFailure,
    ];
    let report = execute_with_retry(&p, &outcomes);
    assert_eq!(report.attempts, 3);
    assert_eq!(report.failure, Some(Error::Transport));
    assert_eq!(report.delays_millis, vec![1000, 2000]);
}

#[test]
fn transport_failures_respect_larger_budget() {
    let mut p = policy(false);
    p.max_attempts = 5;
    let outcomes = vec![AttemptOutcome::TransportFailure; 5];
    let report = execute_with_retry(&p, &outcomes);
    assert_eq!(report.attempts, 5);
    assert_eq!(report.failure, Some(Error::Transport));
    assert_eq!(report.delays_millis, vec![1000, 2000, 4000, 8000]);
}

#[test]
fn client_error_stops_after_one_attempt() {
    let p = policy(false);
    let outcomes = vec![
        AttemptOutcome::HttpFailure { status: 404, body: String::from("{}") },
        AttemptOutcome::TransportFailure,
        AttemptOutcome::TransportFailure,
    ];
    let report = execute_with_retry(&p, &outcomes);
    assert_eq!(report.attempts, 1);
    assert!(matches!(
        report.failure,
        Some(Error::ClientError { status: 404, .. })
    ));
    assert!(report.delays_millis.is_empty());
}

#[test]
fn decode_failure_is_not_retried() {
    let p = policy(false);
    let outcomes = vec![
        AttemptOutcome::Delivered { decode_ok: false },
        AttemptOutcome::TransportFailure,
        AttemptOutcome::TransportFailure,
    ];
    let report = execute_with_retry(&p, &outcomes);
    assert_eq!(report.attempts, 1);
    assert_eq!(report.failure, Some(Error::Decode));
}

#[test]
fn server_errors_then_success_on_third_attempt() {
    let p = policy(false);
    let outcomes = vec![
        AttemptOutcome::HttpFailure { status: 503, body: String::new() },
        AttemptOutcome::HttpFailure { status: 503, body: String::new() },
        AttemptOutcome::Delivered { decode_ok: true },
    ];
    let report = execute_with_retry(&p, &outcomes);
    assert_eq!(report.attempts, 3);
    assert!(report.failure.is_none());
    // A server-side failure suggests its own fixed five-second delay, which
    // takes precedence over the scheduler's computed backoff.
    assert_eq!(report.delays_millis, vec![5000, 5000]);
}

#[test]
fn transport_failures_then_success_sleeps_backoff() {
    let p = policy(false);
    let outcomes = vec![
        AttemptOutcome::TransportFailure,
        AttemptOutcome::TransportFailure,
        AttemptOutcome::Delivered { decode_ok: true },
    ];
    let report = execute_with_retry(&p, &outcomes);
    assert_eq!(report.attempts, 3);
    assert!(report.failure.is_none());
    assert_eq!(report.delays_millis, vec![1000, 2000]);
}

#[test]
fn rate_limit_hint_overrides_backoff() {
    let p = policy(false);
    let outcomes = vec![
        AttemptOutcome::HttpFailure {
            status: 429,
            body: String::from("{\"retryAfter\": 7}"),
        },
        AttemptOutcome::Delivered { decode_ok: true },
        AttemptOutcome::TransportFailure,
    ];
    let report = execute_with_retry(&p, &outcomes);
    assert_eq!(report.attempts, 2);
    assert!(report.failure.is_none());
    assert_eq!(report.delays_millis, vec![7000]);
}

#[test]
fn exhausted_attempts_surface_last_error() {
    let p = policy(false);
    let outcomes = vec![
        AttemptOutcome::HttpFailure { status: 503, body: String::new() },
        AttemptOutcome::HttpFailure { status: 502, body: String::new() },
        AttemptOutcome::HttpFailure { status: 500, body: String::new() },
    ];
    let report = execute_with_retry(&p, &outcomes);
    assert_eq!(report.attempts, 3);
    assert_eq!(report.failure, Some(Error::ServerError { status: 500 }));
    assert_eq!(report.delays_millis, vec![5000, 5000]);
}

#[test]
fn runner_steps_match_outcomes() {
    let p = policy(false);
    let mut runner = RetryRunner::new(p);
    let step = runner.on_outcome(&AttemptOutcome::TransportFailure);
    assert_eq!(step, RetryStep::RetryAfter { delay_millis: 1000 });
    let step = runner.on_outcome(&AttemptOutcome::Delivered { decode_ok: true });
    assert_eq!(step, RetryStep::Succeed);
    assert_eq!(runner.attempts_made, 2);
}
