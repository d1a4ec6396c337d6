use ydb::client_query_service::{QueryClient, RetryVerdict};
use ydb::errors::YdbStatusError;
use ydb::retrier::{NoRetrier, Retry, RetryDecision, RetryParams, TimeoutRetrier};
use ydb::session::TimeoutSettings;
use ydb::{NeedRetry, StatusCode, YdbError};

fn fatal_error() -> YdbError {
    YdbError::Custom("local validation".to_string())
}

fn idempotent_only_error() -> YdbError {
    YdbError::Transport("stream interrupted".to_string())
}

fn retryable_error() -> YdbError {
    YdbError::TransportDial("connection refused".to_string())
}

fn client() -> QueryClient {
    QueryClient::new(TimeoutSettings::default())
}

#[test]
fn test_need_retry_classification() {
    assert_eq!(fatal_error().need_retry(), NeedRetry::Never);
    assert_eq!(YdbError::NoRows.need_retry(), NeedRetry::Never);
    assert_eq!(idempotent_only_error().need_retry(), NeedRetry::IdempotentOnly);
    assert_eq!(retryable_error().need_retry(), NeedRetry::True);

    let status_err = |code: StatusCode| {
        YdbError::YdbStatusError(YdbStatusError {
            message: String::new(),
            operation_status: code.code(),
            issues: vec![],
        })
    };
    assert_eq!(status_err(StatusCode::Aborted).need_retry(), NeedRetry::True);
    assert_eq!(status_err(StatusCode::Unavailable).need_retry(), NeedRetry::True);
    assert_eq!(status_err(StatusCode::Overloaded).need_retry(), NeedRetry::True);
    assert_eq!(status_err(StatusCode::BadSession).need_retry(), NeedRetry::True);
    assert_eq!(status_err(StatusCode::SessionBusy).need_retry(), NeedRetry::True);
    assert_eq!(status_err(StatusCode::Undetermined).need_retry(), NeedRetry::IdempotentOnly);
    assert_eq!(status_err(StatusCode::SchemeError).need_retry(), NeedRetry::Never);
}

#[test]
fn test_status_code_round_trip() {
    assert_eq!(StatusCode::Success.code(), 400000);
    assert_eq!(StatusCode::BadSession.code(), 400100);
    assert_eq!(StatusCode::SessionExpired.code(), 400150);
    assert_eq!(StatusCode::from_i32(400100), Some(StatusCode::BadSession));
    assert_eq!(StatusCode::from_i32(123), None);
}

#[test]
fn test_timeout_retrier_exact_decisions() {
    let r = TimeoutRetrier { timeout_ms: 100 };
    // Before the first attempt there is no backoff.
    assert_eq!(
        r.wait_duration(RetryParams { attempt: 0, time_from_start_ms: 0 }),
        RetryDecision { allow_retry: true, wait_timeout_ms: 0 }
    );
    // The backoff base is one millisecond, so every later wait is one.
    assert_eq!(
        r.wait_duration(RetryParams { attempt: 3, time_from_start_ms: 50 }),
        RetryDecision { allow_retry: true, wait_timeout_ms: 1 }
    );
    // At the ceiling nothing more is allowed.
    assert_eq!(
        r.wait_duration(RetryParams { attempt: 1, time_from_start_ms: 100 }),
        RetryDecision { allow_retry: false, wait_timeout_ms: 0 }
    );
    // Just under the ceiling the wait would cross it: denied.
    assert_eq!(
        r.wait_duration(RetryParams { attempt: 1, time_from_start_ms: 99 }),
        RetryDecision { allow_retry: false, wait_timeout_ms: 1 }
    );
}

#[test]
fn test_no_retrier_denies() {
    let r = NoRetrier {};
    assert_eq!(
        r.wait_duration(RetryParams { attempt: 1, time_from_start_ms: 0 }),
        RetryDecision { allow_retry: false, wait_timeout_ms: 0 }
    );
}

#[test]
fn test_fatal_error_makes_exactly_one_attempt() {
    let c = client();
    let (attempts, result, waits) = c.run_retry_trace(vec![Err(fatal_error())], vec![0]);
    assert_eq!(attempts, 1);
    assert!(result.is_err());
    assert!(waits.is_empty());
}

#[test]
fn test_idempotent_only_error_on_non_idempotent_client_makes_one_attempt() {
    let c = client();
    let (attempts, result, waits) = c.run_retry_trace(vec![Err(idempotent_only_error())], vec![0]);
    assert_eq!(attempts, 1);
    assert!(result.is_err());
    assert!(waits.is_empty());
}

#[test]
fn test_idempotent_only_error_on_idempotent_client_retries() {
    let c = client().clone_with_idempotent_operations(true);
    let (attempts, result, _waits) = c.run_retry_trace(
        vec![Err(idempotent_only_error()), Ok(())],
        vec![1, 2],
    );
    assert_eq!(attempts, 2);
    assert!(result.is_ok());
}

#[test]
fn test_retryable_error_makes_n_plus_one_attempts_with_waits() {
    // The retrier permits three retries within its ceiling; the fourth
    // decision falls on the ceiling and is denied.
    let c = client().clone_with_retry_timeout(10);
    let outcomes = vec![
        Err(retryable_error()),
        Err(retryable_error()),
        Err(retryable_error()),
        Err(retryable_error()),
    ];
    let clocks = vec![2, 4, 6, 10];
    let (attempts, result, waits) = c.run_retry_trace(outcomes, clocks);
    assert_eq!(attempts, 4);
    assert!(result.is_err());
    // Each retry was separated by the retrier's computed wait.
    assert_eq!(waits, vec![1, 1, 1]);
}

#[test]
fn test_success_stops_retrying() {
    let c = client();
    let (attempts, result, waits) = c.run_retry_trace(
        vec![Err(retryable_error()), Ok(())],
        vec![1, 2],
    );
    assert_eq!(attempts, 2);
    assert!(result.is_ok());
    assert_eq!(waits, vec![1]);
}

#[test]
fn test_no_retry_clone_stops_after_one_attempt() {
    let c = client().clone_with_no_retry();
    let (attempts, _, _) = c.run_retry_trace(vec![Err(retryable_error())], vec![0]);
    assert_eq!(attempts, 1);
}

#[test]
fn test_clone_with_does_not_affect_the_original() {
    let original = client();
    let _no_retry = original.clone_with_no_retry();
    // The original still retries: configuration is copied, not shared.
    let (attempts, _, _) = original.run_retry_trace(
        vec![Err(retryable_error()), Ok(())],
        vec![1, 2],
    );
    assert_eq!(attempts, 2);
}

#[test]
fn test_retry_step_values() {
    let c = client().clone_with_retry_timeout(10);
    assert_eq!(c.retry_step(&fatal_error(), 1, 0), RetryVerdict::GiveUp);
    assert_eq!(
        c.retry_step(&retryable_error(), 1, 0),
        RetryVerdict::SleepThenRetry { wait_ms: 1 }
    );
    assert_eq!(c.retry_step(&retryable_error(), 1, 10), RetryVerdict::GiveUp);
}
