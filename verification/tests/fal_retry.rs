use space_recorder::fal::retry::{is_transient_network_error, parse_retry_after, NetworkFailure};
use space_recorder::fal::client::{network_retry, next_retry, rate_limit_retry, FalError, RetryCounts, RetryDecision, RetryEvent};
use space_recorder::fal::retry::{
    calculate_backoff, default_backoff_base, default_backoff_max, DEFAULT_MAX_RETRIES, DEFAULT_NETWORK_RETRIES,
};
use std::time::Duration;

#[test]
fn test_calculate_backoff_first_attempt() {
    let delay = calculate_backoff(0, Duration::from_secs(1), Duration::from_secs(60));
    assert!(delay >= Duration::from_secs(1));
    assert!(delay <= Duration::from_millis(1500));
}

#[test]
fn test_calculate_backoff_second_attempt() {
    let delay = calculate_backoff(1, Duration::from_secs(1), Duration::from_secs(60));
    assert!(delay >= Duration::from_secs(2));
    assert!(delay <= Duration::from_millis(2500));
}

#[test]
fn test_calculate_backoff_third_attempt() {
    let delay = calculate_backoff(2, Duration::from_secs(1), Duration::from_secs(60));
    assert!(delay >= Duration::from_secs(4));
    assert!(delay <= Duration::from_millis(4500));
}

#[test]
fn test_calculate_backoff_respects_max() {
    let delay = calculate_backoff(10, Duration::from_secs(1), Duration::from_secs(60));
    assert!(delay <= Duration::from_secs(60));
}

#[test]
fn test_calculate_backoff_with_small_base() {
    let delay = calculate_backoff(0, Duration::from_millis(100), Duration::from_secs(10));
    assert!(delay >= Duration::from_millis(100));
    assert!(delay <= Duration::from_millis(150));
}

#[test]
fn test_default_retry_constants() {
    assert_eq!(DEFAULT_MAX_RETRIES, 5);
    assert_eq!(default_backoff_base(), Duration::from_secs(1));
    assert_eq!(default_backoff_max(), Duration::from_secs(60));
}

#[test]
fn test_default_network_retries_is_3() {
    assert_eq!(DEFAULT_NETWORK_RETRIES, 3);
}

#[test]
fn test_network_retry_uses_exponential_backoff() {
    let first_delay = calculate_backoff(0, default_backoff_base(), default_backoff_max());
    let second_delay = calculate_backoff(1, default_backoff_base(), default_backoff_max());
    let third_delay = calculate_backoff(2, default_backoff_base(), default_backoff_max());
    assert!(first_delay >= Duration::from_secs(1));
    assert!(second_delay >= Duration::from_secs(2));
    assert!(third_delay >= Duration::from_secs(4));
    assert!(first_delay <= default_backoff_max());
    assert!(second_delay <= default_backoff_max());
    assert!(third_delay <= default_backoff_max());
}

#[test]
fn backoff_exact_values() {
    assert_eq!(calculate_backoff(0, Duration::from_secs(1), Duration::from_secs(60)), Duration::from_millis(1500));
    assert_eq!(calculate_backoff(3, Duration::from_secs(1), Duration::from_secs(60)), Duration::from_millis(8500));
    assert_eq!(calculate_backoff(6, Duration::from_secs(1), Duration::from_secs(60)), Duration::from_secs(60));
    assert_eq!(calculate_backoff(40, Duration::from_secs(1), Duration::MAX), Duration::new(4_294_967_295, 500_000_000));
    assert_eq!(calculate_backoff(1, Duration::from_secs(10), Duration::from_secs(600)), Duration::from_millis(20_500));
}

#[test]
fn retry_decisions() {
    let base = Duration::from_secs(1);
    let max = Duration::from_secs(60);
    assert_eq!(rate_limit_retry(0, 5, Some(7), base, max), Some(Duration::from_secs(7)));
    assert_eq!(rate_limit_retry(0, 5, Some(700), base, max), Some(Duration::from_secs(60)));
    assert_eq!(rate_limit_retry(1, 5, None, base, max), Some(Duration::from_millis(2500)));
    assert_eq!(rate_limit_retry(5, 5, None, base, max), None);
    assert_eq!(network_retry(2, 3, base, max), Some(Duration::from_millis(4500)));
    assert_eq!(network_retry(3, 3, base, max), None);
}

#[test]
fn full_retry_gives_up_after_limit() {
    let base = Duration::from_secs(1);
    let max = Duration::from_secs(60);
    let mut counts = RetryCounts { network: 0, rate_limit: 0 };
    for i in 0..2u32 {
        let (next, decision) =
            next_retry(counts, RetryEvent::NetworkFailure { message: "reset".to_string() }, 2, 5, base, max);
        counts = next;
        assert_eq!(counts.network, i + 1);
        assert!(matches!(decision, RetryDecision::Wait(_)));
    }
    let (next, decision) = next_retry(counts, RetryEvent::NetworkFailure { message: "reset".to_string() }, 2, 5, base, max);
    assert_eq!(next.network, 3);
    match decision {
        RetryDecision::GiveUp(FalError::NetworkError { message, attempts }) => {
            assert_eq!(message, "reset");
            assert_eq!(attempts, 3);
        }
        other => panic!("unexpected {:?}", other),
    }
    let (next, decision) = next_retry(
        RetryCounts { network: 0, rate_limit: 0 },
        RetryEvent::RateLimited { message: "slow down".to_string(), retry_after_secs: Some(3) },
        2,
        0,
        base,
        max,
    );
    assert_eq!(next.rate_limit, 1);
    assert!(matches!(decision, RetryDecision::GiveUp(FalError::RateLimit { retry_after_secs: Some(3), .. })));
}

#[test]
fn retry_transient_failures() {
    let none = NetworkFailure { connect: false, timeout: false, body: false, status: None };
    assert!(!is_transient_network_error(&none));
    assert!(is_transient_network_error(&NetworkFailure { connect: true, ..none }));
    assert!(is_transient_network_error(&NetworkFailure { timeout: true, ..none }));
    assert!(is_transient_network_error(&NetworkFailure { body: true, ..none }));
    for code in [502u16, 503, 504] {
        assert!(is_transient_network_error(&NetworkFailure { status: Some(code), ..none }));
    }
    for code in [400u16, 429, 500, 501, 505] {
        assert!(!is_transient_network_error(&NetworkFailure { status: Some(code), ..none }));
    }
}

#[test]
fn retry_after_header_is_read_as_seconds() {
    assert_eq!(parse_retry_after(None), None);
    assert_eq!(parse_retry_after(Some("30")), Some(30));
    assert_eq!(parse_retry_after(Some("+7")), Some(7));
    assert_eq!(parse_retry_after(Some(" 30")), None);
    assert_eq!(parse_retry_after(Some("Wed, 21 Oct 2015 07:28:00 GMT")), None);
    assert_eq!(parse_retry_after(Some("18446744073709551615")), Some(u64::MAX));
    assert_eq!(parse_retry_after(Some("18446744073709551616")), None);
}
