use feed_fetch::error::ErrorKind;
use feed_fetch::retry::{
    RetryPolicy, DEFAULT_BASE_DELAY_MS, DEFAULT_MAX_DELAY_MS, DEFAULT_MAX_RETRIES,
};

#[test]
fn network_and_truncation_are_retryable() {
    assert!(ErrorKind::NetworkError.is_retryable());
    assert!(ErrorKind::TruncatedTransfer.is_retryable());
}

#[test]
fn filesystem_and_cancel_are_fatal() {
    assert!(!ErrorKind::FilesystemError.is_retryable());
    assert!(!ErrorKind::Cancelled.is_retryable());
}

#[test]
fn protocol_error_is_retryable_only_for_server_errors() {
    assert!(!ErrorKind::ProtocolError { status: 404 }.is_retryable());
    assert!(!ErrorKind::ProtocolError { status: 499 }.is_retryable());
    assert!(ErrorKind::ProtocolError { status: 500 }.is_retryable());
    assert!(ErrorKind::ProtocolError { status: 503 }.is_retryable());
    assert!(ErrorKind::ProtocolError { status: 599 }.is_retryable());
    assert!(!ErrorKind::ProtocolError { status: 600 }.is_retryable());
    assert!(!ErrorKind::ProtocolError { status: 301 }.is_retryable());
    assert!(!ErrorKind::ProtocolError { status: 0 }.is_retryable());
}

#[test]
fn kinds_have_names() {
    assert_eq!(ErrorKind::NetworkError.as_str(), "network error");
    assert_eq!(ErrorKind::ProtocolError { status: 500 }.as_str(), "protocol error");
    assert_eq!(ErrorKind::TruncatedTransfer.as_str(), "truncated transfer");
    assert_eq!(ErrorKind::FilesystemError.as_str(), "filesystem error");
    assert_eq!(ErrorKind::Cancelled.as_str(), "cancelled");
}

#[test]
fn default_policy_values() {
    let p = RetryPolicy::with_max_retries(DEFAULT_MAX_RETRIES);
    assert_eq!(p.max_retries, 3);
    assert_eq!(p.base_delay_ms, DEFAULT_BASE_DELAY_MS);
    assert_eq!(p.max_delay_ms, DEFAULT_MAX_DELAY_MS);
    assert_eq!(p, RetryPolicy::new(3, 500, 30000));
}

#[test]
fn should_retry_stops_at_the_last_attempt() {
    let p = RetryPolicy::new(3, 100, 1000);
    assert!(p.should_retry(1, ErrorKind::NetworkError));
    assert!(p.should_retry(2, ErrorKind::NetworkError));
    assert!(!p.should_retry(3, ErrorKind::NetworkError));
    assert!(!p.should_retry(4, ErrorKind::NetworkError));
    assert!(!p.should_retry(u32::MAX, ErrorKind::NetworkError));
}

#[test]
fn should_retry_never_retries_fatal_kinds() {
    let p = RetryPolicy::new(5, 100, 1000);
    assert!(!p.should_retry(1, ErrorKind::FilesystemError));
    assert!(!p.should_retry(1, ErrorKind::Cancelled));
    assert!(!p.should_retry(1, ErrorKind::ProtocolError { status: 403 }));
    assert!(p.should_retry(1, ErrorKind::ProtocolError { status: 502 }));
    assert!(p.should_retry(4, ErrorKind::TruncatedTransfer));
    assert!(!p.should_retry(5, ErrorKind::TruncatedTransfer));
}

#[test]
fn should_retry_with_no_or_one_attempt_allowed() {
    let none = RetryPolicy::new(0, 100, 1000);
    assert!(!none.should_retry(0, ErrorKind::NetworkError));
    assert!(!none.should_retry(1, ErrorKind::NetworkError));
    let one = RetryPolicy::new(1, 100, 1000);
    assert!(!one.should_retry(1, ErrorKind::NetworkError));
}

#[test]
fn backoff_doubles_up_to_the_bound() {
    let p = RetryPolicy::new(10, 500, 30000);
    assert_eq!(p.backoff(0), 500);
    assert_eq!(p.backoff(1), 500);
    assert_eq!(p.backoff(2), 1000);
    assert_eq!(p.backoff(3), 2000);
    assert_eq!(p.backoff(4), 4000);
    assert_eq!(p.backoff(6), 16000);
    assert_eq!(p.backoff(7), 30000);
    assert_eq!(p.backoff(8), 30000);
    assert_eq!(p.backoff(1000), 30000);
    assert_eq!(p.backoff(u32::MAX), 30000);
}

#[test]
fn backoff_edge_policies() {
    assert_eq!(RetryPolicy::new(3, 0, 1000).backoff(5), 0);
    assert_eq!(RetryPolicy::new(3, 0, 1000).backoff(u32::MAX), 0);
    assert_eq!(RetryPolicy::new(3, 700, 0).backoff(1), 0);
    assert_eq!(RetryPolicy::new(3, 5000, 1000).backoff(1), 1000);
    assert_eq!(RetryPolicy::new(3, 250, 250).backoff(1), 250);
    assert_eq!(RetryPolicy::new(3, 250, 250).backoff(9), 250);
    assert_eq!(RetryPolicy::new(3, 1, u64::MAX).backoff(64), 1u64 << 63);
    assert_eq!(RetryPolicy::new(3, 1, u64::MAX).backoff(65), u64::MAX);
    assert_eq!(RetryPolicy::new(3, u64::MAX, u64::MAX).backoff(2), u64::MAX);
    assert_eq!(RetryPolicy::new(3, 3, 100).backoff(6), 96);
    assert_eq!(RetryPolicy::new(3, 3, 100).backoff(7), 100);
}

#[test]
fn backoff_never_shrinks() {
    let p = RetryPolicy::new(10, 7, 5000);
    let mut last = 0u64;
    for attempt in 0u32..40 {
        let d = p.backoff(attempt);
        assert!(d >= last);
        assert!(d <= 5000);
        last = d;
    }
    assert_eq!(last, 5000);
}
