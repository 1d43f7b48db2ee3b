use feed_fetch::config::{Config, ConfigError, DEFAULT_CONCURRENCY};
use feed_fetch::error::ErrorKind;
use feed_fetch::job::{Cleanup, Job, JobResult, Outcome};
use feed_fetch::report::{describe, kind_string};
use feed_fetch::retry::RetryPolicy;
use feed_fetch::text::{contains_text, decimal_string};

#[test]
fn decimal_of_small_numbers() {
    assert_eq!(decimal_string(0), "0");
    assert_eq!(decimal_string(1), "1");
    assert_eq!(decimal_string(9), "9");
    assert_eq!(decimal_string(10), "10");
    assert_eq!(decimal_string(11), "11");
    assert_eq!(decimal_string(99), "99");
    assert_eq!(decimal_string(100), "100");
    assert_eq!(decimal_string(1234567890), "1234567890");
}

#[test]
fn decimal_of_the_largest_number() {
    assert_eq!(decimal_string(u64::MAX), "18446744073709551615");
    assert_eq!(decimal_string(u64::MAX - 1), "18446744073709551614");
    assert_eq!(decimal_string(10000000000000000000), "10000000000000000000");
}

#[test]
fn decimal_agrees_with_std() {
    let mut n: u64 = 1;
    for _ in 0..64 {
        assert_eq!(decimal_string(n), n.to_string());
        assert_eq!(decimal_string(n - 1), (n - 1).to_string());
        n = n.wrapping_mul(2);
    }
    for n in 0..2000u64 {
        assert_eq!(decimal_string(n), n.to_string());
    }
}

#[test]
fn contains_text_finds_whole_texts_only() {
    let texts = vec!["a.mp3".to_string(), "".to_string(), "b.mp3".to_string()];
    assert!(contains_text(&texts, &"a.mp3".to_string()));
    assert!(contains_text(&texts, &"b.mp3".to_string()));
    assert!(contains_text(&texts, &"".to_string()));
    assert!(!contains_text(&texts, &"a.mp".to_string()));
    assert!(!contains_text(&texts, &"A.MP3".to_string()));
    assert!(!contains_text(&Vec::new(), &"a.mp3".to_string()));
}

#[test]
fn kind_string_names_the_status() {
    assert_eq!(kind_string(ErrorKind::NetworkError), "network error");
    assert_eq!(kind_string(ErrorKind::ProtocolError { status: 404 }), "protocol error 404");
    assert_eq!(kind_string(ErrorKind::ProtocolError { status: 0 }), "protocol error 0");
    assert_eq!(kind_string(ErrorKind::ProtocolError { status: 65535 }), "protocol error 65535");
    assert_eq!(kind_string(ErrorKind::TruncatedTransfer), "truncated transfer");
    assert_eq!(kind_string(ErrorKind::FilesystemError), "filesystem error");
    assert_eq!(kind_string(ErrorKind::Cancelled), "cancelled");
}

#[test]
fn describe_success() {
    let done = JobResult::new(
        1,
        Outcome::Success { destination: "a.mp3".to_string(), skipped: false },
    );
    assert_eq!(describe(&done), "Success: a.mp3");
    let skipped =
        JobResult::new(2, Outcome::Success { destination: "b.mp3".to_string(), skipped: true });
    assert_eq!(describe(&skipped), "Success: b.mp3 (already there)");
}

#[test]
fn describe_failure_without_partial_file() {
    let r = JobResult::new(
        1,
        Outcome::Failure { kind: ErrorKind::ProtocolError { status: 503 }, partial: None },
    );
    assert_eq!(describe(&r), "Error: protocol error 503");
}

#[test]
fn describe_failure_tells_what_became_of_the_partial_file() {
    let mut r = JobResult::new(
        1,
        Outcome::Failure { kind: ErrorKind::TruncatedTransfer, partial: Some("x.mp3".to_string()) },
    );
    assert_eq!(r.cleanup, Cleanup::Pending);
    assert_eq!(describe(&r), "Error: truncated transfer; still to remove: x.mp3");
    r.cleanup = Cleanup::Removed;
    assert_eq!(describe(&r), "Error: truncated transfer; removed x.mp3");
    r.cleanup = Cleanup::Failed;
    assert_eq!(describe(&r), "Error: truncated transfer; could not remove x.mp3");
    r.cleanup = Cleanup::NotNeeded;
    assert_eq!(describe(&r), "Error: truncated transfer");
}

#[test]
fn clones_are_equal() {
    let j = Job {
        id: 9,
        source: "https://example.org/a".to_string(),
        destination: "a".to_string(),
        skip_if_exists: true,
    };
    assert_eq!(j.clone(), j);
    let r = JobResult::new(
        3,
        Outcome::Failure { kind: ErrorKind::Cancelled, partial: Some("p".to_string()) },
    );
    assert_eq!(r.clone(), r);
    assert_eq!(r.outcome.clone(), r.outcome);
    assert_eq!(r.outcome.partial(), Some(&"p".to_string()));
    let s = Outcome::Success { destination: "d".to_string(), skipped: false };
    assert_eq!(s.clone(), s);
    assert_eq!(s.partial(), None);
    assert!(s.is_success());
    assert!(!r.outcome.is_success());
}

#[test]
fn config_defaults() {
    let c = Config::new("output");
    assert_eq!(c.download_folder, "output");
    assert_eq!(c.concurrency, 8);
    assert_eq!(c.concurrency, DEFAULT_CONCURRENCY);
    assert_eq!(c.max_retries, 3);
    assert_eq!(c.policy(), RetryPolicy::new(3, 500, 30000));
}

#[test]
fn config_check_names_the_first_fault() {
    let mut c = Config::new("output");
    assert_eq!(c.check(true, 1), Ok(()));
    assert_eq!(c.check(true, 0), Err(ConfigError::NoJobs));
    assert_eq!(c.check(false, 1), Err(ConfigError::NoDestinationFolder));
    assert_eq!(c.check(false, 0), Err(ConfigError::NoDestinationFolder));
    c.concurrency = 0;
    assert_eq!(c.check(true, 1), Err(ConfigError::NoWorkers));
    assert_eq!(c.check(false, 0), Err(ConfigError::NoWorkers));
    c.concurrency = 1;
    c.max_retries = 0;
    assert_eq!(c.check(true, usize::MAX), Ok(()));
}
