use feed_fetch::reporter::{progress_line, SimpleReporter, UPDATE_INTERVAL_NS};

const SECOND: u128 = 1_000_000_000;

fn spin_for_millis(millis: u128) {
    let start = std::time::Instant::now();
    while start.elapsed().as_millis() < millis {
        std::hint::spin_loop();
    }
}

#[test]
fn the_interval_is_one_second() {
    assert_eq!(UPDATE_INTERVAL_NS, SECOND);
}

#[test]
fn progress_line_with_known_size() {
    assert_eq!(
        progress_line(Some(2048), "episode.mp3 1/3", 512),
        "test file: 512 of 2048 bytes. [episode.mp3 1/3]"
    );
    assert_eq!(progress_line(Some(0), "", 0), "test file: 0 of 0 bytes. []");
    assert_eq!(
        progress_line(Some(u64::MAX), "x", u64::MAX),
        "test file: 18446744073709551615 of 18446744073709551615 bytes. [x]"
    );
}

#[test]
fn progress_line_with_unknown_size() {
    assert_eq!(
        progress_line(None, "stream", 1234567),
        "test file: 1234567 of {unknown} bytes. [stream]"
    );
}

#[test]
fn progress_line_matches_std_formatting() {
    for current in [0u64, 7, 10, 99, 100, 1000, 4294967296, u64::MAX] {
        for max in [None, Some(0u64), Some(42), Some(u64::MAX)] {
            let max_bytes = match max {
                Some(bytes) => format!("{:?}", bytes),
                None => "{unknown}".to_owned(),
            };
            let expected = format!("test file: {} of {} bytes. [{}]", current, max_bytes, "é ü");
            assert_eq!(progress_line(max, "é ü", current), expected);
        }
    }
}

#[test]
fn no_line_before_a_second_has_passed() {
    let mut r = SimpleReporter::create();
    r.setup_at(Some(100), "file 1/3", 5_000);
    assert_eq!(r.progress_at(10, 5_000), None);
    assert_eq!(r.progress_at(10, 5_001), None);
    assert_eq!(r.progress_at(10, 5_000 + SECOND - 1), None);
}

#[test]
fn a_line_is_given_once_a_second_has_passed() {
    let mut r = SimpleReporter::create();
    r.setup_at(Some(100), "file 1/3", 5_000);
    assert_eq!(
        r.progress_at(10, 5_000 + SECOND),
        Some("test file: 10 of 100 bytes. [file 1/3]".to_string())
    );
}

#[test]
fn each_line_starts_the_interval_again() {
    let mut r = SimpleReporter::create();
    r.setup_at(None, "slow", 0);
    assert_eq!(r.progress_at(1, SECOND / 2), None);
    assert_eq!(
        r.progress_at(2, 3 * SECOND / 2),
        Some("test file: 2 of {unknown} bytes. [slow]".to_string())
    );
    assert_eq!(r.progress_at(3, 2 * SECOND), None);
    assert_eq!(r.progress_at(4, 5 * SECOND / 2 - 1), None);
    assert_eq!(
        r.progress_at(5, 5 * SECOND / 2),
        Some("test file: 5 of {unknown} bytes. [slow]".to_string())
    );
    assert_eq!(r.progress_at(6, 5 * SECOND / 2), None);
    assert_eq!(
        r.progress_at(7, u128::MAX),
        Some("test file: 7 of {unknown} bytes. [slow]".to_string())
    );
}

#[test]
fn a_clock_reading_before_the_last_update_gives_no_line() {
    let mut r = SimpleReporter::create();
    r.setup_at(Some(1), "m", 10 * SECOND);
    assert_eq!(r.progress_at(1, 0), None);
    assert_eq!(r.progress_at(1, 10 * SECOND - 1), None);
    assert_eq!(r.progress_at(1, 11 * SECOND), Some("test file: 1 of 1 bytes. [m]".to_string()));
}

#[test]
fn setup_at_the_end_of_time() {
    let mut r = SimpleReporter::create();
    r.setup_at(Some(1), "m", u128::MAX);
    assert_eq!(r.progress_at(1, u128::MAX), None);
    assert_eq!(r.progress_at(1, 0), None);
}

#[test]
fn reporter_without_setup_says_nothing_of_progress() {
    let mut r = SimpleReporter::create();
    assert_eq!(r.progress(0), None);
    assert_eq!(r.progress_at(100, 0), None);
    assert_eq!(r.progress_at(100, u128::MAX), None);
}

#[test]
fn reporter_is_silent_right_after_setup_or_gives_the_line() {
    let mut r = SimpleReporter::create();
    r.setup(Some(100), "file 1/3");
    let line = r.progress(10);
    assert!(line.is_none() || line == Some("test file: 10 of 100 bytes. [file 1/3]".to_string()));
}

#[test]
fn reporter_gives_one_line_after_a_second_and_starts_the_clock_again() {
    let mut r = SimpleReporter::create();
    r.setup(None, "slow");
    spin_for_millis(1050);
    assert_eq!(r.progress(77), Some("test file: 77 of {unknown} bytes. [slow]".to_string()));
    let again = std::time::Instant::now();
    let second = r.progress(78);
    if again.elapsed().as_millis() < 900 {
        assert_eq!(second, None);
    }
}

#[test]
fn setup_replaces_the_subject() {
    let mut r = SimpleReporter::create();
    r.setup_at(Some(1), "first", 0);
    r.setup_at(Some(5000), "second", SECOND);
    assert_eq!(r.progress_at(3, SECOND + 1), None);
    assert_eq!(
        r.progress_at(3, 2 * SECOND),
        Some("test file: 3 of 5000 bytes. [second]".to_string())
    );
}

#[test]
fn set_message_gives_its_line_and_keeps_the_label() {
    let mut r = SimpleReporter::create();
    assert_eq!(r.set_message("hello"), "test file: Message changed to: hello");
    assert_eq!(r.set_message(""), "test file: Message changed to: ");
    r.setup_at(Some(9), "kept", 0);
    assert_eq!(r.set_message("new - 200"), "test file: Message changed to: new - 200");
    assert_eq!(r.progress_at(9, SECOND), Some("test file: 9 of 9 bytes. [kept]".to_string()));
}

#[test]
fn done_ends_the_transfer() {
    let mut r = SimpleReporter::create();
    assert_eq!(r.done(), "test file: [DONE]");
    r.setup_at(Some(9), "x", 0);
    assert_eq!(r.done(), "test file: [DONE]");
    assert_eq!(r.progress_at(5, 10 * SECOND), None);
}
