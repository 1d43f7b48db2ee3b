//! A progress reporter for the console: it remembers what one transfer is
//! about and hands out the lines to print, at most one progress line a second.
//!
//! The reporter measures time by its own clock, in nanoseconds since it was
//! made. The calls that end in `_at` take the reading of that clock from the
//! caller; the others read it themselves.

use vstd::prelude::*;
use vstd::string::*;
use crate::text::{decimal, decimal_string, text_view};

verus! {

/// `std::time::Instant`, a point in time of the monotonic clock. Nothing is
/// known of its value.
#[verifier::external_type_specification]
#[verifier::external_body]
pub struct ExInstant(std::time::Instant);

/// `std::time::Instant::now` reads the clock: nothing is claimed of the
/// result.
pub assume_specification[ std::time::Instant::now ]() -> (t: std::time::Instant)
;

/// `std::time::Instant::elapsed` measures the time since the instant was
/// taken: nothing is claimed of the result.
pub assume_specification[ std::time::Instant::elapsed ](t: &std::time::Instant) -> (d:
    std::time::Duration)
;

/// `std::time::Duration::as_nanos` gives the nanoseconds of a duration:
/// nothing is claimed of the result.
pub assume_specification[ std::time::Duration::as_nanos ](d: &std::time::Duration) -> (ns: u128)
;

/// The least time between two progress lines, in nanoseconds: one second.
pub const UPDATE_INTERVAL_NS: u128 = 1_000_000_000;

/// What a reporter knows of the transfer it reports on.
pub struct Subject {
    /// The reading of the clock when the transfer was set up or, if later,
    /// when its last progress line was given.
    pub last_update: u128,
    /// The number of bytes that the transfer is expected to have, if known.
    pub max_progress: Option<u64>,
    /// The label of the transfer.
    pub message: Seq<char>,
}

/// How the expected size is written: its numeral, or `{unknown}`.
pub open spec fn max_text(max_progress: Option<u64>) -> Seq<char> {
    match max_progress {
        Some(bytes) => decimal(bytes as nat),
        None => "{unknown}"@,
    }
}

/// The progress line for `current` bytes of a transfer.
pub open spec fn progress_text(current: u64, max_progress: Option<u64>, message: Seq<char>) -> Seq<
    char,
> {
    "test file: "@ + decimal(current as nat) + " of "@ + max_text(max_progress) + " bytes. ["@
        + message + "]"@
}

/// The line that tells of a new label.
pub open spec fn message_text(message: Seq<char>) -> Seq<char> {
    "test file: Message changed to: "@ + message
}

/// The line that ends a transfer.
pub open spec fn done_text() -> Seq<char> {
    "test file: [DONE]"@
}

/// What a reporter knows once a transfer of `max_progress` bytes, labelled
/// `message`, was set up at the reading `now` of the clock.
pub open spec fn set_up(max_progress: Option<u64>, message: Seq<char>, now: u128) -> Option<
    Subject,
> {
    Some(Subject { last_update: now, max_progress, message })
}

/// Whether a progress line is due at the reading `now` of the clock, the last
/// one having been at `last_update`: a second or more has passed.
pub open spec fn due(last_update: u128, now: u128) -> bool {
    now >= last_update && now - last_update >= UPDATE_INTERVAL_NS
}

/// What a report of `current` bytes at the reading `now` of the clock does to
/// a reporter, and the line that it gives. Where a transfer is set up and a
/// line is due, the line is given and the clock reading is kept; else nothing
/// changes and no line is given.
pub open spec fn progressed(before: Option<Subject>, current: u64, now: u128) -> (
    Option<Subject>,
    Option<Seq<char>>,
) {
    match before {
        Some(subject) => if due(subject.last_update, now) {
            (
                Some(Subject { last_update: now, ..subject }),
                Some(progress_text(current, subject.max_progress, subject.message)),
            )
        } else {
            (before, None)
        },
        None => (before, None),
    }
}

/// Writes the progress line for `current` bytes of a transfer.
pub fn progress_line(max_progress: Option<u64>, message: &str, current: u64) -> (line: String)
    ensures
        line@ == progress_text(current, max_progress, message@),
{
    let max_bytes = match max_progress {
        Some(bytes) => decimal_string(bytes),
        None => "{unknown}".to_owned(),
    };
    let mut line = "test file: ".to_owned();
    line.append(decimal_string(current).as_str());
    line.append(" of ");
    line.append(max_bytes.as_str());
    line.append(" bytes. [");
    line.append(message);
    line.append("]");
    line
}

#[derive(Debug)]
struct SimpleReporterPrivate {
    last_update: u128,
    max_progress: Option<u64>,
    message: String,
}

/// A reporter that answers each call with the line to print, if any.
#[derive(Debug)]
pub struct SimpleReporter {
    origin: std::time::Instant,
    private: Option<SimpleReporterPrivate>,
}

impl View for SimpleReporter {
    type V = Option<Subject>;

    /// The transfer that was set up and is not done yet, if there is one.
    closed spec fn view(&self) -> Option<Subject> {
        match self.private {
            Some(p) => Some(
                Subject {
                    last_update: p.last_update,
                    max_progress: p.max_progress,
                    message: p.message@,
                },
            ),
            None => None,
        }
    }
}

impl SimpleReporter {
    /// A reporter with no transfer set up. Its clock starts now.
    pub fn create() -> (r: Self)
        ensures
            r@ is None,
    {
        SimpleReporter { origin: std::time::Instant::now(), private: None }
    }

    /// Reads the clock of the reporter.
    fn now(&self) -> (ns: u128) {
        self.origin.elapsed().as_nanos()
    }

    /// Takes up a transfer of `max_progress` bytes, labelled `message`, at the
    /// reading `now` of the clock.
    pub fn setup_at(&mut self, max_progress: Option<u64>, message: &str, now: u128)
        ensures
            final(self)@ == set_up(max_progress, message@, now),
    {
        let private = SimpleReporterPrivate {
            last_update: now,
            max_progress,
            message: message.to_owned(),
        };
        self.private = Some(private);
    }

    /// Takes up a transfer of `max_progress` bytes, labelled `message`, at the
    /// reading that the clock has now.
    pub fn setup(&mut self, max_progress: Option<u64>, message: &str)
        ensures
            exists|now: u128| final(self)@ == #[trigger] set_up(max_progress, message@, now),
    {
        let now = self.now();
        self.setup_at(max_progress, message, now);
    }

    /// Reports that `current` bytes have arrived, at the reading `now` of the
    /// clock. The answer is the progress line, if a transfer is set up and a
    /// line is due.
    pub fn progress_at(&mut self, current: u64, now: u128) -> (line: Option<String>)
        ensures
            (final(self)@, text_view(line)) == progressed(old(self)@, current, now),
    {
        match self.private.take() {
            Some(p) => {
                if now >= p.last_update && now - p.last_update >= UPDATE_INTERVAL_NS {
                    let line = progress_line(p.max_progress, p.message.as_str(), current);
                    self.private = Some(
                        SimpleReporterPrivate {
                            last_update: now,
                            max_progress: p.max_progress,
                            message: p.message,
                        },
                    );
                    Some(line)
                } else {
                    self.private = Some(p);
                    None
                }
            },
            None => None,
        }
    }

    /// Reports that `current` bytes have arrived, at the reading that the
    /// clock has now.
    pub fn progress(&mut self, current: u64) -> (line: Option<String>)
        ensures
            exists|now: u128|
                (final(self)@, text_view(line)) == #[trigger] progressed(old(self)@, current, now),
    {
        let now = self.now();
        self.progress_at(current, now)
    }

    /// The line that tells of the new label `message`. The reporter keeps the
    /// label it was set up with.
    pub fn set_message(&self, message: &str) -> (line: String)
        ensures
            line@ == message_text(message@),
    {
        let mut line = "test file: Message changed to: ".to_owned();
        line.append(message);
        line
    }

    /// Ends the transfer and gives the line that says so.
    pub fn done(&mut self) -> (line: String)
        ensures
            final(self)@ is None,
            line@ == done_text(),
    {
        self.private = None;
        "test file: [DONE]".to_owned()
    }
}

/// Two progress lines of one transfer are at least a second apart: after a
/// line was given, none is due before the clock has gone on by a second.
pub proof fn at_most_one_line_a_second(
    before: Option<Subject>,
    current: u64,
    now: u128,
    next: u64,
    later: u128,
)
    requires
        progressed(before, current, now).1 is Some,
        later < now + UPDATE_INTERVAL_NS,
    ensures
        progressed(progressed(before, current, now).0, next, later).1 is None,
        progressed(progressed(before, current, now).0, next, later).0 == progressed(
            before,
            current,
            now,
        ).0,
{
}

} // verus!
