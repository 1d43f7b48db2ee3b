//! The line that tells the user of one result.

use vstd::prelude::*;
use vstd::string::*;
use crate::error::ErrorKind;
use crate::job::{Cleanup, JobResult, Outcome, OutcomeView, ResultView};
use crate::text::{decimal, decimal_string};

verus! {

/// How a kind of failure is written: its name, and for a refused status the
/// status behind it.
pub open spec fn kind_text(kind: ErrorKind) -> Seq<char> {
    match kind {
        ErrorKind::ProtocolError { status } => kind.name() + " "@ + decimal(status as nat),
        _ => kind.name(),
    }
}

/// What is said of the partial file `path` of a failed job.
pub open spec fn cleanup_text(cleanup: Cleanup, path: Seq<char>) -> Seq<char> {
    match cleanup {
        Cleanup::NotNeeded => Seq::empty(),
        Cleanup::Pending => "; still to remove: "@ + path,
        Cleanup::Removed => "; removed "@ + path,
        Cleanup::Failed => "; could not remove "@ + path,
    }
}

/// The line for a result: for a success the file, and whether it was there
/// before; for a failure its kind, and what became of the partial file.
pub open spec fn description(result: ResultView) -> Seq<char> {
    match result.outcome {
        OutcomeView::Success { destination, skipped } => "Success: "@ + destination + if skipped {
            " (already there)"@
        } else {
            Seq::empty()
        },
        OutcomeView::Failure { kind, partial } => "Error: "@ + kind_text(kind) + match partial {
            Some(path) => cleanup_text(result.cleanup, path),
            None => Seq::empty(),
        },
    }
}

/// Computes [`kind_text`].
pub fn kind_string(kind: ErrorKind) -> (s: String)
    ensures
        s@ == kind_text(kind),
{
    let mut s = kind.as_str().to_owned();
    match kind {
        ErrorKind::ProtocolError { status } => {
            s.append(" ");
            s.append(decimal_string(status as u64).as_str());
        },
        _ => {},
    }
    s
}

/// Computes [`description`].
pub fn describe(result: &JobResult) -> (line: String)
    ensures
        line@ == description(result@),
{
    match &result.outcome {
        Outcome::Success { destination, skipped } => {
            let mut line = "Success: ".to_owned();
            line.append(destination.as_str());
            if *skipped {
                line.append(" (already there)");
            }
            line
        },
        Outcome::Failure { kind, partial } => {
            let mut line = "Error: ".to_owned();
            line.append(kind_string(*kind).as_str());
            match partial {
                Some(path) => {
                    match result.cleanup {
                        Cleanup::NotNeeded => {},
                        Cleanup::Pending => {
                            line.append("; still to remove: ");
                            line.append(path.as_str());
                        },
                        Cleanup::Removed => {
                            line.append("; removed ");
                            line.append(path.as_str());
                        },
                        Cleanup::Failed => {
                            line.append("; could not remove ");
                            line.append(path.as_str());
                        },
                    }
                },
                None => {},
            }
            line
        },
    }
}

} // verus!
