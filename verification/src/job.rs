//! Jobs, what a worker reports of an attempt, and the result of a job.

use vstd::prelude::*;
use crate::error::ErrorKind;

verus! {

/// One requested transfer: from `source` to the file `destination`, which is
/// a path below the download folder. A scheduler owns its jobs and never
/// changes them.
#[derive(Debug, PartialEq, Eq)]
pub struct Job {
    /// The token by which the caller knows the job.
    pub id: u64,
    /// Where the resource is fetched from.
    pub source: String,
    /// Where the resource is written to.
    pub destination: String,
    /// Whether a destination that is already there makes the transfer
    /// unnecessary.
    pub skip_if_exists: bool,
}

/// A job with its texts as sequences of characters.
pub struct JobView {
    pub id: u64,
    pub source: Seq<char>,
    pub destination: Seq<char>,
    pub skip_if_exists: bool,
}

impl View for Job {
    type V = JobView;

    open spec fn view(&self) -> JobView {
        JobView {
            id: self.id,
            source: self.source@,
            destination: self.destination@,
            skip_if_exists: self.skip_if_exists,
        }
    }
}

impl Clone for Job {
    fn clone(&self) -> (r: Self)
        ensures
            r == *self,
    {
        Job {
            id: self.id,
            source: self.source.clone(),
            destination: self.destination.clone(),
            skip_if_exists: self.skip_if_exists,
        }
    }
}

/// The jobs of a list, each by its view.
pub open spec fn job_views(jobs: Seq<Job>) -> Seq<JobView> {
    Seq::new(jobs.len(), |i: int| jobs[i]@)
}

/// One try of a job against the network, as the worker that makes it knows
/// it. When it started is the worker's own business.
#[derive(Clone, Copy, Debug, PartialEq, Eq, Structural)]
pub struct Attempt {
    /// The place of the job in the list of the run.
    pub job: usize,
    /// The token of the job.
    pub job_id: u64,
    /// The number of the attempt, counted from 1.
    pub attempt_number: u32,
}

/// What a worker saw of one attempt.
#[derive(Clone, Copy, Debug, PartialEq, Eq)]
pub struct AttemptReport {
    /// The attempt that the report is about.
    pub attempt: Attempt,
    /// How the transport ended.
    pub outcome: Result<(), ErrorKind>,
    /// Whether the attempt created the destination or wrote to it.
    pub wrote_file: bool,
}

/// What has become of the partial file of a failed job.
#[derive(Clone, Copy, Debug, PartialEq, Eq, Structural)]
pub enum Cleanup {
    /// The job left nothing to remove.
    NotNeeded,
    /// The file has to be removed, and nobody has said yet how that went.
    Pending,
    /// The file was removed.
    Removed,
    /// The file could not be removed. This is a warning: the job's outcome
    /// stays as it was.
    Failed,
}

/// How a job ended.
#[derive(Debug, PartialEq, Eq)]
pub enum Outcome {
    /// The destination holds the complete resource. `skipped` tells that it
    /// was there before the run, so that nothing was transferred.
    Success { destination: String, skipped: bool },
    /// No attempt succeeded. `partial` is the destination if an attempt wrote
    /// to it.
    Failure { kind: ErrorKind, partial: Option<String> },
}

/// An outcome with its texts as sequences of characters.
pub enum OutcomeView {
    Success { destination: Seq<char>, skipped: bool },
    Failure { kind: ErrorKind, partial: Option<Seq<char>> },
}

impl OutcomeView {
    /// The file that a failed job left behind, if any.
    pub open spec fn partial(self) -> Option<Seq<char>> {
        match self {
            OutcomeView::Success { .. } => None,
            OutcomeView::Failure { partial, .. } => partial,
        }
    }

    /// The cleanup that a fresh result with this outcome starts with.
    pub open spec fn initial_cleanup(self) -> Cleanup {
        if self.partial() is Some {
            Cleanup::Pending
        } else {
            Cleanup::NotNeeded
        }
    }
}

impl View for Outcome {
    type V = OutcomeView;

    open spec fn view(&self) -> OutcomeView {
        match *self {
            Outcome::Success { destination, skipped } => OutcomeView::Success {
                destination: destination@,
                skipped,
            },
            Outcome::Failure { kind, partial } => OutcomeView::Failure {
                kind,
                partial: match partial {
                    Some(p) => Some(p@),
                    None => None,
                },
            },
        }
    }
}

impl Clone for Outcome {
    fn clone(&self) -> (r: Self)
        ensures
            r == *self,
    {
        match self {
            Outcome::Success { destination, skipped } => Outcome::Success {
                destination: destination.clone(),
                skipped: *skipped,
            },
            Outcome::Failure { kind, partial } => {
                let partial = match partial {
                    Some(p) => Some(p.clone()),
                    None => None,
                };
                Outcome::Failure { kind: *kind, partial }
            },
        }
    }
}

/// The result of one job.
#[derive(Debug, PartialEq, Eq)]
pub struct JobResult {
    /// The token of the job.
    pub job_id: u64,
    /// How the job ended.
    pub outcome: Outcome,
    /// What has become of its partial file.
    pub cleanup: Cleanup,
}

/// A result with its texts as sequences of characters.
pub struct ResultView {
    pub job_id: u64,
    pub outcome: OutcomeView,
    pub cleanup: Cleanup,
}

impl ResultView {
    /// The result of job `job_id` with `outcome`, before any cleanup.
    pub open spec fn fresh(job_id: u64, outcome: OutcomeView) -> ResultView {
        ResultView { job_id, outcome, cleanup: outcome.initial_cleanup() }
    }

    /// Cleanup is an issue exactly for a result that names a partial file.
    pub open spec fn coherent(self) -> bool {
        self.cleanup is NotNeeded <==> self.outcome.partial() is None
    }

    /// Nothing is left to do for this result.
    pub open spec fn settled(self) -> bool {
        self.cleanup !is Pending
    }
}

impl View for JobResult {
    type V = ResultView;

    open spec fn view(&self) -> ResultView {
        ResultView { job_id: self.job_id, outcome: self.outcome@, cleanup: self.cleanup }
    }
}

impl Clone for JobResult {
    fn clone(&self) -> (r: Self)
        ensures
            r == *self,
    {
        JobResult { job_id: self.job_id, outcome: self.outcome.clone(), cleanup: self.cleanup }
    }
}

impl Outcome {
    /// The file that a failed job left behind, if any.
    pub fn partial(&self) -> (p: Option<&String>)
        ensures
            match p {
                Some(path) => self@.partial() == Some(path@),
                None => self@.partial() is None,
            },
    {
        match self {
            Outcome::Success { .. } => None,
            Outcome::Failure { partial, .. } => partial.as_ref(),
        }
    }

    /// Whether the job succeeded.
    pub fn is_success(&self) -> (b: bool)
        ensures
            b == (self@ is Success),
    {
        match self {
            Outcome::Success { .. } => true,
            Outcome::Failure { .. } => false,
        }
    }
}

impl JobResult {
    /// The result of job `job_id` with `outcome`. Its cleanup is pending if
    /// the outcome names a partial file, and not needed otherwise.
    pub fn new(job_id: u64, outcome: Outcome) -> (r: Self)
        ensures
            r@ == ResultView::fresh(job_id, outcome@),
            r@.coherent(),
    {
        let cleanup = if outcome.partial().is_some() {
            Cleanup::Pending
        } else {
            Cleanup::NotNeeded
        };
        JobResult { job_id, outcome, cleanup }
    }
}

} // verus!
