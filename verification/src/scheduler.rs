//! The scheduler: it owns the jobs of a run, hands them to free workers in
//! the order of submission, decides after each attempt whether the job goes
//! on, and collects the results.

pub mod laws;
pub mod model;

use vstd::prelude::*;
use crate::aggregate::{Recorded, ResultAggregator};
use crate::config::{config_fault, ConfigError};
use crate::error::ErrorKind;
use crate::job::{job_views, Attempt, AttemptReport, Job, JobResult, Outcome};
use crate::retry::RetryPolicy;
use crate::text::{contains_text, text_view, text_views};
use crate::scheduler::model::{
    active_count, cancelled_is_wf, cleaned_is_wf, idle_means_busy, initial_is_wf,
    names_destination, next_is_unique, reported_is_wf, started_is_wf, Event, Phase,
    SchedulerState,
};

verus! {

/// What a free worker is told.
#[derive(Clone, Copy, Debug, PartialEq, Eq)]
pub enum Dispatch {
    /// Make this attempt: the first of its job.
    Start(Attempt),
    /// No job can start now; ask again when a report has come in.
    Idle,
    /// Every job is done.
    Finished,
}

/// What the worker of a job is told when it has handed in a report.
#[derive(Debug, PartialEq, Eq)]
pub enum Verdict {
    /// Wait `delay_ms` milliseconds, then make this attempt: the next of the
    /// job.
    Retry { attempt: Attempt, delay_ms: u64 },
    /// The job is over. `cleanup` is the partial file to remove now, if the
    /// job left one.
    Completed { cleanup: Option<String> },
    /// The report is not about the attempt that its job is at: it was not
    /// expected.
    Ignored,
}

/// A run of a list of jobs.
#[derive(Debug)]
pub struct Scheduler {
    jobs: Vec<Job>,
    phases: Vec<Phase>,
    results: ResultAggregator,
    concurrency: u16,
    policy: RetryPolicy,
    cancelled: bool,
}

impl View for Scheduler {
    type V = SchedulerState;

    closed spec fn view(&self) -> SchedulerState {
        SchedulerState {
            jobs: job_views(self.jobs@),
            phases: self.phases@,
            results: self.results@,
            concurrency: self.concurrency,
            policy: self.policy,
            cancelled: self.cancelled,
        }
    }
}

impl Scheduler {
    /// Sets up the run of `jobs` with at most `concurrency` active jobs.
    /// `existing` names the destinations that are there already, and
    /// `folder_ready` tells whether the download folder is. A job that asks
    /// to be skipped and whose destination is there is done at once, as a
    /// success; no other job has started.
    pub fn new(
        jobs: Vec<Job>,
        existing: &Vec<String>,
        folder_ready: bool,
        concurrency: u16,
        policy: RetryPolicy,
    ) -> (r: Result<Scheduler, ConfigError>)
        ensures
            match r {
                Ok(s) => {
                    &&& config_fault(concurrency, folder_ready, jobs.len() as nat) is None
                    &&& s@ == SchedulerState::initial(
                        job_views(jobs@),
                        text_views(existing@),
                        concurrency,
                        policy,
                    )
                    &&& s@.wf()
                },
                Err(e) => config_fault(concurrency, folder_ready, jobs.len() as nat) == Some(e),
            },
    {
        if concurrency == 0 {
            return Err(ConfigError::NoWorkers);
        }
        if !folder_ready {
            return Err(ConfigError::NoDestinationFolder);
        }
        if jobs.len() == 0 {
            return Err(ConfigError::NoJobs);
        }
        let ghost start = SchedulerState::initial(
            job_views(jobs@),
            text_views(existing@),
            concurrency,
            policy,
        );
        let mut results = ResultAggregator::for_jobs(&jobs);
        let mut phases: Vec<Phase> = Vec::new();
        let mut i: usize = 0;
        while i < jobs.len()
            invariant
                i <= jobs.len(),
                start == SchedulerState::initial(
                    job_views(jobs@),
                    text_views(existing@),
                    concurrency,
                    policy,
                ),
                results@.wf(),
                results@.ids =~= start.results.ids,
                results@.slots.len() == jobs.len(),
                phases.len() == i,
                forall|k: int| 0 <= k < i ==> #[trigger] phases@[k] == start.phases[k],
                forall|k: int| 0 <= k < i ==> #[trigger] results@.slots[k] == start.results.slots[k],
                forall|k: int| i <= k < jobs.len() ==> #[trigger] results@.slots[k] is None,
            decreases jobs.len() - i,
        {
            let job = &jobs[i];
            if job.skip_if_exists && contains_text(existing, &job.destination) {
                let outcome = Outcome::Success {
                    destination: job.destination.clone(),
                    skipped: true,
                };
                let stored = results.record_at(i, JobResult::new(job.id, outcome));
                phases.push(Phase::Done);
            } else {
                phases.push(Phase::Pending);
            }
            i = i + 1;
        }
        let s = Scheduler { jobs, phases, results, concurrency, policy, cancelled: false };
        proof {
            initial_is_wf(job_views(jobs@), text_views(existing@), concurrency, policy);
            assert(s@.phases =~= start.phases);
            assert(s@.results.slots =~= start.results.slots);
        }
        Ok(s)
    }

    /// The number of jobs of the run.
    pub fn len(&self) -> (n: usize)
        ensures
            n == self@.jobs.len(),
    {
        self.jobs.len()
    }

    /// Job `i` of the run, by the order of submission.
    pub fn job(&self, i: usize) -> (job: Option<&Job>)
        ensures
            match job {
                Some(j) => i < self@.jobs.len() && j@ == self@.jobs[i as int],
                None => i >= self@.jobs.len(),
            },
    {
        if i < self.jobs.len() {
            Some(&self.jobs[i])
        } else {
            None
        }
    }

    /// Where job `i` stands.
    pub fn phase(&self, i: usize) -> (phase: Option<Phase>)
        ensures
            match phase {
                Some(p) => i < self@.phases.len() && p == self@.phases[i as int],
                None => i >= self@.phases.len(),
            },
    {
        if i < self.phases.len() {
            Some(self.phases[i])
        } else {
            None
        }
    }

    /// The result of job `i`, if it has come.
    pub fn result(&self, i: usize) -> (r: Option<&JobResult>)
        ensures
            match r {
                Some(result) => i < self@.results.slots.len() && self@.results.slots[i as int]
                    == Some(result@),
                None => i >= self@.results.slots.len() || self@.results.slots[i as int] is None,
            },
    {
        self.results.get(i)
    }

    /// The number of active jobs.
    pub fn active(&self) -> (n: usize)
        ensures
            n == active_count(self@.phases),
    {
        let mut n: usize = 0;
        let mut i: usize = 0;
        while i < self.phases.len()
            invariant
                i <= self.phases.len(),
                n <= i,
                n == active_count(self.phases@.take(i as int)),
            decreases self.phases.len() - i,
        {
            proof {
                assert(self.phases@.take(i + 1).drop_last() =~= self.phases@.take(i as int));
            }
            match self.phases[i] {
                Phase::Active { .. } => {
                    n = n + 1;
                },
                _ => {},
            }
            i = i + 1;
        }
        proof {
            assert(self.phases@.take(self.phases.len() as int) =~= self.phases@);
        }
        n
    }

    /// Whether the run was cancelled.
    pub fn is_cancelled(&self) -> (b: bool)
        ensures
            b == self@.cancelled,
    {
        self.cancelled
    }

    /// Whether every job is done.
    pub fn is_finished(&self) -> (b: bool)
        ensures
            b == self@.finished(),
    {
        let mut i: usize = 0;
        while i < self.phases.len()
            invariant
                i <= self.phases.len(),
                forall|k: int| 0 <= k < i ==> #[trigger] self.phases@[k] is Done,
            decreases self.phases.len() - i,
        {
            match self.phases[i] {
                Phase::Done => {},
                _ => {
                    return false;
                },
            }
            i = i + 1;
        }
        true
    }

    fn is_blocked(&self, i: usize) -> (b: bool)
        requires
            self@.shaped(),
            i < self@.jobs.len(),
        ensures
            b == self@.blocked(i as int),
    {
        let mut j: usize = 0;
        while j < self.phases.len()
            invariant
                j <= self.phases.len(),
                self@.shaped(),
                i < self@.jobs.len(),
                forall|k: int|
                    0 <= k < j ==> !(k != i && #[trigger] self@.phases[k] is Active
                        && self@.jobs[k].destination == self@.jobs[i as int].destination),
            decreases self.phases.len() - j,
        {
            if j != i {
                match self.phases[j] {
                    Phase::Active { .. } => {
                        if self.jobs[j].destination == self.jobs[i].destination {
                            return true;
                        }
                    },
                    _ => {},
                }
            }
            j = j + 1;
        }
        false
    }

    /// Answers a free worker. While the run has room for another active job,
    /// the first pending job whose destination no active job writes to
    /// starts, with its first attempt. Otherwise nothing changes: the worker
    /// is told to ask again, or that the run is over. The worker is told to
    /// ask again only while some job is active.
    pub fn next_job(&mut self) -> (d: Dispatch)
        requires
            old(self)@.wf(),
        ensures
            final(self)@.wf(),
            final(self)@ == old(self)@.after(Event::Ask),
            match d {
                Dispatch::Start(attempt) => {
                    &&& old(self)@.next_is(attempt.job as int)
                    &&& attempt.attempt_number == 1
                    &&& final(self)@ == old(self)@.started(attempt.job as int)
                    &&& final(self)@.expects(attempt)
                },
                Dispatch::Idle => {
                    &&& old(self)@.none_can_start()
                    &&& !old(self)@.finished()
                    &&& active_count(old(self)@.phases) > 0
                    &&& final(self)@ == old(self)@
                },
                Dispatch::Finished => {
                    &&& old(self)@.finished()
                    &&& final(self)@ == old(self)@
                },
            },
    {
        let room: usize = self.concurrency as usize;
        if !self.cancelled && self.active() < room {
            let mut i: usize = 0;
            while i < self.phases.len()
                invariant
                    i <= self.phases.len(),
                    *self == *old(self),
                    self@.wf(),
                    self@.has_room(),
                    forall|k: int| 0 <= k < i ==> !self@.eligible(k),
                decreases self.phases.len() - i,
            {
                let pending = match self.phases[i] {
                    Phase::Pending => true,
                    _ => false,
                };
                if pending && !self.is_blocked(i) {
                    proof {
                        started_is_wf(self@, i as int);
                        next_is_unique(self@, i as int, i as int);
                    }
                    self.phases.set(i, Phase::Active { attempt: 1, dirty: false });
                    return Dispatch::Start(
                        Attempt { job: i, job_id: self.jobs[i].id, attempt_number: 1 },
                    );
                }
                i = i + 1;
            }
        }
        if self.is_finished() {
            Dispatch::Finished
        } else {
            proof {
                idle_means_busy(self@);
            }
            Dispatch::Idle
        }
    }

    /// Takes the report of a worker. A report that is not about the attempt
    /// that its job is at changes nothing. An attempt that failed is followed
    /// by another if the run goes on and the policy allows it. Otherwise the
    /// job is over: its result is recorded, and the worker is told which
    /// partial file to remove.
    pub fn attempt_finished(&mut self, report: AttemptReport) -> (v: Verdict)
        requires
            old(self)@.wf(),
        ensures
            final(self)@.wf(),
            final(self)@ == old(self)@.after(Event::Report(report)),
            match v {
                Verdict::Ignored => !old(self)@.expects(report.attempt),
                Verdict::Retry { attempt, delay_ms } => {
                    &&& old(self)@.expects(report.attempt)
                    &&& old(self)@.retries(report.attempt.job as int, report)
                    &&& attempt == (Attempt {
                        attempt_number: (report.attempt.attempt_number + 1) as u32,
                        ..report.attempt
                    })
                    &&& final(self)@.expects(attempt)
                    &&& delay_ms == old(self)@.policy.delay_ms(report.attempt.attempt_number)
                },
                Verdict::Completed { cleanup } => {
                    &&& old(self)@.expects(report.attempt)
                    &&& !old(self)@.retries(report.attempt.job as int, report)
                    &&& text_view(cleanup) == old(self)@.final_outcome(
                        report.attempt.job as int,
                        report,
                    ).partial()
                },
            },
    {
        let job = report.attempt.job;
        if job >= self.phases.len() {
            return Verdict::Ignored;
        }
        proof {
            reported_is_wf(self@, report);
        }
        if self.jobs[job].id != report.attempt.job_id {
            return Verdict::Ignored;
        }
        match self.phases[job] {
            Phase::Active { attempt, dirty } => {
                if attempt != report.attempt.attempt_number {
                    return Verdict::Ignored;
                }
                let dirty_now = dirty || report.wrote_file;
                let again = match report.outcome {
                    Err(kind) => !self.cancelled && self.policy.should_retry(attempt, kind),
                    Ok(_) => false,
                };
                if again {
                    let delay_ms = self.policy.backoff(attempt);
                    let next = attempt + 1;
                    self.phases.set(job, Phase::Active { attempt: next, dirty: dirty_now });
                    Verdict::Retry {
                        attempt: Attempt {
                            job,
                            job_id: report.attempt.job_id,
                            attempt_number: next,
                        },
                        delay_ms,
                    }
                } else {
                    let destination = &self.jobs[job].destination;
                    let outcome = match report.outcome {
                        Ok(_) => Outcome::Success { destination: destination.clone(), skipped: false },
                        Err(kind) => Outcome::Failure {
                            kind: if self.cancelled {
                                ErrorKind::Cancelled
                            } else {
                                kind
                            },
                            partial: if dirty_now {
                                Some(destination.clone())
                            } else {
                                None
                            },
                        },
                    };
                    let result = JobResult::new(self.jobs[job].id, outcome);
                    // the slot of an active job is free, so the result is stored
                    let stored = self.results.record_at(job, result);
                    self.phases.set(job, Phase::Done);
                    match stored {
                        Recorded::Stored { cleanup, .. } => Verdict::Completed { cleanup },
                        Recorded::Rejected => Verdict::Completed { cleanup: None },
                    }
                }
            },
            _ => Verdict::Ignored,
        }
    }

    /// Takes note of how the removal of the partial file of job `job` went.
    /// The answer is whether the result of that job was waiting for it; if
    /// not, nothing changes.
    pub fn cleanup_finished(&mut self, job: usize, removed: bool) -> (known: bool)
        requires
            old(self)@.wf(),
        ensures
            final(self)@.wf(),
            final(self)@ == old(self)@.after(Event::Cleaned { job, removed }),
            known == old(self)@.results.awaits_cleanup(job as int),
    {
        let known = self.results.cleanup_finished(job, removed);
        proof {
            if known {
                cleaned_is_wf(old(self)@, job as int, removed);
            }
        }
        known
    }

    /// Cancels the run. Every pending job is done at once, as cancelled, with
    /// no file to remove. Active jobs stay active until their workers report;
    /// a failure that they report counts as cancelled. Jobs that are done
    /// keep their results.
    pub fn cancel(&mut self)
        requires
            old(self)@.wf(),
        ensures
            final(self)@.wf(),
            final(self)@ == old(self)@.after(Event::Cancel),
    {
        let ghost goal = self@.cancelled_now();
        let mut i: usize = 0;
        while i < self.phases.len()
            invariant
                i <= self.phases.len(),
                old(self)@.wf(),
                goal == old(self)@.cancelled_now(),
                self.jobs == old(self).jobs,
                self.concurrency == old(self).concurrency,
                self.policy == old(self).policy,
                self.cancelled == old(self).cancelled,
                self.phases.len() == old(self).phases.len(),
                self.results@.wf(),
                self.results@.ids == old(self).results@.ids,
                self.results@.slots.len() == old(self).results@.slots.len(),
                forall|k: int| 0 <= k < i ==> #[trigger] self.phases@[k] == goal.phases[k],
                forall|k: int|
                    i <= k < self.phases.len() ==> #[trigger] self.phases@[k] == old(
                        self,
                    ).phases@[k],
                forall|k: int| 0 <= k < i ==> #[trigger] self.results@.slots[k] == goal.results.slots[k],
                forall|k: int|
                    i <= k < self.phases.len() ==> #[trigger] self.results@.slots[k] == old(
                        self,
                    ).results@.slots[k],
            decreases self.phases.len() - i,
        {
            match self.phases[i] {
                Phase::Pending => {
                    let outcome = Outcome::Failure { kind: ErrorKind::Cancelled, partial: None };
                    let stored = self.results.record_at(i, JobResult::new(self.jobs[i].id, outcome));
                    self.phases.set(i, Phase::Done);
                },
                _ => {},
            }
            i = i + 1;
        }
        self.cancelled = true;
        proof {
            cancelled_is_wf(old(self)@);
            assert(self@.phases =~= goal.phases);
            assert(self@.results.slots =~= goal.results.slots);
        }
    }

    /// Ends the run: once every job has its result and no removal is
    /// outstanding, the results come out, one for each job in the order of
    /// submission. Before that, the scheduler comes back as it is.
    pub fn finish(self) -> (r: Result<Vec<JobResult>, Scheduler>)
        requires
            self@.wf(),
        ensures
            match r {
                Ok(results) => {
                    &&& self@.results.complete()
                    &&& self@.finished()
                    &&& results.len() == self@.jobs.len()
                    &&& forall|i: int|
                        0 <= i < results.len() ==> {
                            &&& (#[trigger] results[i]).job_id == self@.jobs[i].id
                            &&& self@.results.slots[i] == Some(results[i]@)
                            &&& names_destination(results[i]@.outcome, self@.jobs[i])
                            &&& results[i]@.coherent()
                            &&& results[i]@.settled()
                        }
                },
                Err(back) => !self@.results.complete() && back == self,
            },
    {
        let Scheduler { jobs, phases, results, concurrency, policy, cancelled } = self;
        match results.finalize() {
            Ok(list) => {
                Ok(list)
            },
            Err(back) => Err(Scheduler { jobs, phases, results: back, concurrency, policy, cancelled }),
        }
    }
}

} // verus!
