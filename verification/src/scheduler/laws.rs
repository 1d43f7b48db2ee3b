//! What holds of every run, proved of the state machine of the scheduler.

use vstd::prelude::*;
use crate::error::ErrorKind;
use crate::job::{AttemptReport, Cleanup, JobView, OutcomeView, ResultView};
use crate::retry::RetryPolicy;
use crate::scheduler::model::{
    active_count, after_is_wf, initial_is_wf, reported_is_wf, skippable, Event, SchedulerState,
};

verus! {

/// Whatever happens to a run, in whatever order, what holds of every state
/// holds of the state that it is in, and its jobs and settings are those that
/// it started with.
pub proof fn every_state_of_a_run_is_wf(
    jobs: Seq<JobView>,
    existing: Seq<Seq<char>>,
    concurrency: u16,
    policy: RetryPolicy,
    events: Seq<Event>,
)
    requires
        concurrency >= 1,
    ensures
        ({
            let s = SchedulerState::initial(jobs, existing, concurrency, policy).after_all(events);
            &&& s.wf()
            &&& s.jobs == jobs
            &&& s.results.ids.len() == jobs.len()
            &&& s.concurrency == concurrency
            &&& s.policy == policy
        }),
    decreases events.len(),
{
    let start = SchedulerState::initial(jobs, existing, concurrency, policy);
    if events.len() == 0 {
        initial_is_wf(jobs, existing, concurrency, policy);
    } else {
        every_state_of_a_run_is_wf(jobs, existing, concurrency, policy, events.drop_last());
        after_is_wf(start.after_all(events.drop_last()), events.last());
    }
}

/// At no time are more jobs active than the run allows, however many jobs
/// there are and whatever has happened to the run.
pub proof fn never_more_active_than_allowed(
    jobs: Seq<JobView>,
    existing: Seq<Seq<char>>,
    concurrency: u16,
    policy: RetryPolicy,
    events: Seq<Event>,
)
    requires
        concurrency >= 1,
    ensures
        active_count(
            SchedulerState::initial(jobs, existing, concurrency, policy).after_all(events).phases,
        ) <= concurrency,
{
    every_state_of_a_run_is_wf(jobs, existing, concurrency, policy, events);
}

/// The results of a run stand in the order of its jobs, whatever has happened
/// to the run: the result in a slot is that of the job in the same place.
pub proof fn results_stand_in_order_of_submission(
    jobs: Seq<JobView>,
    existing: Seq<Seq<char>>,
    concurrency: u16,
    policy: RetryPolicy,
    events: Seq<Event>,
    i: int,
)
    requires
        concurrency >= 1,
        0 <= i < jobs.len(),
    ensures
        ({
            let s = SchedulerState::initial(jobs, existing, concurrency, policy).after_all(events);
            &&& s.results.slots.len() == jobs.len()
            &&& s.results.slots[i] matches Some(r) ==> r.job_id == jobs[i].id
        }),
{
    every_state_of_a_run_is_wf(jobs, existing, concurrency, policy, events);
}

/// No two active jobs write to the same destination.
pub proof fn one_writer_per_destination(s: SchedulerState, i: int, j: int)
    requires
        s.wf(),
        s.running(i),
        s.running(j),
        i != j,
    ensures
        s.jobs[i].destination != s.jobs[j].destination,
{
}

/// A job that is done stays done, and its outcome stays what it is, whatever
/// happens next. Only the word on the removal of its partial file changes
/// its result, and only where the result waits for it.
pub proof fn done_is_final(s: SchedulerState, i: int, event: Event)
    requires
        s.wf(),
        0 <= i < s.phases.len(),
        s.phases[i] is Done,
    ensures
        s.after(event).phases[i] is Done,
        s.after(event).results.slots[i] is Some,
        s.after(event).results.slots[i]->0.outcome == s.results.slots[i]->0.outcome,
        s.after(event).results.slots[i]->0.job_id == s.results.slots[i]->0.job_id,
        s.results.slots[i]->0.settled() ==> s.after(event).results.slots[i] == s.results.slots[i],
{
}

/// A job that asks to be skipped and whose destination is there is done
/// before the run begins, as a success that names the file, and stays so
/// whatever happens to the run: no worker ever gets it, and no attempt is
/// made.
pub proof fn skipped_job_is_never_attempted(
    jobs: Seq<JobView>,
    existing: Seq<Seq<char>>,
    concurrency: u16,
    policy: RetryPolicy,
    events: Seq<Event>,
    i: int,
)
    requires
        concurrency >= 1,
        0 <= i < jobs.len(),
        skippable(jobs[i], existing),
    ensures
        ({
            let s = SchedulerState::initial(jobs, existing, concurrency, policy).after_all(events);
            &&& s.phases[i] is Done
            &&& s.results.slots[i] == Some(
                ResultView {
                    job_id: jobs[i].id,
                    outcome: OutcomeView::Success {
                        destination: jobs[i].destination,
                        skipped: true,
                    },
                    cleanup: Cleanup::NotNeeded,
                },
            )
        }),
    decreases events.len(),
{
    let start = SchedulerState::initial(jobs, existing, concurrency, policy);
    if events.len() > 0 {
        let before = start.after_all(events.drop_last());
        skipped_job_is_never_attempted(jobs, existing, concurrency, policy, events.drop_last(), i);
        every_state_of_a_run_is_wf(jobs, existing, concurrency, policy, events.drop_last());
        done_is_final(before, i, events.last());
    }
}

/// While a job is active, only a report about the attempt that it is at
/// moves it: whatever else happens leaves it at that attempt.
pub proof fn only_its_own_report_moves_an_active_job(s: SchedulerState, i: int, event: Event)
    requires
        s.wf(),
        s.running(i),
        !(event matches Event::Report(report) && report.attempt == s.attempt_at(i)),
    ensures
        s.after(event).phases[i] == s.phases[i],
{
}

/// An attempt that fails with an error that is not retryable ends the job at
/// once, as a failure of that kind.
pub proof fn fatal_error_ends_job(s: SchedulerState, report: AttemptReport)
    requires
        s.wf(),
        s.expects(report.attempt),
        !s.cancelled,
        report.outcome matches Err(kind) && !kind.retryable(),
    ensures
        s.reported(report).phases[report.attempt.job as int] is Done,
        s.reported(report).results.slots[report.attempt.job as int] matches Some(r)
            && r.outcome matches OutcomeView::Failure { kind, .. } && report.outcome == Err::<
            (),
            ErrorKind,
        >(kind),
{
}

/// In a cancelled run, a job whose attempt fails is over, as cancelled,
/// whatever the kind of the failure was; where an attempt wrote to the
/// destination, the result names it for removal.
pub proof fn failure_after_cancel_is_cancelled(s: SchedulerState, report: AttemptReport)
    requires
        s.wf(),
        s.expects(report.attempt),
        s.cancelled,
        report.outcome is Err,
    ensures
        ({
            let i = report.attempt.job as int;
            &&& s.reported(report).phases[i] is Done
            &&& s.reported(report).results.slots[i] == Some(
                ResultView::fresh(
                    s.jobs[i].id,
                    OutcomeView::Failure {
                        kind: ErrorKind::Cancelled,
                        partial: if s.dirty_after(i, report) {
                            Some(s.jobs[i].destination)
                        } else {
                            None
                        },
                    },
                ),
            )
        }),
{
}

/// Whether every report of `reports` tells of a failure of a retryable kind.
pub open spec fn all_retryable_failures(reports: Seq<AttemptReport>) -> bool {
    forall|k: int|
        0 <= k < reports.len() ==> ((#[trigger] reports[k]).outcome matches Err(kind)
            && kind.retryable())
}

/// A job whose every attempt fails with a retryable error gets exactly as
/// many attempts as the policy allows: while fewer reports have come in, the
/// job is active and at its next attempt; with the last report allowed, it
/// is over, as a failure of the kind of that report.
pub proof fn retry_bound(s: SchedulerState, job: usize, reports: Seq<AttemptReport>)
    requires
        s.wf(),
        s.running(job as int),
        s.attempt_of(job as int) == 1,
        !s.cancelled,
        s.policy.max_retries >= 1,
        all_retryable_failures(reports),
        reports.len() <= s.policy.max_retries,
    ensures
        ({
            let after = s.after_reports(job as int, reports);
            &&& after.wf()
            &&& !after.cancelled
            &&& after.policy == s.policy
            &&& reports.len() < s.policy.max_retries ==> after.running(job as int)
                && after.attempt_of(job as int) == reports.len() + 1
            &&& reports.len() == s.policy.max_retries ==> after.phases[job as int] is Done && (
            after.results.slots[job as int] matches Some(r)
                && r.outcome matches OutcomeView::Failure { kind, .. } && reports.last().outcome
                == Err::<(), ErrorKind>(kind))
        }),
    decreases reports.len(),
{
    let i = job as int;
    if reports.len() > 0 {
        let earlier = reports.drop_last();
        retry_bound(s, job, earlier);
        let before = s.after_reports(i, earlier);
        let last = AttemptReport { attempt: before.attempt_at(i), ..reports.last() };
        reported_is_wf(before, last);
    }
}

/// The result of a failed job that has been settled either names no file, or
/// tells that its file was removed, or carries the warning that it could not
/// be.
pub proof fn settled_failure_is_cleaned(r: ResultView)
    requires
        r.coherent(),
        r.settled(),
        r.outcome is Failure,
    ensures
        r.outcome.partial() is None ==> r.cleanup is NotNeeded,
        r.outcome.partial() is Some ==> r.cleanup is Removed || r.cleanup is Failed,
{
}

} // verus!
