//! The scheduler as a mathematical state machine: the phases of the jobs, the
//! transitions between them, and what holds of every state that a run can
//! reach.

use vstd::prelude::*;
use crate::aggregate::AggregateState;
use crate::error::ErrorKind;
use crate::job::{Attempt, AttemptReport, JobView, OutcomeView, ResultView};
use crate::retry::RetryPolicy;

verus! {

/// Where a job stands.
#[derive(Clone, Copy, Debug, PartialEq, Eq, Structural)]
pub enum Phase {
    /// The job waits for a worker.
    Pending,
    /// A worker has the job. `attempt` is the number of the attempt that it
    /// is at; `dirty` tells that an earlier attempt wrote to the destination.
    Active { attempt: u32, dirty: bool },
    /// The job has its result.
    Done,
}

/// The number of active jobs among `phases`.
pub open spec fn active_count(phases: Seq<Phase>) -> nat
    decreases phases.len(),
{
    if phases.len() == 0 {
        0
    } else {
        active_count(phases.drop_last()) + if phases.last() is Active {
            1nat
        } else {
            0nat
        }
    }
}

/// Whether a job can do without a transfer: it asks to be skipped where its
/// destination is there already, and `existing` names its destination.
pub open spec fn skippable(job: JobView, existing: Seq<Seq<char>>) -> bool {
    job.skip_if_exists && existing.contains(job.destination)
}

/// Whether `outcome` speaks of the destination of `job` and of no other file.
pub open spec fn names_destination(outcome: OutcomeView, job: JobView) -> bool {
    match outcome {
        OutcomeView::Success { destination, .. } => destination == job.destination,
        OutcomeView::Failure { partial, .. } => partial matches Some(path) ==> path
            == job.destination,
    }
}

/// What can happen to a run.
pub enum Event {
    /// A free worker asks for a job.
    Ask,
    /// A worker hands in a report.
    Report(AttemptReport),
    /// Somebody tells how the removal of the partial file of job `job` went.
    Cleaned { job: usize, removed: bool },
    /// The run is cancelled.
    Cancel,
}

/// The state of a run, as a mathematical value.
pub struct SchedulerState {
    /// The submitted jobs, in the order of submission.
    pub jobs: Seq<JobView>,
    /// For each job where it stands.
    pub phases: Seq<Phase>,
    /// The results that have come.
    pub results: AggregateState,
    /// The number of jobs that may be active at a time.
    pub concurrency: u16,
    /// The retry policy of the run.
    pub policy: RetryPolicy,
    /// Whether the run was cancelled.
    pub cancelled: bool,
}

impl SchedulerState {
    /// The state in which a run starts: a job that can be skipped is done,
    /// with a success that names the file that was there; every other job is
    /// pending.
    pub open spec fn initial(
        jobs: Seq<JobView>,
        existing: Seq<Seq<char>>,
        concurrency: u16,
        policy: RetryPolicy,
    ) -> SchedulerState {
        SchedulerState {
            jobs,
            phases: Seq::new(
                jobs.len(),
                |i: int|
                    if skippable(jobs[i], existing) {
                        Phase::Done
                    } else {
                        Phase::Pending
                    },
            ),
            results: AggregateState {
                ids: Seq::new(jobs.len(), |i: int| jobs[i].id),
                slots: Seq::new(
                    jobs.len(),
                    |i: int|
                        if skippable(jobs[i], existing) {
                            Some(
                                ResultView::fresh(
                                    jobs[i].id,
                                    OutcomeView::Success {
                                        destination: jobs[i].destination,
                                        skipped: true,
                                    },
                                ),
                            )
                        } else {
                            None
                        },
                ),
            },
            concurrency,
            policy,
            cancelled: false,
        }
    }

    /// Every list has one entry for each job, and at least one job may be
    /// active.
    pub open spec fn shaped(self) -> bool {
        &&& self.phases.len() == self.jobs.len()
        &&& self.results.ids.len() == self.jobs.len()
        &&& self.results.slots.len() == self.jobs.len()
        &&& self.concurrency >= 1
    }

    /// The slots of the results belong to the jobs, in their order.
    pub open spec fn ids_match(self) -> bool {
        forall|i: int| 0 <= i < self.jobs.len() ==> #[trigger] self.results.ids[i] == self.jobs[i].id
    }

    /// A job is done exactly if its result has come.
    pub open spec fn done_iff_result(self) -> bool {
        forall|i: int|
            0 <= i < self.phases.len() ==> (#[trigger] self.phases[i] is Done
                <==> self.results.slots[i] is Some)
    }

    /// No more jobs are active than may be.
    pub open spec fn within_bound(self) -> bool {
        active_count(self.phases) <= self.concurrency
    }

    /// No two active jobs write to the same destination.
    pub open spec fn exclusive(self) -> bool {
        forall|i: int, j: int|
            0 <= i < self.phases.len() && 0 <= j < self.phases.len() && i != j
                && #[trigger] self.phases[i] is Active && #[trigger] self.phases[j] is Active
                ==> self.jobs[i].destination != self.jobs[j].destination
    }

    /// No job is at an attempt beyond those that the policy allows.
    pub open spec fn attempts_bounded(self) -> bool {
        forall|i: int|
            0 <= i < self.phases.len() ==> (#[trigger] self.phases[i] matches Phase::Active {
                attempt,
                ..
            } ==> 1 <= attempt <= self.policy.attempts_allowed())
    }

    /// Each result speaks of the destination of its own job.
    pub open spec fn results_fit(self) -> bool {
        forall|i: int|
            0 <= i < self.results.slots.len() ==> (#[trigger] self.results.slots[i] matches Some(
                r,
            ) ==> names_destination(r.outcome, self.jobs[i]))
    }

    /// Once the run is cancelled, no job waits for a worker.
    pub open spec fn none_pending_if_cancelled(self) -> bool {
        self.cancelled ==> forall|i: int|
            0 <= i < self.phases.len() ==> !(#[trigger] self.phases[i] is Pending)
    }

    /// What holds of every state of a run.
    pub open spec fn wf(self) -> bool {
        &&& self.shaped()
        &&& self.results.wf()
        &&& self.ids_match()
        &&& self.done_iff_result()
        &&& self.within_bound()
        &&& self.exclusive()
        &&& self.attempts_bounded()
        &&& self.results_fit()
        &&& self.none_pending_if_cancelled()
    }

    /// Job `i` is active.
    pub open spec fn running(self, i: int) -> bool {
        0 <= i < self.phases.len() && self.phases[i] is Active
    }

    /// Another job than `i` is active and writes to the destination of `i`.
    pub open spec fn blocked(self, i: int) -> bool {
        exists|j: int|
            0 <= j < self.phases.len() && j != i && #[trigger] self.phases[j] is Active
                && self.jobs[j].destination == self.jobs[i].destination
    }

    /// Job `i` waits for a worker, and no active job writes to its
    /// destination.
    pub open spec fn eligible(self, i: int) -> bool {
        &&& 0 <= i < self.phases.len()
        &&& self.phases[i] is Pending
        &&& !self.blocked(i)
    }

    /// A further job may become active.
    pub open spec fn has_room(self) -> bool {
        !self.cancelled && active_count(self.phases) < self.concurrency
    }

    /// Job `i` is the next to start: the first of the eligible ones, in the
    /// order of submission.
    pub open spec fn next_is(self, i: int) -> bool {
        &&& self.has_room()
        &&& self.eligible(i)
        &&& forall|k: int| 0 <= k < i ==> !self.eligible(k)
    }

    /// No job can start now.
    pub open spec fn none_can_start(self) -> bool {
        self.has_room() ==> forall|k: int| !self.eligible(k)
    }

    /// Every job is done.
    pub open spec fn finished(self) -> bool {
        forall|i: int| 0 <= i < self.phases.len() ==> #[trigger] self.phases[i] is Done
    }

    /// The state after job `i` went to a worker for its first attempt.
    pub open spec fn started(self, i: int) -> SchedulerState {
        SchedulerState {
            phases: self.phases.update(i, Phase::Active { attempt: 1, dirty: false }),
            ..self
        }
    }

    /// The number of the attempt that job `i` is at.
    pub open spec fn attempt_of(self, i: int) -> u32 {
        self.phases[i]->attempt
    }

    /// The attempt that job `i` is at, as its worker knows it.
    pub open spec fn attempt_at(self, i: int) -> Attempt {
        Attempt { job: i as usize, job_id: self.jobs[i].id, attempt_number: self.attempt_of(i) }
    }

    /// The job of `attempt` is active, and `attempt` is the attempt that it is
    /// at.
    pub open spec fn expects(self, attempt: Attempt) -> bool {
        self.running(attempt.job as int) && attempt == self.attempt_at(attempt.job as int)
    }

    /// Whether the destination of job `i` was written to, once the attempt
    /// that `report` tells of is counted in.
    pub open spec fn dirty_after(self, i: int, report: AttemptReport) -> bool {
        self.phases[i]->dirty || report.wrote_file
    }

    /// Whether the attempt that `report` tells of is followed by another: it
    /// failed, the run goes on, and the policy allows it.
    pub open spec fn retries(self, i: int, report: AttemptReport) -> bool {
        &&& report.outcome matches Err(kind)
        &&& !self.cancelled
        &&& self.policy.retries(self.attempt_of(i), kind)
    }

    /// The state after job `i` was sent into its next attempt.
    pub open spec fn retried(self, i: int, report: AttemptReport) -> SchedulerState {
        SchedulerState {
            phases: self.phases.update(
                i,
                Phase::Active {
                    attempt: (self.attempt_of(i) + 1) as u32,
                    dirty: self.dirty_after(i, report),
                },
            ),
            ..self
        }
    }

    /// The outcome of job `i` if the attempt that `report` tells of was its
    /// last. In a cancelled run a failure of any kind counts as cancelled. A
    /// failure names the destination if any attempt wrote to it.
    pub open spec fn final_outcome(self, i: int, report: AttemptReport) -> OutcomeView {
        match report.outcome {
            Ok(_) => OutcomeView::Success { destination: self.jobs[i].destination, skipped: false },
            Err(kind) => OutcomeView::Failure {
                kind: if self.cancelled {
                    ErrorKind::Cancelled
                } else {
                    kind
                },
                partial: if self.dirty_after(i, report) {
                    Some(self.jobs[i].destination)
                } else {
                    None
                },
            },
        }
    }

    /// The state after job `i` ended with the attempt that `report` tells of.
    pub open spec fn completed(self, i: int, report: AttemptReport) -> SchedulerState {
        SchedulerState {
            phases: self.phases.update(i, Phase::Done),
            results: self.results.recorded(i, self.final_outcome(i, report)),
            ..self
        }
    }

    /// The state after a worker handed in `report`: nothing changes unless
    /// the report is about the attempt that its job is at; then the job goes
    /// into its next attempt or ends.
    pub open spec fn reported(self, report: AttemptReport) -> SchedulerState {
        let i = report.attempt.job as int;
        if !self.expects(report.attempt) {
            self
        } else if self.retries(i, report) {
            self.retried(i, report)
        } else {
            self.completed(i, report)
        }
    }

    /// The state after the removal of the partial file of job `i` went as
    /// `removed` tells.
    pub open spec fn cleaned(self, i: int, removed: bool) -> SchedulerState {
        SchedulerState { results: self.results.acknowledged(i, removed), ..self }
    }

    /// The result of a job that was cancelled before it started.
    pub open spec fn cancelled_result(self, i: int) -> ResultView {
        ResultView::fresh(
            self.jobs[i].id,
            OutcomeView::Failure { kind: ErrorKind::Cancelled, partial: None },
        )
    }

    /// The state after the run was cancelled: every pending job is done, as
    /// cancelled; active and done jobs stay as they are.
    pub open spec fn cancelled_now(self) -> SchedulerState {
        SchedulerState {
            phases: Seq::new(
                self.phases.len(),
                |i: int|
                    if self.phases[i] is Pending {
                        Phase::Done
                    } else {
                        self.phases[i]
                    },
            ),
            results: AggregateState {
                slots: Seq::new(
                    self.results.slots.len(),
                    |i: int|
                        if self.phases[i] is Pending {
                            Some(self.cancelled_result(i))
                        } else {
                            self.results.slots[i]
                        },
                ),
                ..self.results
            },
            cancelled: true,
            ..self
        }
    }

    /// Some job can start now.
    pub open spec fn can_start(self) -> bool {
        exists|i: int| self.next_is(i)
    }

    /// The job that starts if a worker asks now.
    pub open spec fn next(self) -> int {
        choose|i: int| self.next_is(i)
    }

    /// The state after `event`. A worker that asks starts the next job, if one
    /// can start; the word on a removal counts if the result of the job waits
    /// for it. What does not apply changes nothing.
    pub open spec fn after(self, event: Event) -> SchedulerState {
        match event {
            Event::Ask => if self.can_start() {
                self.started(self.next())
            } else {
                self
            },
            Event::Report(report) => self.reported(report),
            Event::Cleaned { job, removed } => if self.results.awaits_cleanup(job as int) {
                self.cleaned(job as int, removed)
            } else {
                self
            },
            Event::Cancel => self.cancelled_now(),
        }
    }

    /// The state after the events of `events`, in their order.
    pub open spec fn after_all(self, events: Seq<Event>) -> SchedulerState
        decreases events.len(),
    {
        if events.len() == 0 {
            self
        } else {
            self.after_all(events.drop_last()).after(events.last())
        }
    }

    /// The state after the worker of job `i` handed in what `reports` tell,
    /// one after the other, each as a report about the attempt that the job
    /// was at then.
    pub open spec fn after_reports(self, i: int, reports: Seq<AttemptReport>) -> SchedulerState
        decreases reports.len(),
    {
        if reports.len() == 0 {
            self
        } else {
            let before = self.after_reports(i, reports.drop_last());
            before.reported(AttemptReport { attempt: before.attempt_at(i), ..reports.last() })
        }
    }
}

/// Replacing one phase changes the number of active jobs by what the old and
/// the new phase count for.
pub proof fn active_count_update(phases: Seq<Phase>, i: int, phase: Phase)
    requires
        0 <= i < phases.len(),
    ensures
        active_count(phases.update(i, phase)) + (if phases[i] is Active {
            1nat
        } else {
            0nat
        }) == active_count(phases) + (if phase is Active {
            1nat
        } else {
            0nat
        }),
    decreases phases.len(),
{
    let updated = phases.update(i, phase);
    if i == phases.len() - 1 {
        assert(updated.drop_last() =~= phases.drop_last());
    } else {
        assert(updated.drop_last() =~= phases.drop_last().update(i, phase));
        active_count_update(phases.drop_last(), i, phase);
    }
}

/// The number of active jobs is at most the number of jobs, and it is zero
/// only if no job is active.
pub proof fn active_count_bounds(phases: Seq<Phase>)
    ensures
        active_count(phases) <= phases.len(),
        active_count(phases) == 0 <==> forall|i: int|
            0 <= i < phases.len() ==> !(#[trigger] phases[i] is Active),
    decreases phases.len(),
{
    if phases.len() > 0 {
        let front = phases.drop_last();
        active_count_bounds(front);
        if active_count(phases) == 0 {
            assert forall|i: int| 0 <= i < phases.len() implies !(#[trigger] phases[i]
                is Active) by {
                if i < front.len() {
                    assert(front[i] == phases[i]);
                }
            }
        }
    }
}

/// Two lists of phases in which the same jobs are active count the same.
pub proof fn active_count_same(a: Seq<Phase>, b: Seq<Phase>)
    requires
        a.len() == b.len(),
        forall|i: int| 0 <= i < a.len() ==> (#[trigger] a[i] is Active <==> b[i] is Active),
    ensures
        active_count(a) == active_count(b),
    decreases a.len(),
{
    if a.len() > 0 {
        active_count_same(a.drop_last(), b.drop_last());
    }
}

/// A run starts in a state of which all holds that holds of every state, with
/// no job active.
pub proof fn initial_is_wf(
    jobs: Seq<JobView>,
    existing: Seq<Seq<char>>,
    concurrency: u16,
    policy: RetryPolicy,
)
    requires
        concurrency >= 1,
    ensures
        SchedulerState::initial(jobs, existing, concurrency, policy).wf(),
        active_count(SchedulerState::initial(jobs, existing, concurrency, policy).phases) == 0,
{
    active_count_bounds(SchedulerState::initial(jobs, existing, concurrency, policy).phases);
}

/// Starting the next job keeps what holds of every state.
pub proof fn started_is_wf(s: SchedulerState, i: int)
    requires
        s.wf(),
        s.next_is(i),
    ensures
        s.started(i).wf(),
        active_count(s.started(i).phases) == active_count(s.phases) + 1,
{
    active_count_update(s.phases, i, Phase::Active { attempt: 1, dirty: false });
}

/// Handing in a report keeps what holds of every state, and never adds an
/// active job.
pub proof fn reported_is_wf(s: SchedulerState, report: AttemptReport)
    requires
        s.wf(),
    ensures
        s.reported(report).wf(),
        active_count(s.reported(report).phases) <= active_count(s.phases),
{
    let i = report.attempt.job as int;
    if s.expects(report.attempt) {
        active_count_update(s.phases, i, s.reported(report).phases[i]);
    }
}

/// Taking note of a removal keeps what holds of every state, and changes no
/// phase.
pub proof fn cleaned_is_wf(s: SchedulerState, i: int, removed: bool)
    requires
        s.wf(),
        s.results.awaits_cleanup(i),
    ensures
        s.cleaned(i, removed).wf(),
{
}

/// Cancelling keeps what holds of every state, and the active jobs stay the
/// same.
pub proof fn cancelled_is_wf(s: SchedulerState)
    requires
        s.wf(),
    ensures
        s.cancelled_now().wf(),
        active_count(s.cancelled_now().phases) == active_count(s.phases),
{
    active_count_same(s.phases, s.cancelled_now().phases);
}

/// At most one job is the next to start.
pub proof fn next_is_unique(s: SchedulerState, i: int, j: int)
    requires
        s.next_is(i),
        s.next_is(j),
    ensures
        i == j,
        s.can_start(),
        s.next() == i,
{
}

/// Whatever happens keeps what holds of every state, and leaves the jobs and
/// the settings of the run as they are.
pub proof fn after_is_wf(s: SchedulerState, event: Event)
    requires
        s.wf(),
    ensures
        s.after(event).wf(),
        s.after(event).jobs == s.jobs,
        s.after(event).results.ids == s.results.ids,
        s.after(event).concurrency == s.concurrency,
        s.after(event).policy == s.policy,
        s.cancelled ==> s.after(event).cancelled,
{
    match event {
        Event::Ask => {
            if s.can_start() {
                started_is_wf(s, s.next());
            }
        },
        Event::Report(report) => {
            reported_is_wf(s, report);
        },
        Event::Cleaned { job, removed } => {
            if s.results.awaits_cleanup(job as int) {
                cleaned_is_wf(s, job as int, removed);
            }
        },
        Event::Cancel => {
            cancelled_is_wf(s);
        },
    }
}

/// A run that is not over and in which no job can start has an active job:
/// the worker of that job will report, so the run cannot stand still.
pub proof fn idle_means_busy(s: SchedulerState)
    requires
        s.wf(),
        s.none_can_start(),
        !s.finished(),
    ensures
        active_count(s.phases) > 0,
{
    active_count_bounds(s.phases);
    let i = choose|i: int| 0 <= i < s.phases.len() && !(#[trigger] s.phases[i] is Done);
    if s.phases[i] is Pending {
        if s.has_room() {
            assert(!s.eligible(i));
        }
    }
}

} // verus!
