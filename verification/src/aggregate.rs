//! The result aggregator: one slot for each submitted job, in the order of
//! submission. Results arrive in any order; each is put into the slot of its
//! job, and the caller is told which partial file it has to remove.

use vstd::prelude::*;
use crate::job::{Cleanup, Job, JobResult, OutcomeView, ResultView};
use crate::text::text_view;

verus! {

/// The slots of an aggregator, as a mathematical value.
pub struct AggregateState {
    /// The tokens of the submitted jobs, in the order of submission.
    pub ids: Seq<u64>,
    /// For each job its result, once it has come.
    pub slots: Seq<Option<ResultView>>,
}

impl AggregateState {
    /// There is a slot for each job, and a result sits only in a slot of its
    /// own job.
    pub open spec fn wf(self) -> bool {
        &&& self.slots.len() == self.ids.len()
        &&& forall|i: int|
            0 <= i < self.slots.len() ==> (#[trigger] self.slots[i] matches Some(r) ==> r.job_id
                == self.ids[i] && r.coherent())
    }

    /// Nothing has been recorded.
    pub open spec fn empty(self) -> bool {
        forall|i: int| 0 <= i < self.slots.len() ==> #[trigger] self.slots[i] is None
    }

    /// Slot `slot` is free and belongs to a job with the token `job_id`.
    pub open spec fn accepts_at(self, slot: int, job_id: u64) -> bool {
        &&& 0 <= slot < self.slots.len()
        &&& slot < self.ids.len()
        &&& self.ids[slot] == job_id
        &&& self.slots[slot] is None
    }

    /// Slot `slot` is the first that accepts a result for `job_id`.
    pub open spec fn first_free(self, slot: int, job_id: u64) -> bool {
        &&& self.accepts_at(slot, job_id)
        &&& forall|k: int| 0 <= k < slot ==> !self.accepts_at(k, job_id)
    }

    /// The state after a fresh result with `outcome` was put into `slot`.
    pub open spec fn recorded(self, slot: int, outcome: OutcomeView) -> AggregateState {
        AggregateState {
            slots: self.slots.update(slot, Some(ResultView::fresh(self.ids[slot], outcome))),
            ..self
        }
    }

    /// The result in `slot` waits for its partial file to be removed.
    pub open spec fn awaits_cleanup(self, slot: int) -> bool {
        &&& 0 <= slot < self.slots.len()
        &&& self.slots[slot] matches Some(r)
        &&& r.cleanup is Pending
    }

    /// The state after the caller said how the removal for `slot` went.
    pub open spec fn acknowledged(self, slot: int, removed: bool) -> AggregateState {
        let r = self.slots[slot]->0;
        let cleanup = if removed {
            Cleanup::Removed
        } else {
            Cleanup::Failed
        };
        AggregateState { slots: self.slots.update(slot, Some(ResultView { cleanup, ..r })), ..self }
    }

    /// Every job has its result, and no removal is outstanding.
    pub open spec fn complete(self) -> bool {
        forall|i: int|
            0 <= i < self.slots.len() ==> (#[trigger] self.slots[i] matches Some(r) && r.settled())
    }
}

/// The answer to a result that was handed in.
#[derive(Debug, PartialEq, Eq)]
pub enum Recorded {
    /// The result went into `slot`. `cleanup` is the file that the caller has
    /// to remove now, if the result names one.
    Stored { slot: usize, cleanup: Option<String> },
    /// No free slot belongs to the job of the result: the job is unknown, or
    /// has its result already.
    Rejected,
}

/// The view of what may be a result.
pub open spec fn slot_view(slot: Option<JobResult>) -> Option<ResultView> {
    match slot {
        Some(r) => Some(r@),
        None => None,
    }
}

/// Collects one result for each submitted job.
#[derive(Debug)]
pub struct ResultAggregator {
    ids: Vec<u64>,
    slots: Vec<Option<JobResult>>,
}

impl View for ResultAggregator {
    type V = AggregateState;

    closed spec fn view(&self) -> AggregateState {
        AggregateState {
            ids: self.ids@,
            slots: Seq::new(self.slots@.len(), |i: int| slot_view(self.slots@[i])),
        }
    }
}

impl ResultAggregator {
    /// An aggregator for jobs with the tokens `ids`, with every slot free.
    pub fn new(ids: Vec<u64>) -> (a: Self)
        ensures
            a@.wf(),
            a@.empty(),
            a@.ids == ids@,
    {
        let mut slots: Vec<Option<JobResult>> = Vec::new();
        let mut i: usize = 0;
        while i < ids.len()
            invariant
                i <= ids.len(),
                slots.len() == i,
                forall|k: int| 0 <= k < i ==> #[trigger] slots@[k] is None,
            decreases ids.len() - i,
        {
            slots.push(None);
            i = i + 1;
        }
        ResultAggregator { ids, slots }
    }

    /// An aggregator for `jobs`, in their order, with every slot free.
    pub fn for_jobs(jobs: &Vec<Job>) -> (a: Self)
        ensures
            a@.wf(),
            a@.empty(),
            a@.ids.len() == jobs.len(),
            forall|i: int| 0 <= i < jobs.len() ==> #[trigger] a@.ids[i] == jobs[i].id,
    {
        let mut ids: Vec<u64> = Vec::new();
        let mut i: usize = 0;
        while i < jobs.len()
            invariant
                i <= jobs.len(),
                ids.len() == i,
                forall|k: int| 0 <= k < i ==> #[trigger] ids@[k] == jobs[k].id,
            decreases jobs.len() - i,
        {
            ids.push(jobs[i].id);
            i = i + 1;
        }
        Self::new(ids)
    }

    /// The number of submitted jobs.
    pub fn len(&self) -> (n: usize)
        ensures
            n == self@.ids.len(),
    {
        self.ids.len()
    }

    /// Puts a fresh result with the outcome of `result` into `slot`, if that
    /// slot is free and belongs to the job of `result`; else nothing changes.
    /// The cleanup that `result` came with is not looked at.
    pub fn record_at(&mut self, slot: usize, result: JobResult) -> (r: Recorded)
        requires
            old(self)@.wf(),
        ensures
            final(self)@.wf(),
            match r {
                Recorded::Stored { slot: s, cleanup } => {
                    &&& s == slot
                    &&& old(self)@.accepts_at(slot as int, result.job_id)
                    &&& final(self)@ == old(self)@.recorded(slot as int, result.outcome@)
                    &&& text_view(cleanup) == result.outcome@.partial()
                },
                Recorded::Rejected => {
                    &&& !old(self)@.accepts_at(slot as int, result.job_id)
                    &&& final(self)@ == old(self)@
                },
            },
    {
        if slot >= self.slots.len() || self.ids[slot] != result.job_id || self.slots[slot].is_some() {
            return Recorded::Rejected;
        }
        let cleanup = match result.outcome.partial() {
            Some(path) => Some(path.clone()),
            None => None,
        };
        let fresh = JobResult::new(result.job_id, result.outcome);
        self.slots.set(slot, Some(fresh));
        proof {
            assert(final(self)@.slots =~= old(self)@.recorded(
                slot as int,
                result.outcome@,
            ).slots);
        }
        Recorded::Stored { slot, cleanup }
    }

    /// Puts a fresh result with the outcome of `result` into the first free
    /// slot of its job; where there is none, nothing changes. The cleanup that
    /// `result` came with is not looked at.
    pub fn record(&mut self, result: JobResult) -> (r: Recorded)
        requires
            old(self)@.wf(),
        ensures
            final(self)@.wf(),
            match r {
                Recorded::Stored { slot, cleanup } => {
                    &&& old(self)@.first_free(slot as int, result.job_id)
                    &&& final(self)@ == old(self)@.recorded(slot as int, result.outcome@)
                    &&& text_view(cleanup) == result.outcome@.partial()
                },
                Recorded::Rejected => {
                    &&& forall|k: int| !old(self)@.accepts_at(k, result.job_id)
                    &&& final(self)@ == old(self)@
                },
            },
    {
        let mut i: usize = 0;
        while i < self.slots.len()
            invariant
                i <= self.slots.len(),
                *self == *old(self),
                self@.wf(),
                forall|k: int| 0 <= k < i ==> !self@.accepts_at(k, result.job_id),
            decreases self.slots.len() - i,
        {
            if self.ids[i] == result.job_id && self.slots[i].is_none() {
                return self.record_at(i, result);
            }
            i = i + 1;
        }
        Recorded::Rejected
    }

    /// Takes note of how the removal of the partial file for `slot` went. The
    /// answer is whether the result in that slot was waiting for it; if not,
    /// nothing changes.
    pub fn cleanup_finished(&mut self, slot: usize, removed: bool) -> (known: bool)
        requires
            old(self)@.wf(),
        ensures
            final(self)@.wf(),
            known == old(self)@.awaits_cleanup(slot as int),
            known ==> final(self)@ == old(self)@.acknowledged(slot as int, removed),
            !known ==> final(self)@ == old(self)@,
    {
        if slot >= self.slots.len() {
            return false;
        }
        let updated = match &self.slots[slot] {
            Some(r) => {
                if r.cleanup == Cleanup::Pending {
                    let cleanup = if removed {
                        Cleanup::Removed
                    } else {
                        Cleanup::Failed
                    };
                    Some(JobResult { job_id: r.job_id, outcome: r.outcome.clone(), cleanup })
                } else {
                    None
                }
            },
            None => None,
        };
        match updated {
            Some(r) => {
                self.slots.set(slot, Some(r));
                proof {
                    assert(final(self)@.slots =~= old(self)@.acknowledged(
                        slot as int,
                        removed,
                    ).slots);
                }
                true
            },
            None => false,
        }
    }

    /// Whether every job has its result and no removal is outstanding.
    pub fn is_complete(&self) -> (b: bool)
        ensures
            b == self@.complete(),
    {
        let mut i: usize = 0;
        while i < self.slots.len()
            invariant
                i <= self.slots.len(),
                forall|k: int|
                    0 <= k < i ==> (#[trigger] self@.slots[k] matches Some(r) && r.settled()),
            decreases self.slots.len() - i,
        {
            match &self.slots[i] {
                Some(r) => {
                    if r.cleanup == Cleanup::Pending {
                        return false;
                    }
                },
                None => {
                    assert(self@.slots[i as int] is None);
                    return false;
                },
            }
            i = i + 1;
        }
        true
    }

    /// The result in `slot`, if it has come.
    pub fn get(&self, slot: usize) -> (r: Option<&JobResult>)
        ensures
            match r {
                Some(result) => 0 <= slot < self@.slots.len() && self@.slots[slot as int] == Some(
                    result@,
                ),
                None => slot >= self@.slots.len() || self@.slots[slot as int] is None,
            },
    {
        if slot < self.slots.len() {
            self.slots[slot].as_ref()
        } else {
            None
        }
    }

    /// Hands out the results in the order of submission, once the aggregator
    /// is complete; before that, the aggregator comes back as it is.
    pub fn finalize(self) -> (r: Result<Vec<JobResult>, ResultAggregator>)
        requires
            self@.wf(),
        ensures
            match r {
                Ok(results) => {
                    &&& self@.complete()
                    &&& results.len() == self@.ids.len()
                    &&& forall|i: int|
                        0 <= i < results.len() ==> {
                            &&& self@.slots[i] == Some(#[trigger] results[i]@)
                            &&& results[i].job_id == self@.ids[i]
                            &&& results[i]@.coherent()
                            &&& results[i]@.settled()
                        }
                },
                Err(back) => !self@.complete() && back == self,
            },
    {
        if !self.is_complete() {
            return Err(self);
        }
        let mut results: Vec<JobResult> = Vec::new();
        let mut i: usize = 0;
        while i < self.slots.len()
            invariant
                i <= self.slots.len(),
                self@.wf(),
                self@.complete(),
                results.len() == i,
                forall|k: int| 0 <= k < i ==> self@.slots[k] == Some(#[trigger] results[k]@),
            decreases self.slots.len() - i,
        {
            assert(self@.slots[i as int] is Some);
            match &self.slots[i] {
                Some(r) => {
                    results.push(r.clone());
                },
                None => {},
            }
            i = i + 1;
        }
        Ok(results)
    }
}

/// A result that was recorded is found in the slot of its job, so that the
/// results come out in the order in which the jobs went in.
pub proof fn recording_keeps_order(state: AggregateState, slot: int, outcome: OutcomeView)
    requires
        state.wf(),
        state.accepts_at(slot, state.ids[slot]),
    ensures
        state.recorded(slot, outcome).wf(),
        state.recorded(slot, outcome).ids == state.ids,
        state.recorded(slot, outcome).slots[slot] == Some(
            ResultView::fresh(state.ids[slot], outcome),
        ),
        forall|k: int|
            0 <= k < state.slots.len() && k != slot ==> state.recorded(slot, outcome).slots[k]
                == state.slots[k],
{
}

/// A job that has its result never gets another: its slot accepts nothing.
pub proof fn one_result_per_job(state: AggregateState, slot: int, job_id: u64)
    requires
        0 <= slot < state.slots.len(),
        state.slots[slot] is Some,
    ensures
        !state.accepts_at(slot, job_id),
{
}

} // verus!
