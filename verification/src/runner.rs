use vstd::prelude::*;

use crate::error::CrontabServiceError;
use crate::job::JobView;
use crate::job::RawJob;
use crate::schedule::Recurrence;
use crate::schedule::next_occurrence_after;
use crate::schedule::schedule_is_valid;

verus! {

/// A runnable job: a validated recurrence expression paired with the URL to
/// call at each occurrence. Its view is the job definition it was built from.
pub struct CronJob {
    recurrence: Recurrence,
    url: String,
}

impl View for CronJob {
    type V = JobView;

    closed spec fn view(&self) -> JobView {
        JobView { schedule: self.recurrence@, url: self.url@ }
    }
}

impl CronJob {
    /// Build the runnable form of a persisted job definition. Fails exactly
    /// when the schedule text is unparsable, with `InvalidScheduleFormat`.
    pub fn from_raw(raw: &RawJob) -> (r: Result<CronJob, CrontabServiceError>)
        ensures
            r is Ok <==> schedule_is_valid(raw.schedule@),
            r matches Ok(job) ==> job@ == raw@,
            r matches Err(e) ==> e == CrontabServiceError::InvalidScheduleFormat,
    {
        match Recurrence::parse(raw.schedule.as_str()) {
            Ok(recurrence) => Ok(CronJob { recurrence, url: raw.url.clone() }),
            Err(e) => Err(e),
        }
    }

    /// The instant this job next fires strictly after `now` (seconds since
    /// the Unix epoch); `None` means the schedule is exhausted.
    pub fn next_wakeup(&self, now: i64) -> (r: Option<i64>)
        ensures
            r == next_occurrence_after(self@.schedule, now),
            r matches Some(t) ==> t > now,
    {
        self.recurrence.next_occurrence(now)
    }

    /// The callback target, for the component that issues the outbound call.
    pub fn url(&self) -> (r: &String)
        ensures
            r@ == self@.url,
    {
        &self.url
    }
}

/// Where a runner's loop stands: waiting to schedule the next occurrence,
/// with an outbound call in flight, or done for good because the schedule
/// produced no further occurrence.
#[derive(Clone, Copy, Debug, PartialEq, Eq, Structural)]
pub enum RunnerPhase {
    Scheduled,
    Invoking,
    Exhausted,
}

/// The control state of one job runner's loop. Each iteration computes the
/// next occurrence, waits for it, issues one outbound call, and returns to
/// scheduling; only an exhausted schedule ends the loop.
pub struct RunnerState {
    pub phase: RunnerPhase,
}

impl RunnerState {
    /// A freshly spawned runner starts by scheduling its first occurrence.
    pub fn new() -> (r: RunnerState)
        ensures
            r.phase == RunnerPhase::Scheduled,
    {
        RunnerState { phase: RunnerPhase::Scheduled }
    }

    /// Begin one iteration with the next occurrence in hand: with an instant
    /// the runner moves to invoking (after waiting until that instant); with
    /// none the schedule is exhausted and the loop ends.
    pub fn begin_iteration(&mut self, next: Option<i64>) -> (r: Option<i64>)
        requires
            old(self).phase == RunnerPhase::Scheduled,
        ensures
            r == next,
            next is Some ==> final(self).phase == RunnerPhase::Invoking,
            next is None ==> final(self).phase == RunnerPhase::Exhausted,
    {
        match next {
            Some(t) => {
                self.phase = RunnerPhase::Invoking;
                Some(t)
            }
            None => {
                self.phase = RunnerPhase::Exhausted;
                None
            }
        }
    }

    /// Record the outcome of the outbound call. Success and failure alike
    /// return the runner to scheduling: one failed call never terminates the
    /// loop, so the next occurrence is computed and tried in its turn.
    pub fn complete_invocation(&mut self, success: bool)
        requires
            old(self).phase == RunnerPhase::Invoking,
        ensures
            final(self).phase == RunnerPhase::Scheduled,
    {
        let _ = success;
        self.phase = RunnerPhase::Scheduled;
    }

    /// Whether the runner is ready to schedule another occurrence.
    pub fn is_scheduled(&self) -> (r: bool)
        ensures
            r == (self.phase == RunnerPhase::Scheduled),
    {
        matches!(self.phase, RunnerPhase::Scheduled)
    }
}

/// The polymorphic job capability: an implementor supplies the recurrence
/// text and the work of one occurrence. The loop that drives an implementor
/// must confine a failed `run` to that one iteration.
pub trait CrontabServiceJob {
    /// Perform one occurrence's work.
    fn run(&mut self) -> Result<(), CrontabServiceError>;

    /// The recurrence text this job should be scheduled by.
    fn schedule(&self) -> String;
}

} // verus!
