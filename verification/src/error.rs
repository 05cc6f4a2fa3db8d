use vstd::prelude::*;

verus! {

/// The faults the scheduler distinguishes: an unparsable schedule text is
/// rejected at submission time, a failed save is reported to the one
/// submitter it concerns, and a failed outbound call is contained inside the
/// runner iteration it happened in.
#[derive(Clone, Copy, Debug, PartialEq, Eq, Structural)]
pub enum CrontabServiceError {
    InvalidScheduleFormat,
    PersistenceError,
    ExecutionError,
}

impl CrontabServiceError {
    /// A short description, one per variant.
    pub fn message(&self) -> (r: &'static str)
        ensures
            *self is InvalidScheduleFormat ==> r@ == "invalid schedule format"@,
            *self is PersistenceError ==> r@ == "could not persist the job set"@,
            *self is ExecutionError ==> r@ == "the scheduled call failed"@,
    {
        match self {
            CrontabServiceError::InvalidScheduleFormat => "invalid schedule format",
            CrontabServiceError::PersistenceError => "could not persist the job set",
            CrontabServiceError::ExecutionError => "the scheduled call failed",
        }
    }
}

} // verus!
