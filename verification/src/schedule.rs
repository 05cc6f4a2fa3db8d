use vstd::prelude::*;

use crate::error::CrontabServiceError;

verus! {

/// Whether the cron grammar accepts this schedule text; exactly the texts on
/// which `cron::Schedule::from_str` returns `Ok`.
pub uninterp spec fn schedule_is_valid(text: Seq<char>) -> bool;

/// The earliest instant (seconds since the Unix epoch, UTC) strictly after
/// `after` at which the schedule parsed from `text` matches, or `None` when
/// the schedule is exhausted or `after` lies outside the representable range.
/// A function of the text and the instant alone.
pub uninterp spec fn next_occurrence_after(text: Seq<char>, after: i64) -> Option<i64>;

#[verifier::external_type_specification]
#[verifier::external_body]
pub struct ExSchedule(cron::Schedule);

/// Relies on `cron::Schedule::from_str`: it parses deterministically from the
/// text alone, succeeding exactly on the texts the cron grammar accepts.
#[verifier::external_body]
fn parse_schedule_text(text: &str) -> (r: Option<cron::Schedule>)
    ensures
        r is Some <==> schedule_is_valid(text@),
{
    <cron::Schedule as std::str::FromStr>::from_str(text).ok()
}

/// A validated recurrence expression. Its view is the source text it was
/// parsed from; once constructed it always yields occurrences strictly after
/// any reference instant.
#[derive(Debug)]
pub struct Recurrence {
    text: String,
    schedule: cron::Schedule,
}

/// Relies on `cron::Schedule::after`: the iterator's first element is the
/// earliest whole-second instant matching the schedule and at least one
/// second past the start, a deterministic function (in UTC) of the schedule's
/// source text and the start instant alone; `None` when no such instant
/// exists in the representable range. The search's first step is one second
/// past the start, and the date library aborts on an unrepresentable sum, so
/// the call is made only when that second is itself representable; otherwise
/// nothing later can be represented either and the answer is `None`.
#[verifier::external_body]
fn cron_next(rec: &Recurrence, after: i64) -> (r: Option<i64>)
    ensures
        r == next_occurrence_after(rec@, after),
        r matches Some(t) ==> t > after,
{
    let bound = after.checked_add(1)?;
    chrono::DateTime::<chrono::Utc>::from_timestamp(bound, 0)?;
    let start = chrono::DateTime::<chrono::Utc>::from_timestamp(after, 0)?;
    rec.schedule.after(&start).next().map(|dt| dt.timestamp())
}

impl View for Recurrence {
    type V = Seq<char>;

    closed spec fn view(&self) -> Seq<char> {
        self.text@
    }
}

impl Recurrence {
    /// Build a recurrence expression from its textual pattern; an unparsable
    /// text is rejected as `InvalidScheduleFormat`, before anything else
    /// happens to the submission.
    pub fn parse(text: &str) -> (r: Result<Recurrence, CrontabServiceError>)
        ensures
            r is Ok <==> schedule_is_valid(text@),
            r matches Ok(rec) ==> rec@ == text@,
            r matches Err(e) ==> e == CrontabServiceError::InvalidScheduleFormat,
    {
        match parse_schedule_text(text) {
            Some(schedule) => Ok(Recurrence { text: String::from_str(text), schedule }),
            None => Err(CrontabServiceError::InvalidScheduleFormat),
        }
    }

    /// The next occurrence strictly after `after` (seconds since the Unix
    /// epoch): the same reference instant always yields the same answer, and
    /// an answer is always in the future of that instant. `None` means the
    /// schedule is exhausted, which is not an error.
    pub fn next_occurrence(&self, after: i64) -> (r: Option<i64>)
        ensures
            r == next_occurrence_after(self@, after),
            r matches Some(t) ==> t > after,
    {
        cron_next(self, after)
    }
}

} // verus!
