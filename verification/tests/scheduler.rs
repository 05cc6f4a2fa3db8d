use crontab::dispatcher::handle_new_job;
use crontab::dispatcher::startup_jobs;
use crontab::dispatcher::submission_reply;
use crontab::dispatcher::CrondServiceBuilder;
use crontab::dispatcher::MAILBOX_CAPACITY;
use crontab::error::CrontabServiceError;
use crontab::job::Crontab;
use crontab::job::RawJob;
use crontab::runner::CronJob;
use crontab::runner::RunnerPhase;
use crontab::runner::RunnerState;
use crontab::schedule::Recurrence;

fn job(schedule: &str, url: &str) -> RawJob {
    RawJob {
        schedule: schedule.to_string(),
        url: url.to_string(),
    }
}

#[test]
fn next_occurrence_is_strictly_future_and_deterministic() {
    let rec = Recurrence::parse("*/5 * * * * *").unwrap();
    let t: i64 = 1_000_000_007;
    let first = rec.next_occurrence(t).unwrap();
    let again = rec.next_occurrence(t).unwrap();
    assert!(first > t);
    assert_eq!(first, again);
    let after_first = rec.next_occurrence(first).unwrap();
    assert!(after_first > first);
}

#[test]
fn next_occurrence_exact_values() {
    // Every fifth second: the first match strictly after the epoch is 5.
    let every_five = Recurrence::parse("*/5 * * * * *").unwrap();
    assert_eq!(every_five.next_occurrence(0), Some(5));
    assert_eq!(every_five.next_occurrence(5), Some(10));
    assert_eq!(every_five.next_occurrence(6), Some(10));

    // Midnight of January 1st: the first match after the epoch instant itself
    // is the start of 1971, 365 days later.
    let new_year = Recurrence::parse("0 0 0 1 1 *").unwrap();
    assert_eq!(new_year.next_occurrence(0), Some(365 * 24 * 3600));
}

#[test]
fn invalid_schedule_is_rejected_without_anything_to_persist() {
    let err = Recurrence::parse("every full moon").unwrap_err();
    assert_eq!(err, CrontabServiceError::InvalidScheduleFormat);

    let r = handle_new_job(None, job("every full moon", "http://example/hook"));
    match r {
        Ok(_) => panic!("an unparsable schedule must be rejected"),
        Err(e) => assert_eq!(e, CrontabServiceError::InvalidScheduleFormat),
    }
}

#[test]
fn admitted_runner_survives_a_failed_persist() {
    let admitted = handle_new_job(None, job("* * * * * *", "http://example/hook")).unwrap();
    // The persist attempt fails; the submitter hears of it ...
    let reply = submission_reply(false);
    assert_eq!(reply, Err(CrontabServiceError::PersistenceError));
    // ... but the runner was produced before the attempt and starts anyway.
    assert_eq!(admitted.runner.url(), "http://example/hook");
    assert!(admitted.runner.next_wakeup(0).is_some());
}

#[test]
fn no_submission_lost_across_successive_commands() {
    let n = 5;
    let mut persisted: Option<Crontab> = None;
    for k in 0..n {
        let def = job("* * * * * *", &format!("http://example/hook/{}", k));
        let admitted = handle_new_job(persisted, def).unwrap();
        // Each save succeeds, so the next reload sees the appended set.
        persisted = Some(admitted.updated);
    }
    let tab = persisted.unwrap();
    assert_eq!(tab.len(), n);
    for k in 0..n {
        assert_eq!(tab.jobs[k].url, format!("http://example/hook/{}", k));
    }
    assert!(n <= MAILBOX_CAPACITY);
}

#[test]
fn cold_start_spawns_one_runner_per_stored_job() {
    let tab = Crontab {
        jobs: vec![
            job("* * * * * *", "http://example/a"),
            job("*/5 * * * * *", "http://example/b"),
            job("0 * * * * *", "http://example/c"),
        ],
    };
    let runners = startup_jobs(Some(tab));
    assert_eq!(runners.len(), 3);
    assert_eq!(runners[0].url(), "http://example/a");
    assert_eq!(runners[1].url(), "http://example/b");
    assert_eq!(runners[2].url(), "http://example/c");
}

#[test]
fn cold_start_with_nothing_persisted_spawns_nothing() {
    let runners = startup_jobs(None);
    assert_eq!(runners.len(), 0);
}

#[test]
fn cold_start_skips_a_stored_job_whose_text_no_longer_parses() {
    let tab = Crontab {
        jobs: vec![
            job("* * * * * *", "http://example/a"),
            job("gibberish", "http://example/broken"),
            job("0 * * * * *", "http://example/c"),
        ],
    };
    let runners = startup_jobs(Some(tab));
    assert_eq!(runners.len(), 2);
    assert_eq!(runners[0].url(), "http://example/a");
    assert_eq!(runners[1].url(), "http://example/c");
}

#[test]
fn submit_scenario_reply_ok_and_set_grows_by_one() {
    let base = Crontab {
        jobs: vec![job("0 * * * * *", "http://example/old")],
    };
    let before = base.len();
    let admitted = handle_new_job(Some(base), job("*/5 * * * * *", "http://example/hook")).unwrap();
    let reply = submission_reply(true);
    assert_eq!(reply, Ok(()));
    assert_eq!(admitted.updated.len(), before + 1);
    assert_eq!(admitted.updated.jobs[before].schedule, "*/5 * * * * *");
    assert_eq!(admitted.updated.jobs[before].url, "http://example/hook");
}

#[test]
fn runner_survives_a_failed_call_and_schedules_the_next_occurrence() {
    let raw = job("*/5 * * * * *", "http://example/hook");
    let cron_job = CronJob::from_raw(&raw).unwrap();
    let mut state = RunnerState::new();

    let first = state.begin_iteration(cron_job.next_wakeup(0)).unwrap();
    assert_eq!(first, 5);
    assert_eq!(state.phase, RunnerPhase::Invoking);

    // The outbound call fails once with a connection error ...
    state.complete_invocation(false);
    // ... the runner does not terminate: it computes and waits for the next
    // occurrence and retries the call then.
    assert_eq!(state.phase, RunnerPhase::Scheduled);
    let second = state.begin_iteration(cron_job.next_wakeup(first)).unwrap();
    assert_eq!(second, 10);
    assert_eq!(state.phase, RunnerPhase::Invoking);
    state.complete_invocation(true);
    assert_eq!(state.phase, RunnerPhase::Scheduled);
}

#[test]
fn exhausted_schedule_ends_the_loop_without_an_error() {
    // A schedule pinned to a year in the past has no future occurrence.
    let rec = Recurrence::parse("0 0 0 1 1 * 1999").unwrap();
    let far_after: i64 = 4_102_444_800; // past the last match of that year
    assert_eq!(rec.next_occurrence(far_after), None);

    let raw = RawJob {
        schedule: "0 0 0 1 1 * 1999".to_string(),
        url: "http://example/hook".to_string(),
    };
    let cron_job = CronJob::from_raw(&raw).unwrap();
    let mut state = RunnerState::new();
    let wake = state.begin_iteration(cron_job.next_wakeup(far_after));
    assert_eq!(wake, None);
    assert_eq!(state.phase, RunnerPhase::Exhausted);
}

#[test]
fn clock_at_the_edge_of_representable_time_is_absorbed() {
    let rec = Recurrence::parse("* * * * * *").unwrap();
    // The last whole second the date library represents: one second past it
    // has no representation, so the schedule reads as exhausted — the call
    // must return rather than abort.
    let last = chrono::NaiveDate::MAX
        .and_hms_opt(23, 59, 59)
        .unwrap()
        .and_utc()
        .timestamp();
    assert_eq!(rec.next_occurrence(last), None);
    assert_eq!(rec.next_occurrence(last - 1), None);
    assert_eq!(rec.next_occurrence(i64::MAX), None);
    assert_eq!(rec.next_occurrence(i64::MIN), None);
}

#[test]
fn error_messages_name_each_fault() {
    assert_eq!(
        CrontabServiceError::InvalidScheduleFormat.message(),
        "invalid schedule format"
    );
    assert_eq!(
        CrontabServiceError::PersistenceError.message(),
        "could not persist the job set"
    );
    assert_eq!(
        CrontabServiceError::ExecutionError.message(),
        "the scheduled call failed"
    );
}

#[test]
fn job_set_starts_empty_and_appends_in_order() {
    let mut tab = Crontab::empty();
    assert_eq!(tab.len(), 0);
    tab.append(job("* * * * * *", "http://example/a"));
    tab.append(job("0 * * * * *", "http://example/b"));
    assert_eq!(tab.len(), 2);
    assert_eq!(tab.jobs[0].url, "http://example/a");
    assert_eq!(tab.jobs[1].url, "http://example/b");

    let copy = tab.jobs[0].clone();
    assert_eq!(copy.schedule, tab.jobs[0].schedule);
    assert_eq!(copy.url, tab.jobs[0].url);

    let _builder = CrondServiceBuilder {};
}
