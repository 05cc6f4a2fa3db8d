use vstd::prelude::*;

use crate::error::CrontabServiceError;
use crate::job::Crontab;
use crate::job::JobView;
use crate::job::RawJob;
use crate::runner::CronJob;
use crate::schedule::schedule_is_valid;

verus! {

/// How many pending submissions the command mailbox holds before senders
/// suspend; commands are served strictly in arrival order.
pub const MAILBOX_CAPACITY: usize = 32;

/// The job set a load result stands for: a missing or unreadable stored set
/// reads as empty, never as an error.
pub open spec fn loaded_jobs(loaded: Option<Crontab>) -> Seq<JobView> {
    match loaded {
        Some(tab) => tab@,
        None => Seq::<JobView>::empty(),
    }
}

/// The stored jobs whose schedule text still parses, in stored order: exactly
/// those a cold start can build a runner for.
pub open spec fn runnable_jobs(s: Seq<JobView>) -> Seq<JobView>
    decreases s.len(),
{
    if s.len() == 0 {
        Seq::<JobView>::empty()
    } else {
        let rest = runnable_jobs(s.drop_last());
        if schedule_is_valid(s.last().schedule) {
            rest.push(s.last())
        } else {
            rest
        }
    }
}

/// Cold start: every stored job with a valid schedule text gets a runner, in
/// stored order, before any command is served. With a stored set of n valid
/// jobs this yields exactly n runners.
pub fn startup_jobs(loaded: Option<Crontab>) -> (r: Vec<CronJob>)
    ensures
        r@.map(|i: int, j: CronJob| j@) == runnable_jobs(loaded_jobs(loaded)),
{
    let tab = match loaded {
        Some(t) => t,
        None => Crontab::empty(),
    };
    let ghost all = tab@;
    let mut r: Vec<CronJob> = Vec::new();
    let mut idx: usize = 0;
    while idx < tab.jobs.len()
        invariant
            idx <= tab.jobs.len(),
            all == tab@,
            all.len() == tab.jobs.len(),
            r@.map(|i: int, j: CronJob| j@) == runnable_jobs(all.take(idx as int)),
        decreases tab.jobs.len() - idx,
    {
        let ghost before = r@.map(|i: int, j: CronJob| j@);
        match CronJob::from_raw(&tab.jobs[idx]) {
            Ok(job) => {
                r.push(job);
            }
            Err(_) => {}
        }
        proof {
            assert(all.take(idx as int + 1).drop_last() =~= all.take(idx as int));
            assert(all.take(idx as int + 1).last() == all[idx as int]);
            assert(all[idx as int] == tab.jobs@[idx as int]@);
            if schedule_is_valid(all[idx as int].schedule) {
                assert(r@.map(|i: int, j: CronJob| j@) =~= before.push(all[idx as int]));
            } else {
                assert(r@.map(|i: int, j: CronJob| j@) =~= before);
            }
        }
        idx = idx + 1;
    }
    proof {
        assert(all.take(tab.jobs.len() as int) =~= all);
    }
    r
}

/// When every stored schedule text is valid, a cold start runs the whole set:
/// the runners are exactly the stored jobs, in order — with 3 stored jobs,
/// exactly 3 runners. Validity of every stored text is the steady state of
/// this design, since only validated submissions are ever appended; a text
/// only an outside writer could have corrupted is skipped, not spawned.
pub proof fn lemma_startup_runs_all_valid(s: Seq<JobView>)
    requires
        forall|i: int| 0 <= i < s.len() ==> schedule_is_valid(s[i].schedule),
    ensures
        runnable_jobs(s) == s,
    decreases s.len(),
{
    if s.len() == 0 {
        assert(runnable_jobs(s) =~= s);
    } else {
        lemma_startup_runs_all_valid(s.drop_last());
        assert(runnable_jobs(s) =~= s);
    }
}

/// What the dispatcher decides for an admitted submission: the appended set to
/// persist, and the job whose runner starts at once — whatever the persist
/// attempt then comes to.
pub struct AdmittedJob {
    pub updated: Crontab,
    pub runner: CronJob,
}

/// Serve one `NewJob` command: validate the definition, and on success append
/// it to the freshly loaded set (a failed load reads as empty). An unparsable
/// schedule is rejected as `InvalidScheduleFormat` with nothing to persist,
/// so no persistence write can precede validation; an admitted job's runner
/// is produced before any persist attempt, so it starts even if that attempt
/// then fails.
pub fn handle_new_job(loaded: Option<Crontab>, def: RawJob) -> (r: Result<
    AdmittedJob,
    CrontabServiceError,
>)
    ensures
        r is Ok <==> schedule_is_valid(def.schedule@),
        r matches Ok(a) ==> a.updated@ == loaded_jobs(loaded).push(def@) && a.runner@ == def@,
        r matches Err(e) ==> e == CrontabServiceError::InvalidScheduleFormat,
{
    match CronJob::from_raw(&def) {
        Ok(runner) => {
            let mut tab = match loaded {
                Some(t) => t,
                None => Crontab::empty(),
            };
            tab.append(def);
            Ok(AdmittedJob { updated: tab, runner })
        }
        Err(e) => Err(e),
    }
}

/// Turn the persist outcome into the one reply the submitter receives: `Ok`
/// exactly when the save succeeded, `PersistenceError` otherwise.
pub fn submission_reply(save_ok: bool) -> (r: Result<(), CrontabServiceError>)
    ensures
        r is Ok <==> save_ok,
        r matches Err(e) ==> e == CrontabServiceError::PersistenceError,
{
    if save_ok {
        Ok(())
    } else {
        Err(CrontabServiceError::PersistenceError)
    }
}

/// The job set after the dispatcher serves the given commands in arrival
/// order, each step appending one definition to the set the previous step
/// persisted — the step `handle_new_job` promises.
pub open spec fn served_jobs(base: Seq<JobView>, cmds: Seq<JobView>) -> Seq<JobView>
    decreases cmds.len(),
{
    if cmds.len() == 0 {
        base
    } else {
        served_jobs(base.push(cmds[0]), cmds.subrange(1, cmds.len() as int))
    }
}

/// No submission is lost: serving commands in arrival order, with every save
/// seen by the next reload, leaves the persisted set holding every submitted
/// job after the base set, in order — N submissions over a base of b jobs
/// persist a set of exactly b + N.
pub proof fn lemma_no_submission_lost(base: Seq<JobView>, cmds: Seq<JobView>)
    ensures
        served_jobs(base, cmds) == base + cmds,
        served_jobs(base, cmds).len() == base.len() + cmds.len(),
    decreases cmds.len(),
{
    if cmds.len() == 0 {
        assert(served_jobs(base, cmds) =~= base + cmds);
    } else {
        let rest = cmds.subrange(1, cmds.len() as int);
        lemma_no_submission_lost(base.push(cmds[0]), rest);
        assert(base.push(cmds[0]) + rest =~= base + cmds);
    }
}

/// A builder kept for callers that assemble the service in stages; the
/// assembled service itself lives with the process glue, outside this crate.
pub struct CrondServiceBuilder {}

} // verus!
