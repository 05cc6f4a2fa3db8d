use vstd::prelude::*;

verus! {

/// The mathematical shape of one job: its schedule text and callback URL.
#[verifier::ext_equal]
pub struct JobView {
    pub schedule: Seq<char>,
    pub url: Seq<char>,
}

/// The persisted form of one job: a cron-style recurrence expression and the
/// URL called at each occurrence. Immutable once submitted; the job set only
/// ever appends.
#[derive(Debug)]
pub struct RawJob {
    pub schedule: String,
    pub url: String,
}

impl View for RawJob {
    type V = JobView;

    open spec fn view(&self) -> JobView {
        JobView { schedule: self.schedule@, url: self.url@ }
    }
}

impl Clone for RawJob {
    fn clone(&self) -> (r: Self)
        ensures
            r@ == self@,
    {
        RawJob { schedule: self.schedule.clone(), url: self.url.clone() }
    }
}

/// The whole persisted job set: an ordered, append-only sequence of job
/// definitions, stored as one value under one fixed key.
#[derive(Debug)]
pub struct Crontab {
    pub jobs: Vec<RawJob>,
}

impl View for Crontab {
    type V = Seq<JobView>;

    open spec fn view(&self) -> Seq<JobView> {
        self.jobs@.map(|i: int, j: RawJob| j@)
    }
}

impl Crontab {
    /// The job set to start from when nothing was persisted yet.
    pub fn empty() -> (r: Crontab)
        ensures
            r@ == Seq::<JobView>::empty(),
    {
        let r = Crontab { jobs: Vec::new() };
        proof {
            assert(r@ =~= Seq::<JobView>::empty());
        }
        r
    }

    /// Admitting a job appends it; nothing is ever reordered or removed.
    pub fn append(&mut self, job: RawJob)
        ensures
            final(self)@ == old(self)@.push(job@),
    {
        let ghost pushed = job@;
        self.jobs.push(job);
        proof {
            assert(self@ =~= old(self)@.push(pushed));
        }
    }

    /// How many jobs are stored.
    pub fn len(&self) -> (n: usize)
        ensures
            n == self@.len(),
    {
        self.jobs.len()
    }
}

} // verus!
