//! The store: the application's configuration and its jobs, as one record in memory.

use crate::clock::{utc_now, Instant};
use crate::config::Config;
use crate::job::{
    can_schedule, fits_input, input_fits, next_run, random_id, Job, JobInput, JobView,
};
use crate::text::{same_text, texts};
use crate::validation::{join, joined};
use vstd::prelude::*;

verus! {

/// The name of the file that holds the configuration, below the data directory.
pub const CONFIG_FILE: &'static str = "config.json";

/// The name of the file that holds the jobs.
pub const JOBS_FILE: &'static str = "backup_jobs.json";

/// The name of the directory that holds the logs.
pub const LOGS_DIR: &'static str = "logs";

/// The application's record: where its files lie, its configuration and its jobs, in the
/// order in which they were added. The record is read and written as a whole.
#[derive(Debug)]
pub struct AppData {
    pub data_dir: String,
    pub config_path: String,
    pub jobs_path: String,
    pub logs_dir: String,
    pub config: Config,
    pub jobs: Vec<Job>,
}

/// Why the store did not do what it was asked.
#[derive(Clone, Copy, Debug, PartialEq, Eq, Structural)]
pub enum StoreError {
    /// An update came without the id of the job to change.
    IdRequired,
    /// No job has the id.
    JobNotFound,
    /// The job's runs cannot be scheduled from the present time.
    CannotSchedule,
    /// The id that was drawn for a new job is the id of a job on record.
    IdInUse,
}

/// Whether no job of the sequence has the id.
pub open spec fn absent(jobs: Seq<Job>, id: Seq<char>) -> bool {
    forall|k: int| 0 <= k < jobs.len() ==> (#[trigger] jobs[k]).id@ != id
}

/// Whether `i` is the first place in the sequence at which a job has the id.
pub open spec fn first_with_id(jobs: Seq<Job>, id: Seq<char>, i: int) -> bool {
    &&& 0 <= i < jobs.len()
    &&& jobs[i].id@ == id
    &&& absent(jobs.take(i), id)
}

/// The first job of the sequence with the id, if there is one.
pub open spec fn lookup(jobs: Seq<Job>, id: Seq<char>) -> Option<Job> {
    if absent(jobs, id) {
        None
    } else {
        Some(jobs[choose|i: int| first_with_id(jobs, id, i)])
    }
}

/// There is one first place at most, and a job found there is the one that `lookup` gives.
pub proof fn lemma_first_is_lookup(jobs: Seq<Job>, id: Seq<char>, i: int)
    requires
        first_with_id(jobs, id, i),
    ensures
        lookup(jobs, id) == Some(jobs[i]),
{
    assert(jobs[i].id@ == id);
    let k = choose|k: int| first_with_id(jobs, id, k);
    if k < i {
        assert(jobs.take(i)[k] == jobs[k]);
    } else if i < k {
        assert(jobs.take(k)[i] == jobs[i]);
    }
}

/// A job that is added is found under its id, unless an earlier job bears the same id, which
/// is then found as before. Every other id leads where it led.
pub proof fn lemma_lookup_after_add(jobs: Seq<Job>, job: Job, id: Seq<char>)
    ensures
        lookup(jobs.push(job), id) == if !absent(jobs, id) {
            lookup(jobs, id)
        } else if job.id@ == id {
            Some(job)
        } else {
            None
        },
{
    let more = jobs.push(job);
    if !absent(jobs, id) {
        let k = choose|k: int| 0 <= k < jobs.len() && (#[trigger] jobs[k]).id@ == id;
        lemma_some_first(jobs, id, k);
        let first = choose|i: int| first_with_id(jobs, id, i);
        assert(more.take(first) =~= jobs.take(first));
        assert(more[first] == jobs[first]);
        lemma_first_is_lookup(jobs, id, first);
        lemma_first_is_lookup(more, id, first);
    } else if job.id@ == id {
        assert(more.take(jobs.len() as int) =~= jobs);
        assert(more[jobs.len() as int] == job);
        lemma_first_is_lookup(more, id, jobs.len() as int);
    } else {
        assert forall|k: int| 0 <= k < more.len() implies (#[trigger] more[k]).id@ != id by {
            if k < jobs.len() {
                assert(more[k] == jobs[k]);
            }
        }
    }
}

/// Where some job has the id, there is a first place at which one has.
pub proof fn lemma_some_first(jobs: Seq<Job>, id: Seq<char>, k: int)
    requires
        0 <= k < jobs.len(),
        jobs[k].id@ == id,
    ensures
        exists|i: int| first_with_id(jobs, id, i) && i <= k,
    decreases k,
{
    if absent(jobs.take(k), id) {
        assert(first_with_id(jobs, id, k));
    } else {
        let earlier = choose|e: int|
            0 <= e < jobs.take(k).len() && (#[trigger] jobs.take(k)[e]).id@ == id;
        assert(jobs.take(k)[earlier] == jobs[earlier]);
        lemma_some_first(jobs, id, earlier);
    }
}

/// After a job was deleted, no job is found under its id, and every other id leads where
/// it led.
pub proof fn lemma_lookup_after_delete(jobs: Seq<Job>, deleted: Seq<char>, id: Seq<char>)
    ensures
        lookup(jobs.filter(has_other_id(deleted)), deleted) is None,
        id != deleted ==> lookup(jobs.filter(has_other_id(deleted)), id) == lookup(jobs, id),
    decreases jobs.len(),
{
    let test = has_other_id(deleted);
    let kept = jobs.filter(test);
    assert forall|k: int| 0 <= k < kept.len() implies (#[trigger] kept[k]).id@ != deleted by {
        jobs.lemma_filter_pred(test, k);
    }
    if id != deleted {
        if jobs.len() == 0 {
            reveal(Seq::filter);
            assert(kept.len() == 0);
        } else {
            let front = jobs.drop_last();
            let last = jobs.last();
            lemma_lookup_after_delete(front, deleted, id);
            assert(jobs =~= front.push(last));
            front.lemma_filter_push(last, test);
            lemma_lookup_after_add(front, last, id);
            if test(last) {
                lemma_lookup_after_add(front.filter(test), last, id);
                lemma_absent_iff_no_lookup(front, id);
                lemma_absent_iff_no_lookup(front.filter(test), id);
            } else {
                assert(last.id@ != id);
            }
        }
    }
}

/// No job has an id exactly when none is found under it.
pub proof fn lemma_absent_iff_no_lookup(jobs: Seq<Job>, id: Seq<char>)
    ensures
        absent(jobs, id) <==> lookup(jobs, id) is None,
{
}

/// Whether a run that ended at `now` can be recorded under the id: a job has the id, and the
/// time can be written into the first such job, with its next run where it has one.
pub open spec fn can_record_run(jobs: Seq<Job>, id: Seq<char>, now: Instant) -> bool {
    lookup(jobs, id) matches Some(job) && job@.can_record(now)
}

/// The test that a job has another id than the given one.
pub open spec fn has_other_id(id: Seq<char>) -> spec_fn(Job) -> bool {
    |job: Job| job.id@ != id
}

/// The outcome of one run of a job: the archive's size, or the error's text.
#[derive(Debug)]
pub enum RunOutcome {
    Archived(u64),
    Failed(String),
}

impl RunOutcome {
    /// The job's record after the outcome came in at `now`.
    pub open spec fn applied_to(self, job: JobView, now: Instant) -> JobView {
        match self {
            RunOutcome::Archived(size) => job.after_run(size, now),
            RunOutcome::Failed(error) => job.after_error(error@, now),
        }
    }
}

/// The text that tells a person of a store error.
pub fn describe_store_error(error: StoreError) -> (r: &'static str)
    ensures
        r@ == match error {
            StoreError::IdRequired => "Job ID required for update"@,
            StoreError::JobNotFound => "Job not found"@,
            StoreError::CannotSchedule => "Job cannot be scheduled from the present time"@,
            StoreError::IdInUse => "Job ID is already in use"@,
        },
{
    match error {
        StoreError::IdRequired => "Job ID required for update",
        StoreError::JobNotFound => "Job not found",
        StoreError::CannotSchedule => "Job cannot be scheduled from the present time",
        StoreError::IdInUse => "Job ID is already in use",
    }
}

/// The root directories that the jobs name, each once, in the order in which the jobs
/// first name them.
pub open spec fn first_roots(jobs: Seq<Job>) -> Seq<Seq<char>>
    decreases jobs.len(),
{
    if jobs.len() == 0 {
        Seq::empty()
    } else {
        let earlier = first_roots(jobs.drop_last());
        if earlier.contains(jobs.last().root_dir@) {
            earlier
        } else {
            earlier.push(jobs.last().root_dir@)
        }
    }
}

/// The roots of the jobs hold every job's root directory, nothing else, and nothing twice.
pub proof fn lemma_first_roots(jobs: Seq<Job>)
    ensures
        forall|k: int| 0 <= k < jobs.len() ==> first_roots(jobs).contains((#[trigger] jobs[k]).root_dir@),
        forall|a: int|
            0 <= a < first_roots(jobs).len() ==> exists|k: int|
                0 <= k < jobs.len() && (#[trigger] jobs[k]).root_dir@ == #[trigger] first_roots(
                    jobs,
                )[a],
        first_roots(jobs).no_duplicates(),
    decreases jobs.len(),
{
    if jobs.len() > 0 {
        let front = jobs.drop_last();
        let earlier = first_roots(front);
        let roots = first_roots(jobs);
        let last = jobs.last().root_dir@;
        lemma_first_roots(front);
        assert forall|k: int| 0 <= k < jobs.len() implies roots.contains(
            (#[trigger] jobs[k]).root_dir@,
        ) by {
            if k < front.len() {
                assert(front[k] == jobs[k]);
                let at = choose|at: int| 0 <= at < earlier.len() && earlier[at] == front[k].root_dir@;
                assert(roots[at] == earlier[at]);
            } else if earlier.contains(last) {
            } else {
                assert(roots[roots.len() - 1] == last);
            }
        }
        assert forall|a: int| 0 <= a < roots.len() implies exists|k: int|
            0 <= k < jobs.len() && (#[trigger] jobs[k]).root_dir@ == #[trigger] roots[a] by {
            if a < earlier.len() {
                assert(roots[a] == earlier[a]);
                let k = choose|k: int|
                    0 <= k < front.len() && (#[trigger] front[k]).root_dir@ == earlier[a];
                assert(jobs[k] == front[k]);
            } else {
                assert(jobs[jobs.len() - 1].root_dir@ == roots[a]);
            }
        }
    }
}

/// Whether a text stands in a list of texts.
pub fn contains_text(list: &Vec<String>, text: &str) -> (r: bool)
    ensures
        r == texts(list@).contains(text@),
{
    let mut i: usize = 0;
    while i < list.len()
        invariant
            i <= list.len(),
            forall|k: int| 0 <= k < i ==> (#[trigger] list@[k])@ != text@,
        decreases list.len() - i,
    {
        if same_text(list[i].as_str(), text) {
            assert(texts(list@)[i as int] == text@);
            return true;
        }
        i += 1;
    }
    assert forall|k: int| 0 <= k < texts(list@).len() implies texts(list@)[k] != text@ by {}
    false
}

/// The first place at which a job has the id.
pub fn position_of(jobs: &Vec<Job>, id: &str) -> (r: Option<usize>)
    ensures
        match r {
            Some(i) => first_with_id(jobs@, id@, i as int),
            None => absent(jobs@, id@),
        },
{
    let mut i: usize = 0;
    while i < jobs.len()
        invariant
            i <= jobs.len(),
            absent(jobs@.take(i as int), id@),
        decreases jobs.len() - i,
    {
        if same_text(jobs[i].id.as_str(), id) {
            return Some(i);
        }
        proof {
            let next = jobs@.take(i + 1);
            assert forall|k: int| 0 <= k < next.len() implies (#[trigger] next[k]).id@ != id@ by {}
        }
        i += 1;
    }
    proof {
        assert(jobs@.take(i as int) =~= jobs@);
    }
    None
}

impl AppData {
    /// A record below `data_dir` with the default configuration and no jobs.
    pub fn new(data_dir: &str) -> (r: AppData)
        ensures
            r.data_dir@ == data_dir@,
            r.config_path@ == joined(data_dir@, CONFIG_FILE@),
            r.jobs_path@ == joined(data_dir@, JOBS_FILE@),
            r.logs_dir@ == joined(data_dir@, LOGS_DIR@),
            r.jobs@.len() == 0,
            r.config.theme matches Some(theme) && theme@ == crate::config::DEFAULT_THEME@,
            r.config.monthly_archive_destination matches Some(place) && place@
                == crate::config::DEFAULT_MONTHLY_DESTINATION@,
    {
        AppData {
            data_dir: data_dir.to_owned(),
            config_path: join(data_dir, CONFIG_FILE),
            jobs_path: join(data_dir, JOBS_FILE),
            logs_dir: join(data_dir, LOGS_DIR),
            config: Config::default(),
            jobs: Vec::new(),
        }
    }

    /// The configuration on record.
    pub fn get_config(&self) -> (r: Config)
        ensures
            r == self.config,
    {
        self.config.clone()
    }

    /// Puts `config` in the place of the configuration on record.
    pub fn save_config(&mut self, config: Config)
        ensures
            *final(self) == (AppData { config, ..*old(self) }),
    {
        self.config = config;
    }

    /// The jobs on record, in their order.
    pub fn list_jobs(&self) -> (r: Vec<Job>)
        ensures
            r@ == self.jobs@,
    {
        let mut out: Vec<Job> = Vec::new();
        let mut i: usize = 0;
        while i < self.jobs.len()
            invariant
                i <= self.jobs.len(),
                out@ == self.jobs@.take(i as int),
            decreases self.jobs.len() - i,
        {
            out.push(self.jobs[i].clone());
            i += 1;
        }
        out
    }

    /// The first job with the id, if there is one.
    pub fn get_job(&self, id: &str) -> (r: Option<Job>)
        ensures
            r == lookup(self.jobs@, id@),
            r is Some <==> !absent(self.jobs@, id@),
    {
        match position_of(&self.jobs, id) {
            Some(i) => {
                proof {
                    lemma_first_is_lookup(self.jobs@, id@, i as int);
                }
                Some(self.jobs[i].clone())
            },
            None => None,
        }
    }

    /// Adds the job made from `input` at `now`, behind the jobs on record, and returns it.
    pub fn add_job_at(&mut self, input: JobInput, fresh_id: String, now: Instant) -> (job: Job)
        requires
            input.enabled ==> can_schedule(now, input.interval_value, input.interval_unit@),
        ensures
            job@ == JobView::from_input(input, fresh_id@, now),
            final(self).jobs@ == old(self).jobs@.push(job),
            *final(self) == (AppData { jobs: final(self).jobs, ..*old(self) }),
    {
        let job = Job::from_input_at(input, fresh_id, now);
        self.jobs.push(job.clone());
        job
    }

    /// Adds the job made from `input` now, by the system clock, behind the jobs on record.
    /// Where the input brings no id, one is drawn at random, and it is the id of no job on
    /// record: the error is `IdInUse` where the id that was drawn is in use. Otherwise the
    /// job is added exactly where the input fits the clock's time, and the error is
    /// `CannotSchedule` where it does not. On an error the record stays as it is.
    pub fn add_job(&mut self, input: JobInput) -> (r: Result<Job, StoreError>)
        ensures
            exists|now: Instant|
                {
                    &&& now.since_epoch()
                    &&& (r is Err && r->Err_0 == StoreError::IdInUse) || (r is Ok
                        <==> #[trigger] input_fits(input, now))
                    &&& r matches Ok(job) ==> {
                        &&& job@ == JobView::from_input(input, job@.id, now)
                        &&& input.enabled ==> job@.next_run() == Some(
                            next_run(now, input.interval_value, input.interval_unit@),
                        )
                    }
                },
            match r {
                Ok(job) => {
                    &&& job.well_formed()
                    &&& input.id is None ==> job@.id.len() == 36 && absent(old(self).jobs@, job@.id)
                    &&& final(self).jobs@ == old(self).jobs@.push(job)
                    &&& *final(self) == (AppData { jobs: final(self).jobs, ..*old(self) })
                },
                Err(e) => {
                    &&& *final(self) == *old(self)
                    &&& e == StoreError::IdInUse || e == StoreError::CannotSchedule
                    &&& e == StoreError::IdInUse ==> input.id is None && exists|drawn: Seq<char>|
                        drawn.len() == 36 && !#[trigger] absent(old(self).jobs@, drawn)
                },
            },
    {
        let fresh_id = if input.id.is_none() {
            let drawn = random_id();
            if position_of(&self.jobs, drawn.as_str()).is_some() {
                let _ = fits_input(&input, Instant { secs: 0, nanos: 0 });
                assert(!absent(self.jobs@, drawn@));
                return Err(StoreError::IdInUse);
            }
            drawn
        } else {
            String::new()
        };
        let now = if input.enabled {
            utc_now()
        } else {
            Instant { secs: 0, nanos: 0 }
        };
        if !fits_input(&input, now) {
            return Err(StoreError::CannotSchedule);
        }
        let job = Job::from_input_at(input, fresh_id, now);
        self.jobs.push(job.clone());
        Ok(job)
    }

    /// Puts the job made from `input` at `now` in the place of the first job with the input's
    /// id, and returns it. The new job starts without history. On an error the record stays as
    /// it is.
    pub fn update_job_at(&mut self, input: JobInput, now: Instant) -> (r: Result<Job, StoreError>)
        requires
            input.enabled ==> can_schedule(now, input.interval_value, input.interval_unit@),
        ensures
            match r {
                Ok(job) => {
                    &&& input.id matches Some(id)
                    &&& job@ == JobView::from_input(input, Seq::empty(), now)
                    &&& exists|i: int|
                        first_with_id(old(self).jobs@, id@, i) && final(self).jobs@ == old(
                            self,
                        ).jobs@.update(i, job)
                    &&& *final(self) == (AppData { jobs: final(self).jobs, ..*old(self) })
                },
                Err(e) => {
                    &&& *final(self) == *old(self)
                    &&& match input.id {
                        None => e == StoreError::IdRequired,
                        Some(id) => e == StoreError::JobNotFound && absent(old(self).jobs@, id@),
                    }
                },
            },
    {
        let found = match &input.id {
            Some(id) => position_of(&self.jobs, id.as_str()),
            None => {
                return Err(StoreError::IdRequired);
            },
        };
        match found {
            Some(i) => {
                let job = Job::from_input_at(input, String::new(), now);
                self.jobs.set(i, job.clone());
                Ok(job)
            },
            None => Err(StoreError::JobNotFound),
        }
    }

    /// Puts the job made from `input` now, by the system clock, in the place of the first job
    /// with the input's id. The errors, in this order: `IdRequired` where the input brings
    /// no id, `JobNotFound` where no job has it, `CannotSchedule` where the input does not
    /// fit the clock's time. Otherwise the job is put in place. On an error the record
    /// stays as it is.
    pub fn update_job(&mut self, input: JobInput) -> (r: Result<Job, StoreError>)
        ensures
            exists|now: Instant|
                {
                    &&& now.since_epoch()
                    &&& r is Ok <==> (input.id matches Some(id) && !absent(old(self).jobs@, id@)
                        && #[trigger] input_fits(input, now))
                    &&& r matches Ok(job) ==> {
                        &&& job@ == JobView::from_input(input, Seq::empty(), now)
                        &&& input.enabled ==> job@.next_run() == Some(
                            next_run(now, input.interval_value, input.interval_unit@),
                        )
                    }
                },
            match r {
                Ok(job) => {
                    &&& input.id matches Some(id)
                    &&& job.well_formed()
                    &&& exists|i: int|
                        first_with_id(old(self).jobs@, id@, i) && final(self).jobs@ == old(
                            self,
                        ).jobs@.update(i, job)
                    &&& *final(self) == (AppData { jobs: final(self).jobs, ..*old(self) })
                },
                Err(e) => {
                    &&& *final(self) == *old(self)
                    &&& match input.id {
                        None => e == StoreError::IdRequired,
                        Some(id) => if absent(old(self).jobs@, id@) {
                            e == StoreError::JobNotFound
                        } else {
                            e == StoreError::CannotSchedule
                        },
                    }
                },
            },
    {
        let now = if input.enabled {
            utc_now()
        } else {
            Instant { secs: 0, nanos: 0 }
        };
        let fits = fits_input(&input, now);
        let found = match &input.id {
            Some(id) => position_of(&self.jobs, id.as_str()),
            None => {
                return Err(StoreError::IdRequired);
            },
        };
        match found {
            Some(i) => {
                if !fits {
                    return Err(StoreError::CannotSchedule);
                }
                let job = Job::from_input_at(input, String::new(), now);
                self.jobs.set(i, job.clone());
                Ok(job)
            },
            None => Err(StoreError::JobNotFound),
        }
    }

    /// Writes the outcome of a run that ended at `now` into the first job with the id: the
    /// time, the size or the error, and the next run. The error is `JobNotFound`, and the
    /// record stays as it is, where no job has the id.
    pub fn record_run_at(&mut self, id: &str, outcome: RunOutcome, now: Instant) -> (r: Result<
        (),
        StoreError,
    >)
        requires
            now.in_calendar(),
            lookup(old(self).jobs@, id@) matches Some(job) ==> (job.enabled ==> can_schedule(
                now,
                job.interval_value,
                job.interval_unit@,
            )),
        ensures
            *final(self) == (AppData { jobs: final(self).jobs, ..*old(self) }),
            match r {
                Ok(()) => exists|i: int|
                    {
                        &&& first_with_id(old(self).jobs@, id@, i)
                        &&& final(self).jobs@.len() == old(self).jobs@.len()
                        &&& final(self).jobs@[i]@ == outcome.applied_to(old(self).jobs@[i]@, now)
                        &&& forall|k: int|
                            0 <= k < old(self).jobs@.len() && k != i ==> final(self).jobs@[k]
                                == old(self).jobs@[k]
                    },
                Err(e) => {
                    &&& e == StoreError::JobNotFound
                    &&& absent(old(self).jobs@, id@)
                    &&& final(self).jobs@ == old(self).jobs@
                },
            },
    {
        match position_of(&self.jobs, id) {
            Some(i) => {
                proof {
                    lemma_first_is_lookup(self.jobs@, id@, i as int);
                }
                let mut job = self.jobs[i].clone();
                match outcome {
                    RunOutcome::Archived(size) => job.update_after_run_at(size, now),
                    RunOutcome::Failed(error) => job.update_after_error_at(error, now),
                }
                self.jobs.set(i, job);
                Ok(())
            },
            None => Err(StoreError::JobNotFound),
        }
    }

    /// Writes the outcome of a run that ended just now, by the system clock, into the first
    /// job with the id. It does so exactly where a job has the id and the clock's time can
    /// be recorded for it. On an error the record stays as it is: `JobNotFound` where no job
    /// has the id, `CannotSchedule` where the clock's time cannot be recorded for the job.
    pub fn record_run(&mut self, id: &str, outcome: RunOutcome) -> (r: Result<(), StoreError>)
        ensures
            *final(self) == (AppData { jobs: final(self).jobs, ..*old(self) }),
            exists|now: Instant|
                {
                    &&& now.since_epoch()
                    &&& r is Ok <==> #[trigger] can_record_run(old(self).jobs@, id@, now)
                    &&& r is Ok ==> exists|i: int|
                        {
                            &&& first_with_id(old(self).jobs@, id@, i)
                            &&& final(self).jobs@.len() == old(self).jobs@.len()
                            &&& final(self).jobs@[i]@ == outcome.applied_to(
                                old(self).jobs@[i]@,
                                now,
                            )
                            &&& forall|k: int|
                                0 <= k < old(self).jobs@.len() && k != i ==> final(self).jobs@[k]
                                    == old(self).jobs@[k]
                        }
                },
            r matches Err(e) ==> {
                &&& final(self).jobs@ == old(self).jobs@
                &&& if absent(old(self).jobs@, id@) {
                    e == StoreError::JobNotFound
                } else {
                    e == StoreError::CannotSchedule
                }
            },
    {
        let now = utc_now();
        match position_of(&self.jobs, id) {
            Some(i) => {
                proof {
                    lemma_first_is_lookup(self.jobs@, id@, i as int);
                }
                if !self.jobs[i].can_record_at(now) {
                    assert(!can_record_run(self.jobs@, id@, now));
                    return Err(StoreError::CannotSchedule);
                }
                assert(can_record_run(self.jobs@, id@, now));
                let ghost before = self.jobs@[i as int]@;
                let ghost after = outcome.applied_to(before, now);
                let mut job = self.jobs[i].clone();
                match outcome {
                    RunOutcome::Archived(size) => job.update_after_run_at(size, now),
                    RunOutcome::Failed(error) => job.update_after_error_at(error, now),
                }
                self.jobs.set(i, job);
                assert(self.jobs@[i as int]@ == after);
                Ok(())
            },
            None => {
                assert(!can_record_run(self.jobs@, id@, now));
                Err(StoreError::JobNotFound)
            },
        }
    }

    /// Takes every job with the id off the record. The others keep their order.
    pub fn delete_job(&mut self, id: &str)
        ensures
            final(self).jobs@ == old(self).jobs@.filter(has_other_id(id@)),
            *final(self) == (AppData { jobs: final(self).jobs, ..*old(self) }),
    {
        let mut kept: Vec<Job> = Vec::new();
        let mut i: usize = 0;
        while i < self.jobs.len()
            invariant
                i <= self.jobs.len(),
                kept@ == self.jobs@.take(i as int).filter(has_other_id(id@)),
            decreases self.jobs.len() - i,
        {
            proof {
                let job = self.jobs@[i as int];
                assert(self.jobs@.take(i + 1) =~= self.jobs@.take(i as int).push(job));
                self.jobs@.take(i as int).lemma_filter_push(job, has_other_id(id@));
            }
            if !same_text(self.jobs[i].id.as_str(), id) {
                kept.push(self.jobs[i].clone());
            }
            i += 1;
        }
        proof {
            assert(self.jobs@.take(i as int) =~= self.jobs@);
        }
        self.jobs = kept;
    }

    /// The root directories of the servers that the jobs speak of, each once, in the order
    /// in which the jobs first name them.
    pub fn server_roots(&self) -> (roots: Vec<String>)
        ensures
            texts(roots@) == first_roots(self.jobs@),
    {
        let mut roots: Vec<String> = Vec::new();
        let mut i: usize = 0;
        while i < self.jobs.len()
            invariant
                i <= self.jobs.len(),
                texts(roots@) == first_roots(self.jobs@.take(i as int)),
            decreases self.jobs.len() - i,
        {
            let root = &self.jobs[i].root_dir;
            proof {
                assert(self.jobs@.take(i + 1).drop_last() =~= self.jobs@.take(i as int));
            }
            if !contains_text(&roots, root.as_str()) {
                roots.push(root.clone());
            }
            i += 1;
        }
        proof {
            assert(self.jobs@.take(i as int) =~= self.jobs@);
        }
        roots
    }

    /// Puts `jobs` in the place of the jobs on record.
    pub fn save_jobs(&mut self, jobs: Vec<Job>)
        ensures
            *final(self) == (AppData { jobs, ..*old(self) }),
    {
        self.jobs = jobs;
    }

    /// The directory that holds the logs.
    pub fn get_logs_dir(&self) -> (r: &str)
        ensures
            r@ == self.logs_dir@,
    {
        self.logs_dir.as_str()
    }

    /// The directory that holds the record and the logs.
    pub fn get_data_dir(&self) -> (r: &str)
        ensures
            r@ == self.data_dir@,
    {
        self.data_dir.as_str()
    }
}

} // verus!
