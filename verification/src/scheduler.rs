//! The scheduler: a queue of due jobs, of which one runs at a time.

use crate::app_data::{absent, lookup, AppData};
use crate::clock::{utc_now, Instant};
use crate::job::{text_of, Job, JobView};
use crate::text::same_text;
use std::collections::VecDeque;
use vstd::prelude::*;

verus! {

/// A job is not run again while its last good run ended less than this many seconds ago.
pub const DEDUP_WINDOW_SECONDS: i64 = 120;

/// The scheduler's state: the jobs that wait for a run, in order, the one job that runs, and
/// the time of the last tick.
#[derive(Debug)]
pub struct Scheduler {
    /// The jobs that wait, the next one first.
    pub queue: VecDeque<Job>,
    /// The id of the job that runs. At most one job runs at a time.
    pub current_job: Option<String>,
    /// What the store said of the running job's last run when the run was started.
    pub run_seen: Option<String>,
    /// When the last tick came.
    pub last_tick: Option<Instant>,
}

/// What the scheduler shows of itself.
#[derive(Debug)]
pub struct Status {
    /// Whether a job runs.
    pub running: bool,
    /// How many jobs wait.
    pub queue_size: usize,
    /// The id of the job that runs.
    pub current_job: Option<String>,
    /// When the last tick came, as RFC 3339 text.
    pub last_tick: Option<String>,
}

/// What a tick asks of its caller.
#[derive(Debug)]
pub enum TickAction {
    /// Nothing: a job still runs, or none waits.
    Idle,
    /// Nothing: the job at the head of the queue ran a moment ago and was dropped.
    Skipped(Job),
    /// Run this job, and write the outcome into the store.
    Dispatch(Job),
}

/// The scheduler's state as plain values.
pub struct SchedulerView {
    pub queue: Seq<Job>,
    pub current_job: Option<Seq<char>>,
    pub run_seen: Option<Seq<char>>,
    pub last_tick: Option<Instant>,
}

/// Whether the store has a run on record that it did not have when the run was started.
pub open spec fn recorded_since(seen: Option<Seq<char>>, on_record: Option<Seq<char>>) -> bool {
    on_record is Some && on_record != seen
}

/// Whether the job's last run ended well and less than `seconds` before `now`.
pub open spec fn ran_within(job: JobView, now: Instant, seconds: int) -> bool {
    job.last_error is None && match job.last_run() {
        Some(at) => now.as_nanos() - at.as_nanos() < seconds * 1_000_000_000,
        None => false,
    }
}

/// The test that a job's own record does not say it is due at `now`.
pub open spec fn not_due(now: Instant) -> spec_fn(Job) -> bool {
    |job: Job| !job@.due_at(now)
}

/// Whether a job of the store is to join the queue: it is enabled and due, and no job that
/// waits has its id.
pub open spec fn wanted(job: Job, waiting: Seq<Job>, now: Instant) -> bool {
    job.enabled && job@.due_at(now) && absent(waiting, job.id@)
}

/// The jobs of the store that join the queue at `now`, in the store's order, where `kept`
/// wait already. A job joins once, however often its id stands in the store.
pub open spec fn additions(jobs: Seq<Job>, kept: Seq<Job>, now: Instant) -> Seq<Job>
    decreases jobs.len(),
{
    if jobs.len() == 0 {
        Seq::empty()
    } else {
        let earlier = additions(jobs.drop_last(), kept, now);
        if wanted(jobs.last(), kept + earlier, now) {
            earlier.push(jobs.last())
        } else {
            earlier
        }
    }
}

/// The queue after a refresh at `now`: the store's due jobs, then the jobs that waited and
/// are not due by their own record, which are those that were asked for by hand.
pub open spec fn refreshed(queue: Seq<Job>, jobs: Seq<Job>, now: Instant) -> Seq<Job> {
    let kept = queue.filter(not_due(now));
    additions(jobs, kept, now) + kept
}

impl View for Scheduler {
    type V = SchedulerView;

    open spec fn view(&self) -> SchedulerView {
        SchedulerView {
            queue: self.queue@,
            current_job: text_of(self.current_job),
            run_seen: text_of(self.run_seen),
            last_tick: self.last_tick,
        }
    }
}

impl SchedulerView {
    /// Whether the run that the scheduler tracks has ended, as far as the store shows: the
    /// job has a new run on record, or is no longer in the store.
    pub open spec fn run_ended(self, jobs: Seq<Job>) -> bool {
        match self.current_job {
            Some(id) => match lookup(jobs, id) {
                Some(job) => recorded_since(self.run_seen, job@.last_run_at),
                None => true,
            },
            None => false,
        }
    }

    /// Whether a job still runs once the store has been looked at.
    pub open spec fn busy(self, jobs: Seq<Job>) -> bool {
        self.current_job is Some && !self.run_ended(jobs)
    }

    /// What the store says of the last run of the job that is about to start.
    pub open spec fn seen_at_start(job: Job, jobs: Seq<Job>) -> Option<Seq<char>> {
        match lookup(jobs, job.id@) {
            Some(on_record) => on_record@.last_run_at,
            None => job@.last_run_at,
        }
    }

    /// What a tick at `now` asks of its caller.
    pub open spec fn action(self, jobs: Seq<Job>, now: Instant) -> TickAction {
        let queue = refreshed(self.queue, jobs, now);
        if self.busy(jobs) || queue.len() == 0 {
            TickAction::Idle
        } else if ran_within(queue[0]@, now, DEDUP_WINDOW_SECONDS as int) {
            TickAction::Skipped(queue[0])
        } else {
            TickAction::Dispatch(queue[0])
        }
    }

    /// The state after a tick at `now`.
    pub open spec fn after_tick(self, jobs: Seq<Job>, now: Instant) -> SchedulerView {
        let queue = refreshed(self.queue, jobs, now);
        let last_tick = Some(now);
        if self.busy(jobs) {
            SchedulerView { queue, last_tick, ..self }
        } else if queue.len() == 0 {
            SchedulerView { queue, current_job: None, run_seen: None, last_tick }
        } else if ran_within(queue[0]@, now, DEDUP_WINDOW_SECONDS as int) {
            SchedulerView {
                queue: queue.drop_first(),
                current_job: None,
                run_seen: None,
                last_tick,
            }
        } else {
            SchedulerView {
                queue: queue.drop_first(),
                current_job: Some(queue[0].id@),
                run_seen: Self::seen_at_start(queue[0], jobs),
                last_tick,
            }
        }
    }
}

/// Every job that joins the queue at a refresh is enabled and due, waits under no other
/// place of the queue, and joins once.
pub proof fn lemma_additions_are_due_and_new(jobs: Seq<Job>, kept: Seq<Job>, now: Instant)
    ensures
        additions(jobs, kept, now).len() <= jobs.len(),
        forall|k: int|
            0 <= k < additions(jobs, kept, now).len() ==> {
                let job = #[trigger] additions(jobs, kept, now)[k];
                &&& job.enabled
                &&& job@.due_at(now)
                &&& jobs.contains(job)
                &&& absent(kept, job.id@)
            },
        forall|a: int, b: int|
            0 <= a < b < additions(jobs, kept, now).len() ==> (#[trigger] additions(
                jobs,
                kept,
                now,
            )[a]).id@ != (#[trigger] additions(jobs, kept, now)[b]).id@,
    decreases jobs.len(),
{
    if jobs.len() > 0 {
        let front = jobs.drop_last();
        let earlier = additions(front, kept, now);
        lemma_additions_are_due_and_new(front, kept, now);
        let all = additions(jobs, kept, now);
        lemma_absent_in_both(kept, earlier, jobs.last().id@);
        assert forall|k: int| 0 <= k < all.len() implies {
            let job = #[trigger] all[k];
            &&& job.enabled
            &&& job@.due_at(now)
            &&& jobs.contains(job)
            &&& absent(kept, job.id@)
        } by {
            if k < earlier.len() {
                assert(all[k] == earlier[k]);
                let at = choose|at: int| 0 <= at < front.len() && front[at] == earlier[k];
                assert(jobs[at] == earlier[k]);
            } else {
                assert(all[k] == jobs.last());
                assert(jobs[jobs.len() - 1] == jobs.last());
            }
        }
        assert forall|a: int, b: int| 0 <= a < b < all.len() implies (#[trigger] all[a]).id@ != (
        #[trigger] all[b]).id@ by {
            if b < earlier.len() {
                assert(all[a] == earlier[a] && all[b] == earlier[b]);
            } else {
                assert(all[a] == earlier[a]);
            }
        }
    }
}

/// The scheduler holds copies and changes none: every job that waits after a refresh is a
/// job of the store as it is, or a job that waited before as it was.
pub proof fn lemma_refresh_changes_no_job(queue: Seq<Job>, jobs: Seq<Job>, now: Instant)
    ensures
        forall|k: int|
            0 <= k < refreshed(queue, jobs, now).len() ==> {
                let job = #[trigger] refreshed(queue, jobs, now)[k];
                jobs.contains(job) || queue.contains(job)
            },
{
    let kept = queue.filter(not_due(now));
    let added = additions(jobs, kept, now);
    lemma_additions_are_due_and_new(jobs, kept, now);
    assert forall|k: int| 0 <= k < refreshed(queue, jobs, now).len() implies {
        let job = #[trigger] refreshed(queue, jobs, now)[k];
        jobs.contains(job) || queue.contains(job)
    } by {
        if k < added.len() {
            assert(refreshed(queue, jobs, now)[k] == added[k]);
        } else {
            let job = kept[k - added.len()];
            assert(refreshed(queue, jobs, now)[k] == job);
            assert(kept.contains(job));
            queue.lemma_filter_contains_rev(not_due(now), job);
        }
    }
}

/// At most one job runs at a time. A tick hands out a job only where no job runs once the
/// store has been looked at; while a job runs, every tick leaves the marker on it and
/// hands out nothing. The job that is handed out is the one that the marker names.
pub proof fn lemma_single_flight(state: SchedulerView, jobs: Seq<Job>, now: Instant)
    ensures
        state.action(jobs, now) is Dispatch ==> !state.busy(jobs),
        state.busy(jobs) ==> state.action(jobs, now) is Idle && state.after_tick(
            jobs,
            now,
        ).current_job == state.current_job,
        state.action(jobs, now) matches TickAction::Dispatch(job) ==> state.after_tick(
            jobs,
            now,
        ).current_job == Some(job.id@),
        !(state.action(jobs, now) is Dispatch) && !state.busy(jobs) ==> state.after_tick(
            jobs,
            now,
        ).current_job is None,
{
}

/// A job whose last run ended well is not run again within two minutes: the guard holds
/// it back at every moment less than 120 seconds after that run, and at no later one.
pub proof fn lemma_guard_window(job: JobView, ended: Instant, now: Instant)
    requires
        job.last_run() == Some(ended),
        job.last_error is None,
    ensures
        ran_within(job, now, DEDUP_WINDOW_SECONDS as int) <==> now.as_nanos() - ended.as_nanos()
            < 120_000_000_000,
{
}

/// Whether the job's own record says a run is due at `now`.
pub fn is_due(job: &Job, now: Instant) -> (r: bool)
    ensures
        r == job@.due_at(now),
{
    match &job.next_run_at {
        Some(text) => match Instant::parse_rfc3339(text.as_str()) {
            Some(at) => !now.is_before(&at),
            None => false,
        },
        None => false,
    }
}

/// The guard against running a job twice in a row: whether its last run ended well and less
/// than two minutes before `now`. A last run in the future counts as a moment ago.
pub fn ran_recently(job: &Job, now: Instant) -> (r: bool)
    ensures
        r == ran_within(job@, now, DEDUP_WINDOW_SECONDS as int),
{
    if job.last_error.is_some() {
        return false;
    }
    match &job.last_run_at {
        Some(text) => match Instant::parse_rfc3339(text.as_str()) {
            Some(at) => {
                let seconds: i128 = now.secs as i128 - at.secs as i128;
                let nanos: i128 = now.nanos as i128 - at.nanos as i128;
                let window: i128 = DEDUP_WINDOW_SECONDS as i128;
                seconds * 1_000_000_000 + nanos < window * 1_000_000_000
            },
            None => false,
        },
        None => false,
    }
}

/// Whether two records of a last run differ in a way that shows a new run.
pub fn has_recorded_since(seen: &Option<String>, on_record: &Option<String>) -> (r: bool)
    ensures
        r == recorded_since(text_of(*seen), text_of(*on_record)),
{
    match on_record {
        Some(new) => match seen {
            Some(old) => !same_text(old.as_str(), new.as_str()),
            None => true,
        },
        None => false,
    }
}

/// The jobs of a queue that are not due at `now` by their own record, in their order.
fn keep_not_due(queue: &VecDeque<Job>, now: Instant) -> (kept: VecDeque<Job>)
    ensures
        kept@ == queue@.filter(not_due(now)),
{
    let mut kept: VecDeque<Job> = VecDeque::new();
    let mut i: usize = 0;
    while i < queue.len()
        invariant
            i <= queue.len(),
            kept@ == queue@.take(i as int).filter(not_due(now)),
        decreases queue.len() - i,
    {
        proof {
            let job = queue@[i as int];
            assert(queue@.take(i + 1) =~= queue@.take(i as int).push(job));
            queue@.take(i as int).lemma_filter_push(job, not_due(now));
        }
        if !is_due(&queue[i], now) {
            kept.push_back(queue[i].clone());
        }
        i += 1;
    }
    proof {
        assert(queue@.take(i as int) =~= queue@);
    }
    kept
}

/// No job of a sequence made of two parts has an id exactly when no job of either part has.
pub proof fn lemma_absent_in_both(a: Seq<Job>, b: Seq<Job>, id: Seq<char>)
    ensures
        absent(a + b, id) <==> absent(a, id) && absent(b, id),
{
    if absent(a + b, id) {
        assert forall|k: int| 0 <= k < a.len() implies (#[trigger] a[k]).id@ != id by {
            assert((a + b)[k] == a[k]);
        }
        assert forall|k: int| 0 <= k < b.len() implies (#[trigger] b[k]).id@ != id by {
            assert((a + b)[a.len() + k] == b[k]);
        }
    }
}

/// Whether a job with the id waits in the queue.
fn waits(queue: &VecDeque<Job>, id: &str) -> (r: bool)
    ensures
        r == !absent(queue@, id@),
{
    let mut i: usize = 0;
    while i < queue.len()
        invariant
            i <= queue.len(),
            forall|k: int| 0 <= k < i ==> (#[trigger] queue@[k]).id@ != id@,
        decreases queue.len() - i,
    {
        if same_text(queue[i].id.as_str(), id) {
            return true;
        }
        i += 1;
    }
    false
}

/// The jobs of the store that join the queue at `now`, where `kept` wait already.
fn collect_additions(jobs: &Vec<Job>, kept: &VecDeque<Job>, now: Instant) -> (added: VecDeque<
    Job,
>)
    ensures
        added@ == additions(jobs@, kept@, now),
{
    let mut added: VecDeque<Job> = VecDeque::new();
    let mut i: usize = 0;
    while i < jobs.len()
        invariant
            i <= jobs.len(),
            added@ == additions(jobs@.take(i as int), kept@, now),
        decreases jobs.len() - i,
    {
        let job = &jobs[i];
        proof {
            assert(jobs@.take(i + 1).drop_last() =~= jobs@.take(i as int));
            lemma_absent_in_both(kept@, added@, job.id@);
        }
        if job.enabled && is_due(job, now) && !waits(kept, job.id.as_str()) && !waits(
            &added,
            job.id.as_str(),
        ) {
            added.push_back(job.clone());
        }
        i += 1;
    }
    proof {
        assert(jobs@.take(i as int) =~= jobs@);
    }
    added
}

impl Scheduler {
    /// A scheduler at rest: nothing waits, nothing runs, no tick has come.
    pub fn new() -> (r: Scheduler)
        ensures
            r@.queue.len() == 0,
            r@.current_job is None,
            r@.run_seen is None,
            r@.last_tick is None,
    {
        Scheduler { queue: VecDeque::new(), current_job: None, run_seen: None, last_tick: None }
    }

    /// Brings the queue up to date at `now`. The waiting jobs that are due by their own record
    /// leave; the store's enabled, due jobs come in, each once and none whose id still waits;
    /// behind them stand the jobs that stayed, which were asked for by hand.
    pub fn refresh_jobs_at(&mut self, app_data: &AppData, now: Instant)
        ensures
            final(self)@ == (SchedulerView {
                queue: refreshed(old(self)@.queue, app_data.jobs@, now),
                ..old(self)@
            }),
    {
        let mut kept = keep_not_due(&self.queue, now);
        let mut queue = collect_additions(&app_data.jobs, &kept, now);
        queue.append(&mut kept);
        self.queue = queue;
    }

    /// Brings the queue up to date at the system clock's time.
    pub fn refresh_jobs(&mut self, app_data: &AppData)
        ensures
            exists|now: Instant|
                now.since_epoch() && final(self)@ == (SchedulerView {
                    queue: #[trigger] refreshed(old(self)@.queue, app_data.jobs@, now),
                    ..old(self)@
                }),
    {
        self.refresh_jobs_at(app_data, utc_now());
    }

    /// One tick at `now`. The scheduler looks into the store to learn whether the job it
    /// started has ended, refreshes the queue, and, if no job runs and one waits, takes the
    /// first from the queue: it drops that job if it ran well within the last two minutes,
    /// and otherwise marks it as running and hands it out to be run.
    pub fn tick_at(&mut self, app_data: &AppData, now: Instant) -> (action: TickAction)
        ensures
            final(self)@ == old(self)@.after_tick(app_data.jobs@, now),
            action == old(self)@.action(app_data.jobs@, now),
            action is Dispatch ==> !old(self)@.busy(app_data.jobs@) && final(self)@.current_job
                is Some,
            old(self)@.busy(app_data.jobs@) ==> action is Idle && final(self)@.current_job == old(
                self,
            )@.current_job,
    {
        self.last_tick = Some(now);
        let ended = match &self.current_job {
            Some(id) => match app_data.get_job(id.as_str()) {
                Some(job) => has_recorded_since(&self.run_seen, &job.last_run_at),
                None => true,
            },
            None => false,
        };
        if ended || self.current_job.is_none() {
            self.current_job = None;
            self.run_seen = None;
        }
        self.refresh_jobs_at(app_data, now);
        if self.current_job.is_some() {
            return TickAction::Idle;
        }
        let job = match self.queue.pop_front() {
            Some(job) => job,
            None => {
                return TickAction::Idle;
            },
        };
        assert(self.queue@ =~= old(self)@.after_tick(app_data.jobs@, now).queue);
        if ran_recently(&job, now) {
            return TickAction::Skipped(job);
        }
        self.run_seen = match app_data.get_job(job.id.as_str()) {
            Some(on_record) => on_record.last_run_at,
            None => job.last_run_at.clone(),
        };
        self.current_job = Some(job.id.clone());
        TickAction::Dispatch(job)
    }

    /// One tick at the system clock's time: what `tick_at` does at that time.
    pub fn tick(&mut self, app_data: &AppData) -> (action: TickAction)
        ensures
            exists|now: Instant|
                {
                    &&& now.since_epoch()
                    &&& final(self)@ == #[trigger] old(self)@.after_tick(app_data.jobs@, now)
                    &&& action == old(self)@.action(app_data.jobs@, now)
                },
            final(self)@.last_tick is Some,
            action is Dispatch ==> !old(self)@.busy(app_data.jobs@) && final(self)@.current_job
                is Some,
            old(self)@.busy(app_data.jobs@) ==> action is Idle && final(self)@.current_job == old(
                self,
            )@.current_job,
    {
        self.tick_at(app_data, utc_now())
    }

    /// Takes the marker off the job with the id, if that is the job that runs. Returns
    /// whether it was. This is how the end of a run is told to the scheduler at once; a run
    /// whose end is not told is found by the next tick in the store.
    pub fn finish_run(&mut self, job_id: &str) -> (was_running: bool)
        ensures
            was_running == (old(self)@.current_job == Some(job_id@)),
            final(self)@ == if was_running {
                SchedulerView { current_job: None, run_seen: None, ..old(self)@ }
            } else {
                old(self)@
            },
    {
        let was_running = match &self.current_job {
            Some(id) => same_text(id.as_str(), job_id),
            None => false,
        };
        if was_running {
            self.current_job = None;
            self.run_seen = None;
        }
        was_running
    }

    /// Puts a job at the end of the queue, whether it is due or not.
    pub fn enqueue_job(&mut self, job: Job)
        ensures
            final(self)@ == (SchedulerView { queue: old(self)@.queue.push(job), ..old(self)@ }),
    {
        self.queue.push_back(job);
    }

    /// What the scheduler shows of itself: whether a job runs and which, how many wait, and
    /// when the last tick came. The time of a tick outside the calendar cannot be written
    /// and is left out.
    pub fn get_status(&self) -> (r: Status)
        ensures
            r.running == (self@.current_job is Some),
            r.queue_size == self@.queue.len(),
            text_of(r.current_job) == self@.current_job,
            text_of(r.last_tick) == match self@.last_tick {
                Some(at) => if at.in_calendar() {
                    Some(at.rfc3339())
                } else {
                    None
                },
                None => None,
            },
    {
        let last_tick = match self.last_tick {
            Some(at) => if at.is_in_calendar() {
                Some(at.to_rfc3339())
            } else {
                None
            },
            None => None,
        };
        Status {
            running: self.current_job.is_some(),
            queue_size: self.queue.len(),
            current_job: self.current_job.clone(),
            last_tick,
        }
    }
}

} // verus!
