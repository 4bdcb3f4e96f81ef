//! Jobs, and the arithmetic of their recurrence.

use crate::clock::{instant_of_text, utc_now, Instant};
use crate::map::GameMap;
use crate::text::same_text;
use uuid::Uuid;
use vstd::prelude::*;

verus! {

/// A recurring backup task: what to save, where to, how often, and how its last run went.
#[derive(Debug)]
pub struct Job {
    pub id: String,
    pub name: String,
    pub root_dir: String,
    pub destination_dir: String,
    /// The identifier of the dataset, kept as text.
    pub map: String,
    pub include_saves: bool,
    pub include_map: bool,
    pub include_server_files: bool,
    pub include_plugin_configs: bool,
    pub interval_value: u32,
    pub interval_unit: String,
    pub retention_days: u32,
    pub enabled: bool,
    /// When the last run ended, as RFC 3339 text.
    pub last_run_at: Option<String>,
    /// When the next run is due, as RFC 3339 text.
    pub next_run_at: Option<String>,
    pub last_file_size: Option<u64>,
    pub last_error: Option<String>,
}

/// What an editor hands in to make or change a job: a job without its history.
#[derive(Debug)]
pub struct JobInput {
    pub id: Option<String>,
    pub name: String,
    pub root_dir: String,
    pub destination_dir: String,
    pub map: String,
    pub include_saves: bool,
    pub include_map: bool,
    pub include_server_files: bool,
    pub include_plugin_configs: bool,
    pub interval_value: u32,
    pub interval_unit: String,
    pub retention_days: u32,
    pub enabled: bool,
}

/// A job as plain values.
pub struct JobView {
    pub id: Seq<char>,
    pub name: Seq<char>,
    pub root_dir: Seq<char>,
    pub destination_dir: Seq<char>,
    pub map: Seq<char>,
    pub include_saves: bool,
    pub include_map: bool,
    pub include_server_files: bool,
    pub include_plugin_configs: bool,
    pub interval_value: u32,
    pub interval_unit: Seq<char>,
    pub retention_days: u32,
    pub enabled: bool,
    pub last_run_at: Option<Seq<char>>,
    pub next_run_at: Option<Seq<char>>,
    pub last_file_size: Option<u64>,
    pub last_error: Option<Seq<char>>,
}

/// The characters of a text that may be absent.
pub open spec fn text_of(t: Option<String>) -> Option<Seq<char>> {
    match t {
        Some(s) => Some(s@),
        None => None,
    }
}

/// Seconds in one unit of recurrence. A unit that is none of the three counts as an hour.
pub open spec fn unit_seconds(unit: Seq<char>) -> int {
    if unit == "minutes"@ {
        60
    } else if unit == "hours"@ {
        3600
    } else if unit == "days"@ {
        86400
    } else {
        3600
    }
}

/// The instant one recurrence after `now`.
pub open spec fn next_run(now: Instant, value: u32, unit: Seq<char>) -> Instant {
    now.later_by(value * unit_seconds(unit))
}

/// Whether a run can be scheduled from `now`: both `now` and the next run lie in the calendar.
pub open spec fn can_schedule(now: Instant, value: u32, unit: Seq<char>) -> bool {
    now.in_calendar() && next_run(now, value, unit).in_calendar()
}

/// Whether a job can be made from an input at `now`: the first run of an enabled job can be
/// scheduled from then. A disabled job can always be made.
pub open spec fn input_fits(input: JobInput, now: Instant) -> bool {
    input.enabled ==> can_schedule(now, input.interval_value, input.interval_unit@)
}

impl View for Job {
    type V = JobView;

    open spec fn view(&self) -> JobView {
        JobView {
            id: self.id@,
            name: self.name@,
            root_dir: self.root_dir@,
            destination_dir: self.destination_dir@,
            map: self.map@,
            include_saves: self.include_saves,
            include_map: self.include_map,
            include_server_files: self.include_server_files,
            include_plugin_configs: self.include_plugin_configs,
            interval_value: self.interval_value,
            interval_unit: self.interval_unit@,
            retention_days: self.retention_days,
            enabled: self.enabled,
            last_run_at: text_of(self.last_run_at),
            next_run_at: text_of(self.next_run_at),
            last_file_size: self.last_file_size,
            last_error: text_of(self.last_error),
        }
    }
}

impl JobView {
    /// A next run is on record exactly for an enabled job.
    pub open spec fn well_formed(self) -> bool {
        self.next_run_at is Some <==> self.enabled
    }

    /// The job made from an input at `now`. `fresh_id` names it where the input brings no id.
    pub open spec fn from_input(input: JobInput, fresh_id: Seq<char>, now: Instant) -> JobView {
        JobView {
            id: match input.id {
                Some(id) => id@,
                None => fresh_id,
            },
            name: input.name@,
            root_dir: input.root_dir@,
            destination_dir: input.destination_dir@,
            map: input.map@,
            include_saves: input.include_saves,
            include_map: input.include_map,
            include_server_files: input.include_server_files,
            include_plugin_configs: input.include_plugin_configs,
            interval_value: input.interval_value,
            interval_unit: input.interval_unit@,
            retention_days: input.retention_days,
            enabled: input.enabled,
            last_run_at: None,
            next_run_at: if input.enabled {
                Some(next_run(now, input.interval_value, input.interval_unit@).rfc3339())
            } else {
                None
            },
            last_file_size: None,
            last_error: None,
        }
    }

    /// The job with its next run counted anew from `now`. A disabled job has no next run:
    /// one that is still on record is taken off.
    pub open spec fn rescheduled(self, now: Instant) -> JobView {
        if self.enabled {
            JobView {
                next_run_at: Some(next_run(now, self.interval_value, self.interval_unit).rfc3339()),
                ..self
            }
        } else {
            JobView { next_run_at: None, ..self }
        }
    }

    /// The job after a run that ended well at `now` with an archive of `file_size` bytes.
    pub open spec fn after_run(self, file_size: u64, now: Instant) -> JobView {
        JobView {
            last_run_at: Some(now.rfc3339()),
            last_file_size: Some(file_size),
            last_error: None,
            ..self
        }.rescheduled(now)
    }

    /// The job after a run that failed at `now`.
    pub open spec fn after_error(self, error: Seq<char>, now: Instant) -> JobView {
        JobView { last_run_at: Some(now.rfc3339()), last_error: Some(error), ..self }.rescheduled(
            now,
        )
    }

    /// Whether the record can be brought up to date at `now`: the time can be written, and so
    /// can the next run where there is one.
    pub open spec fn can_record(self, now: Instant) -> bool {
        now.in_calendar() && (self.enabled ==> can_schedule(
            now,
            self.interval_value,
            self.interval_unit,
        ))
    }

    /// The instant of the last run on record, where it can be read.
    pub open spec fn last_run(self) -> Option<Instant> {
        match self.last_run_at {
            Some(text) => instant_of_text(text),
            None => None,
        }
    }

    /// The instant of the next run on record, where it can be read.
    pub open spec fn next_run(self) -> Option<Instant> {
        match self.next_run_at {
            Some(text) => instant_of_text(text),
            None => None,
        }
    }

    /// Whether the job's own record says a run is due at `now`.
    pub open spec fn due_at(self, now: Instant) -> bool {
        self.next_run() matches Some(at) && !now.precedes(at)
    }
}

impl Clone for JobInput {
    fn clone(&self) -> (r: JobInput)
        ensures
            r == *self,
    {
        JobInput {
            id: self.id.clone(),
            name: self.name.clone(),
            root_dir: self.root_dir.clone(),
            destination_dir: self.destination_dir.clone(),
            map: self.map.clone(),
            include_saves: self.include_saves,
            include_map: self.include_map,
            include_server_files: self.include_server_files,
            include_plugin_configs: self.include_plugin_configs,
            interval_value: self.interval_value,
            interval_unit: self.interval_unit.clone(),
            retention_days: self.retention_days,
            enabled: self.enabled,
        }
    }
}

impl Clone for Job {
    fn clone(&self) -> (r: Job)
        ensures
            r == *self,
    {
        Job {
            id: self.id.clone(),
            name: self.name.clone(),
            root_dir: self.root_dir.clone(),
            destination_dir: self.destination_dir.clone(),
            map: self.map.clone(),
            include_saves: self.include_saves,
            include_map: self.include_map,
            include_server_files: self.include_server_files,
            include_plugin_configs: self.include_plugin_configs,
            interval_value: self.interval_value,
            interval_unit: self.interval_unit.clone(),
            retention_days: self.retention_days,
            enabled: self.enabled,
            last_run_at: self.last_run_at.clone(),
            next_run_at: self.next_run_at.clone(),
            last_file_size: self.last_file_size,
            last_error: self.last_error.clone(),
        }
    }
}

impl Job {
    /// A next run is on record exactly for an enabled job.
    pub open spec fn well_formed(self) -> bool {
        self@.well_formed()
    }

    /// Makes a job from an input at a given time. The job starts without history; its first run
    /// is due one recurrence after `now` if it is enabled, and is not on record otherwise.
    /// `fresh_id` names the job where the input brings no id.
    pub fn from_input_at(input: JobInput, fresh_id: String, now: Instant) -> (job: Job)
        requires
            input.enabled ==> can_schedule(now, input.interval_value, input.interval_unit@),
        ensures
            job@ == JobView::from_input(input, fresh_id@, now),
            job.well_formed(),
            input.enabled ==> job@.next_run() == Some(
                next_run(now, input.interval_value, input.interval_unit@),
            ),
            input.enabled && input.interval_value > 0 ==> !job@.due_at(now),
    {
        let next_run_at = if input.enabled {
            let at = calculate_next_run(now, input.interval_value, input.interval_unit.as_str());
            Some(at.to_rfc3339())
        } else {
            None
        };
        let id = match input.id {
            Some(id) => id,
            None => fresh_id,
        };
        Job {
            id,
            name: input.name,
            root_dir: input.root_dir,
            destination_dir: input.destination_dir,
            map: input.map,
            include_saves: input.include_saves,
            include_map: input.include_map,
            include_server_files: input.include_server_files,
            include_plugin_configs: input.include_plugin_configs,
            interval_value: input.interval_value,
            interval_unit: input.interval_unit,
            retention_days: input.retention_days,
            enabled: input.enabled,
            last_run_at: None,
            next_run_at,
            last_file_size: None,
            last_error: None,
        }
    }

    /// Makes a job from an input now, by the system clock, with a random id where the input
    /// brings none. A job is made exactly where the input fits the clock's time: `None`
    /// where the job is enabled and its first run cannot be scheduled from that time. The
    /// first run of an enabled job lies one recurrence after the clock's time.
    pub fn from_input(input: JobInput) -> (r: Option<Job>)
        ensures
            exists|now: Instant|
                {
                    &&& now.since_epoch()
                    &&& r is Some <==> #[trigger] input_fits(input, now)
                    &&& r matches Some(job) ==> {
                        &&& job@ == JobView::from_input(input, job@.id, now)
                        &&& input.enabled ==> job@.next_run() == Some(
                            next_run(now, input.interval_value, input.interval_unit@),
                        )
                        &&& input.enabled && input.interval_value > 0 ==> !job@.due_at(now)
                    }
                },
            !input.enabled ==> r is Some,
            r matches Some(job) ==> job.well_formed() && (input.id is None ==> job@.id.len()
                == 36),
    {
        let fresh_id = if input.id.is_none() {
            random_id()
        } else {
            String::new()
        };
        let now = if input.enabled {
            utc_now()
        } else {
            Instant { secs: 0, nanos: 0 }
        };
        if fits_input(&input, now) {
            Some(Job::from_input_at(input, fresh_id, now))
        } else {
            None
        }
    }

    /// The dataset that the job names, if it is a known one.
    pub fn get_map(&self) -> (r: Option<GameMap>)
        ensures
            r == GameMap::spec_from_str(self.map@),
    {
        GameMap::from_str(self.map.as_str())
    }

    /// Counts the next run anew from `now`. A disabled job is left without a next run.
    pub fn update_next_run_at(&mut self, now: Instant)
        requires
            old(self).enabled ==> can_schedule(
                now,
                old(self).interval_value,
                old(self).interval_unit@,
            ),
        ensures
            final(self)@ == old(self)@.rescheduled(now),
            final(self).well_formed(),
            final(self).enabled ==> final(self)@.next_run() == Some(
                next_run(now, final(self).interval_value, final(self).interval_unit@),
            ),
            final(self).enabled && final(self).interval_value > 0 ==> !final(self)@.due_at(now),
    {
        if self.enabled {
            let at = calculate_next_run(now, self.interval_value, self.interval_unit.as_str());
            self.next_run_at = Some(at.to_rfc3339());
        } else {
            self.next_run_at = None;
        }
    }

    /// Records a run that ended well at `now`: the time, the archive's size, no error, and the
    /// next run.
    pub fn update_after_run_at(&mut self, file_size: u64, now: Instant)
        requires
            now.in_calendar(),
            old(self).enabled ==> can_schedule(
                now,
                old(self).interval_value,
                old(self).interval_unit@,
            ),
        ensures
            final(self)@ == old(self)@.after_run(file_size, now),
            final(self)@.last_run() == Some(now),
            final(self).well_formed(),
            final(self).enabled ==> final(self)@.next_run() == Some(
                next_run(now, final(self).interval_value, final(self).interval_unit@),
            ),
            final(self).enabled && final(self).interval_value > 0 ==> !final(self)@.due_at(now),
    {
        self.last_run_at = Some(now.to_rfc3339());
        self.last_file_size = Some(file_size);
        self.last_error = None;
        self.update_next_run_at(now);
    }

    /// Records a run that failed at `now`: the time, the error, and the next run, so that a
    /// failing job is tried again on schedule. The size of the last archive stays on record.
    pub fn update_after_error_at(&mut self, error: String, now: Instant)
        requires
            now.in_calendar(),
            old(self).enabled ==> can_schedule(
                now,
                old(self).interval_value,
                old(self).interval_unit@,
            ),
        ensures
            final(self)@ == old(self)@.after_error(error@, now),
            final(self)@.last_run() == Some(now),
            final(self).well_formed(),
            final(self).enabled ==> final(self)@.next_run() == Some(
                next_run(now, final(self).interval_value, final(self).interval_unit@),
            ),
            final(self).enabled && final(self).interval_value > 0 ==> !final(self)@.due_at(now),
    {
        self.last_run_at = Some(now.to_rfc3339());
        self.last_error = Some(error);
        self.update_next_run_at(now);
    }

    /// Whether the record can be brought up to date at `now`: the time can be written, and so
    /// can the next run where there is one.
    pub fn can_record_at(&self, now: Instant) -> (r: bool)
        ensures
            r == self@.can_record(now),
    {
        if self.enabled {
            schedule_fits(now, self.interval_value, self.interval_unit.as_str())
        } else {
            now.is_in_calendar()
        }
    }

    /// Counts the next run anew from the system clock's time. A disabled job is left without
    /// a next run. Returns whether the job is up to date: it is not, and stays as it is,
    /// where the job is enabled and its next run cannot be scheduled from the clock's time.
    pub fn update_next_run(&mut self) -> (applied: bool)
        ensures
            exists|now: Instant|
                {
                    &&& now.since_epoch()
                    &&& applied == (old(self).enabled ==> #[trigger] can_schedule(
                        now,
                        old(self).interval_value,
                        old(self).interval_unit@,
                    ))
                    &&& final(self)@ == if applied {
                        old(self)@.rescheduled(now)
                    } else {
                        old(self)@
                    }
                    &&& applied && old(self).enabled ==> final(self)@.next_run() == Some(
                        next_run(now, old(self).interval_value, old(self).interval_unit@),
                    ) && (old(self).interval_value > 0 ==> !final(self)@.due_at(now))
                },
            !old(self).enabled ==> applied && final(self)@.next_run_at is None,
            !applied ==> *final(self) == *old(self),
            applied ==> final(self).well_formed(),
    {
        if !self.enabled {
            self.next_run_at = None;
            proof {
                let epoch = Instant { secs: 0, nanos: 0 };
                let fits = can_schedule(epoch, old(self).interval_value, old(self).interval_unit@);
                assert(epoch.since_epoch() && (old(self).enabled ==> fits) && self@ == old(
                    self,
                )@.rescheduled(epoch));
            }
            return true;
        }
        let now = utc_now();
        if schedule_fits(now, self.interval_value, self.interval_unit.as_str()) {
            self.update_next_run_at(now);
            true
        } else {
            false
        }
    }

    /// Records a run that ended well just now, by the system clock. Returns whether it did: it
    /// does so exactly where the clock's time can be recorded for the job, and leaves the job
    /// as it is otherwise.
    pub fn update_after_run(&mut self, file_size: u64) -> (applied: bool)
        ensures
            exists|now: Instant|
                {
                    &&& now.since_epoch()
                    &&& applied == #[trigger] old(self)@.can_record(now)
                    &&& final(self)@ == if applied {
                        old(self)@.after_run(file_size, now)
                    } else {
                        old(self)@
                    }
                    &&& applied && old(self).enabled ==> final(self)@.next_run() == Some(
                        next_run(now, old(self).interval_value, old(self).interval_unit@),
                    ) && (old(self).interval_value > 0 ==> !final(self)@.due_at(now))
                    &&& applied ==> final(self)@.last_run() == Some(now)
                },
            !applied ==> *final(self) == *old(self),
            applied ==> final(self).well_formed(),
    {
        let now = utc_now();
        if self.can_record_at(now) {
            self.update_after_run_at(file_size, now);
            true
        } else {
            false
        }
    }

    /// Records a run that failed just now, by the system clock. Returns whether it did: it does
    /// so exactly where the clock's time can be recorded for the job, and leaves the job as it
    /// is otherwise.
    pub fn update_after_error(&mut self, error: String) -> (applied: bool)
        ensures
            exists|now: Instant|
                {
                    &&& now.since_epoch()
                    &&& applied == #[trigger] old(self)@.can_record(now)
                    &&& final(self)@ == if applied {
                        old(self)@.after_error(error@, now)
                    } else {
                        old(self)@
                    }
                    &&& applied && old(self).enabled ==> final(self)@.next_run() == Some(
                        next_run(now, old(self).interval_value, old(self).interval_unit@),
                    ) && (old(self).interval_value > 0 ==> !final(self)@.due_at(now))
                    &&& applied ==> final(self)@.last_run() == Some(now)
                },
            !applied ==> *final(self) == *old(self),
            applied ==> final(self).well_formed(),
    {
        let now = utc_now();
        if self.can_record_at(now) {
            self.update_after_error_at(error, now);
            true
        } else {
            false
        }
    }
}

/// `uuid::Uuid::new_v4`, written out as text: a random identifier. Claimed: the text has the
/// 36 characters of a uuid with its hyphens.
#[verifier::external_body]
pub(crate) fn random_id() -> (r: String)
    ensures
        r@.len() == 36,
{
    Uuid::new_v4().to_string()
}

/// A next run is on record exactly for an enabled job: so it is for a job made from an
/// input, and so it is after every update of a job's record, whatever stood there before.
pub proof fn lemma_next_run_on_record_iff_enabled(
    input: JobInput,
    fresh_id: Seq<char>,
    job: JobView,
    file_size: u64,
    error: Seq<char>,
    now: Instant,
)
    ensures
        JobView::from_input(input, fresh_id, now).well_formed(),
        !input.enabled ==> JobView::from_input(input, fresh_id, now).next_run_at is None,
        input.enabled ==> JobView::from_input(input, fresh_id, now).next_run_at is Some,
        job.rescheduled(now).well_formed(),
        job.after_run(file_size, now).well_formed(),
        job.after_error(error, now).well_formed(),
        job.after_run(file_size, now).last_error is None,
        job.after_error(error, now).last_error == Some(error),
{
}

/// The next run lies one whole recurrence after the moment from which it is counted, to
/// the nanosecond, and so strictly in the future wherever the recurrence is not zero.
pub proof fn lemma_next_run_is_later(now: Instant, value: u32, unit: Seq<char>)
    requires
        now.in_calendar(),
    ensures
        next_run(now, value, unit).as_nanos() - now.as_nanos() == value * unit_seconds(unit)
            * 1_000_000_000,
        unit == "minutes"@ ==> next_run(now, value, unit).secs == now.secs + value * 60,
        unit == "hours"@ ==> next_run(now, value, unit).secs == now.secs + value * 3600,
        unit == "days"@ ==> next_run(now, value, unit).secs == now.secs + value * 86400,
        value > 0 ==> now.precedes(next_run(now, value, unit)),
        value == 0 ==> next_run(now, value, unit) == now,
{
    reveal_strlit("minutes");
    reveal_strlit("hours");
    reveal_strlit("days");
    assert("minutes"@.len() == 7 && "hours"@.len() == 5 && "days"@.len() == 4);
    let per = unit_seconds(unit);
    assert(0 <= value * per <= 4_294_967_295 * 86_400) by (nonlinear_arith)
        requires
            0 <= value <= 4_294_967_295,
            0 < per <= 86_400,
    ;
    assert(value > 0 ==> value * per > 0) by (nonlinear_arith)
        requires
            0 < per,
            0 <= value,
    ;
}

/// Whether a job can be made from an input at `now`.
pub fn fits_input(input: &JobInput, now: Instant) -> (r: bool)
    ensures
        r == input_fits(*input, now),
{
    if input.enabled {
        schedule_fits(now, input.interval_value, input.interval_unit.as_str())
    } else {
        true
    }
}

/// The number of seconds in one unit of recurrence.
pub fn seconds_per_unit(unit: &str) -> (r: i64)
    ensures
        r == unit_seconds(unit@),
        r == 60 || r == 3600 || r == 86400,
{
    if same_text(unit, "minutes") {
        60
    } else if same_text(unit, "hours") {
        3600
    } else if same_text(unit, "days") {
        86400
    } else {
        3600
    }
}

/// The instant one recurrence after `now`: `value` units later, to the nanosecond.
pub fn calculate_next_run(now: Instant, value: u32, unit: &str) -> (r: Instant)
    requires
        now.in_calendar(),
    ensures
        r == next_run(now, value, unit@),
        r.as_nanos() - now.as_nanos() == value * unit_seconds(unit@) * 1_000_000_000,
        value > 0 ==> now.precedes(r),
{
    let per: i64 = seconds_per_unit(unit);
    let count: i64 = value as i64;
    assert(0 <= count * per <= 4_294_967_295 * 86_400) by (nonlinear_arith)
        requires
            0 <= count <= 4_294_967_295,
            0 < per <= 86_400,
    ;
    assert(value > 0 ==> count * per > 0) by (nonlinear_arith)
        requires
            count == value,
            0 < per,
    ;
    let span: i64 = count * per;
    now.plus_seconds(span)
}

/// Whether a run can be scheduled from `now`.
pub fn schedule_fits(now: Instant, value: u32, unit: &str) -> (r: bool)
    ensures
        r == can_schedule(now, value, unit@),
{
    if now.is_in_calendar() {
        calculate_next_run(now, value, unit).is_in_calendar()
    } else {
        false
    }
}

} // verus!
