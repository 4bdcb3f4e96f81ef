//! One run of a job: where it writes, and how it goes on after each step.

use crate::clock::{utc_now, Instant};
use crate::job::Job;
use crate::map::GameMap;
use crate::text::{appended, has_part, lowercase_of, str_contains, to_lowercase};
use crate::validation::{join, joined};
use vstd::prelude::*;

verus! {

/// What an archive's file name ends in.
pub const ARCHIVE_SUFFIX: &'static str = ".zip";

/// What is added to an archive's path while the archive is written.
pub const TEMP_SUFFIX: &'static str = ".tmp";

/// Why a step of a backup failed, as text.
#[derive(Debug)]
pub struct Failure {
    /// What the error says of itself.
    pub message: String,
    /// The chain of errors: the error itself, then what caused it, and so on.
    pub chain: Vec<String>,
}

/// Where one run of a job writes its archive.
#[derive(Debug)]
pub struct BackupTarget {
    /// The name of the archive's file.
    pub file_name: String,
    /// Where the archive lies once it is complete.
    pub backup_path: String,
    /// Where the archive is written before it is complete.
    pub temp_path: String,
    pub saves_dir: String,
    pub config_dir: String,
    pub plugins_dir: String,
}

/// Whether an error's own text, in lower case, speaks of a full disk.
pub open spec fn names_full_disk(lowered: Seq<char>) -> bool {
    ||| has_part(lowered, "no space"@)
    ||| has_part(lowered, "disk full"@)
    ||| has_part(lowered, "not enough space"@)
    ||| has_part(lowered, "insufficient"@)
    ||| has_part(lowered, "error 112"@)
    ||| has_part(lowered, "error code: 112"@)
}

/// Whether the text of an error in the chain, in lower case, speaks of a full disk: by one
/// of the words that tell in an error's own text, or by the bare code 112.
pub open spec fn cause_names_full_disk(lowered: Seq<char>) -> bool {
    names_full_disk(lowered) || has_part(lowered, "112"@)
}

/// Whether a failure counts as a full disk: its own text says so, or one of the errors in its
/// chain does. This goes by the words of the errors and is a guess, not a proof.
pub open spec fn is_full_disk(message: Seq<char>, chain: Seq<String>) -> bool {
    names_full_disk(lowercase_of(message)) || exists|k: int|
        0 <= k < chain.len() && cause_names_full_disk(lowercase_of(#[trigger] chain[k]@))
}

/// Whether an error's own text, already in lower case, speaks of a full disk.
pub fn text_names_full_disk(lowered: &str) -> (r: bool)
    ensures
        r == names_full_disk(lowered@),
{
    str_contains(lowered, "no space") || str_contains(lowered, "disk full") || str_contains(
        lowered,
        "not enough space",
    ) || str_contains(lowered, "insufficient") || str_contains(lowered, "error 112")
        || str_contains(lowered, "error code: 112")
}

/// Whether the text of a cause, already in lower case, speaks of a full disk.
pub fn cause_text_names_full_disk(lowered: &str) -> (r: bool)
    ensures
        r == cause_names_full_disk(lowered@),
{
    text_names_full_disk(lowered) || str_contains(lowered, "112")
}

/// Whether a failure counts as a full disk.
pub fn is_disk_full_error(message: &str, chain: &Vec<String>) -> (r: bool)
    ensures
        r == is_full_disk(message@, chain@),
{
    let lowered = to_lowercase(message);
    if text_names_full_disk(lowered.as_str()) {
        return true;
    }
    let mut i: usize = 0;
    while i < chain.len()
        invariant
            i <= chain.len(),
            !names_full_disk(lowercase_of(message@)),
            forall|k: int|
                0 <= k < i ==> !cause_names_full_disk(lowercase_of(#[trigger] chain@[k]@)),
        decreases chain.len() - i,
    {
        let cause = to_lowercase(chain[i].as_str());
        if cause_text_names_full_disk(cause.as_str()) {
            return true;
        }
        i += 1;
    }
    false
}

/// The name of the archive that a job's run at `now` writes: the job's name, the time, `.zip`.
pub open spec fn archive_name(job_name: Seq<char>, now: Instant) -> Seq<char> {
    job_name + "_"@ + now.file_stamp() + ARCHIVE_SUFFIX@
}

/// The name of the archive that a job's run at `now` writes.
pub fn archive_file_name(job_name: &str, now: Instant) -> (r: String)
    requires
        now.in_calendar(),
    ensures
        r@ == archive_name(job_name@, now),
{
    let stamp = now.to_file_stamp();
    let a = appended(job_name, "_");
    let b = appended(a.as_str(), stamp.as_str());
    appended(b.as_str(), ARCHIVE_SUFFIX)
}

impl BackupTarget {
    /// Whether this is where a run of `job` on `map` at `now` reads and writes: the archive
    /// bears the job's name and the time, lies in the job's destination directory, and is
    /// written beside its final place; the three directories lie below the job's root.
    pub open spec fn is_for(self, job: Job, map: GameMap, now: Instant) -> bool {
        &&& self.file_name@ == archive_name(job.name@, now)
        &&& self.backup_path@ == joined(job.destination_dir@, self.file_name@)
        &&& self.temp_path@ == self.backup_path@ + TEMP_SUFFIX@
        &&& self.saves_dir@ == crate::validation::saves_dir_of(
            job.root_dir@,
            map.spec_folder_name(),
        )
        &&& self.config_dir@ == crate::validation::config_dir_of(job.root_dir@)
        &&& self.plugins_dir@ == crate::validation::plugins_dir_of(job.root_dir@)
    }

    /// Where a job's run at `now` reads and writes. `None` where the job's map is unknown.
    pub fn prepare_at(job: &Job, now: Instant) -> (r: Option<BackupTarget>)
        requires
            now.in_calendar(),
        ensures
            match GameMap::spec_from_str(job.map@) {
                Some(map) => r matches Some(target) && target.is_for(*job, map, now),
                None => r is None,
            },
    {
        let map = match job.get_map() {
            Some(map) => map,
            None => {
                return None;
            },
        };
        let root = job.root_dir.as_str();
        let file_name = archive_file_name(job.name.as_str(), now);
        let backup_path = join(job.destination_dir.as_str(), file_name.as_str());
        let temp_path = appended(backup_path.as_str(), TEMP_SUFFIX);
        Some(
            BackupTarget {
                file_name,
                backup_path,
                temp_path,
                saves_dir: crate::validation::derive_saves_dir(root, map.folder_name()),
                config_dir: crate::validation::derive_config_dir(root),
                plugins_dir: crate::validation::derive_plugins_dir(root),
            },
        )
    }

    /// Where a job's run reads and writes, by the system clock: what `prepare_at` gives at
    /// the clock's time. `None` exactly where the job's map is unknown or the clock's time
    /// lies outside the calendar, so that no archive could bear it in its name.
    pub fn prepare(job: &Job) -> (r: Option<BackupTarget>)
        ensures
            GameMap::spec_from_str(job.map@) is None ==> r is None,
            exists|now: Instant|
                {
                    &&& now.since_epoch()
                    &&& r is Some <==> #[trigger] now.in_calendar() && GameMap::spec_from_str(
                        job.map@,
                    ) is Some
                    &&& r matches Some(target) ==> target.is_for(
                        *job,
                        GameMap::spec_from_str(job.map@)->0,
                        now,
                    )
                },
    {
        let now = utc_now();
        if now.is_in_calendar() {
            BackupTarget::prepare_at(job, now)
        } else {
            None
        }
    }
}

/// What is said when old archives could not be cleared away before the second attempt.
pub const CLEANUP_FAILED_TEXT: &'static str = "Failed to cleanup old backups";

/// What is said, before the error's own text, when the disk is still full at the second
/// attempt.
pub const STILL_FULL_TEXT: &'static str =
    "Backup failed even after cleaning up old backups. Still insufficient disk space: ";

/// What is said when the steps of a backup are reported out of order.
pub const OUT_OF_ORDER_TEXT: &'static str = "Backup steps were reported out of order";

/// How far one run of a job has come.
#[derive(Clone, Copy, Debug, PartialEq, Eq, Structural)]
pub enum BackupPhase {
    /// The first attempt to build the archive is under way.
    FirstAttempt,
    /// The archive of this size is built; old archives are being cleared away.
    CleanupAfterSuccess(u64),
    /// The first attempt found the disk full; old archives are being cleared away.
    CleanupBeforeRetry,
    /// The second attempt is under way.
    SecondAttempt,
    /// The run is over.
    Done,
}

/// What happened in a run since its last step.
#[derive(Debug)]
pub enum BackupEvent {
    /// The attempt built the archive, of this size.
    Archived(u64),
    /// The attempt failed.
    AttemptFailed(Failure),
    /// The old archives are cleared away.
    CleanedUp,
    /// Clearing away old archives failed.
    CleanupFailed(Failure),
}

/// What a run does next.
#[derive(Debug)]
pub enum BackupStep {
    /// Build the archive.
    Attempt,
    /// Clear away the archives that are older than the job keeps them.
    CleanUp,
    /// Stop. The run ends with the archive's size, or with an error's text.
    Finish(Result<u64, String>),
}

/// A step as plain values.
pub enum BackupStepView {
    Attempt,
    CleanUp,
    Finish(Result<u64, Seq<char>>),
}

impl View for BackupStep {
    type V = BackupStepView;

    open spec fn view(&self) -> BackupStepView {
        match self {
            BackupStep::Attempt => BackupStepView::Attempt,
            BackupStep::CleanUp => BackupStepView::CleanUp,
            BackupStep::Finish(Ok(size)) => BackupStepView::Finish(Ok(*size)),
            BackupStep::Finish(Err(text)) => BackupStepView::Finish(Err(text@)),
        }
    }
}

impl BackupEvent {
    /// Whether the event is a failure that counts as a full disk.
    pub open spec fn full_disk(self) -> bool {
        match self {
            BackupEvent::AttemptFailed(failure) => is_full_disk(failure.message@, failure.chain@),
            BackupEvent::CleanupFailed(failure) => is_full_disk(failure.message@, failure.chain@),
            _ => false,
        }
    }
}

impl BackupPhase {
    /// How many steps a run in this phase has behind it, at least. No run goes back.
    pub open spec fn rank(self) -> nat {
        match self {
            BackupPhase::FirstAttempt => 0,
            BackupPhase::CleanupAfterSuccess(_) => 1,
            BackupPhase::CleanupBeforeRetry => 1,
            BackupPhase::SecondAttempt => 2,
            BackupPhase::Done => 3,
        }
    }

    /// The phase that follows an event.
    pub open spec fn after(self, event: BackupEvent) -> BackupPhase {
        match (self, event) {
            (BackupPhase::FirstAttempt, BackupEvent::Archived(size)) => {
                BackupPhase::CleanupAfterSuccess(size)
            },
            (BackupPhase::FirstAttempt, BackupEvent::AttemptFailed(_)) => if event.full_disk() {
                BackupPhase::CleanupBeforeRetry
            } else {
                BackupPhase::Done
            },
            (BackupPhase::CleanupBeforeRetry, BackupEvent::CleanedUp) => BackupPhase::SecondAttempt,
            _ => BackupPhase::Done,
        }
    }

    /// The step that follows an event.
    pub open spec fn step(self, event: BackupEvent) -> BackupStepView {
        match (self, event) {
            (BackupPhase::FirstAttempt, BackupEvent::Archived(_)) => BackupStepView::CleanUp,
            (BackupPhase::FirstAttempt, BackupEvent::AttemptFailed(failure)) => {
                if event.full_disk() {
                    BackupStepView::CleanUp
                } else {
                    BackupStepView::Finish(Err(failure.message@))
                }
            },
            (BackupPhase::CleanupAfterSuccess(size), BackupEvent::CleanedUp) => {
                BackupStepView::Finish(Ok(size))
            },
            (BackupPhase::CleanupAfterSuccess(_), BackupEvent::CleanupFailed(failure)) => {
                BackupStepView::Finish(Err(failure.message@))
            },
            (BackupPhase::CleanupBeforeRetry, BackupEvent::CleanedUp) => BackupStepView::Attempt,
            (BackupPhase::CleanupBeforeRetry, BackupEvent::CleanupFailed(_)) => {
                BackupStepView::Finish(Err(CLEANUP_FAILED_TEXT@))
            },
            (BackupPhase::SecondAttempt, BackupEvent::Archived(size)) => BackupStepView::Finish(
                Ok(size),
            ),
            (BackupPhase::SecondAttempt, BackupEvent::AttemptFailed(failure)) => {
                if event.full_disk() {
                    BackupStepView::Finish(Err(STILL_FULL_TEXT@ + failure.message@))
                } else {
                    BackupStepView::Finish(Err(failure.message@))
                }
            },
            _ => BackupStepView::Finish(Err(OUT_OF_ORDER_TEXT@)),
        }
    }

    /// The phase in which every run starts; its first step is an attempt.
    pub fn start() -> (r: BackupPhase)
        ensures
            r == BackupPhase::FirstAttempt,
    {
        BackupPhase::FirstAttempt
    }

    /// Takes in what happened and says how the run goes on. A good first attempt is followed
    /// by clearing away old archives. A first attempt that found the disk full is followed by
    /// the same and then by one more attempt, the last. Any other failure ends the run.
    pub fn advance(&mut self, event: BackupEvent) -> (step: BackupStep)
        ensures
            *final(self) == old(self).after(event),
            step@ == old(self).step(event),
    {
        let phase = *self;
        match (phase, event) {
            (BackupPhase::FirstAttempt, BackupEvent::Archived(size)) => {
                *self = BackupPhase::CleanupAfterSuccess(size);
                BackupStep::CleanUp
            },
            (BackupPhase::FirstAttempt, BackupEvent::AttemptFailed(failure)) => {
                if is_disk_full_error(failure.message.as_str(), &failure.chain) {
                    *self = BackupPhase::CleanupBeforeRetry;
                    BackupStep::CleanUp
                } else {
                    *self = BackupPhase::Done;
                    BackupStep::Finish(Err(failure.message))
                }
            },
            (BackupPhase::CleanupAfterSuccess(size), BackupEvent::CleanedUp) => {
                *self = BackupPhase::Done;
                BackupStep::Finish(Ok(size))
            },
            (BackupPhase::CleanupAfterSuccess(_), BackupEvent::CleanupFailed(failure)) => {
                *self = BackupPhase::Done;
                BackupStep::Finish(Err(failure.message))
            },
            (BackupPhase::CleanupBeforeRetry, BackupEvent::CleanedUp) => {
                *self = BackupPhase::SecondAttempt;
                BackupStep::Attempt
            },
            (BackupPhase::CleanupBeforeRetry, BackupEvent::CleanupFailed(_)) => {
                *self = BackupPhase::Done;
                BackupStep::Finish(Err(CLEANUP_FAILED_TEXT.to_owned()))
            },
            (BackupPhase::SecondAttempt, BackupEvent::Archived(size)) => {
                *self = BackupPhase::Done;
                BackupStep::Finish(Ok(size))
            },
            (BackupPhase::SecondAttempt, BackupEvent::AttemptFailed(failure)) => {
                *self = BackupPhase::Done;
                if is_disk_full_error(failure.message.as_str(), &failure.chain) {
                    BackupStep::Finish(Err(appended(STILL_FULL_TEXT, failure.message.as_str())))
                } else {
                    BackupStep::Finish(Err(failure.message))
                }
            },
            _ => {
                *self = BackupPhase::Done;
                BackupStep::Finish(Err(OUT_OF_ORDER_TEXT.to_owned()))
            },
        }
    }
}

/// Every event moves a run forward, so a run ends after three events at most. A run is told
/// to attempt again once at most: only after it cleared away old archives because the first
/// attempt found the disk full. Once over, a run stays over.
pub proof fn lemma_one_retry_at_most(phase: BackupPhase, event: BackupEvent)
    ensures
        phase != BackupPhase::Done ==> phase.after(event).rank() > phase.rank(),
        phase.step(event) is Attempt ==> phase == BackupPhase::CleanupBeforeRetry && phase.after(
            event,
        ) == BackupPhase::SecondAttempt,
        phase.after(event) == BackupPhase::Done <==> phase.step(event) is Finish,
        phase == BackupPhase::Done ==> phase.after(event) == BackupPhase::Done,
{
}

/// Old archives are cleared away after every good first attempt, before the run ends, and
/// before the one second attempt. A good second attempt ends the run at once.
pub proof fn lemma_cleanup_follows_success(phase: BackupPhase, event: BackupEvent)
    ensures
        phase == BackupPhase::FirstAttempt && event is Archived ==> phase.step(event) is CleanUp,
        phase == BackupPhase::FirstAttempt && event is AttemptFailed && event.full_disk()
            ==> phase.step(event) is CleanUp,
        phase == BackupPhase::SecondAttempt ==> (event matches BackupEvent::Archived(size)
            ==> phase.step(event) == BackupStepView::Finish(Ok(size))),
        phase.step(event) is CleanUp ==> phase == BackupPhase::FirstAttempt,
{
}

} // verus!
