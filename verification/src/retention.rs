//! Retention: which archives a job no longer keeps, and how they are deleted.

use crate::clock::{utc_now, Instant};
use crate::text::{appended, has_extension, name_has_extension, texts};
use vstd::prelude::*;

verus! {

/// The extension of an archive's file name.
pub const ARCHIVE_EXTENSION: &'static str = "zip";

/// Seconds in a day.
pub const SECONDS_PER_DAY: i64 = 86_400;

/// A file found in a job's destination directory.
#[derive(Debug)]
pub struct ArchiveFile {
    pub path: String,
    pub file_name: String,
    /// When the file was last changed; `None` where that could not be read.
    pub modified: Option<Instant>,
}

impl Clone for ArchiveFile {
    fn clone(&self) -> (r: ArchiveFile)
        ensures
            r == *self,
    {
        ArchiveFile {
            path: self.path.clone(),
            file_name: self.file_name.clone(),
            modified: self.modified,
        }
    }
}

/// The paths of a sequence of files.
pub open spec fn paths_of(files: Seq<ArchiveFile>) -> Seq<Seq<char>> {
    files.map_values(|f: ArchiveFile| f.path@)
}

/// Whether a file's name is that of an archive.
pub open spec fn is_archive(file: ArchiveFile) -> bool {
    has_extension(file.file_name@, ARCHIVE_EXTENSION@)
}

/// Whether `at` lies more than `days` days before `now`.
pub open spec fn older_than_days(at: Instant, now: Instant, days: u32) -> bool {
    let cutoff = now.secs - days * SECONDS_PER_DAY;
    at.secs < cutoff || (at.secs == cutoff && at.nanos < now.nanos)
}

/// Whether a file is an archive that a job no longer keeps at `now`: it was last changed
/// more than the job's days of retention ago.
pub open spec fn expired(file: ArchiveFile, now: Instant, retention_days: u32) -> bool {
    is_archive(file) && match file.modified {
        Some(at) => older_than_days(at, now, retention_days),
        None => false,
    }
}

/// The test that a file is an expired archive.
pub open spec fn is_expired(now: Instant, retention_days: u32) -> spec_fn(ArchiveFile) -> bool {
    |file: ArchiveFile| expired(file, now, retention_days)
}

/// What retention deletes and what it keeps: a file is on the list of those to delete
/// exactly when it is an archive older than the job keeps archives. An archive that is
/// younger stays, and so does every file that is no archive.
pub proof fn lemma_retention(files: Seq<ArchiveFile>, now: Instant, retention_days: u32, k: int)
    requires
        0 <= k < files.len(),
    ensures
        files.filter(is_expired(now, retention_days)).contains(files[k]) <==> expired(
            files[k],
            now,
            retention_days,
        ),
        files.filter(is_expired(now, retention_days)).len() <= files.len(),
{
    let test = is_expired(now, retention_days);
    let kept = files.filter(test);
    files.lemma_filter_len(test);
    if expired(files[k], now, retention_days) {
        files.lemma_filter_contains(test, k);
    }
    if kept.contains(files[k]) {
        let at = choose|at: int| 0 <= at < kept.len() && kept[at] == files[k];
        files.lemma_filter_pred(test, at);
    }
}

/// Whether `at` lies more than `days` days before `now`.
pub fn is_older_than_days(at: Instant, now: Instant, days: u32) -> (r: bool)
    ensures
        r == older_than_days(at, now, days),
{
    let span: i128 = (days as i128) * 86_400;
    let cutoff: i128 = now.secs as i128 - span;
    (at.secs as i128) < cutoff || (at.secs as i128 == cutoff && at.nanos < now.nanos)
}

/// Whether a file is an archive that a job no longer keeps at `now`.
pub fn is_expired_backup(file: &ArchiveFile, now: Instant, retention_days: u32) -> (r: bool)
    ensures
        r == expired(*file, now, retention_days),
{
    if !name_has_extension(file.file_name.as_str(), ARCHIVE_EXTENSION) {
        return false;
    }
    match file.modified {
        Some(at) => is_older_than_days(at, now, retention_days),
        None => false,
    }
}

/// The archives to delete after a run at `now`, among the files of the job's destination
/// directory: those that are older than the job keeps them, in the order of the listing.
/// Every other file stays.
pub fn cleanup_old_backups_at(files: &Vec<ArchiveFile>, now: Instant, retention_days: u32) -> (r:
    Vec<String>)
    ensures
        texts(r@) == paths_of(files@.filter(is_expired(now, retention_days))),
{
    let mut out: Vec<String> = Vec::new();
    let mut i: usize = 0;
    while i < files.len()
        invariant
            i <= files.len(),
            texts(out@) == paths_of(files@.take(i as int).filter(is_expired(now, retention_days))),
        decreases files.len() - i,
    {
        proof {
            let file = files@[i as int];
            assert(files@.take(i + 1) =~= files@.take(i as int).push(file));
            files@.take(i as int).lemma_filter_push(file, is_expired(now, retention_days));
        }
        if is_expired_backup(&files[i], now, retention_days) {
            out.push(files[i].path.clone());
            proof {
                let kept = files@.take(i as int).filter(is_expired(now, retention_days));
                assert(paths_of(kept.push(files@[i as int])) =~= paths_of(kept).push(
                    files@[i as int].path@,
                ));
            }
        }
        i += 1;
    }
    proof {
        assert(files@.take(i as int) =~= files@);
    }
    out
}

/// The archives to delete after a run that ended just now, by the system clock: those that
/// are older than the job keeps them at the clock's time, in the order of the listing.
pub fn cleanup_old_backups(files: &Vec<ArchiveFile>, retention_days: u32) -> (r: Vec<String>)
    ensures
        exists|now: Instant|
            now.since_epoch() && texts(r@) == paths_of(
                files@.filter(#[trigger] is_expired(now, retention_days)),
            ),
{
    cleanup_old_backups_at(files, utc_now(), retention_days)
}

/// What is said when an archive that a job no longer keeps cannot be deleted, before its
/// path.
pub const DELETE_EXPIRED_FAILED_TEXT: &'static str = "Failed to delete old backup: ";

/// What is said when the deletions of a cleanup are reported out of order.
pub const CLEANUP_OUT_OF_ORDER_TEXT: &'static str = "Cleanup steps were reported out of order";

/// How far a cleanup has come.
#[derive(Clone, Copy, Debug, PartialEq, Eq, Structural)]
pub enum CleanupPhase {
    /// The archive at this place of the list is being deleted.
    Deleting(usize),
    /// The cleanup is over.
    Done,
}

/// What a cleanup does next.
#[derive(Debug)]
pub enum CleanupStep {
    /// Delete the file at `path`.
    Delete { path: String },
    /// Stop. The cleanup ends with the number of archives deleted, or with an error's text.
    Finish(Result<usize, String>),
}

/// A step as plain values.
pub enum CleanupStepView {
    Delete { path: Seq<char> },
    Finish(Result<usize, Seq<char>>),
}

impl View for CleanupStep {
    type V = CleanupStepView;

    open spec fn view(&self) -> CleanupStepView {
        match self {
            CleanupStep::Delete { path } => CleanupStepView::Delete { path: path@ },
            CleanupStep::Finish(Ok(deleted)) => CleanupStepView::Finish(Ok(*deleted)),
            CleanupStep::Finish(Err(text)) => CleanupStepView::Finish(Err(text@)),
        }
    }
}

/// The step of a cleanup once the archives before `at` are deleted: the archive at `at` is
/// deleted next, and the cleanup is over where none is left.
pub open spec fn cleanup_from(expired: Seq<Seq<char>>, at: int) -> CleanupStepView {
    if 0 <= at < expired.len() {
        CleanupStepView::Delete { path: expired[at] }
    } else {
        CleanupStepView::Finish(Ok(expired.len() as usize))
    }
}

/// The phase of a cleanup once the archives before `at` are deleted.
pub open spec fn cleanup_phase_from(expired: Seq<Seq<char>>, at: int) -> CleanupPhase {
    if 0 <= at < expired.len() {
        CleanupPhase::Deleting(at as usize)
    } else {
        CleanupPhase::Done
    }
}

/// The step that follows the report of a deletion: `done` says whether it went well. A
/// deletion that failed ends the cleanup with an error that names the file.
pub open spec fn cleanup_step_after(
    expired: Seq<Seq<char>>,
    phase: CleanupPhase,
    done: bool,
) -> CleanupStepView {
    match phase {
        CleanupPhase::Deleting(at) => if at >= expired.len() {
            CleanupStepView::Finish(Err(CLEANUP_OUT_OF_ORDER_TEXT@))
        } else if !done {
            CleanupStepView::Finish(Err(DELETE_EXPIRED_FAILED_TEXT@ + expired[at as int]))
        } else {
            cleanup_from(expired, at + 1)
        },
        CleanupPhase::Done => CleanupStepView::Finish(Err(CLEANUP_OUT_OF_ORDER_TEXT@)),
    }
}

/// The phase that follows the report of a deletion.
pub open spec fn cleanup_phase_after(
    expired: Seq<Seq<char>>,
    phase: CleanupPhase,
    done: bool,
) -> CleanupPhase {
    match phase {
        CleanupPhase::Deleting(at) => if done && at < expired.len() {
            cleanup_phase_from(expired, at + 1)
        } else {
            CleanupPhase::Done
        },
        CleanupPhase::Done => CleanupPhase::Done,
    }
}

/// Starts a cleanup of the archives that a job no longer keeps: the first of the list is
/// deleted first. Where the list is empty the cleanup is over at once.
pub fn begin_cleanup(expired: &Vec<String>) -> (r: (CleanupPhase, CleanupStep))
    ensures
        r.0 == cleanup_phase_from(texts(expired@), 0),
        r.1@ == cleanup_from(texts(expired@), 0),
{
    if expired.len() == 0 {
        (CleanupPhase::Done, CleanupStep::Finish(Ok(0)))
    } else {
        (CleanupPhase::Deleting(0), CleanupStep::Delete { path: expired[0].clone() })
    }
}

/// Takes in how the last deletion went and says how the cleanup goes on. The archives are
/// deleted in the order of the list. The first deletion that fails ends the cleanup with
/// an error that names the file, and what stands behind it in the list is left alone.
pub fn continue_cleanup(expired: &Vec<String>, phase: &mut CleanupPhase, done: bool) -> (step:
    CleanupStep)
    ensures
        *final(phase) == cleanup_phase_after(texts(expired@), *old(phase), done),
        step@ == cleanup_step_after(texts(expired@), *old(phase), done),
{
    let before = *phase;
    let count = expired.len();
    match before {
        CleanupPhase::Deleting(at) => {
            if at >= count {
                *phase = CleanupPhase::Done;
                CleanupStep::Finish(Err(CLEANUP_OUT_OF_ORDER_TEXT.to_owned()))
            } else if !done {
                *phase = CleanupPhase::Done;
                CleanupStep::Finish(
                    Err(appended(DELETE_EXPIRED_FAILED_TEXT, expired[at].as_str())),
                )
            } else if at + 1 < count {
                *phase = CleanupPhase::Deleting(at + 1);
                CleanupStep::Delete { path: expired[at + 1].clone() }
            } else {
                *phase = CleanupPhase::Done;
                CleanupStep::Finish(Ok(count))
            }
        },
        CleanupPhase::Done => CleanupStep::Finish(Err(CLEANUP_OUT_OF_ORDER_TEXT.to_owned())),
    }
}

/// A deletion that fails ends the cleanup: the step that follows it is the end, with an
/// error that names the file, and no file behind it is deleted. A file is deleted only
/// after the deletion of the file before it went well, and a cleanup that ends well has
/// deleted every file of the list.
pub proof fn lemma_failed_deletion_ends_cleanup(
    expired: Seq<Seq<char>>,
    phase: CleanupPhase,
    done: bool,
)
    requires
        expired.len() <= usize::MAX,
    ensures
        !done ==> cleanup_phase_after(expired, phase, done) == CleanupPhase::Done,
        !done ==> (phase matches CleanupPhase::Deleting(at) && at < expired.len())
            ==> cleanup_step_after(expired, phase, done) == CleanupStepView::Finish(
            Err(DELETE_EXPIRED_FAILED_TEXT@ + expired[phase->Deleting_0 as int]),
        ),
        cleanup_step_after(expired, phase, done) matches CleanupStepView::Delete { path } ==> done
            && (phase matches CleanupPhase::Deleting(at) && at + 1 < expired.len() && path
            == expired[at + 1]),
        cleanup_step_after(expired, phase, done) matches CleanupStepView::Finish(Ok(deleted))
            ==> deleted == expired.len(),
{
}

} // verus!
