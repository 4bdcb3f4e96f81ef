//! Committing an archive to disk: written beside its final place, renamed into it, and
//! checked there.

use crate::archive::{
    archive_error_text, describe_archive_error, listing_of, opens_in, passes, verify_zip_integrity, ArchiveError,
    IntegrityError,
};
use crate::backup::{BackupTarget, Failure};
use crate::text::{appended, texts};
use vstd::prelude::*;

verus! {

/// What is said when the temporary file cannot be written, before its path.
pub const WRITE_FAILED_TEXT: &'static str = "Failed to create backup file: ";

/// What is said when the size of the temporary file cannot be read.
pub const SIZE_FAILED_TEXT: &'static str = "Failed to get backup file metadata";

/// What is said when the temporary file cannot be renamed, before the final path.
pub const RENAME_FAILED_TEXT: &'static str = "Failed to rename temp file to: ";

/// What is said when the archive cannot be read back, before its path.
pub const READ_BACK_FAILED_TEXT: &'static str = "Failed to open ZIP for verification: ";

/// What is said when what was read back does not open as an archive, before its path.
pub const UNREADABLE_TEXT: &'static str = "Failed to read ZIP archive: ";

/// What is said when the archive holds no entry.
pub const EMPTY_TEXT: &'static str = "ZIP archive is empty";

/// What is said when the first entry of the archive cannot be read.
pub const FIRST_ENTRY_TEXT: &'static str = "Failed to read first entry from ZIP";

/// What is said when the steps of a commit are reported out of order.
pub const COMMIT_OUT_OF_ORDER_TEXT: &'static str = "Commit steps were reported out of order";

/// How far the commit of an archive has come.
#[derive(Clone, Copy, Debug, PartialEq, Eq, Structural)]
pub enum CommitPhase {
    /// The archive is being written to the temporary path.
    Writing,
    /// The size of the temporary file is being read.
    Sizing,
    /// The temporary file, of this size, is being renamed to the final path.
    Renaming(u64),
    /// The archive, of this size, is being read back from the final path.
    Checking(u64),
    /// The commit is over.
    Done,
}

/// What happened in a commit since its last step.
#[derive(Debug)]
pub enum CommitEvent {
    /// The archive was written.
    Written,
    /// The file has this size.
    Sized(u64),
    /// The file was renamed.
    Renamed,
    /// These bytes were read back.
    ReadBack(Vec<u8>),
    /// The step failed.
    Failed(Failure),
}

/// What a commit does next.
#[derive(Debug)]
pub enum CommitStep {
    /// Write the bytes of the archive to a new file at `path`.
    WriteTemp { path: String },
    /// Read the size of the file at `path`.
    ReadSize { path: String },
    /// Rename the file `from` to `to`, in one step.
    Rename { from: String, to: String },
    /// Read the file at `path`.
    ReadBack { path: String },
    /// Stop. The commit ends with the archive's size, or with a failure.
    Finish(Result<u64, Failure>),
}

/// A failure as plain values.
pub struct FailureView {
    pub message: Seq<char>,
    pub chain: Seq<Seq<char>>,
}

/// A step as plain values.
pub enum CommitStepView {
    WriteTemp { path: Seq<char> },
    ReadSize { path: Seq<char> },
    Rename { from: Seq<char>, to: Seq<char> },
    ReadBack { path: Seq<char> },
    Finish(Result<u64, FailureView>),
}

impl View for Failure {
    type V = FailureView;

    open spec fn view(&self) -> FailureView {
        FailureView { message: self.message@, chain: texts(self.chain@) }
    }
}

impl View for CommitStep {
    type V = CommitStepView;

    open spec fn view(&self) -> CommitStepView {
        match self {
            CommitStep::WriteTemp { path } => CommitStepView::WriteTemp { path: path@ },
            CommitStep::ReadSize { path } => CommitStepView::ReadSize { path: path@ },
            CommitStep::Rename { from, to } => CommitStepView::Rename { from: from@, to: to@ },
            CommitStep::ReadBack { path } => CommitStepView::ReadBack { path: path@ },
            CommitStep::Finish(Ok(size)) => CommitStepView::Finish(Ok(*size)),
            CommitStep::Finish(Err(failure)) => CommitStepView::Finish(Err(failure@)),
        }
    }
}

impl CommitStepView {
    /// Whether the step reads or writes the file at `path`.
    pub open spec fn touches(self, path: Seq<char>) -> bool {
        match self {
            CommitStepView::WriteTemp { path: p } => p == path,
            CommitStepView::ReadSize { path: p } => p == path,
            CommitStepView::Rename { from, to } => from == path || to == path,
            CommitStepView::ReadBack { path: p } => p == path,
            CommitStepView::Finish(_) => false,
        }
    }
}

/// A failure with a word before it that says what was being done: the word is the new
/// message and stands first in the chain.
pub open spec fn in_context(context: Seq<char>, cause: Seq<Seq<char>>) -> FailureView {
    FailureView { message: context, chain: seq![context] + cause }
}

impl CommitPhase {
    /// How many steps a commit in this phase has behind it. No commit goes back.
    pub open spec fn rank(self) -> nat {
        match self {
            CommitPhase::Writing => 0,
            CommitPhase::Sizing => 1,
            CommitPhase::Renaming(_) => 2,
            CommitPhase::Checking(_) => 3,
            CommitPhase::Done => 4,
        }
    }

    /// The phase that follows an event.
    pub open spec fn after(self, event: CommitEvent) -> CommitPhase {
        match (self, event) {
            (CommitPhase::Writing, CommitEvent::Written) => CommitPhase::Sizing,
            (CommitPhase::Sizing, CommitEvent::Sized(size)) => CommitPhase::Renaming(size),
            (CommitPhase::Renaming(size), CommitEvent::Renamed) => CommitPhase::Checking(size),
            _ => CommitPhase::Done,
        }
    }

    /// What is said of a step that failed in this phase.
    pub open spec fn context(self, target: BackupTarget) -> Seq<char> {
        match self {
            CommitPhase::Writing => WRITE_FAILED_TEXT@ + target.temp_path@,
            CommitPhase::Sizing => SIZE_FAILED_TEXT@,
            CommitPhase::Renaming(_) => RENAME_FAILED_TEXT@ + target.backup_path@,
            CommitPhase::Checking(_) => READ_BACK_FAILED_TEXT@ + target.backup_path@,
            CommitPhase::Done => COMMIT_OUT_OF_ORDER_TEXT@,
        }
    }

    /// The step that follows an event, but for the check of what was read back, which
    /// goes by what the archive shows.
    pub open spec fn step(self, target: BackupTarget, event: CommitEvent) -> Option<
        CommitStepView,
    > {
        match (self, event) {
            (CommitPhase::Writing, CommitEvent::Written) => Some(
                CommitStepView::ReadSize { path: target.temp_path@ },
            ),
            (CommitPhase::Sizing, CommitEvent::Sized(_)) => Some(
                CommitStepView::Rename { from: target.temp_path@, to: target.backup_path@ },
            ),
            (CommitPhase::Renaming(_), CommitEvent::Renamed) => Some(
                CommitStepView::ReadBack { path: target.backup_path@ },
            ),
            (CommitPhase::Checking(_), CommitEvent::ReadBack(_)) => None,
            (CommitPhase::Done, _) => Some(
                CommitStepView::Finish(Err(in_context(COMMIT_OUT_OF_ORDER_TEXT@, Seq::empty()))),
            ),
            (_, CommitEvent::Failed(failure)) => Some(
                CommitStepView::Finish(Err(in_context(self.context(target), failure@.chain))),
            ),
            _ => Some(
                CommitStepView::Finish(Err(in_context(COMMIT_OUT_OF_ORDER_TEXT@, Seq::empty()))),
            ),
        }
    }
}

/// The failure for an archive that does not pass for complete.
pub open spec fn integrity_failure(error: IntegrityError, path: Seq<char>) -> FailureView {
    match error {
        IntegrityError::Unreadable(detail) => in_context(UNREADABLE_TEXT@ + path, seq![detail@]),
        IntegrityError::Empty => in_context(EMPTY_TEXT@, Seq::empty()),
        IntegrityError::FirstEntryUnreadable(detail) => in_context(
            FIRST_ENTRY_TEXT@,
            seq![detail@],
        ),
    }
}

/// The temporary path of a run is not its final path.
pub proof fn lemma_temp_is_not_final(target: BackupTarget)
    requires
        target.temp_path@ == target.backup_path@ + crate::backup::TEMP_SUFFIX@,
    ensures
        target.temp_path@ != target.backup_path@,
{
    reveal_strlit(".tmp");
    assert(target.temp_path@.len() == target.backup_path@.len() + 4);
}

/// No file comes into being under the final name before the archive is complete. The
/// first step, and the step after the archive was written, touch the temporary path
/// alone; the final path is first touched by the rename, which is handed out only once
/// the archive was written in full and its size was read. A commit that ends earlier
/// ends with a failure and has touched the final path with no step.
pub proof fn lemma_final_name_by_rename_only(
    target: BackupTarget,
    phase: CommitPhase,
    event: CommitEvent,
)
    requires
        target.temp_path@ != target.backup_path@,
    ensures
        !(CommitStepView::WriteTemp { path: target.temp_path@ }).touches(target.backup_path@),
        phase.step(target, event) matches Some(step) ==> (step.touches(target.backup_path@) ==> {
            ||| phase == CommitPhase::Sizing && event is Sized && step is Rename
            ||| phase is Renaming && event is Renamed && step is ReadBack
        }),
        phase.step(target, event) matches Some(CommitStepView::Finish(result)) ==> result is Err,
        phase != CommitPhase::Done ==> phase.after(event).rank() > phase.rank(),
        phase.after(event) == CommitPhase::Done <==> !(phase.step(target, event) matches Some(
            step,
        ) && !(step is Finish)),
{
}

/// Puts a word that says what was being done before a failure.
pub fn with_context(context: String, cause: Vec<String>) -> (r: Failure)
    ensures
        r@ == in_context(context@, texts(cause@)),
{
    let mut chain: Vec<String> = Vec::new();
    chain.push(context.clone());
    let mut rest = cause;
    chain.append(&mut rest);
    proof {
        assert(texts(chain@) =~= seq![context@] + texts(cause@));
    }
    Failure { message: context, chain }
}

/// The failure for an archive that does not pass for complete.
pub fn failure_of_integrity(error: IntegrityError, path: &str) -> (r: Failure)
    ensures
        r@ == integrity_failure(error, path@),
{
    match error {
        IntegrityError::Unreadable(detail) => {
            let mut cause: Vec<String> = Vec::new();
            cause.push(detail);
            proof {
                assert(texts(cause@) =~= seq![detail@]);
            }
            with_context(appended(UNREADABLE_TEXT, path), cause)
        },
        IntegrityError::Empty => with_context(EMPTY_TEXT.to_owned(), Vec::new()),
        IntegrityError::FirstEntryUnreadable(detail) => {
            let mut cause: Vec<String> = Vec::new();
            cause.push(detail);
            proof {
                assert(texts(cause@) =~= seq![detail@]);
            }
            with_context(FIRST_ENTRY_TEXT.to_owned(), cause)
        },
    }
}

/// The failure for an archive that could not be built: what is said of it, and below that
/// the writer's own words where the archive could not be finished.
pub fn failure_of_archive(error: &ArchiveError) -> (r: Failure)
    ensures
        r@ == in_context(
            archive_error_text(*error),
            match *error {
                ArchiveError::Finalize { detail } => seq![detail@],
                ArchiveError::Entry { .. } => Seq::empty(),
            },
        ),
{
    let mut cause: Vec<String> = Vec::new();
    match error {
        ArchiveError::Finalize { detail } => {
            cause.push(detail.clone());
            proof {
                assert(texts(cause@) =~= seq![detail@]);
            }
        },
        ArchiveError::Entry { .. } => {},
    }
    with_context(describe_archive_error(error), cause)
}

impl BackupTarget {
    /// The phase in which every commit starts, and its first step: write the archive to
    /// the temporary path.
    pub fn begin_commit(&self) -> (r: (CommitPhase, CommitStep))
        ensures
            r.0 == CommitPhase::Writing,
            r.1@ == (CommitStepView::WriteTemp { path: self.temp_path@ }),
    {
        (CommitPhase::Writing, CommitStep::WriteTemp { path: self.temp_path.clone() })
    }

    /// Takes in what happened and says how the commit goes on: after the write the size is
    /// read, then the file is renamed to its final path, then read back and checked. The
    /// archive passes if it opens, holds an entry, and its first entry can be opened; then
    /// the commit ends with the size that was read. A step that fails ends the commit,
    /// and so does an archive that does not pass, though it bears its final name by then.
    pub fn continue_commit(&self, phase: &mut CommitPhase, event: CommitEvent) -> (step: CommitStep)
        ensures
            *final(phase) == old(phase).after(event),
            old(phase).step(*self, event) matches Some(planned) ==> step@ == planned,
            (*old(phase), event) matches (CommitPhase::Checking(size), CommitEvent::ReadBack(bytes))
                ==> {
                &&& step is Finish
                &&& match listing_of(bytes@) {
                    None => step@ matches CommitStepView::Finish(Err(failure)) && failure.message
                        == UNREADABLE_TEXT@ + self.backup_path@,
                    Some(names) => if names.len() == 0 {
                        step@ == CommitStepView::Finish(
                            Err(integrity_failure(IntegrityError::Empty, self.backup_path@)),
                        )
                    } else if opens_in(bytes@, 0) {
                        step@ == CommitStepView::Finish(Ok(size))
                    } else {
                        step@ matches CommitStepView::Finish(Err(failure)) && failure.message
                            == FIRST_ENTRY_TEXT@
                    },
                }
                &&& step@ == CommitStepView::Finish(Ok(size)) <==> passes(bytes@)
            },
    {
        let before = *phase;
        match (before, event) {
            (CommitPhase::Writing, CommitEvent::Written) => {
                *phase = CommitPhase::Sizing;
                CommitStep::ReadSize { path: self.temp_path.clone() }
            },
            (CommitPhase::Sizing, CommitEvent::Sized(size)) => {
                *phase = CommitPhase::Renaming(size);
                CommitStep::Rename { from: self.temp_path.clone(), to: self.backup_path.clone() }
            },
            (CommitPhase::Renaming(size), CommitEvent::Renamed) => {
                *phase = CommitPhase::Checking(size);
                CommitStep::ReadBack { path: self.backup_path.clone() }
            },
            (CommitPhase::Checking(size), CommitEvent::ReadBack(bytes)) => {
                *phase = CommitPhase::Done;
                match verify_zip_integrity(bytes) {
                    Ok(()) => CommitStep::Finish(Ok(size)),
                    Err(error) => CommitStep::Finish(
                        Err(failure_of_integrity(error, self.backup_path.as_str())),
                    ),
                }
            },
            (CommitPhase::Done, _) => CommitStep::Finish(
                Err(with_context(COMMIT_OUT_OF_ORDER_TEXT.to_owned(), Vec::new())),
            ),
            (_, CommitEvent::Failed(failure)) => {
                *phase = CommitPhase::Done;
                let context = match before {
                    CommitPhase::Writing => appended(WRITE_FAILED_TEXT, self.temp_path.as_str()),
                    CommitPhase::Sizing => SIZE_FAILED_TEXT.to_owned(),
                    CommitPhase::Renaming(_) => appended(
                        RENAME_FAILED_TEXT,
                        self.backup_path.as_str(),
                    ),
                    _ => appended(READ_BACK_FAILED_TEXT, self.backup_path.as_str()),
                };
                CommitStep::Finish(Err(with_context(context, failure.chain)))
            },
            _ => {
                *phase = CommitPhase::Done;
                CommitStep::Finish(
                    Err(with_context(COMMIT_OUT_OF_ORDER_TEXT.to_owned(), Vec::new())),
                )
            },
        }
    }
}

} // verus!
