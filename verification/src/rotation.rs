//! Carrying out a monthly rotation: each archive is copied first and deleted only then.

use crate::monthly::MonthlyArchivePlan;
use crate::text::appended;
use vstd::prelude::*;

verus! {

/// What is said when the month's directory cannot be made, before its path.
pub const MAKE_DIR_FAILED_TEXT: &'static str = "Failed to create archive directory: ";

/// What is said when an archive cannot be copied, before its path.
pub const COPY_FAILED_TEXT: &'static str = "Failed to copy file: ";

/// What is said when an archive cannot be deleted after it was copied, before its path.
pub const DELETE_FAILED_TEXT: &'static str = "Failed to remove source file: ";

/// What is said when the steps of a rotation are reported out of order.
pub const ROTATION_OUT_OF_ORDER_TEXT: &'static str = "Rotation steps were reported out of order";

/// How far a rotation has come.
#[derive(Clone, Copy, Debug, PartialEq, Eq, Structural)]
pub enum RotationPhase {
    /// The month's directory is being made.
    MakingDir,
    /// The archive at this place of the plan is being copied.
    Copying(usize),
    /// The archive at this place of the plan, which was copied, is being deleted.
    Deleting(usize),
    /// The rotation is over.
    Done,
}

/// What a rotation does next.
#[derive(Debug)]
pub enum RotationStep {
    /// Make the directory at `path`, with all above it.
    MakeDir { path: String },
    /// Copy the file `source` to `target`.
    Copy { source: String, target: String },
    /// Delete the file `source`.
    Delete { source: String },
    /// Stop. The rotation ends with the number of archives moved, or with an error's text.
    Finish(Result<usize, String>),
}

/// A step as plain values.
pub enum RotationStepView {
    MakeDir { path: Seq<char> },
    Copy { source: Seq<char>, target: Seq<char> },
    Delete { source: Seq<char> },
    Finish(Result<usize, Seq<char>>),
}

impl View for RotationStep {
    type V = RotationStepView;

    open spec fn view(&self) -> RotationStepView {
        match self {
            RotationStep::MakeDir { path } => RotationStepView::MakeDir { path: path@ },
            RotationStep::Copy { source, target } => RotationStepView::Copy {
                source: source@,
                target: target@,
            },
            RotationStep::Delete { source } => RotationStepView::Delete { source: source@ },
            RotationStep::Finish(Ok(moved)) => RotationStepView::Finish(Ok(*moved)),
            RotationStep::Finish(Err(text)) => RotationStepView::Finish(Err(text@)),
        }
    }
}

impl MonthlyArchivePlan {
    /// The copy of the archive at a place of the plan.
    pub open spec fn copy_at(self, at: int) -> RotationStepView {
        RotationStepView::Copy { source: self.moves@[at].source@, target: self.moves@[at].target@ }
    }

    /// The first step of a rotation: make the month's directory, or stop at once where
    /// there is nothing to move.
    pub open spec fn first_step(self) -> RotationStepView {
        if self.moves@.len() == 0 {
            RotationStepView::Finish(Ok(0))
        } else {
            RotationStepView::MakeDir { path: self.archive_dir@ }
        }
    }

    /// The phase that follows the report of a step: `done` says whether the step went well.
    pub open spec fn phase_after(self, phase: RotationPhase, done: bool) -> RotationPhase {
        match phase {
            RotationPhase::MakingDir => if done && self.moves@.len() > 0 {
                RotationPhase::Copying(0)
            } else {
                RotationPhase::Done
            },
            RotationPhase::Copying(at) => if done && at < self.moves@.len() {
                RotationPhase::Deleting(at)
            } else {
                RotationPhase::Done
            },
            RotationPhase::Deleting(at) => if done && at + 1 < self.moves@.len() {
                RotationPhase::Copying((at + 1) as usize)
            } else {
                RotationPhase::Done
            },
            RotationPhase::Done => RotationPhase::Done,
        }
    }

    /// The step that follows the report of a step.
    pub open spec fn step_after(self, phase: RotationPhase, done: bool) -> RotationStepView {
        let count = self.moves@.len();
        match phase {
            RotationPhase::MakingDir => if !done {
                RotationStepView::Finish(Err(MAKE_DIR_FAILED_TEXT@ + self.archive_dir@))
            } else if count > 0 {
                self.copy_at(0)
            } else {
                RotationStepView::Finish(Ok(0))
            },
            RotationPhase::Copying(at) => if at >= count {
                RotationStepView::Finish(Err(ROTATION_OUT_OF_ORDER_TEXT@))
            } else if done {
                RotationStepView::Delete { source: self.moves@[at as int].source@ }
            } else {
                RotationStepView::Finish(Err(COPY_FAILED_TEXT@ + self.moves@[at as int].source@))
            },
            RotationPhase::Deleting(at) => if at >= count {
                RotationStepView::Finish(Err(ROTATION_OUT_OF_ORDER_TEXT@))
            } else if !done {
                RotationStepView::Finish(
                    Err(DELETE_FAILED_TEXT@ + self.moves@[at as int].source@),
                )
            } else if at + 1 < count {
                self.copy_at(at + 1)
            } else {
                RotationStepView::Finish(Ok(count as usize))
            },
            RotationPhase::Done => RotationStepView::Finish(Err(ROTATION_OUT_OF_ORDER_TEXT@)),
        }
    }

    /// Starts a rotation: the month's directory is made first. Where there is nothing to
    /// move the rotation is over at once, and no directory is made.
    pub fn begin_rotation(&self) -> (r: (RotationPhase, RotationStep))
        ensures
            r.1@ == self.first_step(),
            r.0 == if self.moves@.len() == 0 {
                RotationPhase::Done
            } else {
                RotationPhase::MakingDir
            },
    {
        if self.moves.len() == 0 {
            (RotationPhase::Done, RotationStep::Finish(Ok(0)))
        } else {
            (RotationPhase::MakingDir, RotationStep::MakeDir { path: self.archive_dir.clone() })
        }
    }

    /// Takes in how the last step went and says how the rotation goes on. The archives are
    /// moved in the plan's order; each is copied first and deleted only after its copy
    /// went well. The first step that fails ends the rotation with its error, and what was
    /// not yet copied stays where it is.
    pub fn continue_rotation(&self, phase: &mut RotationPhase, done: bool) -> (step: RotationStep)
        ensures
            *final(phase) == self.phase_after(*old(phase), done),
            step@ == self.step_after(*old(phase), done),
    {
        let before = *phase;
        let count = self.moves.len();
        match before {
            RotationPhase::MakingDir => {
                if !done {
                    *phase = RotationPhase::Done;
                    RotationStep::Finish(
                        Err(appended(MAKE_DIR_FAILED_TEXT, self.archive_dir.as_str())),
                    )
                } else if count > 0 {
                    *phase = RotationPhase::Copying(0);
                    self.copy_step(0)
                } else {
                    *phase = RotationPhase::Done;
                    RotationStep::Finish(Ok(0))
                }
            },
            RotationPhase::Copying(at) => {
                if at >= count {
                    *phase = RotationPhase::Done;
                    RotationStep::Finish(Err(ROTATION_OUT_OF_ORDER_TEXT.to_owned()))
                } else if done {
                    *phase = RotationPhase::Deleting(at);
                    RotationStep::Delete { source: self.moves[at].source.clone() }
                } else {
                    *phase = RotationPhase::Done;
                    RotationStep::Finish(
                        Err(appended(COPY_FAILED_TEXT, self.moves[at].source.as_str())),
                    )
                }
            },
            RotationPhase::Deleting(at) => {
                if at >= count {
                    *phase = RotationPhase::Done;
                    RotationStep::Finish(Err(ROTATION_OUT_OF_ORDER_TEXT.to_owned()))
                } else if !done {
                    *phase = RotationPhase::Done;
                    RotationStep::Finish(
                        Err(appended(DELETE_FAILED_TEXT, self.moves[at].source.as_str())),
                    )
                } else if at + 1 < count {
                    *phase = RotationPhase::Copying(at + 1);
                    self.copy_step(at + 1)
                } else {
                    *phase = RotationPhase::Done;
                    RotationStep::Finish(Ok(count))
                }
            },
            RotationPhase::Done => RotationStep::Finish(
                Err(ROTATION_OUT_OF_ORDER_TEXT.to_owned()),
            ),
        }
    }

    /// The copy of the archive at a place of the plan.
    fn copy_step(&self, at: usize) -> (step: RotationStep)
        requires
            at < self.moves@.len(),
        ensures
            step@ == self.copy_at(at as int),
    {
        RotationStep::Copy {
            source: self.moves[at].source.clone(),
            target: self.moves[at].target.clone(),
        }
    }
}

/// An archive is deleted only after its own copy went well: the step that deletes the
/// archive at a place of the plan is handed out only in answer to a copy of that archive
/// that went well. A step that fails ends the rotation, so nothing behind it is copied or
/// deleted. A rotation that ends well has moved every archive of the plan.
pub proof fn lemma_copy_before_delete(plan: MonthlyArchivePlan, phase: RotationPhase, done: bool)
    requires
        plan.moves@.len() <= usize::MAX,
    ensures
        plan.step_after(phase, done) matches RotationStepView::Delete { source } ==> done && (
        phase matches RotationPhase::Copying(at) && at < plan.moves@.len() && source
            == plan.moves@[at as int].source@),
        !done ==> (plan.step_after(phase, done) matches RotationStepView::Finish(Err(_)))
            && plan.phase_after(phase, done) == RotationPhase::Done,
        plan.step_after(phase, done) matches RotationStepView::Finish(Ok(moved)) ==> moved
            == plan.moves@.len(),
        !(plan.first_step() is Delete),
{
}

} // verus!
