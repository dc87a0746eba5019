//! The stages of applying a self-modification patch.

use crate::jesse::runner::JesseRunner;
use crate::saul::policy::{PolicyEngine, PolicyError};
use crate::text::{owned, push_str};
use vstd::prelude::*;

verus! {

/// The step a patch is at.
#[derive(Debug, Clone, Copy, PartialEq, Eq, Structural)]
pub enum PatchStage {
    /// `patch --dry-run`: does the patch apply?
    Validating,
    /// `patch`: apply it.
    Applying,
    /// `cargo test` on the patched tree.
    Testing,
    /// `patch -R`: take it back after failed tests.
    Reverting,
}

/// Why a patch did not stay applied.
#[derive(Debug)]
pub enum PatchError {
    /// The dry run failed; its standard error.
    ValidationFailed(String),
    /// Applying failed; its standard error.
    ApplyFailed(String),
    /// The tests failed and the patch was taken back.
    Reverted,
}

/// The mathematical content of a patch error.
pub enum PatchErrorView {
    ValidationFailed(Seq<char>),
    ApplyFailed(Seq<char>),
    Reverted,
}

impl View for PatchError {
    type V = PatchErrorView;

    open spec fn view(&self) -> PatchErrorView {
        match self {
            PatchError::ValidationFailed(e) => PatchErrorView::ValidationFailed(e@),
            PatchError::ApplyFailed(e) => PatchErrorView::ApplyFailed(e@),
            PatchError::Reverted => PatchErrorView::Reverted,
        }
    }
}

/// The text of a patch error.
pub open spec fn patch_error_text(e: PatchErrorView) -> Seq<char> {
    match e {
        PatchErrorView::ValidationFailed(s) => "Patch validation failed: "@ + s,
        PatchErrorView::ApplyFailed(s) => "Patch application failed: "@ + s,
        PatchErrorView::Reverted => "Self-modification reverted due to test failure."@,
    }
}

impl PatchError {
    /// The error's text.
    pub fn message(&self) -> (s: String)
        ensures
            s@ == patch_error_text(self@),
    {
        match self {
            PatchError::ValidationFailed(e) => {
                let mut s = owned("Patch validation failed: ");
                push_str(&mut s, e.as_str());
                s
            },
            PatchError::ApplyFailed(e) => {
                let mut s = owned("Patch application failed: ");
                push_str(&mut s, e.as_str());
                s
            },
            PatchError::Reverted => owned("Self-modification reverted due to test failure."),
        }
    }
}

/// What follows a stage's command.
#[derive(Debug)]
pub enum PatchNext {
    /// Run the next stage's command.
    Continue(PatchStage),
    /// The patch is done with: applied and tested, or not.
    Finished(Result<(), PatchError>),
}

/// The mathematical content of a next step.
pub enum PatchNextView {
    Continue(PatchStage),
    Finished(Result<(), PatchErrorView>),
}

impl View for PatchNext {
    type V = PatchNextView;

    open spec fn view(&self) -> PatchNextView {
        match self {
            PatchNext::Continue(s) => PatchNextView::Continue(*s),
            PatchNext::Finished(Ok(())) => PatchNextView::Finished(Ok(())),
            PatchNext::Finished(Err(e)) => PatchNextView::Finished(Err(e@)),
        }
    }
}

/// The shell command of a stage for the patch file at `file`.
pub open spec fn stage_script(stage: PatchStage, file: Seq<char>) -> Seq<char> {
    match stage {
        PatchStage::Validating => "patch --dry-run -p1 < "@ + file,
        PatchStage::Applying => "patch -p1 < "@ + file,
        PatchStage::Testing => "cargo test"@,
        PatchStage::Reverting => "patch -R -p1 < "@ + file,
    }
}

/// The step after a stage's command ran (`success`: it exited with 0;
/// `stderr`: its standard error). A failed dry run or application stops
/// with its error, passing tests finish the patch, failing tests lead to
/// the revert, and after the revert the patch has failed whatever the
/// revert gave.
pub open spec fn next_stage(stage: PatchStage, success: bool, stderr: Seq<char>) -> PatchNextView {
    match stage {
        PatchStage::Validating => if success {
            PatchNextView::Continue(PatchStage::Applying)
        } else {
            PatchNextView::Finished(Err(PatchErrorView::ValidationFailed(stderr)))
        },
        PatchStage::Applying => if success {
            PatchNextView::Continue(PatchStage::Testing)
        } else {
            PatchNextView::Finished(Err(PatchErrorView::ApplyFailed(stderr)))
        },
        PatchStage::Testing => if success {
            PatchNextView::Finished(Ok(()))
        } else {
            PatchNextView::Continue(PatchStage::Reverting)
        },
        PatchStage::Reverting => PatchNextView::Finished(Err(PatchErrorView::Reverted)),
    }
}

/// The position of a stage in the sequence.
pub open spec fn stage_rank(stage: PatchStage) -> nat {
    match stage {
        PatchStage::Validating => 0,
        PatchStage::Applying => 1,
        PatchStage::Testing => 2,
        PatchStage::Reverting => 3,
    }
}

/// Applies patches once the policy allows self-modification.
pub struct SelfPatcher {
    pub policy: PolicyEngine,
    pub runner: JesseRunner,
}

impl SelfPatcher {
    /// A patcher under a policy, running its commands with `runner`.
    pub fn new(policy: PolicyEngine, runner: JesseRunner) -> (p: SelfPatcher)
        ensures
            p.policy == policy,
    {
        SelfPatcher { policy, runner }
    }

    /// Whether a patch may be applied at all; a refusal is the policy's.
    pub fn authorize(&self) -> (r: Result<(), PolicyError>)
        ensures
            r is Err <==> !self.policy.allow_self_modification,
            r matches Err(e) ==> e is SelfModificationDisabled,
    {
        self.policy.check_self_modification()
    }
}

/// The command a stage runs for the patch file at `file`.
pub fn stage_command(stage: PatchStage, file: &str) -> (s: String)
    ensures
        s@ == stage_script(stage, file@),
{
    let head = match stage {
        PatchStage::Validating => "patch --dry-run -p1 < ",
        PatchStage::Applying => "patch -p1 < ",
        PatchStage::Testing => "cargo test",
        PatchStage::Reverting => "patch -R -p1 < ",
    };
    let mut s = owned(head);
    match stage {
        PatchStage::Testing => {},
        _ => push_str(&mut s, file),
    }
    s
}

/// The step after a stage's command ran.
pub fn advance(stage: PatchStage, success: bool, stderr: String) -> (n: PatchNext)
    ensures
        n@ == next_stage(stage, success, stderr@),
{
    match stage {
        PatchStage::Validating => if success {
            PatchNext::Continue(PatchStage::Applying)
        } else {
            PatchNext::Finished(Err(PatchError::ValidationFailed(stderr)))
        },
        PatchStage::Applying => if success {
            PatchNext::Continue(PatchStage::Testing)
        } else {
            PatchNext::Finished(Err(PatchError::ApplyFailed(stderr)))
        },
        PatchStage::Testing => if success {
            PatchNext::Finished(Ok(()))
        } else {
            PatchNext::Continue(PatchStage::Reverting)
        },
        PatchStage::Reverting => PatchNext::Finished(Err(PatchError::Reverted)),
    }
}

/// Every step moves forward, so a patch runs at most four commands; a
/// patch stays applied only when its tests passed, and failing tests are
/// always followed by the revert.
pub proof fn lemma_patch_moves_forward(stage: PatchStage, success: bool, stderr: Seq<char>)
    ensures
        next_stage(stage, success, stderr) matches PatchNextView::Continue(s) ==> stage_rank(s)
            > stage_rank(stage),
        next_stage(stage, success, stderr) == PatchNextView::Finished(Ok(())) <==> stage
            == PatchStage::Testing && success,
        stage == PatchStage::Testing && !success ==> next_stage(stage, success, stderr)
            == PatchNextView::Continue(PatchStage::Reverting),
{
}

} // verus!
