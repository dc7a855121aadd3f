//! Judging how a run of an external program ended, and the words in which
//! a failure is reported.

use vstd::prelude::*;
use vstd::string::*;
use crate::model::{BuildError, BuildErrorView};

verus! {

/// How an attempt to run a program ended.
#[derive(Debug, PartialEq, Eq)]
pub enum RunOutcome {
    /// The program ran to its end; `status` is its exit status in words.
    Exited { success: bool, status: String },
    /// The program was not found; `reason` is the system's message.
    NotFound { reason: String },
    /// The program could not be started for another reason.
    NotStarted { reason: String },
}

/// How an attempt to create the build directory ended.
#[derive(Debug, PartialEq, Eq)]
pub enum DirOutcome {
    /// The directory was created.
    Created,
    /// The directory was there already.
    AlreadyExists,
    /// The directory could not be created; `reason` is the system's message.
    Failed { reason: String },
}

/// What stands in the way after an attempt to create the build directory:
/// nothing where it was created or was there already.
pub open spec fn dir_judged(outcome: DirOutcome) -> Option<BuildErrorView> {
    match outcome {
        DirOutcome::Created => None,
        DirOutcome::AlreadyExists => None,
        DirOutcome::Failed { reason } => Some(
            BuildErrorView::BuildDirNotCreated { reason: reason@ },
        ),
    }
}

/// Judges the attempt to create the build directory: `Ok` where the
/// directory is there now, whoever made it.
pub fn check_build_dir(outcome: &DirOutcome) -> (r: Result<(), BuildError>)
    ensures
        match r {
            Ok(_) => dir_judged(*outcome) is None,
            Err(e) => dir_judged(*outcome) == Some(e@),
        },
{
    match outcome {
        DirOutcome::Created => Ok(()),
        DirOutcome::AlreadyExists => Ok(()),
        DirOutcome::Failed { reason } => Err(
            BuildError::BuildDirNotCreated { reason: reason.clone() },
        ),
    }
}

/// What `run` makes of an outcome: nothing stands in the way after a
/// successful exit; everything else is an error of its own kind.
pub open spec fn judged(outcome: RunOutcome, program: Seq<char>) -> Option<BuildErrorView> {
    match outcome {
        RunOutcome::Exited { success, status } => if success {
            None
        } else {
            Some(BuildErrorView::ToolFailed { status: status@ })
        },
        RunOutcome::NotFound { reason } => Some(
            BuildErrorView::ToolNotFound { program: program, reason: reason@ },
        ),
        RunOutcome::NotStarted { reason } => Some(
            BuildErrorView::ToolNotStarted { reason: reason@ },
        ),
    }
}

/// Judges the outcome of running `program`: `Ok` exactly after a
/// successful exit.
pub fn run(outcome: &RunOutcome, program: &str) -> (r: Result<(), BuildError>)
    ensures
        match r {
            Ok(_) => judged(*outcome, program@) is None,
            Err(e) => judged(*outcome, program@) == Some(e@),
        },
{
    match outcome {
        RunOutcome::Exited { success, status } => {
            if *success {
                Ok(())
            } else {
                Err(BuildError::ToolFailed { status: status.clone() })
            }
        },
        RunOutcome::NotFound { reason } => Err(
            BuildError::ToolNotFound {
                program: String::from_str(program),
                reason: reason.clone(),
            },
        ),
        RunOutcome::NotStarted { reason } => Err(
            BuildError::ToolNotStarted { reason: reason.clone() },
        ),
    }
}

/// The words that describe an error.
pub open spec fn message_text(e: BuildErrorView) -> Seq<char> {
    match e {
        BuildErrorView::MissingTarget => "couldn't determine the target: TARGET is not set"@,
        BuildErrorView::MissingOutDir =>
            "couldn't determine the output directory: OUT_DIR is not set"@,
        BuildErrorView::MissingProfile => "couldn't determine the profile: PROFILE is not set"@,
        BuildErrorView::CompilerUnresolved(reason) => "couldn't determine the C compiler: "@
            + reason,
        BuildErrorView::UnknownVisualStudio(found) =>
            "couldn't determine visual studio generator: "@ + found,
        BuildErrorView::UnsupportedMsvcTarget(target) => "unsupported msvc target: "@ + target,
        BuildErrorView::BuildDirNotCreated { reason } =>
            "couldn't create the build directory: "@ + reason,
        BuildErrorView::ToolNotFound { program, reason } => "failed to execute command: "@
            + reason + "\nis `"@ + program + "` not installed?"@,
        BuildErrorView::ToolNotStarted { reason } => "failed to execute command: "@ + reason,
        BuildErrorView::ToolFailed { status } => "command did not execute successfully, got: "@
            + status,
    }
}

/// The words with which a build gives up: `s` between a line break and
/// the closing sentence.
pub open spec fn failure_text(s: Seq<char>) -> Seq<char> {
    "\n"@ + s + "\n\nbuild script failed, must exit now"@
}

/// The line that tells Cargo where the library was installed.
pub open spec fn root_line(dst: Seq<char>) -> Seq<char> {
    "cargo:root="@ + dst
}

impl BuildError {
    /// Describes the error in words.
    pub fn message(&self) -> (r: String)
        ensures
            r@ == message_text(self@),
    {
        match self {
            BuildError::MissingTarget => String::from_str(
                "couldn't determine the target: TARGET is not set",
            ),
            BuildError::MissingOutDir => String::from_str(
                "couldn't determine the output directory: OUT_DIR is not set",
            ),
            BuildError::MissingProfile => String::from_str(
                "couldn't determine the profile: PROFILE is not set",
            ),
            BuildError::CompilerUnresolved(reason) => {
                String::from_str("couldn't determine the C compiler: ").concat(reason.as_str())
            },
            BuildError::UnknownVisualStudio(found) => {
                String::from_str("couldn't determine visual studio generator: ").concat(
                    found.as_str(),
                )
            },
            BuildError::UnsupportedMsvcTarget(target) => {
                String::from_str("unsupported msvc target: ").concat(target.as_str())
            },
            BuildError::BuildDirNotCreated { reason } => {
                String::from_str("couldn't create the build directory: ").concat(
                    reason.as_str(),
                )
            },
            BuildError::ToolNotFound { program, reason } => {
                let mut r = String::from_str("failed to execute command: ");
                r.append(reason.as_str());
                r.append("\nis `");
                r.append(program.as_str());
                r.append("` not installed?");
                r
            },
            BuildError::ToolNotStarted { reason } => {
                String::from_str("failed to execute command: ").concat(reason.as_str())
            },
            BuildError::ToolFailed { status } => {
                String::from_str("command did not execute successfully, got: ").concat(
                    status.as_str(),
                )
            },
        }
    }
}

/// The words with which a build gives up over `s`.
pub fn fail(s: &str) -> (r: String)
    ensures
        r@ == failure_text(s@),
{
    let mut r = String::from_str("\n");
    r.append(s);
    r.append("\n\nbuild script failed, must exit now");
    r
}

/// The line that tells Cargo where the library was installed.
pub fn announcement(dst: &str) -> (r: String)
    ensures
        r@ == root_line(dst@),
{
    String::from_str("cargo:root=").concat(dst)
}

} // verus!
