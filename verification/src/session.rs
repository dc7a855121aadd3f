//! The course of a build once it is planned: what to do at each stage, and
//! where the outcome of that leads.

use vstd::prelude::*;
use crate::model::{BuildError, BuildErrorView, BuildPlan, Invocation};
use crate::run::{check_build_dir, dir_judged, judged, run, DirOutcome, RunOutcome};

verus! {

/// How far a build has come.
#[derive(Clone, Copy, Debug, PartialEq, Eq, Structural)]
pub enum Stage {
    /// The build directory has yet to be made.
    CreateDir,
    /// The generate step is due.
    Generate,
    /// The build step is due.
    Build,
    /// Both steps succeeded.
    Done,
}

/// What is to be done at a stage.
#[derive(Debug, PartialEq, Eq)]
pub enum Action<'a> {
    /// Create this directory, unless it is there.
    CreateDir(&'a String),
    /// Run this program and wait for it.
    Run(&'a Invocation),
    /// Announce this directory as the install root and return it.
    Finish(&'a String),
}

/// The outcome of what was done.
#[derive(Debug, PartialEq, Eq)]
pub enum Event {
    Dir(DirOutcome),
    Ran(RunOutcome),
}

/// Where an event leads from a stage: on to the next stage when the
/// directory is there or the step succeeded, to an error when not. An event
/// of the other kind, and every event after the end, changes nothing.
pub open spec fn next_stage(plan: BuildPlan, stage: Stage, event: Event) -> Result<
    Stage,
    BuildErrorView,
> {
    match (stage, event) {
        (Stage::CreateDir, Event::Dir(outcome)) => match dir_judged(outcome) {
            None => Ok(Stage::Generate),
            Some(e) => Err(e),
        },
        (Stage::Generate, Event::Ran(outcome)) => match judged(outcome, plan.generate.program@) {
            None => Ok(Stage::Build),
            Some(e) => Err(e),
        },
        (Stage::Build, Event::Ran(outcome)) => match judged(outcome, plan.build.program@) {
            None => Ok(Stage::Done),
            Some(e) => Err(e),
        },
        _ => Ok(stage),
    }
}

/// What is to be done at `stage` of `plan`: make the build directory, run
/// the generate step, run the build step, and finish with the install
/// directory, in that order.
pub fn next_action<'a>(plan: &'a BuildPlan, stage: Stage) -> (r: Action<'a>)
    ensures
        r == (match stage {
            Stage::CreateDir => Action::CreateDir(&plan.build_dir),
            Stage::Generate => Action::Run(&plan.generate),
            Stage::Build => Action::Run(&plan.build),
            Stage::Done => Action::Finish(&plan.install_dir),
        }),
{
    match stage {
        Stage::CreateDir => Action::CreateDir(&plan.build_dir),
        Stage::Generate => Action::Run(&plan.generate),
        Stage::Build => Action::Run(&plan.build),
        Stage::Done => Action::Finish(&plan.install_dir),
    }
}

/// The stage after `event`, or the error that ends the build.
pub fn advance(plan: &BuildPlan, stage: Stage, event: &Event) -> (r: Result<Stage, BuildError>)
    ensures
        match r {
            Ok(s) => next_stage(*plan, stage, *event) == Ok::<Stage, BuildErrorView>(s),
            Err(e) => next_stage(*plan, stage, *event) == Err::<Stage, BuildErrorView>(e@),
        },
{
    match stage {
        Stage::CreateDir => match event {
            Event::Dir(outcome) => match check_build_dir(outcome) {
                Ok(_) => Ok(Stage::Generate),
                Err(e) => Err(e),
            },
            Event::Ran(_) => Ok(stage),
        },
        Stage::Generate => match event {
            Event::Ran(outcome) => match run(outcome, plan.generate.program.as_str()) {
                Ok(_) => Ok(Stage::Build),
                Err(e) => Err(e),
            },
            Event::Dir(_) => Ok(stage),
        },
        Stage::Build => match event {
            Event::Ran(outcome) => match run(outcome, plan.build.program.as_str()) {
                Ok(_) => Ok(Stage::Done),
                Err(e) => Err(e),
            },
            Event::Dir(_) => Ok(stage),
        },
        Stage::Done => Ok(stage),
    }
}

} // verus!
