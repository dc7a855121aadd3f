//! The plain values that the planner reads and gives, each with its view.

use vstd::prelude::*;
use crate::text::{views, pair_views};

verus! {

/// The C compiler that was found: its executable and the flags it always
/// wants applied.
#[derive(Debug, PartialEq, Eq)]
pub struct Compiler {
    pub path: String,
    pub flags: Vec<String>,
}

pub struct CompilerView {
    pub path: Seq<char>,
    pub flags: Seq<Seq<char>>,
}

impl View for Compiler {
    type V = CompilerView;

    open spec fn view(&self) -> CompilerView {
        CompilerView { path: self.path@, flags: views(self.flags@) }
    }
}

/// What the planner reads of its surroundings: the environment variables
/// as (name, value) pairs, the character that separates the entries of a
/// path list, and the current directory.
#[derive(Debug, PartialEq, Eq)]
pub struct Ambient {
    pub vars: Vec<(String, String)>,
    pub separator: char,
    pub current_dir: String,
}

pub struct AmbientView {
    pub vars: Seq<(Seq<char>, Seq<char>)>,
    pub separator: char,
    pub current_dir: Seq<char>,
}

impl View for Ambient {
    type V = AmbientView;

    open spec fn view(&self) -> AmbientView {
        AmbientView {
            vars: pair_views(self.vars@),
            separator: self.separator,
            current_dir: self.current_dir@,
        }
    }
}

/// One run of an external program: its name, its arguments in order, the
/// directory to run it in, and the environment variables to set for it.
#[derive(Debug, PartialEq, Eq)]
pub struct Invocation {
    pub program: String,
    pub args: Vec<String>,
    pub dir: String,
    pub env: Vec<(String, String)>,
}

pub struct InvocationView {
    pub program: Seq<char>,
    pub args: Seq<Seq<char>>,
    pub dir: Seq<char>,
    pub env: Seq<(Seq<char>, Seq<char>)>,
}

impl View for Invocation {
    type V = InvocationView;

    open spec fn view(&self) -> InvocationView {
        InvocationView {
            program: self.program@,
            args: views(self.args@),
            dir: self.dir@,
            env: pair_views(self.env@),
        }
    }
}

/// A whole build: the directory to install into, the build directory to
/// create below it, and the two runs, in the order in which they happen.
#[derive(Debug, PartialEq, Eq)]
pub struct BuildPlan {
    pub install_dir: String,
    pub build_dir: String,
    pub generate: Invocation,
    pub build: Invocation,
}

pub struct BuildPlanView {
    pub install_dir: Seq<char>,
    pub build_dir: Seq<char>,
    pub generate: InvocationView,
    pub build: InvocationView,
}

impl View for BuildPlan {
    type V = BuildPlanView;

    open spec fn view(&self) -> BuildPlanView {
        BuildPlanView {
            install_dir: self.install_dir@,
            build_dir: self.build_dir@,
            generate: self.generate@,
            build: self.build@,
        }
    }
}

/// Why a build cannot go on.
#[derive(Debug, PartialEq, Eq)]
pub enum BuildError {
    /// No target triple was set and the environment names none.
    MissingTarget,
    /// No output directory was set and the environment names none.
    MissingOutDir,
    /// No profile was set and the environment names none.
    MissingProfile,
    /// No C compiler was found; holds the finder's words.
    CompilerUnresolved(String),
    /// The description of the Visual Studio tools, which it holds, names no
    /// known version.
    UnknownVisualStudio(String),
    /// The MSVC target, which it holds, is neither 32-bit nor 64-bit x86.
    UnsupportedMsvcTarget(String),
    /// The build directory could not be created; holds the system's words.
    BuildDirNotCreated { reason: String },
    /// The program could not be started because it was not found.
    ToolNotFound { program: String, reason: String },
    /// The program could not be started for another reason.
    ToolNotStarted { reason: String },
    /// The program ran and reported failure; holds its exit status.
    ToolFailed { status: String },
}

pub enum BuildErrorView {
    MissingTarget,
    MissingOutDir,
    MissingProfile,
    CompilerUnresolved(Seq<char>),
    UnknownVisualStudio(Seq<char>),
    UnsupportedMsvcTarget(Seq<char>),
    BuildDirNotCreated { reason: Seq<char> },
    ToolNotFound { program: Seq<char>, reason: Seq<char> },
    ToolNotStarted { reason: Seq<char> },
    ToolFailed { status: Seq<char> },
}

impl View for BuildError {
    type V = BuildErrorView;

    open spec fn view(&self) -> BuildErrorView {
        match self {
            BuildError::MissingTarget => BuildErrorView::MissingTarget,
            BuildError::MissingOutDir => BuildErrorView::MissingOutDir,
            BuildError::MissingProfile => BuildErrorView::MissingProfile,
            BuildError::CompilerUnresolved(s) => BuildErrorView::CompilerUnresolved(s@),
            BuildError::UnknownVisualStudio(s) => BuildErrorView::UnknownVisualStudio(s@),
            BuildError::UnsupportedMsvcTarget(s) => BuildErrorView::UnsupportedMsvcTarget(s@),
            BuildError::BuildDirNotCreated { reason } => BuildErrorView::BuildDirNotCreated {
                reason: reason@,
            },
            BuildError::ToolNotFound { program, reason } => BuildErrorView::ToolNotFound {
                program: program@,
                reason: reason@,
            },
            BuildError::ToolNotStarted { reason } => BuildErrorView::ToolNotStarted {
                reason: reason@,
            },
            BuildError::ToolFailed { status } => BuildErrorView::ToolFailed { status: status@ },
        }
    }
}

} // verus!
