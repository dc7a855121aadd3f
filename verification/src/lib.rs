//! Plans the two `cmake` invocations that configure, build and install a
//! native library from a build script, and judges how each of them ended.
//!
//! A [`config::Config`] collects the options; its `build` finds the C
//! compiler and gives a [`model::BuildPlan`]: the generate step, the build
//! step and the directory that the library is installed into. The caller
//! runs the two steps and hands each outcome to [`run::run`].

pub mod text;
pub mod toolchain;
pub mod model;
pub mod plan;
pub mod config;
pub mod run;
pub mod session;
pub mod laws;

use vstd::prelude::*;
use crate::config::{outcome_view, Config, ConfigView};
use crate::model::{Ambient, BuildError, BuildErrorView, BuildPlan, CompilerView};
use crate::plan::{lookup, plan};

verus! {

/// Plans the build of the native library rooted at `path` with the default
/// cmake options: the plan of a configuration with nothing set but the
/// path, for whatever compiler is found.
pub fn build(path: &str, ambient: &Ambient) -> (r: Result<BuildPlan, BuildError>)
    ensures
        lookup(ambient@.vars, "TARGET"@) is None <==> (r matches Err(e) && e@
            == BuildErrorView::MissingTarget),
        lookup(ambient@.vars, "TARGET"@) is Some ==> (r matches Err(
            BuildError::CompilerUnresolved(_),
        )) || (exists|cc: CompilerView, toolchain: Seq<char>|
            outcome_view(r) == plan(ConfigView::blank(path@), ambient@, cc, toolchain)),
{
    let mut config = Config::new(path);
    config.build(ambient)
}

} // verus!
