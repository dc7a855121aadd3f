//! The options of a pending build, and the calls that set them.

use vstd::prelude::*;
use vstd::string::*;
use crate::text::{views, pair_views, opt_view, spaced, push_spaced};
use crate::model::{
    Ambient, BuildError, BuildErrorView, BuildPlan, BuildPlanView, Compiler, CompilerView,
};
use crate::plan::{
    build_command, generate_command, installed_toolchain, is_msvc, lookup, lookup_var,
    or_ambient, plan, resolve, resolve_build_type, select_generator,
};
use crate::toolchain::{resolve_tool, tool_error_text, tool_flags, tool_path};

verus! {

/// Builder style configuration for a pending CMake build.
pub struct Config {
    pub(crate) path: String,
    pub(crate) cflags: String,
    pub(crate) defines: Vec<(String, String)>,
    pub(crate) deps: Vec<String>,
    pub(crate) target: Option<String>,
    pub(crate) out_dir: Option<String>,
    pub(crate) profile: Option<String>,
    pub(crate) build_args: Vec<String>,
}

/// What a `Config` holds.
pub struct ConfigView {
    pub path: Seq<char>,
    pub cflags: Seq<char>,
    pub defines: Seq<(Seq<char>, Seq<char>)>,
    pub deps: Seq<Seq<char>>,
    pub target: Option<Seq<char>>,
    pub out_dir: Option<Seq<char>>,
    pub profile: Option<Seq<char>>,
    pub build_args: Seq<Seq<char>>,
}

/// One call that sets an option, with the texts it was given.
pub enum OptionCall {
    Cflag(Seq<char>),
    Define(Seq<char>, Seq<char>),
    RegisterDep(Seq<char>),
    Target(Seq<char>),
    OutDir(Seq<char>),
    Profile(Seq<char>),
    BuildArg(Seq<char>),
}

impl ConfigView {
    /// A configuration with nothing set but the project's path.
    pub open spec fn blank(path: Seq<char>) -> ConfigView {
        ConfigView {
            path,
            cflags: Seq::empty(),
            defines: Seq::empty(),
            deps: Seq::empty(),
            target: None,
            out_dir: None,
            profile: None,
            build_args: Seq::empty(),
        }
    }

    /// The configuration after one call: a flag, a define, a dependency or
    /// a build argument is appended to what was there; a target, an output
    /// directory or a profile replaces what was there.
    pub open spec fn after(self, call: OptionCall) -> ConfigView {
        match call {
            OptionCall::Cflag(flag) => ConfigView { cflags: spaced(self.cflags, flag), ..self },
            OptionCall::Define(k, v) => ConfigView { defines: self.defines.push((k, v)), ..self },
            OptionCall::RegisterDep(dep) => ConfigView { deps: self.deps.push(dep), ..self },
            OptionCall::Target(t) => ConfigView { target: Some(t), ..self },
            OptionCall::OutDir(o) => ConfigView { out_dir: Some(o), ..self },
            OptionCall::Profile(p) => ConfigView { profile: Some(p), ..self },
            OptionCall::BuildArg(a) => ConfigView {
                build_args: self.build_args.push(a),
                ..self
            },
        }
    }

    /// The configuration after a sequence of calls, in order.
    pub open spec fn after_all(self, calls: Seq<OptionCall>) -> ConfigView
        decreases calls.len(),
    {
        if calls.len() == 0 {
            self
        } else {
            self.after_all(calls.drop_last()).after(calls.last())
        }
    }
}

/// The view of what a build gives.
pub open spec fn outcome_view(r: Result<BuildPlan, BuildError>) -> Result<
    BuildPlanView,
    BuildErrorView,
> {
    match r {
        Ok(p) => Ok(p@),
        Err(e) => Err(e@),
    }
}

impl View for Config {
    type V = ConfigView;

    closed spec fn view(&self) -> ConfigView {
        ConfigView {
            path: self.path@,
            cflags: self.cflags@,
            defines: pair_views(self.defines@),
            deps: views(self.deps@),
            target: opt_view(self.target),
            out_dir: opt_view(self.out_dir),
            profile: opt_view(self.profile),
            build_args: views(self.build_args@),
        }
    }
}

impl Config {
    /// Creates a new blank set of configuration to build the project
    /// specified at the path `path`.
    pub fn new(path: &str) -> (c: Config)
        ensures
            c@ == ConfigView::blank(path@),
    {
        let c = Config {
            path: String::from_str(path),
            cflags: String::new(),
            defines: Vec::new(),
            deps: Vec::new(),
            target: None,
            out_dir: None,
            profile: None,
            build_args: Vec::new(),
        };
        assert(c@.defines =~= Seq::empty());
        assert(c@.deps =~= Seq::empty());
        assert(c@.build_args =~= Seq::empty());
        c
    }

    /// Adds a custom flag to pass down to the compiler, supplementing those
    /// that this library already passes.
    pub fn cflag(&mut self, flag: &str) -> (r: &mut Config)
        ensures
            r@ == old(self)@.after(OptionCall::Cflag(flag@)),
            *final(self) == *final(r),
    {
        push_spaced(&mut self.cflags, flag);
        self
    }

    /// Adds a new `-D` flag to pass to cmake during the generation step.
    pub fn define(&mut self, k: &str, v: &str) -> (r: &mut Config)
        ensures
            r@ == old(self)@.after(OptionCall::Define(k@, v@)),
            *final(self) == *final(r),
    {
        self.defines.push((String::from_str(k), String::from_str(v)));
        assert(pair_views(self.defines@) =~= pair_views(old(self).defines@).push((k@, v@)));
        self
    }

    /// Registers a dependency for this compilation on the native library
    /// built by Cargo previously.
    ///
    /// This registration will modify the `CMAKE_PREFIX_PATH` environment
    /// variable for the build system generation step.
    pub fn register_dep(&mut self, dep: &str) -> (r: &mut Config)
        ensures
            r@ == old(self)@.after(OptionCall::RegisterDep(dep@)),
            *final(self) == *final(r),
    {
        self.deps.push(String::from_str(dep));
        assert(views(self.deps@) =~= views(old(self).deps@).push(dep@));
        self
    }

    /// Sets the target triple for this compilation.
    ///
    /// Without it the `TARGET` variable, which Cargo sets for build
    /// scripts, is used.
    pub fn target(&mut self, target: &str) -> (r: &mut Config)
        ensures
            r@ == old(self)@.after(OptionCall::Target(target@)),
            *final(self) == *final(r),
    {
        self.target = Some(String::from_str(target));
        self
    }

    /// Sets the output directory for this compilation.
    ///
    /// Without it the `OUT_DIR` variable, which Cargo sets for build
    /// scripts, is used.
    pub fn out_dir(&mut self, out: &str) -> (r: &mut Config)
        ensures
            r@ == old(self)@.after(OptionCall::OutDir(out@)),
            *final(self) == *final(r),
    {
        self.out_dir = Some(String::from_str(out));
        self
    }

    /// Sets the profile for this compilation.
    ///
    /// Without it the build type is derived from the `PROFILE` variable,
    /// which Cargo sets for build scripts.
    pub fn profile(&mut self, profile: &str) -> (r: &mut Config)
        ensures
            r@ == old(self)@.after(OptionCall::Profile(profile@)),
            *final(self) == *final(r),
    {
        self.profile = Some(String::from_str(profile));
        self
    }

    /// Add an argument to the final `cmake` build step
    pub fn build_arg(&mut self, arg: &str) -> (r: &mut Config)
        ensures
            r@ == old(self)@.after(OptionCall::BuildArg(arg@)),
            *final(self) == *final(r),
    {
        self.build_args.push(String::from_str(arg));
        assert(views(self.build_args@) =~= views(old(self).build_args@).push(arg@));
        self
    }

    /// Plans the build with a compiler and a description of the installed
    /// Visual Studio tools that the caller has found.
    pub fn assemble(&self, ambient: &Ambient, cc: &Compiler, toolchain: &str) -> (r: Result<
        BuildPlan,
        BuildError,
    >)
        ensures
            outcome_view(r) == plan(self@, ambient@, cc@, toolchain@),
    {
        let target = match resolve(&self.target, lookup_var(&ambient.vars, "TARGET")) {
            Some(t) => t,
            None => {
                return Err(BuildError::MissingTarget);
            },
        };
        let dst = match resolve(&self.out_dir, lookup_var(&ambient.vars, "OUT_DIR")) {
            Some(d) => d,
            None => {
                return Err(BuildError::MissingOutDir);
            },
        };
        let gen = match select_generator(target.as_str(), toolchain) {
            Ok(g) => g,
            Err(e) => {
                return Err(e);
            },
        };
        let ambient_profile = lookup_var(&ambient.vars, "PROFILE");
        let profile = match resolve_build_type(
            &self.profile,
            &ambient_profile,
            is_msvc(target.as_str()),
        ) {
            Some(p) => p,
            None => {
                return Err(BuildError::MissingProfile);
            },
        };
        let generate = generate_command(
            self.path.as_str(),
            self.cflags.as_str(),
            &self.defines,
            &self.deps,
            ambient,
            cc,
            &gen,
            profile.as_str(),
            dst.as_str(),
        );
        let build = build_command(profile.as_str(), &self.build_args, dst.as_str());
        let build_dir = generate.dir.clone();
        Ok(BuildPlan { install_dir: dst, build_dir, generate, build })
    }

    /// Run this configuration as far as planning goes: find the compiler
    /// and, for an MSVC target, the installed Visual Studio tools, and give
    /// the two commands that generate the build system and build the
    /// library, with the directory that the library is installed into.
    ///
    /// What is found depends on the machine. Whatever it is, the result is
    /// the plan for it; without a target nothing is searched.
    pub fn build(&mut self, ambient: &Ambient) -> (r: Result<BuildPlan, BuildError>)
        ensures
            *final(self) == *old(self),
            or_ambient(old(self)@.target, lookup(ambient@.vars, "TARGET"@)) is None <==> (r matches Err(
                e,
            ) && e@ == BuildErrorView::MissingTarget),
            or_ambient(old(self)@.target, lookup(ambient@.vars, "TARGET"@)) is Some ==> (r matches Err(
                BuildError::CompilerUnresolved(_),
            )) || (exists|cc: CompilerView, toolchain: Seq<char>|
                outcome_view(r) == plan(old(self)@, ambient@, cc, toolchain)),
    {
        let target = match resolve(&self.target, lookup_var(&ambient.vars, "TARGET")) {
            Some(t) => t,
            None => {
                return Err(BuildError::MissingTarget);
            },
        };
        let tool = match resolve_tool() {
            Ok(t) => t,
            Err(e) => {
                return Err(BuildError::CompilerUnresolved(tool_error_text(&e)));
            },
        };
        let cc = Compiler { path: tool_path(&tool), flags: tool_flags(&tool) };
        let toolchain = installed_toolchain(target.as_str());
        let r = self.assemble(ambient, &cc, toolchain.as_str());
        assert(outcome_view(r) == plan(self@, ambient@, cc@, toolchain@));
        r
    }
}

} // verus!
