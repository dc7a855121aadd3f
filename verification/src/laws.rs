//! What holds of the planner as a whole.

use vstd::prelude::*;
use crate::config::{ConfigView, OptionCall};
use crate::model::{AmbientView, BuildErrorView, BuildPlan, BuildPlanView, CompilerView};
use crate::run::{DirOutcome, RunOutcome};
use crate::session::{next_stage, Event, Stage};
use crate::plan::{
    ambient_prefixes, build_type, define_arg, dep_root_var, dep_roots, generator, lookup,
    or_ambient, plan, search_path, wants_visual_studio,
};
use crate::text::has_substring;

verus! {

/// The defines that a sequence of calls makes: one pair for each call
/// that adds a define, in the order of the calls.
pub open spec fn defined_by(calls: Seq<OptionCall>) -> Seq<(Seq<char>, Seq<char>)>
    decreases calls.len(),
{
    if calls.len() == 0 {
        Seq::empty()
    } else {
        match calls.last() {
            OptionCall::Define(k, v) => defined_by(calls.drop_last()).push((k, v)),
            _ => defined_by(calls.drop_last()),
        }
    }
}

/// After any sequence of option calls a configuration holds the defines it
/// held before, followed by one pair for each call that added a define, in
/// call order; nothing is dropped and nothing is merged.
pub proof fn lemma_defines_follow_calls(start: ConfigView, calls: Seq<OptionCall>)
    ensures
        start.after_all(calls).defines == start.defines + defined_by(calls),
    decreases calls.len(),
{
    if calls.len() == 0 {
        assert(start.defines + defined_by(calls) =~= start.defines);
    } else {
        lemma_defines_follow_calls(start, calls.drop_last());
        let before = start.after_all(calls.drop_last());
        assert(before.after(calls.last()).defines =~= start.defines + defined_by(calls));
    }
}

/// The generate step of every plan ends in exactly one `-D<key>=<value>`
/// argument for each define of the configuration, in the configuration's
/// order, and no other argument of that step comes from a define.
pub proof fn lemma_defines_emitted(
    cfg: ConfigView,
    amb: AmbientView,
    cc: CompilerView,
    toolchain: Seq<char>,
)
    requires
        plan(cfg, amb, cc, toolchain) is Ok,
    ensures
        ({
            let args = plan(cfg, amb, cc, toolchain)->Ok_0.generate.args;
            let n = cfg.defines.len();
            &&& args.len() >= n + 5
            &&& args.len() <= n + 7
            &&& forall|i: int|
                0 <= i < n ==> #[trigger] args[args.len() - n + i] == define_arg(
                    cfg.defines[i].0,
                    cfg.defines[i].1,
                )
        }),
{
}

/// A configuration made from a blank one by any sequence of option calls
/// gives a generate step that ends in one `-D<key>=<value>` argument for
/// each call that added a define, in call order.
pub proof fn lemma_define_calls_emitted(
    path: Seq<char>,
    calls: Seq<OptionCall>,
    amb: AmbientView,
    cc: CompilerView,
    toolchain: Seq<char>,
)
    requires
        plan(ConfigView::blank(path).after_all(calls), amb, cc, toolchain) is Ok,
    ensures
        ({
            let cfg = ConfigView::blank(path).after_all(calls);
            let args = plan(cfg, amb, cc, toolchain)->Ok_0.generate.args;
            let made = defined_by(calls);
            &&& args.len() >= made.len() + 5
            &&& forall|i: int|
                0 <= i < made.len() ==> #[trigger] args[args.len() - made.len() + i]
                    == define_arg(made[i].0, made[i].1)
        }),
{
    let cfg = ConfigView::blank(path).after_all(calls);
    lemma_defines_follow_calls(ConfigView::blank(path), calls);
    assert(cfg.defines =~= defined_by(calls));
    lemma_defines_emitted(cfg, amb, cc, toolchain);
}

/// Two builds planned from the same configuration in the same
/// surroundings, with the same compiler and tools found, give the same
/// two commands, or fail in the same way.
pub proof fn lemma_plan_repeatable(
    first: Result<BuildPlanView, BuildErrorView>,
    second: Result<BuildPlanView, BuildErrorView>,
    cfg: ConfigView,
    amb: AmbientView,
    cc: CompilerView,
    toolchain: Seq<char>,
)
    requires
        first == plan(cfg, amb, cc, toolchain),
        second == plan(cfg, amb, cc, toolchain),
    ensures
        first == second,
{
}

/// The build type depends on nothing but the explicit profile, the
/// ambient profile and the target's ABI: an explicit profile is taken as
/// it is; without one, the ambient profiles `bench` and `release` and
/// every MSVC target give `Release`, and everything else gives `Debug`.
pub proof fn lemma_build_type_cases(
    explicit: Option<Seq<char>>,
    ambient: Option<Seq<char>>,
    msvc: bool,
)
    ensures
        explicit is Some ==> build_type(explicit, ambient, msvc) == explicit,
        explicit is None && ambient is None ==> build_type(explicit, ambient, msvc) is None,
        explicit is None && ambient is Some && (msvc || ambient->0 == "bench"@ || ambient->0
            == "release"@) ==> build_type(explicit, ambient, msvc) == Some("Release"@),
        explicit is None && ambient is Some && !msvc && ambient->0 != "bench"@ && ambient->0
            != "release"@ ==> build_type(explicit, ambient, msvc) == Some("Debug"@),
{
}

/// For a MinGW target the generator is `MSYS Makefiles`, whatever tools
/// are installed.
pub proof fn lemma_mingw_generator(target: Seq<char>, toolchain: Seq<char>)
    requires
        has_substring(target, "windows-gnu"@),
    ensures
        generator(target, toolchain) == Ok::<Option<Seq<char>>, BuildErrorView>(
            Some("MSYS Makefiles"@),
        ),
{
}

/// Where the generator does not depend on the installed Visual Studio
/// tools, neither does the plan: any two descriptions of them give the
/// same result.
pub proof fn lemma_toolchain_matters_for_msvc_only(
    cfg: ConfigView,
    amb: AmbientView,
    cc: CompilerView,
    one: Seq<char>,
    other: Seq<char>,
)
    requires
        or_ambient(cfg.target, lookup(amb.vars, "TARGET"@)) matches Some(target)
            ==> !wants_visual_studio(target),
    ensures
        plan(cfg, amb, cc, one) == plan(cfg, amb, cc, other),
{
}

/// The search path starts with the roots of the registered dependencies
/// and ends with the ambient entries; no dependency adds more than one
/// entry.
pub proof fn lemma_search_path_shape(deps: Seq<Seq<char>>, amb: AmbientView)
    ensures
        dep_roots(deps, amb.vars).len() <= deps.len(),
        search_path(deps, amb).len() == dep_roots(deps, amb.vars).len() + ambient_prefixes(
            amb,
        ).len(),
        search_path(deps, amb).subrange(0, dep_roots(deps, amb.vars).len() as int)
            == dep_roots(deps, amb.vars),
        search_path(deps, amb).subrange(
            dep_roots(deps, amb.vars).len() as int,
            search_path(deps, amb).len() as int,
        ) == ambient_prefixes(amb),
    decreases deps.len(),
{
    lemma_dep_roots_bounded(deps, amb.vars);
    let roots = dep_roots(deps, amb.vars);
    let all = search_path(deps, amb);
    assert(all.subrange(0, roots.len() as int) =~= roots);
    assert(all.subrange(roots.len() as int, all.len() as int) =~= ambient_prefixes(amb));
}

/// Registering a dependency whose root variable is set adds that root
/// after the roots found so far; one whose variable is unset adds nothing.
pub proof fn lemma_dep_roots_step(
    deps: Seq<Seq<char>>,
    dep: Seq<char>,
    vars: Seq<(Seq<char>, Seq<char>)>,
)
    ensures
        dep_roots(deps.push(dep), vars) == (match lookup(vars, dep_root_var(dep)) {
            Some(root) => dep_roots(deps, vars).push(root),
            None => dep_roots(deps, vars),
        }),
{
    assert(deps.push(dep).drop_last() =~= deps);
}

/// There are at most as many roots as dependencies.
pub proof fn lemma_dep_roots_bounded(deps: Seq<Seq<char>>, vars: Seq<(Seq<char>, Seq<char>)>)
    ensures
        dep_roots(deps, vars).len() <= deps.len(),
    decreases deps.len(),
{
    if deps.len() > 0 {
        lemma_dep_roots_bounded(deps.drop_last(), vars);
    }
}

/// A build directory that is there already does not fail a build: the
/// generate step is due next, as after creating it.
pub proof fn lemma_existing_build_dir_goes_on(plan: BuildPlan)
    ensures
        next_stage(plan, Stage::CreateDir, Event::Dir(DirOutcome::AlreadyExists)) == Ok::<
            Stage,
            BuildErrorView,
        >(Stage::Generate),
        next_stage(plan, Stage::CreateDir, Event::Dir(DirOutcome::Created)) == Ok::<
            Stage,
            BuildErrorView,
        >(Stage::Generate),
{
}

/// A build ends well only through a build step that exited successfully,
/// and the build step is due only after a generate step that did.
pub proof fn lemma_done_needs_success(plan: BuildPlan, stage: Stage, event: Event)
    requires
        stage != Stage::Done,
    ensures
        next_stage(plan, stage, event) == Ok::<Stage, BuildErrorView>(Stage::Done) ==> stage
            == Stage::Build && (event matches Event::Ran(
            RunOutcome::Exited { success: true, .. },
        )),
        stage != Stage::Build && next_stage(plan, stage, event) == Ok::<Stage, BuildErrorView>(
            Stage::Build,
        ) ==> stage == Stage::Generate && (event matches Event::Ran(
            RunOutcome::Exited { success: true, .. },
        )),
{
}

} // verus!
