//! The decisions of a build: which target, directory, build type and
//! generator to use, where dependencies are searched, and what the two
//! `cmake` runs look like.

use vstd::prelude::*;
use vstd::string::*;
use crate::text::{
    contains, has_substring, join, join_list, join_path, joined_path, pair_views, split,
    split_list, spaced_all, push_spaced, upper, uppercase, views, opt_view,
};
use crate::model::{
    Ambient, AmbientView, BuildError, BuildErrorView, BuildPlanView, Compiler, CompilerView,
    Invocation, InvocationView,
};
use crate::config::ConfigView;
use crate::toolchain::describe_tool;

verus! {

/// The value of the first variable called `name`, if there is one.
pub open spec fn lookup(vars: Seq<(Seq<char>, Seq<char>)>, name: Seq<char>) -> Option<Seq<char>>
    decreases vars.len(),
{
    if vars.len() == 0 {
        None
    } else if vars[0].0 == name {
        Some(vars[0].1)
    } else {
        lookup(vars.subrange(1, vars.len() as int), name)
    }
}

/// An explicit setting where there is one, else the ambient value.
pub open spec fn or_ambient(explicit: Option<Seq<char>>, ambient: Option<Seq<char>>) -> Option<
    Seq<char>,
> {
    if explicit is Some {
        explicit
    } else {
        ambient
    }
}

/// Whether a target triple names the MSVC ABI.
pub open spec fn msvc_target(target: Seq<char>) -> bool {
    has_substring(target, "msvc"@)
}

/// The build type: the explicit profile as it is; else `Release` for the
/// ambient profiles `bench` and `release` and for every MSVC target, and
/// `Debug` otherwise. Without an explicit and an ambient profile, none.
pub open spec fn build_type(
    explicit: Option<Seq<char>>,
    ambient: Option<Seq<char>>,
    msvc: bool,
) -> Option<Seq<char>> {
    match explicit {
        Some(p) => Some(p),
        None => match ambient {
            None => None,
            Some(a) => if a == "bench"@ || a == "release"@ || msvc {
                Some("Release"@)
            } else {
                Some("Debug"@)
            },
        },
    }
}

/// The Visual Studio generator that a description of the installed tools
/// stands for, by the version it mentions.
pub open spec fn visual_studio_base(toolchain: Seq<char>) -> Option<Seq<char>> {
    if has_substring(toolchain, "12.0"@) {
        Some("Visual Studio 12 2013"@)
    } else if has_substring(toolchain, "14.0"@) {
        Some("Visual Studio 14 2015"@)
    } else {
        None
    }
}

/// Whether the generator for `target` depends on the installed Visual
/// Studio tools.
pub open spec fn wants_visual_studio(target: Seq<char>) -> bool {
    !has_substring(target, "windows-gnu"@) && msvc_target(target)
}

/// The Visual Studio generator for an MSVC target: the generator of the
/// installed version as it is for 32-bit x86, with ` Win64` after it for
/// 64-bit x86. An unknown version is reported before an unsupported target.
pub open spec fn visual_studio(target: Seq<char>, toolchain: Seq<char>) -> Result<
    Seq<char>,
    BuildErrorView,
> {
    match visual_studio_base(toolchain) {
        None => Err(BuildErrorView::UnknownVisualStudio(toolchain)),
        Some(base) => if has_substring(target, "i686"@) {
            Ok(base)
        } else if has_substring(target, "x86_64"@) {
            Ok(base + " Win64"@)
        } else {
            Err(BuildErrorView::UnsupportedMsvcTarget(target))
        },
    }
}

/// The generator to ask for: `MSYS Makefiles` for MinGW, whatever is
/// installed; a Visual Studio generator for MSVC; none elsewhere.
pub open spec fn generator(target: Seq<char>, toolchain: Seq<char>) -> Result<
    Option<Seq<char>>,
    BuildErrorView,
> {
    if has_substring(target, "windows-gnu"@) {
        Ok(Some("MSYS Makefiles"@))
    } else if msvc_target(target) {
        match visual_studio(target, toolchain) {
            Ok(g) => Ok(Some(g)),
            Err(e) => Err(e),
        }
    } else {
        Ok(None)
    }
}

/// The environment variable that names the root of the dependency `dep`.
pub open spec fn dep_root_var(dep: Seq<char>) -> Seq<char> {
    "DEP_"@ + upper(dep) + "_ROOT"@
}

/// The roots of the dependencies whose variable is set, in the order of
/// `deps`.
pub open spec fn dep_roots(deps: Seq<Seq<char>>, vars: Seq<(Seq<char>, Seq<char>)>) -> Seq<
    Seq<char>,
>
    decreases deps.len(),
{
    if deps.len() == 0 {
        Seq::empty()
    } else {
        let init = dep_roots(deps.drop_last(), vars);
        match lookup(vars, dep_root_var(deps.last())) {
            Some(root) => init.push(root),
            None => init,
        }
    }
}

/// The ambient search path: the entries of `CMAKE_PREFIX_PATH`, an unset
/// variable counting as an empty text.
pub open spec fn ambient_prefixes(amb: AmbientView) -> Seq<Seq<char>> {
    match lookup(amb.vars, "CMAKE_PREFIX_PATH"@) {
        Some(list) => split_list(list, amb.separator),
        None => split_list(Seq::empty(), amb.separator),
    }
}

/// Where dependencies are searched: the roots of the registered
/// dependencies, then the ambient search path.
pub open spec fn search_path(deps: Seq<Seq<char>>, amb: AmbientView) -> Seq<Seq<char>> {
    dep_roots(deps, amb.vars) + ambient_prefixes(amb)
}

/// One `-D<key>=<value>` argument.
pub open spec fn define_arg(key: Seq<char>, value: Seq<char>) -> Seq<char> {
    "-D"@ + key + "="@ + value
}

/// One `-D<key>=<value>` argument for each define, in order.
pub open spec fn define_args(defines: Seq<(Seq<char>, Seq<char>)>) -> Seq<Seq<char>> {
    Seq::new(defines.len(), |i: int| define_arg(defines[i].0, defines[i].1))
}

/// `-G` and the generator's name, where one is asked for.
pub open spec fn generator_args(generator: Option<Seq<char>>) -> Seq<Seq<char>> {
    match generator {
        Some(g) => seq!["-G"@, g],
        None => Seq::empty(),
    }
}

/// The four definitions that every generate step carries, in order.
pub open spec fn fixed_args(
    profile: Seq<char>,
    dst: Seq<char>,
    cflags: Seq<char>,
    cc: CompilerView,
) -> Seq<Seq<char>> {
    seq![
        "-DCMAKE_BUILD_TYPE="@ + profile,
        "-DCMAKE_INSTALL_PREFIX="@ + dst,
        "-DCMAKE_C_FLAGS="@ + spaced_all(cflags, cc.flags),
        "-DCMAKE_C_COMPILER="@ + cc.path,
    ]
}

/// The generate step: `cmake` on the project's absolute path, with the
/// generator if one is asked for, the four fixed definitions and the
/// user's defines, run in the build directory below `dst` with the search
/// path in `CMAKE_PREFIX_PATH`.
pub open spec fn generate_step(
    project: Seq<char>,
    cflags: Seq<char>,
    defines: Seq<(Seq<char>, Seq<char>)>,
    deps: Seq<Seq<char>>,
    amb: AmbientView,
    cc: CompilerView,
    generator: Option<Seq<char>>,
    profile: Seq<char>,
    dst: Seq<char>,
) -> InvocationView {
    InvocationView {
        program: "cmake"@,
        args: seq![joined_path(amb.current_dir, project)] + generator_args(generator)
            + fixed_args(profile, dst, cflags, cc) + define_args(defines),
        dir: joined_path(dst, "build"@),
        env: seq![("CMAKE_PREFIX_PATH"@, join_list(search_path(deps, amb), amb.separator))],
    }
}

/// The build step: `cmake --build . --target install --config <profile> --`
/// and the extra arguments, run in the build directory below `dst`.
pub open spec fn build_step(profile: Seq<char>, extra: Seq<Seq<char>>, dst: Seq<char>)
    -> InvocationView {
    InvocationView {
        program: "cmake"@,
        args: seq!["--build"@, "."@, "--target"@, "install"@, "--config"@, profile, "--"@]
            + extra,
        dir: joined_path(dst, "build"@),
        env: Seq::empty(),
    }
}

/// The whole plan for a configuration in given surroundings, with a given
/// compiler and a given description of the Visual Studio tools; or the
/// first thing that stands in its way.
pub open spec fn plan(cfg: ConfigView, amb: AmbientView, cc: CompilerView, toolchain: Seq<char>)
    -> Result<BuildPlanView, BuildErrorView> {
    match or_ambient(cfg.target, lookup(amb.vars, "TARGET"@)) {
        None => Err(BuildErrorView::MissingTarget),
        Some(target) => match or_ambient(cfg.out_dir, lookup(amb.vars, "OUT_DIR"@)) {
            None => Err(BuildErrorView::MissingOutDir),
            Some(dst) => match generator(target, toolchain) {
                Err(e) => Err(e),
                Ok(gen) => match build_type(
                    cfg.profile,
                    lookup(amb.vars, "PROFILE"@),
                    msvc_target(target),
                ) {
                    None => Err(BuildErrorView::MissingProfile),
                    Some(profile) => Ok(
                        BuildPlanView {
                            install_dir: dst,
                            build_dir: joined_path(dst, "build"@),
                            generate: generate_step(
                                cfg.path,
                                cfg.cflags,
                                cfg.defines,
                                cfg.deps,
                                amb,
                                cc,
                                gen,
                                profile,
                                dst,
                            ),
                            build: build_step(profile, cfg.build_args, dst),
                        },
                    ),
                },
            },
        },
    }
}

/// Looks a variable up by its name.
pub fn lookup_var(vars: &Vec<(String, String)>, name: &str) -> (r: Option<String>)
    ensures
        opt_view(r) == lookup(pair_views(vars@), name@),
{
    let wanted = String::from_str(name);
    let mut i: usize = 0;
    assert(pair_views(vars@).subrange(0, vars@.len() as int) =~= pair_views(vars@));
    while i < vars.len()
        invariant
            i <= vars.len(),
            wanted@ == name@,
            lookup(pair_views(vars@), name@) == lookup(
                pair_views(vars@).subrange(i as int, vars@.len() as int),
                name@,
            ),
        decreases vars.len() - i,
    {
        let ghost rest = pair_views(vars@).subrange(i as int, vars@.len() as int);
        assert(rest[0] == (vars@[i as int].0@, vars@[i as int].1@));
        assert(rest.subrange(1, rest.len() as int) =~= pair_views(vars@).subrange(
            i + 1,
            vars@.len() as int,
        ));
        if vars[i].0 == wanted {
            return Some(vars[i].1.clone());
        }
        i += 1;
    }
    None
}

/// An explicit setting where there is one, else the ambient value.
pub fn resolve(explicit: &Option<String>, ambient: Option<String>) -> (r: Option<String>)
    ensures
        opt_view(r) == or_ambient(opt_view(*explicit), opt_view(ambient)),
{
    match explicit {
        Some(s) => Some(s.clone()),
        None => ambient,
    }
}

/// Whether a target triple names the MSVC ABI.
pub fn is_msvc(target: &str) -> (r: bool)
    ensures
        r == msvc_target(target@),
{
    contains(target, "msvc")
}

/// The build type for an explicit profile, an ambient one and the target's
/// ABI.
pub fn resolve_build_type(explicit: &Option<String>, ambient: &Option<String>, msvc: bool) -> (r:
    Option<String>)
    ensures
        opt_view(r) == build_type(opt_view(*explicit), opt_view(*ambient), msvc),
{
    match explicit {
        Some(p) => Some(p.clone()),
        None => match ambient {
            None => None,
            Some(a) => {
                let bench = String::from_str("bench");
                let release = String::from_str("release");
                if *a == bench || *a == release || msvc {
                    Some(String::from_str("Release"))
                } else {
                    Some(String::from_str("Debug"))
                }
            },
        },
    }
}

/// Whether the generator for `target` depends on the installed Visual
/// Studio tools.
pub fn needs_visual_studio(target: &str) -> (r: bool)
    ensures
        r == wants_visual_studio(target@),
{
    !contains(target, "windows-gnu") && contains(target, "msvc")
}

/// A description of the installed Visual Studio tools where the generator
/// for `target` depends on them, and the empty text where it does not.
/// What is installed depends on the machine.
pub fn installed_toolchain(target: &str) -> (r: String)
    ensures
        !wants_visual_studio(target@) ==> r@ == Seq::<char>::empty(),
{
    if needs_visual_studio(target) {
        describe_tool(target, "cl.exe")
    } else {
        String::new()
    }
}

/// The Visual Studio generator for an MSVC target, from a description of
/// the installed tools.
pub fn visual_studio_generator(target: &str, toolchain: &str) -> (r: Result<String, BuildError>)
    ensures
        match r {
            Ok(g) => visual_studio(target@, toolchain@) == Ok::<Seq<char>, BuildErrorView>(g@),
            Err(e) => visual_studio(target@, toolchain@) == Err::<Seq<char>, BuildErrorView>(e@),
        },
{
    let base = if contains(toolchain, "12.0") {
        String::from_str("Visual Studio 12 2013")
    } else if contains(toolchain, "14.0") {
        String::from_str("Visual Studio 14 2015")
    } else {
        return Err(BuildError::UnknownVisualStudio(String::from_str(toolchain)));
    };
    if contains(target, "i686") {
        Ok(base)
    } else if contains(target, "x86_64") {
        Ok(base.concat(" Win64"))
    } else {
        Err(BuildError::UnsupportedMsvcTarget(String::from_str(target)))
    }
}

/// The generator to ask for, if any.
pub fn select_generator(target: &str, toolchain: &str) -> (r: Result<Option<String>, BuildError>)
    ensures
        match r {
            Ok(g) => generator(target@, toolchain@) == Ok::<Option<Seq<char>>, BuildErrorView>(
                opt_view(g),
            ),
            Err(e) => generator(target@, toolchain@) == Err::<Option<Seq<char>>, BuildErrorView>(
                e@,
            ),
        },
{
    if contains(target, "windows-gnu") {
        Ok(Some(String::from_str("MSYS Makefiles")))
    } else if is_msvc(target) {
        match visual_studio_generator(target, toolchain) {
            Ok(g) => Ok(Some(g)),
            Err(e) => Err(e),
        }
    } else {
        Ok(None)
    }
}

/// Appends one text to a list of texts.
pub fn push_text(list: &mut Vec<String>, text: String)
    ensures
        views(final(list)@) == views(old(list)@).push(text@),
{
    list.push(text);
    assert(views(list@) =~= views(old(list)@).push(text@));
}

/// Appends copies of the texts of `more` to a list of texts.
pub fn extend_texts(list: &mut Vec<String>, more: &Vec<String>)
    ensures
        views(final(list)@) == views(old(list)@) + views(more@),
{
    let mut i: usize = 0;
    assert(views(list@) =~= views(old(list)@) + views(more@).subrange(0, 0));
    while i < more.len()
        invariant
            i <= more.len(),
            views(list@) == views(old(list)@) + views(more@).subrange(0, i as int),
        decreases more.len() - i,
    {
        push_text(list, more[i].clone());
        i += 1;
        assert(views(list@) =~= views(old(list)@) + views(more@).subrange(0, i as int));
    }
    assert(views(more@).subrange(0, i as int) =~= views(more@));
}

/// The name of the variable that holds the root of the dependency `dep`.
pub fn dependency_variable(dep: &str) -> (r: String)
    ensures
        r@ == dep_root_var(dep@),
{
    let mut r = String::from_str("DEP_");
    let up = uppercase(dep);
    r.append(up.as_str());
    r.append("_ROOT");
    r
}

/// The roots of the dependencies whose variable is set, in the order of
/// `deps`.
pub fn dependency_roots(deps: &Vec<String>, vars: &Vec<(String, String)>) -> (r: Vec<String>)
    ensures
        views(r@) == dep_roots(views(deps@), pair_views(vars@)),
{
    let mut r: Vec<String> = Vec::new();
    let mut i: usize = 0;
    assert(views(deps@).subrange(0, 0) =~= Seq::<Seq<char>>::empty());
    assert(views(r@) =~= Seq::<Seq<char>>::empty());
    while i < deps.len()
        invariant
            i <= deps.len(),
            views(r@) == dep_roots(views(deps@).subrange(0, i as int), pair_views(vars@)),
        decreases deps.len() - i,
    {
        let ghost now = views(deps@).subrange(0, i + 1);
        assert(now.drop_last() =~= views(deps@).subrange(0, i as int));
        assert(now.last() == deps@[i as int]@);
        let name = dependency_variable(deps[i].as_str());
        match lookup_var(vars, name.as_str()) {
            Some(root) => {
                push_text(&mut r, root);
            },
            None => {},
        }
        i += 1;
    }
    assert(views(deps@).subrange(0, i as int) =~= views(deps@));
    r
}

/// Where dependencies are searched: the roots of the registered
/// dependencies, then the entries of the ambient `CMAKE_PREFIX_PATH`.
pub fn dependency_search_path(deps: &Vec<String>, amb: &Ambient) -> (r: Vec<String>)
    ensures
        views(r@) == search_path(views(deps@), amb@),
{
    let mut r = dependency_roots(deps, &amb.vars);
    let listed = match lookup_var(&amb.vars, "CMAKE_PREFIX_PATH") {
        Some(list) => split(list.as_str(), amb.separator),
        None => split("", amb.separator),
    };
    proof {
        assert(""@.len() == 0) by {
            reveal_strlit("");
        }
        assert(""@ =~= Seq::<char>::empty());
    }
    extend_texts(&mut r, &listed);
    r
}

/// One `-D<key>=<value>` argument for each define, in order.
pub fn define_flags(defines: &Vec<(String, String)>) -> (r: Vec<String>)
    ensures
        views(r@) == define_args(pair_views(defines@)),
{
    let mut r: Vec<String> = Vec::new();
    let mut i: usize = 0;
    while i < defines.len()
        invariant
            i <= defines.len(),
            views(r@) == define_args(pair_views(defines@)).subrange(0, i as int),
        decreases defines.len() - i,
    {
        let mut arg = String::from_str("-D");
        arg.append(defines[i].0.as_str());
        arg.append("=");
        arg.append(defines[i].1.as_str());
        push_text(&mut r, arg);
        i += 1;
        assert(views(r@) =~= define_args(pair_views(defines@)).subrange(0, i as int));
    }
    assert(define_args(pair_views(defines@)).subrange(0, i as int) =~= define_args(
        pair_views(defines@),
    ));
    r
}

/// The compiler flags to hand on: the custom flags, then the compiler's
/// own, with single spaces between them.
pub fn merged_cflags(cflags: &str, cc: &Compiler) -> (r: String)
    ensures
        r@ == spaced_all(cflags@, views(cc.flags@)),
{
    let mut r = String::from_str(cflags);
    let mut i: usize = 0;
    assert(views(cc.flags@).subrange(0, 0) =~= Seq::<Seq<char>>::empty());
    while i < cc.flags.len()
        invariant
            i <= cc.flags.len(),
            r@ == spaced_all(cflags@, views(cc.flags@).subrange(0, i as int)),
        decreases cc.flags.len() - i,
    {
        let ghost now = views(cc.flags@).subrange(0, i + 1);
        assert(now.drop_last() =~= views(cc.flags@).subrange(0, i as int));
        assert(now.last() == cc.flags@[i as int]@);
        push_spaced(&mut r, cc.flags[i].as_str());
        i += 1;
    }
    assert(views(cc.flags@).subrange(0, i as int) =~= views(cc.flags@));
    r
}

/// `prefix` followed by `value`.
fn prefixed(prefix: &str, value: &str) -> (r: String)
    ensures
        r@ == prefix@ + value@,
{
    let mut r = String::from_str(prefix);
    r.append(value);
    r
}

/// The generate step.
pub fn generate_command(
    project: &str,
    cflags: &str,
    defines: &Vec<(String, String)>,
    deps: &Vec<String>,
    amb: &Ambient,
    cc: &Compiler,
    generator: &Option<String>,
    profile: &str,
    dst: &str,
) -> (r: Invocation)
    ensures
        r@ == generate_step(
            project@,
            cflags@,
            pair_views(defines@),
            views(deps@),
            amb@,
            cc@,
            opt_view(*generator),
            profile@,
            dst@,
        ),
{
    let mut args: Vec<String> = Vec::new();
    assert(views(args@) =~= Seq::<Seq<char>>::empty());
    push_text(&mut args, join_path(amb.current_dir.as_str(), project));
    match generator {
        Some(g) => {
            push_text(&mut args, String::from_str("-G"));
            push_text(&mut args, g.clone());
        },
        None => {},
    }
    assert(views(args@) =~= seq![joined_path(amb@.current_dir, project@)] + generator_args(
        opt_view(*generator),
    ));
    let all_flags = merged_cflags(cflags, cc);
    push_text(&mut args, prefixed("-DCMAKE_BUILD_TYPE=", profile));
    push_text(&mut args, prefixed("-DCMAKE_INSTALL_PREFIX=", dst));
    push_text(&mut args, prefixed("-DCMAKE_C_FLAGS=", all_flags.as_str()));
    push_text(&mut args, prefixed("-DCMAKE_C_COMPILER=", cc.path.as_str()));
    assert(views(args@) =~= seq![joined_path(amb@.current_dir, project@)] + generator_args(
        opt_view(*generator),
    ) + fixed_args(profile@, dst@, cflags@, cc@));
    let flags = define_flags(defines);
    extend_texts(&mut args, &flags);
    let listed = dependency_search_path(deps, amb);
    let mut env: Vec<(String, String)> = Vec::new();
    env.push((String::from_str("CMAKE_PREFIX_PATH"), join(&listed, amb.separator)));
    let r = Invocation {
        program: String::from_str("cmake"),
        args,
        dir: join_path(dst, "build"),
        env,
    };
    assert(r@.env =~= seq![
        ("CMAKE_PREFIX_PATH"@, join_list(search_path(views(deps@), amb@), amb@.separator)),
    ]);
    r
}

/// The build step.
pub fn build_command(profile: &str, extra: &Vec<String>, dst: &str) -> (r: Invocation)
    ensures
        r@ == build_step(profile@, views(extra@), dst@),
{
    let mut args: Vec<String> = Vec::new();
    assert(views(args@) =~= Seq::<Seq<char>>::empty());
    push_text(&mut args, String::from_str("--build"));
    push_text(&mut args, String::from_str("."));
    push_text(&mut args, String::from_str("--target"));
    push_text(&mut args, String::from_str("install"));
    push_text(&mut args, String::from_str("--config"));
    push_text(&mut args, String::from_str(profile));
    push_text(&mut args, String::from_str("--"));
    assert(views(args@) =~= seq![
        "--build"@,
        "."@,
        "--target"@,
        "install"@,
        "--config"@,
        profile@,
        "--"@,
    ]);
    extend_texts(&mut args, extra);
    let r = Invocation {
        program: String::from_str("cmake"),
        args,
        dir: join_path(dst, "build"),
        env: Vec::new(),
    };
    assert(r@.env =~= Seq::empty());
    r
}

} // verus!
