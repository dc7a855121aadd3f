use cmake::config::Config;
use cmake::model::{Ambient, BuildError, Compiler, Invocation};
use cmake::plan::{
    build_command, define_flags, dependency_roots, dependency_search_path, dependency_variable,
    generate_command, installed_toolchain, is_msvc, lookup_var, merged_cflags,
    needs_visual_studio, resolve, resolve_build_type, select_generator, visual_studio_generator,
};
use cmake::text::join;

fn owned(items: &[&str]) -> Vec<String> {
    items.iter().map(|s| s.to_string()).collect()
}

fn pairs(items: &[(&str, &str)]) -> Vec<(String, String)> {
    items.iter().map(|(k, v)| (k.to_string(), v.to_string())).collect()
}

fn ambient(vars: &[(&str, &str)]) -> Ambient {
    Ambient { vars: pairs(vars), separator: ':', current_dir: "/abs".to_string() }
}

fn linux() -> Ambient {
    ambient(&[
        ("TARGET", "x86_64-unknown-linux-gnu"),
        ("OUT_DIR", "/tmp/out"),
        ("PROFILE", "release"),
    ])
}

fn compiler() -> Compiler {
    Compiler { path: "/usr/bin/cc".to_string(), flags: owned(&["-O2", "-fPIC"]) }
}

fn text(s: &str) -> Option<String> {
    Some(s.to_string())
}

#[test]
fn build_type_release_for_bench_and_release() {
    assert_eq!(resolve_build_type(&None, &text("bench"), false), text("Release"));
    assert_eq!(resolve_build_type(&None, &text("release"), false), text("Release"));
}

#[test]
fn build_type_release_for_msvc_whatever_the_profile() {
    assert_eq!(resolve_build_type(&None, &text("debug"), true), text("Release"));
    assert_eq!(resolve_build_type(&None, &text("anything"), true), text("Release"));
}

#[test]
fn build_type_debug_otherwise() {
    assert_eq!(resolve_build_type(&None, &text("debug"), false), text("Debug"));
    assert_eq!(resolve_build_type(&None, &text("Release"), false), text("Debug"));
    assert_eq!(resolve_build_type(&None, &text(""), false), text("Debug"));
}

#[test]
fn build_type_explicit_profile_is_taken_as_it_is() {
    assert_eq!(resolve_build_type(&text("release"), &text("debug"), false), text("release"));
    assert_eq!(resolve_build_type(&text("RelWithDebInfo"), &None, true), text("RelWithDebInfo"));
    assert_eq!(resolve_build_type(&text("Release"), &text("debug"), false), text("Release"));
}

#[test]
fn build_type_needs_a_profile_from_somewhere() {
    assert_eq!(resolve_build_type(&None, &None, false), None);
    assert_eq!(resolve_build_type(&None, &None, true), None);
}

#[test]
fn generator_for_mingw_is_msys_makefiles() {
    assert_eq!(select_generator("x86_64-pc-windows-gnu", ""), Ok(text("MSYS Makefiles")));
    assert_eq!(select_generator("i686-pc-windows-gnu", "14.0"), Ok(text("MSYS Makefiles")));
    assert_eq!(select_generator("x86_64-msvc-windows-gnu", "None"), Ok(text("MSYS Makefiles")));
}

#[test]
fn generator_for_msvc_64_bit() {
    assert_eq!(
        select_generator("x86_64-pc-windows-msvc", "Some(\"C:\\\\VS 14.0\\\\cl.exe\")"),
        Ok(text("Visual Studio 14 2015 Win64"))
    );
    assert_eq!(
        select_generator("x86_64-pc-windows-msvc", "12.0"),
        Ok(text("Visual Studio 12 2013 Win64"))
    );
}

#[test]
fn generator_for_msvc_32_bit() {
    assert_eq!(
        select_generator("i686-pc-windows-msvc", "Microsoft Visual Studio 12.0"),
        Ok(text("Visual Studio 12 2013"))
    );
    assert_eq!(
        select_generator("i686-pc-windows-msvc", "14.0"),
        Ok(text("Visual Studio 14 2015"))
    );
}

#[test]
fn generator_prefers_the_older_version_when_both_are_named() {
    assert_eq!(
        select_generator("i686-pc-windows-msvc", "14.0 and 12.0"),
        Ok(text("Visual Studio 12 2013"))
    );
}

#[test]
fn generator_unknown_visual_studio() {
    assert_eq!(
        select_generator("x86_64-pc-windows-msvc", "None"),
        Err(BuildError::UnknownVisualStudio("None".to_string()))
    );
    assert_eq!(
        select_generator("aarch64-pc-windows-msvc", "15.0"),
        Err(BuildError::UnknownVisualStudio("15.0".to_string()))
    );
}

#[test]
fn generator_unsupported_msvc_target() {
    assert_eq!(
        select_generator("aarch64-pc-windows-msvc", "14.0"),
        Err(BuildError::UnsupportedMsvcTarget("aarch64-pc-windows-msvc".to_string()))
    );
    assert_eq!(
        visual_studio_generator("aarch64-pc-windows-msvc", "12.0"),
        Err(BuildError::UnsupportedMsvcTarget("aarch64-pc-windows-msvc".to_string()))
    );
}

#[test]
fn generator_none_elsewhere() {
    assert_eq!(select_generator("x86_64-unknown-linux-gnu", "14.0"), Ok(None));
    assert_eq!(select_generator("x86_64-apple-darwin", ""), Ok(None));
}

#[test]
fn msvc_is_told_by_the_triple() {
    assert!(is_msvc("x86_64-pc-windows-msvc"));
    assert!(!is_msvc("x86_64-pc-windows-gnu"));
    assert!(needs_visual_studio("i686-pc-windows-msvc"));
    assert!(!needs_visual_studio("x86_64-pc-windows-gnu"));
    assert!(!needs_visual_studio("x86_64-unknown-linux-gnu"));
}

#[test]
fn installed_toolchain_is_empty_where_no_visual_studio_is_needed() {
    assert_eq!(installed_toolchain("x86_64-unknown-linux-gnu"), "");
    assert_eq!(installed_toolchain("x86_64-pc-windows-gnu"), "");
}

#[test]
fn installed_toolchain_describes_what_the_search_found() {
    let found = installed_toolchain("x86_64-pc-windows-msvc");
    assert_ne!(found, "x86_64-pc-windows-msvc");
    assert!(found == "None" || found.starts_with("Some("));
}

#[test]
fn lookup_takes_the_first_variable_of_that_name() {
    let vars = pairs(&[("A", "1"), ("B", "2"), ("A", "3")]);
    assert_eq!(lookup_var(&vars, "A"), text("1"));
    assert_eq!(lookup_var(&vars, "B"), text("2"));
    assert_eq!(lookup_var(&vars, "C"), None);
    assert_eq!(lookup_var(&Vec::new(), "A"), None);
}

#[test]
fn resolve_prefers_the_explicit_setting() {
    assert_eq!(resolve(&text("a"), text("b")), text("a"));
    assert_eq!(resolve(&None, text("b")), text("b"));
    assert_eq!(resolve(&text("a"), None), text("a"));
    assert_eq!(resolve(&None, None), None);
}

#[test]
fn dependency_variable_is_upper_case() {
    assert_eq!(dependency_variable("foo"), "DEP_FOO_ROOT");
    assert_eq!(dependency_variable("Z"), "DEP_Z_ROOT");
    assert_eq!(dependency_variable(""), "DEP__ROOT");
}

#[test]
fn search_path_has_set_roots_then_ambient_entries() {
    let amb = ambient(&[("DEP_FOO_ROOT", "/a"), ("CMAKE_PREFIX_PATH", "/c:/d")]);
    let deps = owned(&["foo", "bar"]);
    assert_eq!(dependency_roots(&deps, &amb.vars), owned(&["/a"]));
    let merged = dependency_search_path(&deps, &amb);
    assert_eq!(merged, owned(&["/a", "/c", "/d"]));
    assert_eq!(join(&merged, ':'), "/a:/c:/d");
}

#[test]
fn search_path_keeps_order_and_duplicates_of_dependencies() {
    let amb = ambient(&[
        ("DEP_B_ROOT", "/b"),
        ("DEP_A_ROOT", "/a"),
        ("CMAKE_PREFIX_PATH", "/p"),
    ]);
    let merged = dependency_search_path(&owned(&["a", "b", "a"]), &amb);
    assert_eq!(merged, owned(&["/a", "/b", "/a", "/p"]));
}

#[test]
fn search_path_without_ambient_list_ends_in_one_empty_entry() {
    let amb = ambient(&[("DEP_FOO_ROOT", "/a")]);
    assert_eq!(dependency_search_path(&owned(&["foo"]), &amb), owned(&["/a", ""]));
    assert_eq!(dependency_search_path(&owned(&[]), &amb), owned(&[""]));
}

#[test]
fn define_flags_one_per_define_in_order() {
    let defines = pairs(&[("FOO", "BAR"), ("A", "1"), ("FOO", "BAR"), ("E", ""), ("Q", "a b")]);
    assert_eq!(
        define_flags(&defines),
        owned(&["-DFOO=BAR", "-DA=1", "-DFOO=BAR", "-DE=", "-DQ=a b"])
    );
    assert_eq!(define_flags(&Vec::new()), owned(&[]));
}

#[test]
fn merged_cflags_custom_then_compiler() {
    assert_eq!(merged_cflags("-foo", &compiler()), "-foo -O2 -fPIC");
    assert_eq!(merged_cflags("", &compiler()), "-O2 -fPIC");
    let bare = Compiler { path: "cc".to_string(), flags: Vec::new() };
    assert_eq!(merged_cflags("-foo -bar", &bare), "-foo -bar");
    assert_eq!(merged_cflags("", &bare), "");
}

#[test]
fn generate_command_with_generator() {
    let amb = ambient(&[("CMAKE_PREFIX_PATH", "/p")]);
    let cmd = generate_command(
        "lib",
        "",
        &pairs(&[("K", "V")]),
        &owned(&[]),
        &amb,
        &compiler(),
        &text("MSYS Makefiles"),
        "Debug",
        "/o",
    );
    assert_eq!(
        cmd,
        Invocation {
            program: "cmake".to_string(),
            args: owned(&[
                "/abs/lib",
                "-G",
                "MSYS Makefiles",
                "-DCMAKE_BUILD_TYPE=Debug",
                "-DCMAKE_INSTALL_PREFIX=/o",
                "-DCMAKE_C_FLAGS=-O2 -fPIC",
                "-DCMAKE_C_COMPILER=/usr/bin/cc",
                "-DK=V",
            ]),
            dir: "/o/build".to_string(),
            env: pairs(&[("CMAKE_PREFIX_PATH", "/p")]),
        }
    );
}

#[test]
fn build_command_forwards_extra_arguments_in_order() {
    let cmd = build_command("Debug", &owned(&["-j4", "VERBOSE=1"]), "/o");
    assert_eq!(
        cmd,
        Invocation {
            program: "cmake".to_string(),
            args: owned(&[
                "--build", ".", "--target", "install", "--config", "Debug", "--", "-j4",
                "VERBOSE=1",
            ]),
            dir: "/o/build".to_string(),
            env: Vec::new(),
        }
    );
}

#[test]
fn end_to_end_on_linux() {
    let mut config = Config::new("libfoo");
    config.define("FOO", "BAR").cflag("-foo");
    let plan = config.assemble(&linux(), &compiler(), "").unwrap();
    assert_eq!(plan.generate.program, "cmake");
    assert_eq!(
        plan.generate.args,
        owned(&[
            "/abs/libfoo",
            "-DCMAKE_BUILD_TYPE=Release",
            "-DCMAKE_INSTALL_PREFIX=/tmp/out",
            "-DCMAKE_C_FLAGS=-foo -O2 -fPIC",
            "-DCMAKE_C_COMPILER=/usr/bin/cc",
            "-DFOO=BAR",
        ])
    );
    assert_eq!(plan.generate.dir, "/tmp/out/build");
    assert_eq!(plan.generate.env, pairs(&[("CMAKE_PREFIX_PATH", "")]));
    assert_eq!(plan.build.program, "cmake");
    assert_eq!(
        plan.build.args,
        owned(&["--build", ".", "--target", "install", "--config", "Release", "--"])
    );
    assert_eq!(plan.build.dir, "/tmp/out/build");
    assert_eq!(plan.build.env, Vec::new());
    assert_eq!(plan.build_dir, "/tmp/out/build");
    assert_eq!(plan.install_dir, "/tmp/out");
}

#[test]
fn every_define_call_is_emitted_once_in_call_order() {
    let mut config = Config::new("lib");
    config
        .define("A", "1")
        .cflag("-x")
        .define("B", "2")
        .register_dep("z")
        .define("A", "1")
        .build_arg("-j2")
        .define("A", "other");
    let plan = config.assemble(&linux(), &compiler(), "").unwrap();
    let args = plan.generate.args;
    assert_eq!(args.len(), 5 + 4);
    assert_eq!(args[5..].to_vec(), owned(&["-DA=1", "-DB=2", "-DA=1", "-DA=other"]));
    assert_eq!(args.iter().filter(|a| a.as_str() == "-DA=1").count(), 2);
}

#[test]
fn setters_override_the_ambient_values() {
    let mut config = Config::new("/src/lib");
    config
        .target("i686-pc-windows-msvc")
        .out_dir("/elsewhere")
        .profile("MinSizeRel")
        .target("x86_64-pc-windows-gnu")
        .build_arg("a")
        .build_arg("b")
        .cflag("-one")
        .cflag("-two");
    let plan = config.assemble(&linux(), &compiler(), "").unwrap();
    assert_eq!(
        plan.generate.args,
        owned(&[
            "/src/lib",
            "-G",
            "MSYS Makefiles",
            "-DCMAKE_BUILD_TYPE=MinSizeRel",
            "-DCMAKE_INSTALL_PREFIX=/elsewhere",
            "-DCMAKE_C_FLAGS=-one -two -O2 -fPIC",
            "-DCMAKE_C_COMPILER=/usr/bin/cc",
        ])
    );
    assert_eq!(plan.generate.dir, "/elsewhere/build");
    assert_eq!(
        plan.build.args,
        owned(&["--build", ".", "--target", "install", "--config", "MinSizeRel", "--", "a", "b"])
    );
    assert_eq!(plan.install_dir, "/elsewhere");
}

#[test]
fn msvc_plan_uses_release_and_the_visual_studio_generator() {
    let amb = ambient(&[
        ("TARGET", "x86_64-pc-windows-msvc"),
        ("OUT_DIR", "/o"),
        ("PROFILE", "debug"),
    ]);
    let plan = Config::new("lib").assemble(&amb, &compiler(), "VC 14.0 cl.exe").unwrap();
    assert_eq!(plan.generate.args[1], "-G");
    assert_eq!(plan.generate.args[2], "Visual Studio 14 2015 Win64");
    assert_eq!(plan.generate.args[3], "-DCMAKE_BUILD_TYPE=Release");
    assert_eq!(plan.build.args[5], "Release");
}

#[test]
fn registered_dependencies_reach_the_generate_step() {
    let amb = ambient(&[
        ("TARGET", "x86_64-unknown-linux-gnu"),
        ("OUT_DIR", "/o"),
        ("PROFILE", "debug"),
        ("DEP_FOO_ROOT", "/a"),
        ("CMAKE_PREFIX_PATH", "/c:/d"),
    ]);
    let mut config = Config::new("lib");
    config.register_dep("foo").register_dep("bar");
    let plan = config.assemble(&amb, &compiler(), "").unwrap();
    assert_eq!(plan.generate.env, pairs(&[("CMAKE_PREFIX_PATH", "/a:/c:/d")]));
    assert_eq!(plan.generate.args[1], "-DCMAKE_BUILD_TYPE=Debug");
}

#[test]
fn missing_target_is_reported_first() {
    let amb = ambient(&[]);
    assert_eq!(Config::new("lib").assemble(&amb, &compiler(), ""), Err(BuildError::MissingTarget));
    assert_eq!(Config::new("lib").build(&amb), Err(BuildError::MissingTarget));
    assert_eq!(cmake::build("lib", &amb), Err(BuildError::MissingTarget));
}

#[test]
fn missing_out_dir_is_reported() {
    let amb = ambient(&[("TARGET", "x86_64-unknown-linux-gnu"), ("PROFILE", "debug")]);
    assert_eq!(Config::new("lib").assemble(&amb, &compiler(), ""), Err(BuildError::MissingOutDir));
}

#[test]
fn missing_profile_is_reported() {
    let amb = ambient(&[("TARGET", "x86_64-unknown-linux-gnu"), ("OUT_DIR", "/o")]);
    assert_eq!(
        Config::new("lib").assemble(&amb, &compiler(), ""),
        Err(BuildError::MissingProfile)
    );
    let mut config = Config::new("lib");
    config.profile("Debug");
    assert!(config.assemble(&amb, &compiler(), "").is_ok());
}

#[test]
fn generator_errors_come_before_a_missing_profile() {
    let amb = ambient(&[("TARGET", "x86_64-pc-windows-msvc"), ("OUT_DIR", "/o")]);
    assert_eq!(
        Config::new("lib").assemble(&amb, &compiler(), "None"),
        Err(BuildError::UnknownVisualStudio("None".to_string()))
    );
}

#[test]
fn planning_twice_gives_the_same_commands() {
    let mut config = Config::new("libfoo");
    config.define("FOO", "BAR").cflag("-foo").register_dep("z").build_arg("-j");
    let first = config.assemble(&linux(), &compiler(), "");
    let second = config.assemble(&linux(), &compiler(), "");
    assert!(first.is_ok());
    assert_eq!(first, second);
}

#[test]
fn build_plans_for_whatever_compiler_is_found() {
    let mut config = Config::new("libfoo");
    config.define("FOO", "BAR").build_arg("-j2");
    match config.build(&linux()) {
        Ok(plan) => {
            assert_eq!(plan.install_dir, "/tmp/out");
            assert_eq!(plan.generate.args[0], "/abs/libfoo");
            assert_eq!(plan.generate.args[1], "-DCMAKE_BUILD_TYPE=Release");
            assert_eq!(plan.generate.args[2], "-DCMAKE_INSTALL_PREFIX=/tmp/out");
            assert_eq!(plan.generate.args[5], "-DFOO=BAR");
            assert_eq!(plan.generate.args.len(), 6);
            assert_eq!(
                plan.build.args,
                owned(&[
                    "--build", ".", "--target", "install", "--config", "Release", "--", "-j2",
                ])
            );
        }
        Err(e) => assert!(matches!(e, BuildError::CompilerUnresolved(_))),
    }
}
