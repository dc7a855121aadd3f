use cmake::model::BuildError;
use cmake::run::{announcement, check_build_dir, fail, run, DirOutcome, RunOutcome};

#[test]
fn run_accepts_a_successful_exit() {
    let outcome = RunOutcome::Exited { success: true, status: "exit status: 0".to_string() };
    assert_eq!(run(&outcome, "cmake"), Ok(()));
}

#[test]
fn run_reports_a_failed_exit_with_its_status() {
    let outcome = RunOutcome::Exited { success: false, status: "exit status: 2".to_string() };
    assert_eq!(
        run(&outcome, "cmake"),
        Err(BuildError::ToolFailed { status: "exit status: 2".to_string() })
    );
}

#[test]
fn run_reports_a_missing_program_by_name() {
    let outcome = RunOutcome::NotFound { reason: "No such file or directory".to_string() };
    assert_eq!(
        run(&outcome, "cmake"),
        Err(BuildError::ToolNotFound {
            program: "cmake".to_string(),
            reason: "No such file or directory".to_string(),
        })
    );
}

#[test]
fn run_reports_other_start_failures() {
    let outcome = RunOutcome::NotStarted { reason: "Permission denied".to_string() };
    assert_eq!(
        run(&outcome, "cmake"),
        Err(BuildError::ToolNotStarted { reason: "Permission denied".to_string() })
    );
}

#[test]
fn messages_name_the_offending_value() {
    assert_eq!(
        BuildError::UnsupportedMsvcTarget("aarch64-pc-windows-msvc".to_string()).message(),
        "unsupported msvc target: aarch64-pc-windows-msvc"
    );
    assert_eq!(
        BuildError::UnknownVisualStudio("None".to_string()).message(),
        "couldn't determine visual studio generator: None"
    );
    assert_eq!(
        BuildError::ToolNotFound { program: "cmake".to_string(), reason: "gone".to_string() }
            .message(),
        "failed to execute command: gone\nis `cmake` not installed?"
    );
    assert_eq!(
        BuildError::ToolNotStarted { reason: "denied".to_string() }.message(),
        "failed to execute command: denied"
    );
    assert_eq!(
        BuildError::ToolFailed { status: "exit status: 1".to_string() }.message(),
        "command did not execute successfully, got: exit status: 1"
    );
    assert_eq!(
        BuildError::CompilerUnresolved("nothing".to_string()).message(),
        "couldn't determine the C compiler: nothing"
    );
}

#[test]
fn messages_for_missing_ambient_values() {
    assert_eq!(
        BuildError::MissingTarget.message(),
        "couldn't determine the target: TARGET is not set"
    );
    assert_eq!(
        BuildError::MissingOutDir.message(),
        "couldn't determine the output directory: OUT_DIR is not set"
    );
    assert_eq!(
        BuildError::MissingProfile.message(),
        "couldn't determine the profile: PROFILE is not set"
    );
}

#[test]
fn fail_frames_the_message() {
    assert_eq!(fail("boom"), "\nboom\n\nbuild script failed, must exit now");
    assert_eq!(fail(""), "\n\n\nbuild script failed, must exit now");
}

#[test]
fn announcement_names_the_install_root() {
    assert_eq!(announcement("/tmp/out"), "cargo:root=/tmp/out");
}

#[test]
fn build_dir_that_is_there_is_no_failure() {
    assert_eq!(check_build_dir(&DirOutcome::Created), Ok(()));
    assert_eq!(check_build_dir(&DirOutcome::AlreadyExists), Ok(()));
}

#[test]
fn build_dir_that_cannot_be_made_is_reported() {
    let outcome = DirOutcome::Failed { reason: "Permission denied".to_string() };
    let e = check_build_dir(&outcome).unwrap_err();
    assert_eq!(e, BuildError::BuildDirNotCreated { reason: "Permission denied".to_string() });
    assert_eq!(e.message(), "couldn't create the build directory: Permission denied");
}
