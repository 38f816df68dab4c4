use collie_app::logger::{
    setup_logger_by_verbose, LogLevel, LogTarget, LoggerSetup, CONSOLE_APPENDER, CONSOLE_PATTERN,
};
use collie_app::outcome::{
    Attempt, Cause, ErrorKind, ExitStatus, Failure, Outcome, Resolution, RunResult, ScriptRun,
    StepResult,
};
use collie_app::paths::is_within;
use collie_app::up::manifest::ManifestError;
use collie_app::version::{short_version, version, BuildInfo, SELF_BUILD};

#[test]
fn verbosity_picks_the_level() {
    assert_eq!(setup_logger_by_verbose(0, true).level, LogLevel::Info);
    assert_eq!(setup_logger_by_verbose(1, true).level, LogLevel::Debug);
    assert_eq!(setup_logger_by_verbose(2, true).level, LogLevel::Trace);
    assert_eq!(setup_logger_by_verbose(255, true).level, LogLevel::Trace);
}

#[test]
fn the_flag_picks_the_stream() {
    assert_eq!(
        setup_logger_by_verbose(0, true),
        LoggerSetup { level: LogLevel::Info, target: LogTarget::Stderr }
    );
    assert_eq!(
        setup_logger_by_verbose(3, false),
        LoggerSetup { level: LogLevel::Trace, target: LogTarget::Stdout }
    );
}

#[test]
fn the_log_line_has_time_level_module_and_message() {
    assert_eq!(CONSOLE_APPENDER, "console");
    assert_eq!(CONSOLE_PATTERN, "{d(%Y-%m-%d %H:%M:%S %Z)(local)} - {h({l})} - [{M}] - {m}{n}");
}

fn info(ci: Option<&str>) -> BuildInfo {
    BuildInfo {
        semver: "0.1.8".to_string(),
        rustc_semver: "1.70.0".to_string(),
        git_sha: "abc1234".to_string(),
        commit_date: "2023-06-01T10:00:00Z".to_string(),
        ci_task_id: ci.map(|id| id.to_string()),
        build_date: "2023-06-02T11:00:00Z".to_string(),
        os: "linux".to_string(),
        arch: "x86_64".to_string(),
    }
}

#[test]
fn long_version_lists_the_build() {
    assert_eq!(
        version(&info(Some("4711"))),
        "\nVersion:         0.1.8\nRustc version:   1.70.0\nGit commit/date: abc1234/2023-06-01T10:00:00Z\nPipeline ID:     4711\nBuilt:           2023-06-02T11:00:00Z\nOS/Arch:         linux/x86_64"
    );
}

#[test]
fn a_build_without_a_pipeline_is_a_self_build() {
    assert_eq!(SELF_BUILD, "self-build");
    assert!(version(&info(None)).contains("\nPipeline ID:     self-build\n"));
}

#[test]
fn short_version_is_version_and_commit() {
    assert_eq!(short_version(&info(None)), "0.1.8+abc1234");
}

#[test]
fn only_exit_code_zero_is_success() {
    assert!(ExitStatus { code: Some(0) }.succeeded());
    assert!(!ExitStatus { code: Some(1) }.succeeded());
    assert!(!ExitStatus { code: Some(-1) }.succeeded());
    assert!(!ExitStatus { code: None }.succeeded());
}

#[test]
fn a_process_run_becomes_an_outcome() {
    let exited = |code| RunResult::Exited(ExitStatus { code });
    assert_eq!(Outcome::of_run(Attempt::RunCompose, exited(Some(0))), Outcome::Completed);
    assert_eq!(
        Outcome::of_run(Attempt::RunCompose, exited(Some(125))),
        Outcome::Failed(Failure {
            kind: ErrorKind::ExternalProcess,
            attempt: Attempt::RunCompose,
            cause: Cause::Exit(Some(125)),
        })
    );
    assert_eq!(
        Outcome::of_run(Attempt::RunScript, exited(None)),
        Outcome::Failed(Failure {
            kind: ErrorKind::ExternalProcess,
            attempt: Attempt::RunScript,
            cause: Cause::Exit(None),
        })
    );
    assert_eq!(Outcome::of_run(Attempt::RunScript, RunResult::Cancelled), Outcome::Cancelled);
    assert_eq!(
        Outcome::of_run(Attempt::RunScript, RunResult::Failed("ENOENT".to_string())),
        Outcome::Failed(Failure {
            kind: ErrorKind::Io,
            attempt: Attempt::RunScript,
            cause: Cause::Message("ENOENT".to_string()),
        })
    );
}

#[test]
fn a_step_becomes_an_outcome() {
    assert_eq!(Outcome::of_step(Attempt::CopyFile, StepResult::Done), Outcome::Completed);
    assert_eq!(Outcome::of_step(Attempt::CopyFile, StepResult::Cancelled), Outcome::Cancelled);
    assert_eq!(
        Outcome::of_step(Attempt::CopyFile, StepResult::Failed("EIO".to_string())),
        Outcome::Failed(Failure {
            kind: ErrorKind::Io,
            attempt: Attempt::CopyFile,
            cause: Cause::Message("EIO".to_string()),
        })
    );
}

#[test]
fn a_script_run_becomes_an_outcome() {
    assert_eq!(
        Outcome::of_script(ScriptRun::Ran(RunResult::Exited(ExitStatus { code: Some(0) }))),
        Outcome::Completed
    );
    assert_eq!(
        Outcome::of_script(ScriptRun::NoShell("no sh".to_string())),
        Outcome::Failed(Failure {
            kind: ErrorKind::Environment,
            attempt: Attempt::FindShell,
            cause: Cause::Message("no sh".to_string()),
        })
    );
}

#[test]
fn a_path_is_within_its_root_by_whole_segments() {
    assert!(is_within("/srv/app/scripts/init.sh", "/srv/app"));
    assert!(is_within("/srv/app", "/srv/app"));
    assert!(is_within("/srv/app/", "/srv/app"));
    assert!(is_within("/srv/app/x", "/srv/app/"));
    assert!(is_within("/x", "/"));
    assert!(is_within("/", "/"));
    assert!(is_within("/anything", ""));
    assert!(is_within("", ""));
    assert!(!is_within("anything", ""));
    assert!(!is_within("/srv/application", "/srv/app"));
    assert!(!is_within("/srv/ap", "/srv/app"));
    assert!(!is_within("/srv", "/srv/app"));
    assert!(!is_within("/etc/passwd", "/srv/app"));
    assert!(!is_within("", "/"));
}

#[test]
fn a_script_is_cleared_only_inside_the_root() {
    let resolved = |root: &str, script: &str| Resolution::Resolved {
        root: root.to_string(),
        script: script.to_string(),
    };
    assert_eq!(resolved("/r", "/r/scripts/init.sh").clear(), Ok("/r/scripts/init.sh".to_string()));
    let refused = |text: &str| {
        Err(Failure {
            kind: ErrorKind::Environment,
            attempt: Attempt::ResolveScript,
            cause: Cause::Message(text.to_string()),
        })
    };
    assert_eq!(resolved("/r", "/s/init.sh").clear(), refused("/s/init.sh"));
    assert_eq!(Resolution::Missing("no such file".to_string()).clear(), refused("no such file"));
}

#[test]
fn attempts_are_described_in_words() {
    assert_eq!(Attempt::CopyFiles.describe(), "copy file to target dir");
    assert_eq!(Attempt::ParseManifest.describe(), "can't parse config");
    assert_eq!(Attempt::ReadTemplate.describe(), "read template content");
    assert_eq!(Attempt::CompileTemplate.describe(), "compile template file");
    assert_eq!(Attempt::RenderTemplate.describe(), "render template");
    assert_eq!(Attempt::WriteResult.describe(), "write result to file");
    assert_eq!(Attempt::FindShell.describe(), "can't find your sh");
    assert_eq!(Attempt::CheckEngineVersion.describe(), "check docker version");
    assert_eq!(Attempt::ResolveSource.describe(), "get from abs path");
    assert_eq!(Attempt::ResolveDestination.describe(), "get to abs path");
    assert_eq!(Attempt::CheckDirectories.describe(), "source and destination must be directories");
    assert_eq!(Attempt::RemoveDir.describe(), "remove dir");
    let all = [
        Attempt::CreateTargetDir,
        Attempt::CopyFiles,
        Attempt::ReadManifest,
        Attempt::ParseManifest,
        Attempt::ReadTemplate,
        Attempt::CompileTemplate,
        Attempt::RenderTemplate,
        Attempt::WriteResult,
        Attempt::CheckTarget,
        Attempt::ResolveScript,
        Attempt::FindShell,
        Attempt::RunScript,
        Attempt::FindEngine,
        Attempt::CheckEngineVersion,
        Attempt::ExtractEngineVersion,
        Attempt::FindCompose,
        Attempt::RunCompose,
        Attempt::ResolveSource,
        Attempt::ResolveDestination,
        Attempt::CheckDirectories,
        Attempt::ReadDir,
        Attempt::RemoveFile,
        Attempt::CopyFile,
        Attempt::RemoveDir,
        Attempt::CreateDir,
        Attempt::CheckNewDir,
        Attempt::WriteAsset,
        Attempt::SetPermissions,
    ];
    for attempt in all {
        assert!(!attempt.describe().is_empty());
    }
}

#[test]
fn manifest_errors_name_the_offender() {
    assert_eq!(
        ManifestError::TemplateEscapes("../x".to_string()).message(),
        "template leaves the target dir: ../x"
    );
    assert_eq!(ManifestError::DuplicatePort("http".to_string()).message(), "port declared twice: http");
    assert_eq!(
        ManifestError::DuplicateVariable("domain".to_string()).message(),
        "variable declared twice: domain"
    );
}
