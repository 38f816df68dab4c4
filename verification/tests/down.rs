use collie_app::down::{down, DownAction, DownEvent, DownPhase};
use collie_app::outcome::{
    Attempt, Cause, ErrorKind, ExitStatus, Failure, Outcome, Resolution, RunResult, ScriptRun,
};

fn failed(kind: ErrorKind, attempt: Attempt, cause: Cause) -> DownAction {
    DownAction::Finish(Outcome::Failed(Failure { kind, attempt, cause }))
}

#[test]
fn teardown_composes_down_and_then_uninstalls() {
    assert_eq!(down(DownPhase::Created, DownEvent::Start), (DownPhase::CheckingTarget, DownAction::CheckTarget));
    assert_eq!(
        down(DownPhase::CheckingTarget, DownEvent::TargetExists),
        (DownPhase::ComposingDown, DownAction::ComposeDown)
    );
    assert_eq!(
        down(DownPhase::ComposingDown, DownEvent::Composed(Outcome::Completed)),
        (DownPhase::ResolvingUninstall, DownAction::ResolveUninstallScript)
    );
    let resolved = Resolution::Resolved {
        root: "/srv/app/.render".to_string(),
        script: "/srv/app/.render/scripts/uninstall.sh".to_string(),
    };
    assert_eq!(
        down(DownPhase::ResolvingUninstall, DownEvent::Located(resolved)),
        (
            DownPhase::RunningUninstall,
            DownAction::RunUninstallScript("/srv/app/.render/scripts/uninstall.sh".to_string())
        )
    );
    let ran = ScriptRun::Ran(RunResult::Exited(ExitStatus { code: Some(0) }));
    assert_eq!(
        down(DownPhase::RunningUninstall, DownEvent::Script(ran)),
        (DownPhase::Finished, DownAction::Finish(Outcome::Completed))
    );
}

#[test]
fn a_missing_target_is_fatal() {
    assert_eq!(
        down(DownPhase::CheckingTarget, DownEvent::TargetMissing("targe not exist".to_string())),
        (
            DownPhase::Finished,
            failed(
                ErrorKind::Environment,
                Attempt::CheckTarget,
                Cause::Message("targe not exist".to_string())
            )
        )
    );
}

#[test]
fn a_failed_compose_skips_the_uninstall_script() {
    let failure = Outcome::Failed(Failure {
        kind: ErrorKind::ExternalProcess,
        attempt: Attempt::RunCompose,
        cause: Cause::Exit(Some(2)),
    });
    assert_eq!(
        down(DownPhase::ComposingDown, DownEvent::Composed(failure)),
        (
            DownPhase::Finished,
            failed(ErrorKind::ExternalProcess, Attempt::RunCompose, Cause::Exit(Some(2)))
        )
    );
    assert_eq!(
        down(DownPhase::ComposingDown, DownEvent::Composed(Outcome::Cancelled)),
        (DownPhase::Finished, DownAction::Finish(Outcome::Cancelled))
    );
}

#[test]
fn the_uninstall_script_decides_the_outcome() {
    let run = |script: ScriptRun| down(DownPhase::RunningUninstall, DownEvent::Script(script)).1;
    assert_eq!(
        run(ScriptRun::Ran(RunResult::Exited(ExitStatus { code: Some(9) }))),
        failed(ErrorKind::ExternalProcess, Attempt::RunScript, Cause::Exit(Some(9)))
    );
    assert_eq!(
        run(ScriptRun::NoShell("can't find your sh".to_string())),
        failed(ErrorKind::Environment, Attempt::FindShell, Cause::Message("can't find your sh".to_string()))
    );
    assert_eq!(run(ScriptRun::Ran(RunResult::Cancelled)), DownAction::Finish(Outcome::Cancelled));
}

#[test]
fn the_uninstall_script_must_exist_inside_the_target() {
    let locate = |resolution: Resolution| down(DownPhase::ResolvingUninstall, DownEvent::Located(resolution));
    assert_eq!(
        locate(Resolution::Missing("uninstall.sh path illegal".to_string())),
        (
            DownPhase::Finished,
            failed(
                ErrorKind::Environment,
                Attempt::ResolveScript,
                Cause::Message("uninstall.sh path illegal".to_string())
            )
        )
    );
    assert_eq!(
        locate(Resolution::Resolved { root: "/a/b".to_string(), script: "/a/bc/uninstall.sh".to_string() }),
        (
            DownPhase::Finished,
            failed(
                ErrorKind::Environment,
                Attempt::ResolveScript,
                Cause::Message("/a/bc/uninstall.sh".to_string())
            )
        )
    );
}

#[test]
fn teardown_drops_what_answers_nothing() {
    assert_eq!(down(DownPhase::Created, DownEvent::TargetExists), (DownPhase::Created, DownAction::Ignored));
    assert_eq!(
        down(DownPhase::ComposingDown, DownEvent::Start),
        (DownPhase::ComposingDown, DownAction::Ignored)
    );
    assert_eq!(down(DownPhase::Finished, DownEvent::Start), (DownPhase::Finished, DownAction::Ignored));
}
