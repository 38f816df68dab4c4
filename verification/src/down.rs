//! Taking a deployment down: the containers are stopped and removed, then
//! the uninstall script runs. The files of the deployment directory stay.

use vstd::prelude::*;
use crate::outcome::{Attempt, Cause, ErrorKind, Failure, Outcome, Resolution, ScriptRun};

verus! {

/// What the teardown waits for.
#[derive(Debug, Clone, Copy, PartialEq, Eq, Structural)]
pub enum DownPhase {
    /// Nothing was asked for yet.
    Created,
    /// The deployment directory is being checked for existence.
    CheckingTarget,
    /// The compose tool is taking the containers down.
    ComposingDown,
    /// The uninstall script's path is being resolved.
    ResolvingUninstall,
    /// The uninstall script is running.
    RunningUninstall,
    /// The teardown has ended.
    Finished,
}

/// What the caller reports.
#[derive(Debug)]
pub enum DownEvent {
    /// Begin.
    Start,
    /// The deployment directory exists.
    TargetExists,
    /// The deployment directory does not exist; the text says so.
    TargetMissing(String),
    /// The compose tool ended.
    Composed(Outcome),
    /// The uninstall script's path was resolved, or the script is missing.
    Located(Resolution),
    /// The uninstall script was dealt with.
    Script(ScriptRun),
}

/// What the caller is asked to do next.
#[derive(Debug, PartialEq, Eq)]
pub enum DownAction {
    /// Check that the deployment directory exists; answer with
    /// `TargetExists` or `TargetMissing`.
    CheckTarget,
    /// Run the compose tool with `down` against the deployment directory;
    /// answer with `Composed`.
    ComposeDown,
    /// Resolve the deployment directory and the uninstall script in it;
    /// answer with `Located`.
    ResolveUninstallScript,
    /// Run the uninstall script at this path through the shell, in the
    /// deployment directory; answer with `Script`.
    RunUninstallScript(String),
    /// The teardown has ended with this outcome.
    Finish(Outcome),
    /// The event answers nothing that was asked; it was dropped.
    Ignored,
}

/// The phase and the action that `event` leads to from `phase`.
///
/// The deployment directory must exist. The compose tool runs first; only
/// when it has completed is the uninstall script looked for. It must exist
/// and lie in the deployment directory; its outcome is the teardown's.
/// Nothing is deleted from the deployment directory.
pub open spec fn next(phase: DownPhase, event: DownEvent) -> (DownPhase, DownAction) {
    match (phase, event) {
        (DownPhase::Created, DownEvent::Start) => (
            DownPhase::CheckingTarget,
            DownAction::CheckTarget,
        ),
        (DownPhase::CheckingTarget, DownEvent::TargetExists) => (
            DownPhase::ComposingDown,
            DownAction::ComposeDown,
        ),
        (DownPhase::CheckingTarget, DownEvent::TargetMissing(text)) => (
            DownPhase::Finished,
            DownAction::Finish(Outcome::failed(ErrorKind::Environment, Attempt::CheckTarget, text)),
        ),
        (DownPhase::ComposingDown, DownEvent::Composed(outcome)) => match outcome {
            Outcome::Completed => (
                DownPhase::ResolvingUninstall,
                DownAction::ResolveUninstallScript,
            ),
            _ => (DownPhase::Finished, DownAction::Finish(outcome)),
        },
        (DownPhase::ResolvingUninstall, DownEvent::Located(resolution)) => {
            match resolution.cleared() {
                Ok(script) => (DownPhase::RunningUninstall, DownAction::RunUninstallScript(script)),
                Err(failure) => (DownPhase::Finished, DownAction::Finish(Outcome::Failed(failure))),
            }
        },
        (DownPhase::RunningUninstall, DownEvent::Script(run)) => (
            DownPhase::Finished,
            DownAction::Finish(Outcome::of_script_spec(run)),
        ),
        _ => (phase, DownAction::Ignored),
    }
}

/// One step of taking a deployment down: the next phase and what to do,
/// given the phase and what the caller reports.
pub fn down(phase: DownPhase, event: DownEvent) -> (step: (DownPhase, DownAction))
    ensures
        step == next(phase, event),
{
    match phase {
        DownPhase::Created => match event {
            DownEvent::Start => (DownPhase::CheckingTarget, DownAction::CheckTarget),
            _ => (phase, DownAction::Ignored),
        },
        DownPhase::CheckingTarget => match event {
            DownEvent::TargetExists => (DownPhase::ComposingDown, DownAction::ComposeDown),
            DownEvent::TargetMissing(text) => (
                DownPhase::Finished,
                DownAction::Finish(
                    Outcome::Failed(
                        Failure {
                            kind: ErrorKind::Environment,
                            attempt: Attempt::CheckTarget,
                            cause: Cause::Message(text),
                        },
                    ),
                ),
            ),
            _ => (phase, DownAction::Ignored),
        },
        DownPhase::ComposingDown => match event {
            DownEvent::Composed(Outcome::Completed) => (
                DownPhase::ResolvingUninstall,
                DownAction::ResolveUninstallScript,
            ),
            DownEvent::Composed(outcome) => (DownPhase::Finished, DownAction::Finish(outcome)),
            _ => (phase, DownAction::Ignored),
        },
        DownPhase::ResolvingUninstall => match event {
            DownEvent::Located(resolution) => match resolution.clear() {
                Ok(script) => (DownPhase::RunningUninstall, DownAction::RunUninstallScript(script)),
                Err(failure) => (DownPhase::Finished, DownAction::Finish(Outcome::Failed(failure))),
            },
            _ => (phase, DownAction::Ignored),
        },
        DownPhase::RunningUninstall => match event {
            DownEvent::Script(run) => (
                DownPhase::Finished,
                DownAction::Finish(Outcome::of_script(run)),
            ),
            _ => (phase, DownAction::Ignored),
        },
        DownPhase::Finished => (phase, DownAction::Ignored),
    }
}

/// The uninstall script is looked for only in answer to a compose tool that
/// has completed: a failed or cancelled `down` ends the teardown.
pub proof fn lemma_uninstall_follows_compose(phase: DownPhase, event: DownEvent)
    requires
        next(phase, event).1 == DownAction::ResolveUninstallScript,
    ensures
        phase == DownPhase::ComposingDown,
        event == DownEvent::Composed(Outcome::Completed),
{
}

/// The uninstall script that is run lies in the deployment directory.
pub proof fn lemma_uninstall_script_is_inside(phase: DownPhase, event: DownEvent, script: String)
    requires
        next(phase, event).1 == DownAction::RunUninstallScript(script),
    ensures
        event matches DownEvent::Located(Resolution::Resolved { root, script: found }) && found
            == script && crate::paths::within(script@, root@),
{
}

} // verus!
