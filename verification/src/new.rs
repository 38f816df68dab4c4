//! Creating an application from the starter files: every file is written
//! below a directory that must not exist yet, the lifecycle scripts are made
//! executable, and the manifest is rendered with a fresh application id.

use vstd::prelude::*;
use vstd::string::*;
use crate::outcome::{Attempt, Cause, ErrorKind, Failure, Outcome, StepResult};
use crate::paths::{is_lifecycle_script, is_script, MANIFEST_FILENAME};
use crate::up::renderer::{
    accepted, identity_context, identity_model, json_view, RenderFault, Renderer, Stage,
};

verus! {

/// What follows the generated part of an application id.
pub const APP_ID_SUFFIX: &'static str = "@COLI";

/// Calls `xid::new` and takes the id's text. Each call gives another id.
#[verifier::external_body]
fn fresh_id() -> String {
    xid::new().to_string()
}

/// The application id made of the generated `id`.
pub fn app_id(id: &str) -> (full: String)
    ensures
        full@ == id@ + APP_ID_SUFFIX@,
{
    let mut full = String::from_str(id);
    full.append(APP_ID_SUFFIX);
    full
}

/// What the scaffolding waits for.
#[derive(Debug, Clone, Copy, PartialEq, Eq, Structural)]
pub enum NewPhase {
    /// Nothing was asked for yet.
    Created,
    /// The application's directory is being checked for absence.
    CheckingTarget,
    /// The starter file with this index is being written.
    Writing(usize),
    /// The starter file with this index, a script, is being made executable.
    Marking(usize),
    /// The manifest that was just written is being read back.
    ReadingManifest,
    /// The rendered manifest is being written.
    WritingManifest,
    /// The scaffolding has ended.
    Finished,
}

/// What the caller reports.
#[derive(Debug)]
pub enum NewEvent {
    /// Begin.
    Start,
    /// The application's directory does not exist.
    Absent,
    /// The application's directory exists already; the text says so.
    Present(String),
    /// A file-system step ended.
    Step(StepResult),
    /// The manifest's source was read.
    Manifest(String),
}

/// What the caller is asked to do next.
#[derive(Debug, PartialEq, Eq)]
pub enum NewAction {
    /// Check that the application's directory does not exist; answer with
    /// `Absent` or `Present`.
    CheckAbsent,
    /// Write the starter file with this relative path, creating its parent
    /// directory if absent; answer with `Step`.
    WriteAsset(String),
    /// Give the file with this relative path the mode 755; answer with
    /// `Step`.
    MarkExecutable(String),
    /// Read the manifest from the application's directory; answer with
    /// `Manifest`, or `Step` where reading failed.
    ReadManifest,
    /// Overwrite the manifest with this content; answer with `Step`.
    WriteManifest(String),
    /// The scaffolding has ended with this outcome.
    Finish(Outcome),
    /// The event answers nothing that was asked; it was dropped.
    Ignored,
}

/// The scaffolding's state.
pub struct NewState {
    phase: NewPhase,
    assets: Vec<String>,
    mark_scripts: bool,
}

impl NewState {
    /// What the scaffolding waits for.
    pub closed spec fn phase(&self) -> NewPhase {
        self.phase
    }

    /// The relative paths of the starter files, in the order of writing.
    pub closed spec fn assets(&self) -> Seq<String> {
        self.assets@
    }

    /// Whether the platform has executable files.
    pub closed spec fn mark_scripts(&self) -> bool {
        self.mark_scripts
    }

    /// The state is one that the scaffolding can be in.
    pub closed spec fn wf(&self) -> bool {
        match self.phase {
            NewPhase::Writing(i) => i < self.assets.len(),
            NewPhase::Marking(i) => i < self.assets.len(),
            _ => true,
        }
    }

    /// A scaffolding that has not begun, for the starter files with these
    /// relative paths.
    pub fn new(assets: Vec<String>, mark_scripts: bool) -> (state: NewState)
        ensures
            state.wf(),
            state.phase() == NewPhase::Created,
            state.assets() == assets@,
            state.mark_scripts() == mark_scripts,
    {
        NewState { phase: NewPhase::Created, assets, mark_scripts }
    }

    /// What the scaffolding waits for.
    pub fn current_phase(&self) -> (phase: NewPhase)
        ensures
            phase == self.phase(),
    {
        self.phase
    }
}

/// The scaffolding has ended with `outcome`.
pub open spec fn ends_with(post: NewState, action: NewAction, outcome: Outcome) -> bool {
    post.phase() == NewPhase::Finished && action == NewAction::Finish(outcome)
}

/// The scaffolding has ended because the manifest did not compile or render.
pub open spec fn ends_on_manifest(
    post: NewState,
    action: NewAction,
    attempt: Attempt,
    stage: Stage,
) -> bool {
    &&& post.phase() == NewPhase::Finished
    &&& action matches NewAction::Finish(Outcome::Failed(failure))
    &&& failure.kind == ErrorKind::Configuration
    &&& failure.attempt == attempt
    &&& failure.cause matches Cause::Template(fault)
    &&& fault.template@ == MANIFEST_FILENAME@
    &&& fault.stage == stage
}

/// What follows once the starter files before index `i` are written: the
/// writing of file `i`, or after the last one the reading of the manifest.
pub open spec fn writes_from(assets: Seq<String>, i: int, post: NewState, action: NewAction) -> bool {
    if i < assets.len() {
        &&& post.phase() matches NewPhase::Writing(j)
        &&& j == i
        &&& action == NewAction::WriteAsset(assets[i])
    } else {
        post.phase() == NewPhase::ReadingManifest && action == NewAction::ReadManifest
    }
}

/// The transition relation of the scaffolding: `post` and `action` are what
/// `event` leads to from `pre`.
pub open spec fn follows(pre: NewState, event: NewEvent, post: NewState, action: NewAction) -> bool {
    let assets = pre.assets();
    &&& post.assets() == assets
    &&& post.mark_scripts() == pre.mark_scripts()
    &&& match (pre.phase(), event) {
        (NewPhase::Created, NewEvent::Start) => {
            post.phase() == NewPhase::CheckingTarget && action == NewAction::CheckAbsent
        },
        (NewPhase::CheckingTarget, NewEvent::Absent) => writes_from(assets, 0, post, action),
        (NewPhase::CheckingTarget, NewEvent::Present(text)) => ends_with(
            post,
            action,
            Outcome::failed(ErrorKind::Environment, Attempt::CheckNewDir, text),
        ),
        (NewPhase::Writing(i), NewEvent::Step(result)) => match result {
            StepResult::Done => if pre.mark_scripts() && is_script(assets[i as int]@) {
                &&& post.phase() == NewPhase::Marking(i)
                &&& action == NewAction::MarkExecutable(assets[i as int])
            } else {
                writes_from(assets, i + 1, post, action)
            },
            _ => ends_with(post, action, Outcome::of_step_spec(Attempt::WriteAsset, result)),
        },
        (NewPhase::Marking(i), NewEvent::Step(result)) => match result {
            StepResult::Done => writes_from(assets, i + 1, post, action),
            _ => ends_with(post, action, Outcome::of_step_spec(Attempt::SetPermissions, result)),
        },
        (NewPhase::ReadingManifest, NewEvent::Manifest(source)) => {
            if !accepted(MANIFEST_FILENAME@, source@) {
                ends_on_manifest(post, action, Attempt::CompileTemplate, Stage::Compile)
            } else {
                ||| post.phase() == NewPhase::WritingManifest && action is WriteManifest
                ||| ends_on_manifest(post, action, Attempt::RenderTemplate, Stage::Render)
            }
        },
        (NewPhase::ReadingManifest, NewEvent::Step(result)) => match result {
            StepResult::Done => post == pre && action == NewAction::Ignored,
            _ => ends_with(post, action, Outcome::of_step_spec(Attempt::ReadTemplate, result)),
        },
        (NewPhase::WritingManifest, NewEvent::Step(result)) => ends_with(
            post,
            action,
            Outcome::of_step_spec(Attempt::WriteResult, result),
        ),
        _ => post == pre && action == NewAction::Ignored,
    }
}

fn write_from(assets: Vec<String>, mark_scripts: bool, i: usize) -> (next: (NewState, NewAction))
    requires
        i <= assets.len(),
    ensures
        next.0.wf(),
        next.0.assets() == assets@,
        next.0.mark_scripts() == mark_scripts,
        writes_from(assets@, i as int, next.0, next.1),
{
    if i < assets.len() {
        let path = assets[i].clone();
        (NewState { phase: NewPhase::Writing(i), assets, mark_scripts }, NewAction::WriteAsset(path))
    } else {
        (NewState { phase: NewPhase::ReadingManifest, assets, mark_scripts }, NewAction::ReadManifest)
    }
}

/// The data that a new application's manifest is rendered against: the one
/// field `app_id`, which is the generated `id` followed by `APP_ID_SUFFIX`.
pub fn manifest_data(id: &str) -> (data: handlebars::JsonValue)
    ensures
        json_view(data) == identity_model(id@ + APP_ID_SUFFIX@),
{
    let full = app_id(id);
    identity_context(full.as_str())
}

/// What was being done when a template failed at `stage`.
pub open spec fn attempt_at(stage: Stage) -> Attempt {
    match stage {
        Stage::Compile => Attempt::CompileTemplate,
        Stage::Render => Attempt::RenderTemplate,
    }
}

/// What the rendering of the manifest leads to: while the manifest is read
/// back, the writing of the rendered text, or the end of the scaffolding
/// with the manifest's fault. In any other state nothing.
pub open spec fn rendering_leads(
    pre: NewState,
    rendering: Result<String, RenderFault>,
    post: NewState,
    action: NewAction,
) -> bool {
    &&& post.assets() == pre.assets()
    &&& post.mark_scripts() == pre.mark_scripts()
    &&& match (pre.phase(), rendering) {
        (NewPhase::ReadingManifest, Ok(content)) => {
            post.phase() == NewPhase::WritingManifest && action == NewAction::WriteManifest(content)
        },
        (NewPhase::ReadingManifest, Err(fault)) => ends_with(
            post,
            action,
            Outcome::Failed(
                Failure {
                    kind: ErrorKind::Configuration,
                    attempt: attempt_at(fault.stage),
                    cause: Cause::Template(fault),
                },
            ),
        ),
        _ => post.phase() == pre.phase() && action == NewAction::Ignored,
    }
}

/// Takes up what the renderer has made of the manifest: the text is to be
/// written over the manifest, a fault ends the scaffolding.
pub fn manifest_written(state: NewState, rendering: Result<String, RenderFault>) -> (next: (
    NewState,
    NewAction,
))
    requires
        state.wf(),
    ensures
        next.0.wf(),
        rendering_leads(state, rendering, next.0, next.1),
{
    let NewState { phase, assets, mark_scripts } = state;
    match phase {
        NewPhase::ReadingManifest => match rendering {
            Ok(content) => (
                NewState { phase: NewPhase::WritingManifest, assets, mark_scripts },
                NewAction::WriteManifest(content),
            ),
            Err(fault) => {
                let attempt = match fault.stage {
                    Stage::Compile => Attempt::CompileTemplate,
                    Stage::Render => Attempt::RenderTemplate,
                };
                (
                    NewState { phase: NewPhase::Finished, assets, mark_scripts },
                    NewAction::Finish(
                        Outcome::Failed(
                            Failure {
                                kind: ErrorKind::Configuration,
                                attempt,
                                cause: Cause::Template(fault),
                            },
                        ),
                    ),
                )
            },
        },
        _ => (NewState { phase, assets, mark_scripts }, NewAction::Ignored),
    }
}

/// Renders the manifest's source, with the engine's defaults, against the
/// data of a fresh application id.
fn render_manifest(source: &str) -> (rendered: Result<String, RenderFault>)
    ensures
        !accepted(MANIFEST_FILENAME@, source@) ==> rendered is Err,
        rendered matches Err(fault) ==> {
            &&& fault.template@ == MANIFEST_FILENAME@
            &&& fault.stage == if accepted(MANIFEST_FILENAME@, source@) {
                Stage::Render
            } else {
                Stage::Compile
            }
        },
{
    let name = String::from_str(MANIFEST_FILENAME);
    let mut renderer = Renderer::plain();
    match renderer.register(&name, source) {
        Err(fault) => Err(fault),
        Ok(()) => {
            let data = manifest_data(fresh_id().as_str());
            renderer.render(&name, &data)
        },
    }
}

/// One step of creating an application: takes the scaffolding's state and
/// what the caller reports, and returns the next state and what to do.
///
/// The application's directory must not exist. The starter files are
/// written in order; a lifecycle script is made executable right after it is
/// written. Then the manifest is read back, rendered with a fresh
/// application id and written again. A cancellation or a failure ends the
/// scaffolding at once and leaves what was written.
pub fn generate(state: NewState, event: NewEvent) -> (next: (NewState, NewAction))
    requires
        state.wf(),
    ensures
        next.0.wf(),
        follows(state, event, next.0, next.1),
{
    let NewState { phase, assets, mark_scripts } = state;
    match phase {
        NewPhase::Created => match event {
            NewEvent::Start => (
                NewState { phase: NewPhase::CheckingTarget, assets, mark_scripts },
                NewAction::CheckAbsent,
            ),
            _ => (NewState { phase, assets, mark_scripts }, NewAction::Ignored),
        },
        NewPhase::CheckingTarget => match event {
            NewEvent::Absent => write_from(assets, mark_scripts, 0),
            NewEvent::Present(text) => (
                NewState { phase: NewPhase::Finished, assets, mark_scripts },
                NewAction::Finish(
                    Outcome::Failed(
                        Failure {
                            kind: ErrorKind::Environment,
                            attempt: Attempt::CheckNewDir,
                            cause: Cause::Message(text),
                        },
                    ),
                ),
            ),
            _ => (NewState { phase, assets, mark_scripts }, NewAction::Ignored),
        },
        NewPhase::Writing(i) => match event {
            NewEvent::Step(StepResult::Done) => {
                if mark_scripts && is_lifecycle_script(assets[i].as_str()) {
                    let path = assets[i].clone();
                    (
                        NewState { phase: NewPhase::Marking(i), assets, mark_scripts },
                        NewAction::MarkExecutable(path),
                    )
                } else {
                    write_from(assets, mark_scripts, i + 1)
                }
            },
            NewEvent::Step(result) => (
                NewState { phase: NewPhase::Finished, assets, mark_scripts },
                NewAction::Finish(Outcome::of_step(Attempt::WriteAsset, result)),
            ),
            _ => (NewState { phase, assets, mark_scripts }, NewAction::Ignored),
        },
        NewPhase::Marking(i) => match event {
            NewEvent::Step(StepResult::Done) => write_from(assets, mark_scripts, i + 1),
            NewEvent::Step(result) => (
                NewState { phase: NewPhase::Finished, assets, mark_scripts },
                NewAction::Finish(Outcome::of_step(Attempt::SetPermissions, result)),
            ),
            _ => (NewState { phase, assets, mark_scripts }, NewAction::Ignored),
        },
        NewPhase::ReadingManifest => match event {
            NewEvent::Manifest(source) => {
                let rendering = render_manifest(source.as_str());
                manifest_written(NewState { phase, assets, mark_scripts }, rendering)
            },
            NewEvent::Step(StepResult::Done) => (
                NewState { phase, assets, mark_scripts },
                NewAction::Ignored,
            ),
            NewEvent::Step(result) => (
                NewState { phase: NewPhase::Finished, assets, mark_scripts },
                NewAction::Finish(Outcome::of_step(Attempt::ReadTemplate, result)),
            ),
            _ => (NewState { phase, assets, mark_scripts }, NewAction::Ignored),
        },
        NewPhase::WritingManifest => match event {
            NewEvent::Step(result) => (
                NewState { phase: NewPhase::Finished, assets, mark_scripts },
                NewAction::Finish(Outcome::of_step(Attempt::WriteResult, result)),
            ),
            _ => (NewState { phase, assets, mark_scripts }, NewAction::Ignored),
        },
        NewPhase::Finished => (NewState { phase, assets, mark_scripts }, NewAction::Ignored),
    }
}

} // verus!
