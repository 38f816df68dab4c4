//! Bringing a deployment up: the manifest, the template renderer and the
//! lifecycle that ties them together.
//!
//! The lifecycle is a state machine. The caller starts it with
//! [`UpEvent::Start`], performs the action that each step returns and hands
//! the result back as the next event, until the action is
//! [`UpAction::Finish`]. Templates are all compiled before the first one is
//! rendered, so that a syntax error in any of them leaves every file as the
//! synchronisation wrote it. The init script runs before the containers are
//! brought up.

pub mod manifest;
pub mod mirror;
pub mod rand_pass;
pub mod renderer;
pub mod sync;

use vstd::prelude::*;
use crate::outcome::{
    Attempt, Cause, ErrorKind, Failure, Outcome, Resolution, ScriptRun, StepResult,
};
use crate::up::manifest::Manifest;
use crate::up::renderer::{
    context_of, empty_context, json_view, manifest_model, Json, RenderFault, Renderer, Stage,
    RAND_PASS,
};

verus! {

/// What the lifecycle waits for.
#[derive(Debug, Clone, Copy, PartialEq, Eq, Structural)]
pub enum UpPhase {
    /// Nothing was asked for yet.
    Created,
    /// The target directory is being created if absent.
    EnsuringTarget,
    /// The source tree is being mirrored into the target directory.
    Syncing,
    /// The manifest is being read from the source directory and parsed.
    LoadingManifest,
    /// The source of the template with this index is being read from the
    /// target directory; the templates before it are compiled.
    Registering(usize),
    /// The rendered template with this index is being written; all
    /// templates are compiled and those before it are written.
    Rendering(usize),
    /// The init script's path is being resolved.
    ResolvingInit,
    /// The init script is running.
    RunningInit,
    /// The compose tool is bringing the containers up.
    ComposingUp,
    /// The lifecycle has ended.
    Finished,
}

/// What the caller reports.
#[derive(Debug)]
pub enum UpEvent {
    /// Begin.
    Start,
    /// A file-system step ended: creating the target directory, or writing
    /// a rendered template.
    Step(StepResult),
    /// The synchronisation or the compose tool ended.
    Sub(Outcome),
    /// The manifest was read and parsed.
    Manifest(Manifest),
    /// The manifest was read and is not a manifest; the text says why.
    Malformed(String),
    /// A template's source was read.
    Template(String),
    /// The init script's path was resolved, or the script is missing.
    Located(Resolution),
    /// The init script was dealt with.
    Script(ScriptRun),
}

/// What the caller is asked to do next.
#[derive(Debug, PartialEq, Eq)]
pub enum UpAction {
    /// Create the target directory if it is absent; answer with `Step`.
    EnsureTarget,
    /// Mirror the source tree into the target directory; answer with `Sub`.
    Sync,
    /// Read the manifest from the source directory and parse it; answer with
    /// `Manifest`, `Malformed`, or `Step` where reading failed or was
    /// cancelled.
    LoadManifest,
    /// Read this template from the target directory; answer with `Template`,
    /// or `Step` where reading failed or was cancelled.
    ReadTemplate(String),
    /// Overwrite the template at `path` in the target directory with
    /// `content`; answer with `Step`.
    WriteTemplate { path: String, content: String },
    /// Resolve the target directory and the init script in it; answer with
    /// `Located`.
    ResolveInitScript,
    /// Run the init script at this path through the shell, in the target
    /// directory; answer with `Script`.
    RunInitScript(String),
    /// Run the compose tool with `up -d` against the target directory;
    /// answer with `Sub`.
    ComposeUp,
    /// The lifecycle has ended with this outcome.
    Finish(Outcome),
    /// The event answers nothing that was asked; it was dropped.
    Ignored,
}

/// The renderer is set up for deployment files: a variable that is not
/// there is an error, substituted text is written as it is, and templates
/// can ask for secrets.
pub open spec fn renders_plainly(renderer: Renderer) -> bool {
    &&& renderer.strict()
    &&& !renderer.escaping()
    &&& renderer.helpers().contains(RAND_PASS@)
}

/// The lifecycle's state.
pub struct UpState {
    phase: UpPhase,
    dry: bool,
    templates: Vec<String>,
    context: handlebars::JsonValue,
    renderer: Renderer,
}

impl UpState {
    /// What the lifecycle waits for.
    pub closed spec fn phase(&self) -> UpPhase {
        self.phase
    }

    /// Whether the lifecycle stops once the templates are rendered.
    pub closed spec fn dry(&self) -> bool {
        self.dry
    }

    /// The manifest's templates; empty until the manifest is loaded.
    pub closed spec fn templates(&self) -> Seq<String> {
        self.templates@
    }

    /// The renderer that compiles and renders the templates.
    pub closed spec fn renderer(&self) -> Renderer {
        self.renderer
    }

    /// The data that the templates are rendered against.
    pub closed spec fn data(&self) -> handlebars::JsonValue {
        self.context
    }

    /// The state is one that the lifecycle can be in.
    pub closed spec fn wf(&self) -> bool {
        &&& renders_plainly(self.renderer)
        &&& self.renderer.sound()
        &&& match self.phase {
            UpPhase::Registering(i) => {
                &&& i < self.templates.len()
                &&& self.renderer.compiled() == self.templates@.take(i as int)
            },
            UpPhase::Rendering(i) => i < self.templates.len(),
            UpPhase::ResolvingInit | UpPhase::RunningInit | UpPhase::ComposingUp => !self.dry,
            _ => true,
        }
    }

    /// A lifecycle that has not begun. With `dry` it ends once the templates
    /// are rendered and starts no process.
    pub fn new(dry: bool) -> (state: UpState)
        ensures
            state.wf(),
            state.phase() == UpPhase::Created,
            state.dry() == dry,
            state.templates().len() == 0,
            renders_plainly(state.renderer()),
            json_view(state.data()) == Json::Object(Map::empty()),
    {
        UpState {
            phase: UpPhase::Created,
            dry,
            templates: Vec::new(),
            context: empty_context(),
            renderer: Renderer::new(),
        }
    }

    /// What the lifecycle waits for.
    pub fn current_phase(&self) -> (phase: UpPhase)
        ensures
            phase == self.phase(),
    {
        self.phase
    }
}

/// The lifecycle has ended with `outcome`.
pub open spec fn ends_with(post: UpState, action: UpAction, outcome: Outcome) -> bool {
    post.phase() == UpPhase::Finished && action == UpAction::Finish(outcome)
}

/// The lifecycle has ended with a failure about the template `name`.
pub open spec fn ends_on_template(
    post: UpState,
    action: UpAction,
    attempt: Attempt,
    stage: Stage,
    name: String,
) -> bool {
    &&& post.phase() == UpPhase::Finished
    &&& action matches UpAction::Finish(Outcome::Failed(failure))
    &&& failure.kind == ErrorKind::Configuration
    &&& failure.attempt == attempt
    &&& failure.cause matches Cause::Template(fault)
    &&& fault.template == name
    &&& fault.stage == stage
}

/// What follows once the templates before index `i` are written: the
/// template `i` is rendered and its writing asked for, or its rendering
/// fails; after the last template a dry run ends and a real one looks for
/// the init script.
pub open spec fn renders_from(
    templates: Seq<String>,
    dry: bool,
    i: int,
    post: UpState,
    action: UpAction,
) -> bool {
    if i < templates.len() {
        ||| {
            &&& post.phase() matches UpPhase::Rendering(j)
            &&& j == i
            &&& action matches UpAction::WriteTemplate { path, content }
            &&& path == templates[i]
        }
        ||| ends_on_template(post, action, Attempt::RenderTemplate, Stage::Render, templates[i])
    } else if dry {
        ends_with(post, action, Outcome::Completed)
    } else {
        post.phase() == UpPhase::ResolvingInit && action == UpAction::ResolveInitScript
    }
}

/// What follows when a file-system step ends: `then` where it is done, the
/// end of the lifecycle where it was cancelled or failed.
pub open spec fn after_step(
    attempt: Attempt,
    result: StepResult,
    then: (UpPhase, UpAction),
    post: UpState,
    action: UpAction,
) -> bool {
    match result {
        StepResult::Done => post.phase() == then.0 && action == then.1,
        _ => ends_with(post, action, Outcome::of_step_spec(attempt, result)),
    }
}

/// The transition relation of the lifecycle: `post` and `action` are what
/// `event` leads to from `pre`.
pub open spec fn follows(pre: UpState, event: UpEvent, post: UpState, action: UpAction) -> bool {
    let same_templates = post.templates() == pre.templates() && post.data() == pre.data();
    let ignored = post == pre && action == UpAction::Ignored;
    &&& post.dry() == pre.dry()
    &&& renders_plainly(post.renderer())
    &&& match (pre.phase(), event) {
        (UpPhase::Created, UpEvent::Start) => {
            &&& same_templates
            &&& post.phase() == UpPhase::EnsuringTarget
            &&& action == UpAction::EnsureTarget
        },
        (UpPhase::EnsuringTarget, UpEvent::Step(result)) => {
            &&& same_templates
            &&& after_step(
                Attempt::CreateTargetDir,
                result,
                (UpPhase::Syncing, UpAction::Sync),
                post,
                action,
            )
        },
        (UpPhase::Syncing, UpEvent::Sub(outcome)) => {
            &&& same_templates
            &&& match outcome {
                Outcome::Completed => post.phase() == UpPhase::LoadingManifest && action
                    == UpAction::LoadManifest,
                _ => ends_with(post, action, outcome),
            }
        },
        (UpPhase::LoadingManifest, UpEvent::Manifest(manifest)) => {
            if !manifest.wf() {
                &&& same_templates
                &&& post.phase() == UpPhase::Finished
                &&& action matches UpAction::Finish(Outcome::Failed(failure))
                &&& failure.kind == ErrorKind::Configuration
                &&& failure.attempt == Attempt::ParseManifest
                &&& failure.cause is Manifest
            } else {
                &&& post.templates() == manifest.templates@
                &&& json_view(post.data()) == manifest_model(manifest)
                &&& if manifest.templates.len() > 0 {
                    &&& post.phase() == UpPhase::Registering(0)
                    &&& action == UpAction::ReadTemplate(manifest.templates@[0])
                } else {
                    renders_from(manifest.templates@, pre.dry(), 0, post, action)
                }
            }
        },
        (UpPhase::LoadingManifest, UpEvent::Malformed(text)) => {
            &&& same_templates
            &&& ends_with(
                post,
                action,
                Outcome::failed(ErrorKind::Configuration, Attempt::ParseManifest, text),
            )
        },
        (UpPhase::LoadingManifest, UpEvent::Step(result)) => match result {
            StepResult::Done => ignored,
            _ => same_templates && ends_with(
                post,
                action,
                Outcome::of_step_spec(Attempt::ReadManifest, result),
            ),
        },
        (UpPhase::Registering(i), UpEvent::Template(source)) => {
            &&& same_templates
            &&& if !renderer::accepted(pre.templates()[i as int]@, source@) {
                ends_on_template(
                    post,
                    action,
                    Attempt::CompileTemplate,
                    Stage::Compile,
                    pre.templates()[i as int],
                )
            } else if i + 1 < pre.templates().len() {
                &&& post.phase() matches UpPhase::Registering(j)
                &&& j == i + 1
                &&& action == UpAction::ReadTemplate(pre.templates()[i + 1])
            } else {
                renders_from(pre.templates(), pre.dry(), 0, post, action)
            }
        },
        (UpPhase::Registering(_), UpEvent::Step(result)) => match result {
            StepResult::Done => ignored,
            _ => same_templates && ends_with(
                post,
                action,
                Outcome::of_step_spec(Attempt::ReadTemplate, result),
            ),
        },
        (UpPhase::Rendering(i), UpEvent::Step(result)) => {
            &&& same_templates
            &&& match result {
                StepResult::Done => renders_from(pre.templates(), pre.dry(), i + 1, post, action),
                _ => ends_with(post, action, Outcome::of_step_spec(Attempt::WriteResult, result)),
            }
        },
        (UpPhase::ResolvingInit, UpEvent::Located(resolution)) => {
            &&& same_templates
            &&& match resolution.cleared() {
                Ok(script) => post.phase() == UpPhase::RunningInit && action
                    == UpAction::RunInitScript(script),
                Err(failure) => ends_with(post, action, Outcome::Failed(failure)),
            }
        },
        (UpPhase::RunningInit, UpEvent::Script(run)) => {
            &&& same_templates
            &&& match Outcome::of_script_spec(run) {
                Outcome::Completed => post.phase() == UpPhase::ComposingUp && action
                    == UpAction::ComposeUp,
                outcome => ends_with(post, action, outcome),
            }
        },
        (UpPhase::ComposingUp, UpEvent::Sub(outcome)) => {
            &&& same_templates
            &&& ends_with(post, action, outcome)
        },
        _ => ignored,
    }
}

/// What a rendering leads to: in a state that renders the template `i`, the
/// writing of the rendered text to that template's path, or the end of the
/// lifecycle with the template's fault. In any other state nothing.
pub open spec fn rendering_leads(
    pre: UpState,
    rendering: Result<String, RenderFault>,
    post: UpState,
    action: UpAction,
) -> bool {
    &&& post.dry() == pre.dry()
    &&& post.templates() == pre.templates()
    &&& post.data() == pre.data()
    &&& post.renderer() == pre.renderer()
    &&& match (pre.phase(), rendering) {
        (UpPhase::Rendering(i), Ok(content)) => {
            &&& post.phase() == pre.phase()
            &&& action == UpAction::WriteTemplate { path: pre.templates()[i as int], content }
        },
        (UpPhase::Rendering(_), Err(fault)) => ends_with(
            post,
            action,
            Outcome::Failed(
                Failure {
                    kind: ErrorKind::Configuration,
                    attempt: Attempt::RenderTemplate,
                    cause: Cause::Template(fault),
                },
            ),
        ),
        _ => post.phase() == pre.phase() && action == UpAction::Ignored,
    }
}

/// Takes up what the renderer has made of the template that the state
/// renders: the text is to be written to the template's own path, a fault
/// ends the lifecycle.
pub fn written_or_failed(state: UpState, rendering: Result<String, RenderFault>) -> (next: (
    UpState,
    UpAction,
))
    requires
        state.wf(),
    ensures
        next.0.wf(),
        rendering_leads(state, rendering, next.0, next.1),
{
    let UpState { phase, dry, templates, context, renderer } = state;
    match phase {
        UpPhase::Rendering(i) => match rendering {
            Ok(content) => {
                let path = templates[i].clone();
                (
                    UpState { phase, dry, templates, context, renderer },
                    UpAction::WriteTemplate { path, content },
                )
            },
            Err(fault) => (
                UpState { phase: UpPhase::Finished, dry, templates, context, renderer },
                UpAction::Finish(
                    Outcome::Failed(
                        Failure {
                            kind: ErrorKind::Configuration,
                            attempt: Attempt::RenderTemplate,
                            cause: Cause::Template(fault),
                        },
                    ),
                ),
            ),
        },
        _ => (UpState { phase, dry, templates, context, renderer }, UpAction::Ignored),
    }
}

/// Renders the template `i` against the state's data and asks for its
/// writing, or moves on where no template is left.
fn render_from(
    dry: bool,
    templates: Vec<String>,
    context: handlebars::JsonValue,
    renderer: Renderer,
    i: usize,
) -> (next: (UpState, UpAction))
    requires
        i <= templates.len(),
        renders_plainly(renderer),
        renderer.sound(),
    ensures
        next.0.wf(),
        next.0.dry() == dry,
        next.0.templates() == templates@,
        next.0.data() == context,
        next.0.renderer() == renderer,
        renders_from(templates@, dry, i as int, next.0, next.1),
{
    if i < templates.len() {
        let rendering = renderer.render(&templates[i], &context);
        written_or_failed(
            UpState { phase: UpPhase::Rendering(i), dry, templates, context, renderer },
            rendering,
        )
    } else if dry {
        (
            UpState { phase: UpPhase::Finished, dry, templates, context, renderer },
            UpAction::Finish(Outcome::Completed),
        )
    } else {
        (
            UpState { phase: UpPhase::ResolvingInit, dry, templates, context, renderer },
            UpAction::ResolveInitScript,
        )
    }
}

/// One step of bringing a deployment up: takes the lifecycle's state and
/// what the caller reports, and returns the next state and what to do.
///
/// The steps run in this order: create the target directory, mirror the
/// source tree into it, load the manifest, compile every template, render
/// and write every template, and, unless the run is dry, run the init
/// script, which must lie in the target directory, and bring the containers
/// up. A cancellation that is reported in
/// place of a step's result ends the lifecycle as cancelled, a failure ends
/// it as failed; nothing that was written is taken back.
pub fn render_and_up(state: UpState, event: UpEvent) -> (next: (UpState, UpAction))
    requires
        state.wf(),
    ensures
        next.0.wf(),
        follows(state, event, next.0, next.1),
{
    let UpState { phase, dry, templates, context, renderer } = state;
    match phase {
        UpPhase::Created => match event {
            UpEvent::Start => (
                UpState { phase: UpPhase::EnsuringTarget, dry, templates, context, renderer },
                UpAction::EnsureTarget,
            ),
            _ => (UpState { phase, dry, templates, context, renderer }, UpAction::Ignored),
        },
        UpPhase::EnsuringTarget => match event {
            UpEvent::Step(StepResult::Done) => (
                UpState { phase: UpPhase::Syncing, dry, templates, context, renderer },
                UpAction::Sync,
            ),
            UpEvent::Step(result) => (
                UpState { phase: UpPhase::Finished, dry, templates, context, renderer },
                UpAction::Finish(Outcome::of_step(Attempt::CreateTargetDir, result)),
            ),
            _ => (UpState { phase, dry, templates, context, renderer }, UpAction::Ignored),
        },
        UpPhase::Syncing => match event {
            UpEvent::Sub(Outcome::Completed) => (
                UpState { phase: UpPhase::LoadingManifest, dry, templates, context, renderer },
                UpAction::LoadManifest,
            ),
            UpEvent::Sub(outcome) => (
                UpState { phase: UpPhase::Finished, dry, templates, context, renderer },
                UpAction::Finish(outcome),
            ),
            _ => (UpState { phase, dry, templates, context, renderer }, UpAction::Ignored),
        },
        UpPhase::LoadingManifest => match event {
            UpEvent::Manifest(manifest) => match manifest.validate() {
                Err(broken) => (
                    UpState { phase: UpPhase::Finished, dry, templates, context, renderer },
                    UpAction::Finish(
                        Outcome::Failed(
                            Failure {
                                kind: ErrorKind::Configuration,
                                attempt: Attempt::ParseManifest,
                                cause: Cause::Manifest(broken),
                            },
                        ),
                    ),
                ),
                Ok(()) => {
                    let data = context_of(&manifest);
                    let fresh = Renderer::new();
                    let listed = manifest.templates;
                    if listed.len() > 0 {
                        let first = listed[0].clone();
                        assert(listed@.take(0) =~= fresh.compiled());
                        (
                            UpState {
                                phase: UpPhase::Registering(0),
                                dry,
                                templates: listed,
                                context: data,
                                renderer: fresh,
                            },
                            UpAction::ReadTemplate(first),
                        )
                    } else {
                        assert(listed@ =~= fresh.compiled());
                        render_from(dry, listed, data, fresh, 0)
                    }
                },
            },
            UpEvent::Malformed(text) => (
                UpState { phase: UpPhase::Finished, dry, templates, context, renderer },
                UpAction::Finish(
                    Outcome::Failed(
                        Failure {
                            kind: ErrorKind::Configuration,
                            attempt: Attempt::ParseManifest,
                            cause: Cause::Message(text),
                        },
                    ),
                ),
            ),
            UpEvent::Step(StepResult::Done) => (
                UpState { phase, dry, templates, context, renderer },
                UpAction::Ignored,
            ),
            UpEvent::Step(result) => (
                UpState { phase: UpPhase::Finished, dry, templates, context, renderer },
                UpAction::Finish(Outcome::of_step(Attempt::ReadManifest, result)),
            ),
            _ => (UpState { phase, dry, templates, context, renderer }, UpAction::Ignored),
        },
        UpPhase::Registering(i) => match event {
            UpEvent::Template(source) => {
                let mut renderer = renderer;
                match renderer.register(&templates[i], source.as_str()) {
                    Err(fault) => (
                        UpState { phase: UpPhase::Finished, dry, templates, context, renderer },
                        UpAction::Finish(
                            Outcome::Failed(
                                Failure {
                                    kind: ErrorKind::Configuration,
                                    attempt: Attempt::CompileTemplate,
                                    cause: Cause::Template(fault),
                                },
                            ),
                        ),
                    ),
                    Ok(()) => {
                        assert(templates@.take(i as int).push(templates@[i as int])
                            =~= templates@.take(i + 1));
                        if i + 1 < templates.len() {
                            let following = templates[i + 1].clone();
                            (
                                UpState {
                                    phase: UpPhase::Registering(i + 1),
                                    dry,
                                    templates,
                                    context,
                                    renderer,
                                },
                                UpAction::ReadTemplate(following),
                            )
                        } else {
                            assert(templates@.take(i + 1) =~= templates@);
                            render_from(dry, templates, context, renderer, 0)
                        }
                    },
                }
            },
            UpEvent::Step(StepResult::Done) => (
                UpState { phase, dry, templates, context, renderer },
                UpAction::Ignored,
            ),
            UpEvent::Step(result) => (
                UpState { phase: UpPhase::Finished, dry, templates, context, renderer },
                UpAction::Finish(Outcome::of_step(Attempt::ReadTemplate, result)),
            ),
            _ => (UpState { phase, dry, templates, context, renderer }, UpAction::Ignored),
        },
        UpPhase::Rendering(i) => match event {
            UpEvent::Step(StepResult::Done) => render_from(dry, templates, context, renderer, i + 1),
            UpEvent::Step(result) => (
                UpState { phase: UpPhase::Finished, dry, templates, context, renderer },
                UpAction::Finish(Outcome::of_step(Attempt::WriteResult, result)),
            ),
            _ => (UpState { phase, dry, templates, context, renderer }, UpAction::Ignored),
        },
        UpPhase::ResolvingInit => match event {
            UpEvent::Located(resolution) => match resolution.clear() {
                Ok(script) => (
                    UpState { phase: UpPhase::RunningInit, dry, templates, context, renderer },
                    UpAction::RunInitScript(script),
                ),
                Err(failure) => (
                    UpState { phase: UpPhase::Finished, dry, templates, context, renderer },
                    UpAction::Finish(Outcome::Failed(failure)),
                ),
            },
            _ => (UpState { phase, dry, templates, context, renderer }, UpAction::Ignored),
        },
        UpPhase::RunningInit => match event {
            UpEvent::Script(run) => match Outcome::of_script(run) {
                Outcome::Completed => (
                    UpState { phase: UpPhase::ComposingUp, dry, templates, context, renderer },
                    UpAction::ComposeUp,
                ),
                outcome => (
                    UpState { phase: UpPhase::Finished, dry, templates, context, renderer },
                    UpAction::Finish(outcome),
                ),
            },
            _ => (UpState { phase, dry, templates, context, renderer }, UpAction::Ignored),
        },
        UpPhase::ComposingUp => match event {
            UpEvent::Sub(outcome) => (
                UpState { phase: UpPhase::Finished, dry, templates, context, renderer },
                UpAction::Finish(outcome),
            ),
            _ => (UpState { phase, dry, templates, context, renderer }, UpAction::Ignored),
        },
        UpPhase::Finished => (
            UpState { phase, dry, templates, context, renderer },
            UpAction::Ignored,
        ),
    }
}

/// A run of the lifecycle from its beginning: `states[k + 1]` and
/// `actions[k]` are what `events[k]` led to from `states[k]`.
pub open spec fn is_run(states: Seq<UpState>, events: Seq<UpEvent>, actions: Seq<UpAction>) -> bool {
    &&& states.len() == events.len() + 1
    &&& actions.len() == events.len()
    &&& states[0].phase() == UpPhase::Created
    &&& states[0].templates().len() == 0
    &&& forall|k: int|
        0 <= k < events.len() ==> follows(
            #[trigger] states[k],
            events[k],
            states[k + 1],
            actions[k],
        )
}

/// `paths`, and the path that `action` asks to write, if it asks for one.
pub open spec fn with_written(paths: Seq<String>, action: UpAction) -> Seq<String> {
    match action {
        UpAction::WriteTemplate { path, content } => paths.push(path),
        _ => paths,
    }
}

/// The paths whose writing `actions` ask for, in order.
pub open spec fn written_paths(actions: Seq<UpAction>) -> Seq<String>
    decreases actions.len(),
{
    if actions.len() == 0 {
        Seq::empty()
    } else {
        with_written(written_paths(actions.drop_last()), actions.last())
    }
}

/// `action` starts an external process.
pub open spec fn starts_process(action: UpAction) -> bool {
    action is RunInitScript || action is ComposeUp
}

/// `started`, and `action` if it starts a process.
pub open spec fn with_started(started: Seq<UpAction>, action: UpAction) -> Seq<UpAction> {
    if starts_process(action) {
        started.push(action)
    } else {
        started
    }
}

/// Those of `actions` that start a process, in order.
pub open spec fn started_processes(actions: Seq<UpAction>) -> Seq<UpAction>
    decreases actions.len(),
{
    if actions.len() == 0 {
        Seq::empty()
    } else {
        with_started(started_processes(actions.drop_last()), actions.last())
    }
}

/// The init script and, after it, the compose tool.
pub open spec fn init_then_compose(started: Seq<UpAction>) -> bool {
    started.len() == 2 && started[0] is RunInitScript && started[1] == UpAction::ComposeUp
}

/// What a run has asked for so far, by the phase it is in.
spec fn progress(state: UpState, written: Seq<String>, started: Seq<UpAction>) -> bool {
    let templates = state.templates();
    &&& state.dry() ==> started.len() == 0
    &&& match state.phase() {
        UpPhase::Created | UpPhase::EnsuringTarget | UpPhase::Syncing | UpPhase::LoadingManifest => {
            written.len() == 0 && templates.len() == 0 && started.len() == 0
        },
        UpPhase::Registering(i) => written.len() == 0 && i < templates.len() && started.len() == 0,
        UpPhase::Rendering(i) => {
            i < templates.len() && written == templates.take(i + 1) && started.len() == 0
        },
        UpPhase::ResolvingInit => written == templates && !state.dry() && started.len() == 0,
        UpPhase::RunningInit => {
            written == templates && !state.dry() && started.len() == 1 && started[0]
                is RunInitScript
        },
        UpPhase::ComposingUp => written == templates && !state.dry() && init_then_compose(started),
        UpPhase::Finished => true,
    }
}

/// What a completed run has asked for.
spec fn complete(state: UpState, written: Seq<String>, started: Seq<UpAction>) -> bool {
    &&& written == state.templates()
    &&& if state.dry() {
        started.len() == 0
    } else {
        init_then_compose(started)
    }
}

proof fn lemma_step_progress(
    pre: UpState,
    event: UpEvent,
    post: UpState,
    action: UpAction,
    written: Seq<String>,
    started: Seq<UpAction>,
)
    requires
        follows(pre, event, post, action),
        progress(pre, written, started),
    ensures
        progress(post, with_written(written, action), with_started(started, action)),
        action == UpAction::Finish(Outcome::Completed) ==> complete(post, written, started),
{
    let templates = post.templates();
    assert(templates.take(templates.len() as int) =~= templates);
    if written.len() == 0 {
        assert(written =~= templates.take(0));
        if templates.len() > 0 {
            assert(written.push(templates[0]) =~= templates.take(1));
        }
    }
    match pre.phase() {
        UpPhase::Rendering(i) => {
            if i + 1 < templates.len() {
                assert(templates.take(i + 1).push(templates[i + 1]) =~= templates.take(i + 2));
            } else {
            }
        },
        _ => {},
    }
}

proof fn lemma_run_progress(
    states: Seq<UpState>,
    events: Seq<UpEvent>,
    actions: Seq<UpAction>,
    k: int,
)
    requires
        is_run(states, events, actions),
        0 <= k <= events.len(),
    ensures
        states[k].dry() == states[0].dry(),
        progress(
            states[k],
            written_paths(actions.take(k)),
            started_processes(actions.take(k)),
        ),
        k > 0 && actions[k - 1] == UpAction::Finish(Outcome::Completed) ==> complete(
            states[k],
            written_paths(actions.take(k)),
            started_processes(actions.take(k)),
        ),
    decreases k,
{
    if k > 0 {
        lemma_run_progress(states, events, actions, k - 1);
        assert(actions.take(k).drop_last() =~= actions.take(k - 1));
        lemma_step_progress(
            states[k - 1],
            events[k - 1],
            states[k],
            actions[k - 1],
            written_paths(actions.take(k - 1)),
            started_processes(actions.take(k - 1)),
        );
    }
}

/// Every completed run has asked for the writing of each template of the
/// manifest exactly once, in the manifest's order, before it ended: with `n`
/// templates, `n` rendered files.
pub proof fn lemma_completed_run_writes_each_template(
    states: Seq<UpState>,
    events: Seq<UpEvent>,
    actions: Seq<UpAction>,
)
    requires
        is_run(states, events, actions),
        actions.len() > 0,
        actions.last() == UpAction::Finish(Outcome::Completed),
    ensures
        written_paths(actions) == states.last().templates(),
{
    lemma_run_progress(states, events, actions, actions.len() as int);
    assert(actions.take(actions.len() as int) =~= actions);
}

/// A dry run never asks for a process to be started: neither the init
/// script nor the compose tool.
pub proof fn lemma_dry_run_starts_no_process(
    states: Seq<UpState>,
    events: Seq<UpEvent>,
    actions: Seq<UpAction>,
)
    requires
        is_run(states, events, actions),
        states[0].dry(),
    ensures
        started_processes(actions).len() == 0,
{
    lemma_run_progress(states, events, actions, actions.len() as int);
    assert(actions.take(actions.len() as int) =~= actions);
}

/// A run that is not dry and completes has started exactly two processes:
/// the init script, and after it the compose tool.
pub proof fn lemma_real_run_starts_both(
    states: Seq<UpState>,
    events: Seq<UpEvent>,
    actions: Seq<UpAction>,
)
    requires
        is_run(states, events, actions),
        !states[0].dry(),
        actions.len() > 0,
        actions.last() == UpAction::Finish(Outcome::Completed),
    ensures
        init_then_compose(started_processes(actions)),
{
    lemma_run_progress(states, events, actions, actions.len() as int);
    assert(actions.take(actions.len() as int) =~= actions);
}

/// No template is written before every template is compiled: when a run
/// asks for a template's source, it has asked for no writing yet.
pub proof fn lemma_all_compiled_before_any_written(
    states: Seq<UpState>,
    events: Seq<UpEvent>,
    actions: Seq<UpAction>,
    k: int,
)
    requires
        is_run(states, events, actions),
        0 <= k < actions.len(),
        actions[k] is ReadTemplate,
    ensures
        written_paths(actions.take(k + 1)).len() == 0,
{
    lemma_run_progress(states, events, actions, k + 1);
    lemma_run_progress(states, events, actions, k);
}

/// A cancellation that is reported while the target directory is created,
/// while the tree is mirrored or while the manifest is read ends the
/// lifecycle as cancelled, not as failed.
pub proof fn lemma_early_cancellation_is_no_error(
    pre: UpState,
    event: UpEvent,
    post: UpState,
    action: UpAction,
)
    requires
        follows(pre, event, post, action),
        match pre.phase() {
            UpPhase::EnsuringTarget | UpPhase::LoadingManifest => event == UpEvent::Step(
                StepResult::Cancelled,
            ),
            UpPhase::Syncing => event == UpEvent::Sub(Outcome::Cancelled),
            _ => false,
        },
    ensures
        post.phase() == UpPhase::Finished,
        action == UpAction::Finish(Outcome::Cancelled),
{
}

} // verus!
