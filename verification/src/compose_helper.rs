//! Running the compose tool: which of its two forms to use, found out from
//! the engine's version, and the steps that lead from finding the engine to
//! the tool's exit.
//!
//! An engine of version 20.10.13 or later has the tool built in and is
//! called with a `compose` subcommand; an older one needs the standalone
//! `docker-compose` executable.

use vstd::prelude::*;
use vstd::string::*;
use crate::outcome::{Attempt, Cause, ErrorKind, Failure, Outcome, RunResult};
use crate::paths::texts;

verus! {

/// The shape of a semantic version: `MAJOR.MINOR.PATCH`, then optionally a
/// hyphen and a pre-release, then optionally a plus sign and build metadata.
pub const VERSION_PATTERN: &'static str =
    r"(0|[1-9]\d*)\.(0|[1-9]\d*)\.(0|[1-9]\d*)(?:-((?:0|[1-9]\d*|\d*[a-zA-Z-][0-9a-zA-Z-]*)(?:\.(?:0|[1-9]\d*|\d*[a-zA-Z-][0-9a-zA-Z-]*))*))?(?:\+([0-9a-zA-Z-]+(?:\.[0-9a-zA-Z-]+)*))?";

/// The versions of the engine that have the compose tool built in.
pub const INTEGRATED_SINCE: &'static str = ">=20.10.13";

/// Whether `pattern` is a regular expression that the `regex` crate compiles.
pub uninterp spec fn regex_compiles(pattern: Seq<char>) -> bool;

/// The first match of the regular expression `pattern` in `text`.
pub uninterp spec fn regex_find(pattern: Seq<char>, text: Seq<char>) -> Option<Seq<char>>;

/// Whether the version `version` meets the requirement `requirement`, both
/// written as the `semver` crate reads them; `None` where either does not
/// parse.
pub uninterp spec fn semver_satisfies(requirement: Seq<char>, version: Seq<char>) -> Option<bool>;

/// The view of an optional string.
pub open spec fn text_of(text: Option<String>) -> Option<Seq<char>> {
    match text {
        Some(text) => Some(text@),
        None => None,
    }
}

/// Compiles `pattern` with `regex::Regex::new` and searches `text` with
/// `Regex::find`: the matched substring, `None` inside where nothing
/// matches, `None` outside where the pattern does not compile.
#[verifier::external_body]
fn find_first(pattern: &str, text: &str) -> (found: Option<Option<String>>)
    ensures
        found is Some <==> regex_compiles(pattern@),
        found matches Some(matched) ==> text_of(matched) == regex_find(pattern@, text@),
{
    match regex::Regex::new(pattern) {
        Ok(compiled) => Some(compiled.find(text).map(|found| found.as_str().to_owned())),
        Err(_) => None,
    }
}

/// Parses `requirement` with `semver::VersionReq::parse` and `version` with
/// `semver::Version::parse`, and asks `VersionReq::matches`.
#[verifier::external_body]
fn satisfies(requirement: &str, version: &str) -> (met: Option<bool>)
    ensures
        met == semver_satisfies(requirement@, version@),
{
    match (semver::VersionReq::parse(requirement), semver::Version::parse(version)) {
        (Ok(requirement), Ok(version)) => Some(requirement.matches(&version)),
        _ => None,
    }
}

/// The form in which the compose tool is available.
#[derive(Debug, Clone, Copy, PartialEq, Eq, Structural)]
pub enum Capability {
    /// The engine has it built in.
    Integrated,
    /// It is an executable of its own.
    Standalone,
}

/// The first version-shaped substring of what the engine printed.
pub open spec fn extracted_version(output: Seq<char>) -> Option<Seq<char>> {
    if regex_compiles(VERSION_PATTERN@) {
        regex_find(VERSION_PATTERN@, output)
    } else {
        None
    }
}

/// The first version-shaped substring of what the engine printed, or `None`
/// where it printed none.
pub fn extract_version(output: &str) -> (version: Option<String>)
    ensures
        text_of(version) == extracted_version(output@),
{
    match find_first(VERSION_PATTERN, output) {
        Some(found) => found,
        None => None,
    }
}

/// The capability that goes with the answer to "does the version meet the
/// requirement": none where the question had no answer.
pub open spec fn capability_for(met: Option<bool>) -> Option<Capability> {
    match met {
        Some(true) => Some(Capability::Integrated),
        Some(false) => Some(Capability::Standalone),
        None => None,
    }
}

/// The capability that goes with the answer to "does the version meet the
/// requirement".
pub fn select(met: Option<bool>) -> (capability: Option<Capability>)
    ensures
        capability == capability_for(met),
{
    match met {
        Some(true) => Some(Capability::Integrated),
        Some(false) => Some(Capability::Standalone),
        None => None,
    }
}

/// The capability of the engine that printed `output` when asked for its
/// version: none where no version can be read from it.
pub open spec fn capability_of(output: Seq<char>) -> Option<Capability> {
    match extracted_version(output) {
        Some(version) => capability_for(semver_satisfies(INTEGRATED_SINCE@, version)),
        None => None,
    }
}

/// Reads the engine's version from what it printed and compares it with
/// the first version that has the compose tool built in.
pub fn resolve(output: &str) -> (capability: Option<Capability>)
    ensures
        capability == capability_of(output@),
{
    match extract_version(output) {
        Some(version) => select(satisfies(INTEGRATED_SINCE, version.as_str())),
        None => None,
    }
}

/// An executable that is looked up on the search path.
#[derive(Debug, Clone, Copy, PartialEq, Eq, Structural)]
pub enum Program {
    /// The container engine's command line.
    Engine,
    /// The standalone compose tool.
    Compose,
}

/// What the compose tool is asked to do.
#[derive(Debug, Clone, Copy, PartialEq, Eq, Structural)]
pub enum ComposeCommand {
    /// `up -d`: bring the containers up, detached.
    Up,
    /// `down`: stop and remove the containers.
    Down,
}

/// The chosen way to call the compose tool, with the executable's path.
#[derive(Debug, PartialEq, Eq)]
pub enum ComposeStrategy {
    /// The engine's command line, with `compose` before the arguments.
    Integrated(String),
    /// The standalone executable.
    Standalone(String),
}

impl Program {
    /// The file name of the executable.
    pub open spec fn file_name_spec(self, windows: bool) -> Seq<char> {
        match (self, windows) {
            (Program::Engine, false) => "docker"@,
            (Program::Engine, true) => "docker.exe"@,
            (Program::Compose, false) => "docker-compose"@,
            (Program::Compose, true) => "docker-compose.exe"@,
        }
    }

    /// The file name under which the executable is looked up.
    pub fn file_name(self, windows: bool) -> (name: String)
        ensures
            name@ == self.file_name_spec(windows),
    {
        match (self, windows) {
            (Program::Engine, false) => String::from_str("docker"),
            (Program::Engine, true) => String::from_str("docker.exe"),
            (Program::Compose, false) => String::from_str("docker-compose"),
            (Program::Compose, true) => String::from_str("docker-compose.exe"),
        }
    }
}

/// The arguments that make the engine print its client version.
pub fn probe_arguments() -> (arguments: Vec<String>)
    ensures
        texts(arguments@) == seq!["version"@, "--format"@, "'{{.Client.Version}}'"@],
{
    let mut arguments: Vec<String> = Vec::new();
    arguments.push(String::from_str("version"));
    arguments.push(String::from_str("--format"));
    arguments.push(String::from_str("'{{.Client.Version}}'"));
    arguments
}

impl ComposeCommand {
    /// The arguments of the command.
    pub open spec fn words(self) -> Seq<Seq<char>> {
        match self {
            ComposeCommand::Up => seq!["up"@, "-d"@],
            ComposeCommand::Down => seq!["down"@],
        }
    }
}

impl ComposeStrategy {
    /// The path of the executable to run.
    pub open spec fn program_spec(self) -> String {
        match self {
            ComposeStrategy::Integrated(path) => path,
            ComposeStrategy::Standalone(path) => path,
        }
    }

    /// The path of the executable to run.
    pub fn program(&self) -> (path: &String)
        ensures
            *path == self.program_spec(),
    {
        match self {
            ComposeStrategy::Integrated(path) => path,
            ComposeStrategy::Standalone(path) => path,
        }
    }

    /// The arguments to run the executable with.
    pub open spec fn arguments_spec(self, command: ComposeCommand) -> Seq<Seq<char>> {
        match self {
            ComposeStrategy::Integrated(_) => seq!["compose"@] + command.words(),
            ComposeStrategy::Standalone(_) => command.words(),
        }
    }

    /// The arguments to run the executable with: those of `command`, after
    /// `compose` where the engine's command line is used.
    pub fn arguments(&self, command: ComposeCommand) -> (arguments: Vec<String>)
        ensures
            texts(arguments@) == self.arguments_spec(command),
    {
        let mut arguments: Vec<String> = Vec::new();
        if let ComposeStrategy::Integrated(_) = self {
            arguments.push(String::from_str("compose"));
        }
        match command {
            ComposeCommand::Up => {
                arguments.push(String::from_str("up"));
                arguments.push(String::from_str("-d"));
            },
            ComposeCommand::Down => {
                arguments.push(String::from_str("down"));
            },
        }
        arguments
    }
}

/// What the run of the compose tool waits for.
#[derive(Debug, Clone, Copy, PartialEq, Eq, Structural)]
pub enum ComposePhase {
    /// Nothing was asked for yet.
    Created,
    /// The engine's command line is being looked up.
    FindingEngine,
    /// The engine is being asked for its version.
    Probing,
    /// The standalone executable is being looked up.
    FindingCompose,
    /// The compose tool is running.
    Running,
    /// The run has ended.
    Finished,
}

/// What came of asking the engine for its version.
#[derive(Debug)]
pub enum ProbeResult {
    /// What the engine printed on its standard output.
    Output(String),
    /// Cancellation was requested first.
    Cancelled,
    /// The engine could not be run.
    Failed(String),
}

/// What the caller reports.
#[derive(Debug)]
pub enum ComposeEvent {
    /// Begin.
    Start,
    /// The executable was found at this path.
    Found(String),
    /// The executable is not on the search path.
    NotFound(String),
    /// The engine was asked for its version.
    Probed(ProbeResult),
    /// The compose tool was run.
    Ran(RunResult),
}

/// What the caller is asked to do next.
#[derive(Debug, PartialEq, Eq)]
pub enum ComposeAction {
    /// Look the executable up on the search path; answer with `Found` or
    /// `NotFound`.
    Find(Program),
    /// Run the engine at this path with the probe arguments, capturing its
    /// output, until it ends or cancellation is requested; answer with
    /// `Probed`.
    Probe(String),
    /// Run the compose tool in the target directory, with inherited
    /// streams, until it ends or cancellation is requested; answer with
    /// `Ran`.
    Run(ComposeStrategy),
    /// The run has ended with this outcome.
    Finish(Outcome),
    /// The event answers nothing that was asked; it was dropped.
    Ignored,
}

/// The state of a run of the compose tool.
pub struct ComposeState {
    phase: ComposePhase,
    command: ComposeCommand,
    engine: Option<String>,
}

impl ComposeState {
    /// What the run waits for.
    pub closed spec fn phase(&self) -> ComposePhase {
        self.phase
    }

    /// What the compose tool is asked to do.
    pub closed spec fn command(&self) -> ComposeCommand {
        self.command
    }

    /// The path of the engine's command line, once it is found.
    pub closed spec fn engine(&self) -> Option<String> {
        self.engine
    }

    /// The state is one that a run can be in: the engine's path is known
    /// while the engine is asked for its version.
    pub closed spec fn wf(&self) -> bool {
        self.phase == ComposePhase::Probing ==> self.engine is Some
    }

    /// A run that has not begun.
    pub fn new(command: ComposeCommand) -> (state: ComposeState)
        ensures
            state.wf(),
            state.phase() == ComposePhase::Created,
            state.command() == command,
            state.engine() is None,
    {
        ComposeState { phase: ComposePhase::Created, command, engine: None }
    }

    /// What the tool is asked to do.
    pub fn requested(&self) -> (command: ComposeCommand)
        ensures
            command == self.command(),
    {
        self.command
    }

    /// What the run waits for.
    pub fn current_phase(&self) -> (phase: ComposePhase)
        ensures
            phase == self.phase(),
    {
        self.phase
    }
}

/// The run has ended with `outcome`.
pub open spec fn ends_with(post: ComposeState, action: ComposeAction, outcome: Outcome) -> bool {
    post.phase() == ComposePhase::Finished && action == ComposeAction::Finish(outcome)
}

/// The transition relation of a run: `post` and `action` are what `event`
/// leads to from `pre`.
pub open spec fn follows(
    pre: ComposeState,
    event: ComposeEvent,
    post: ComposeState,
    action: ComposeAction,
) -> bool {
    &&& post.command() == pre.command()
    &&& match (pre.phase(), event) {
        (ComposePhase::Created, ComposeEvent::Start) => {
            &&& post.phase() == ComposePhase::FindingEngine
            &&& post.engine() == pre.engine()
            &&& action == ComposeAction::Find(Program::Engine)
        },
        (ComposePhase::FindingEngine, ComposeEvent::Found(path)) => {
            &&& post.phase() == ComposePhase::Probing
            &&& post.engine() == Some(path)
            &&& action == ComposeAction::Probe(path)
        },
        (ComposePhase::FindingEngine, ComposeEvent::NotFound(text)) => ends_with(
            post,
            action,
            Outcome::failed(ErrorKind::Environment, Attempt::FindEngine, text),
        ),
        (ComposePhase::Probing, ComposeEvent::Probed(ProbeResult::Output(output))) => {
            match capability_of(output@) {
                Some(Capability::Integrated) => {
                    &&& post.phase() == ComposePhase::Running
                    &&& action == ComposeAction::Run(
                        ComposeStrategy::Integrated(pre.engine().unwrap()),
                    )
                },
                Some(Capability::Standalone) => {
                    &&& post.phase() == ComposePhase::FindingCompose
                    &&& action == ComposeAction::Find(Program::Compose)
                },
                None => ends_with(
                    post,
                    action,
                    Outcome::failed(ErrorKind::Protocol, Attempt::ExtractEngineVersion, output),
                ),
            }
        },
        (ComposePhase::Probing, ComposeEvent::Probed(ProbeResult::Cancelled)) => ends_with(
            post,
            action,
            Outcome::Cancelled,
        ),
        (ComposePhase::Probing, ComposeEvent::Probed(ProbeResult::Failed(text))) => ends_with(
            post,
            action,
            Outcome::failed(ErrorKind::Io, Attempt::CheckEngineVersion, text),
        ),
        (ComposePhase::FindingCompose, ComposeEvent::Found(path)) => {
            &&& post.phase() == ComposePhase::Running
            &&& action == ComposeAction::Run(ComposeStrategy::Standalone(path))
        },
        (ComposePhase::FindingCompose, ComposeEvent::NotFound(text)) => ends_with(
            post,
            action,
            Outcome::failed(ErrorKind::Environment, Attempt::FindCompose, text),
        ),
        (ComposePhase::Running, ComposeEvent::Ran(run)) => ends_with(
            post,
            action,
            Outcome::of_run_spec(Attempt::RunCompose, run),
        ),
        _ => post == pre && action == ComposeAction::Ignored,
    }
}

fn finish(command: ComposeCommand, outcome: Outcome) -> (next: (ComposeState, ComposeAction))
    ensures
        next.0.wf(),
        next.0.command() == command,
        ends_with(next.0, next.1, outcome),
{
    (
        ComposeState { phase: ComposePhase::Finished, command, engine: None },
        ComposeAction::Finish(outcome),
    )
}

fn fail(command: ComposeCommand, kind: ErrorKind, attempt: Attempt, text: String) -> (next: (
    ComposeState,
    ComposeAction,
))
    ensures
        next.0.wf(),
        next.0.command() == command,
        ends_with(next.0, next.1, Outcome::failed(kind, attempt, text)),
{
    finish(command, Outcome::Failed(Failure { kind, attempt, cause: Cause::Message(text) }))
}

/// One step of running the compose tool: takes the run's state and what the
/// caller reports, and returns the next state and what to do.
///
/// The engine's command line is looked up and asked for its version. Where
/// no version can be read from what it printed, the run fails. An engine
/// that has the tool built in is run with `compose` before the arguments;
/// for an older one the standalone executable is looked up and run. An exit
/// status other than zero is a failure that carries the status; a
/// cancellation ends the run as cancelled.
pub fn compose(state: ComposeState, event: ComposeEvent) -> (next: (ComposeState, ComposeAction))
    requires
        state.wf(),
    ensures
        next.0.wf(),
        follows(state, event, next.0, next.1),
{
    let ComposeState { phase, command, engine } = state;
    match phase {
        ComposePhase::Created => match event {
            ComposeEvent::Start => (
                ComposeState { phase: ComposePhase::FindingEngine, command, engine },
                ComposeAction::Find(Program::Engine),
            ),
            _ => (ComposeState { phase, command, engine }, ComposeAction::Ignored),
        },
        ComposePhase::FindingEngine => match event {
            ComposeEvent::Found(path) => (
                ComposeState {
                    phase: ComposePhase::Probing,
                    command,
                    engine: Some(path.clone()),
                },
                ComposeAction::Probe(path),
            ),
            ComposeEvent::NotFound(text) => fail(
                command,
                ErrorKind::Environment,
                Attempt::FindEngine,
                text,
            ),
            _ => (ComposeState { phase, command, engine }, ComposeAction::Ignored),
        },
        ComposePhase::Probing => match event {
            ComposeEvent::Probed(ProbeResult::Output(output)) => match resolve(output.as_str()) {
                Some(Capability::Integrated) => match engine {
                    Some(path) => (
                        ComposeState { phase: ComposePhase::Running, command, engine: None },
                        ComposeAction::Run(ComposeStrategy::Integrated(path)),
                    ),
                    None => (ComposeState { phase, command, engine: None }, ComposeAction::Ignored),
                },
                Some(Capability::Standalone) => (
                    ComposeState { phase: ComposePhase::FindingCompose, command, engine },
                    ComposeAction::Find(Program::Compose),
                ),
                None => fail(
                    command,
                    ErrorKind::Protocol,
                    Attempt::ExtractEngineVersion,
                    output,
                ),
            },
            ComposeEvent::Probed(ProbeResult::Cancelled) => finish(command, Outcome::Cancelled),
            ComposeEvent::Probed(ProbeResult::Failed(text)) => fail(
                command,
                ErrorKind::Io,
                Attempt::CheckEngineVersion,
                text,
            ),
            _ => (ComposeState { phase, command, engine }, ComposeAction::Ignored),
        },
        ComposePhase::FindingCompose => match event {
            ComposeEvent::Found(path) => (
                ComposeState { phase: ComposePhase::Running, command, engine },
                ComposeAction::Run(ComposeStrategy::Standalone(path)),
            ),
            ComposeEvent::NotFound(text) => fail(
                command,
                ErrorKind::Environment,
                Attempt::FindCompose,
                text,
            ),
            _ => (ComposeState { phase, command, engine }, ComposeAction::Ignored),
        },
        ComposePhase::Running => match event {
            ComposeEvent::Ran(run) => finish(command, Outcome::of_run(Attempt::RunCompose, run)),
            _ => (ComposeState { phase, command, engine }, ComposeAction::Ignored),
        },
        ComposePhase::Finished => (
            ComposeState { phase, command, engine },
            ComposeAction::Ignored,
        ),
    }
}

} // verus!
