//! How an operation ends: completed, cancelled, or failed with the kind of
//! failure, the action that was attempted and the underlying cause.

use vstd::prelude::*;
use vstd::string::*;
use crate::paths::{is_within, within};
use crate::up::manifest::ManifestError;
use crate::up::renderer::RenderFault;

verus! {

/// The taxonomy of failures.
#[derive(Debug, Clone, Copy, PartialEq, Eq, Structural)]
pub enum ErrorKind {
    /// Malformed manifest, invalid template reference or template syntax.
    Configuration,
    /// A required executable or script is not where it must be.
    Environment,
    /// A file or directory could not be created, copied, read or written.
    Io,
    /// An external process ended with a status other than zero.
    ExternalProcess,
    /// The engine's version could not be read from what it printed.
    Protocol,
}

/// The action during which a failure occurred.
#[derive(Debug, Clone, Copy, PartialEq, Eq, Structural)]
pub enum Attempt {
    CreateTargetDir,
    CopyFiles,
    ReadManifest,
    ParseManifest,
    ReadTemplate,
    CompileTemplate,
    RenderTemplate,
    WriteResult,
    CheckTarget,
    ResolveScript,
    FindShell,
    RunScript,
    FindEngine,
    CheckEngineVersion,
    ExtractEngineVersion,
    FindCompose,
    RunCompose,
    ResolveSource,
    ResolveDestination,
    CheckDirectories,
    ReadDir,
    RemoveFile,
    CopyFile,
    RemoveDir,
    CreateDir,
    CheckNewDir,
    WriteAsset,
    SetPermissions,
}

/// What lay under a failure.
#[derive(Debug, PartialEq, Eq)]
pub enum Cause {
    /// The text of the error that the operating system or a tool reported.
    Message(String),
    /// The status with which a process ended; `None` where a signal ended it.
    Exit(Option<i32>),
    /// The manifest broke one of its rules.
    Manifest(ManifestError),
    /// A template did not compile or render.
    Template(RenderFault),
}

/// A failure, with the description of what was being done.
#[derive(Debug, PartialEq, Eq)]
pub struct Failure {
    pub kind: ErrorKind,
    pub attempt: Attempt,
    pub cause: Cause,
}

/// How an operation ended.
#[derive(Debug, PartialEq, Eq)]
pub enum Outcome {
    /// Everything asked for was done.
    Completed,
    /// Cancellation was observed first; what was done so far stays done.
    Cancelled,
    Failed(Failure),
}

/// The status of a process that ran to its end.
#[derive(Debug, Clone, Copy, PartialEq, Eq, Structural)]
pub struct ExitStatus {
    /// The exit code, or `None` where a signal ended the process.
    pub code: Option<i32>,
}

/// What came of running a process while watching for cancellation.
#[derive(Debug, PartialEq, Eq)]
pub enum RunResult {
    /// The process ended by itself.
    Exited(ExitStatus),
    /// Cancellation was requested first and the process was killed.
    Cancelled,
    /// The process could not be started or waited for.
    Failed(String),
}

/// What came of a plain file-system step.
#[derive(Debug, PartialEq, Eq)]
pub enum StepResult {
    Done,
    /// Cancellation was observed before the step completed.
    Cancelled,
    /// The step failed; the text describes the error.
    Failed(String),
}

/// What came of resolving the path of one of the deployment's scripts.
#[derive(Debug, PartialEq, Eq)]
pub enum Resolution {
    /// The deployment directory and the script, both as resolved paths.
    Resolved { root: String, script: String },
    /// The script does not exist; the text says so.
    Missing(String),
}

/// What came of running one of the deployment's scripts through the shell.
#[derive(Debug, PartialEq, Eq)]
pub enum ScriptRun {
    /// No shell was found on the search path.
    NoShell(String),
    /// The shell was started on the script.
    Ran(RunResult),
}

impl Attempt {
    /// The words of `describe`.
    pub open spec fn description(self) -> Seq<char> {
        match self {
            Attempt::CreateTargetDir => "create target dir"@,
            Attempt::CopyFiles => "copy file to target dir"@,
            Attempt::ReadManifest => "read manifest"@,
            Attempt::ParseManifest => "can't parse config"@,
            Attempt::ReadTemplate => "read template content"@,
            Attempt::CompileTemplate => "compile template file"@,
            Attempt::RenderTemplate => "render template"@,
            Attempt::WriteResult => "write result to file"@,
            Attempt::CheckTarget => "check target dir"@,
            Attempt::ResolveScript => "script path illegal"@,
            Attempt::FindShell => "can't find your sh"@,
            Attempt::RunScript => "run script with sh"@,
            Attempt::FindEngine => "can't find your docker program"@,
            Attempt::CheckEngineVersion => "check docker version"@,
            Attempt::ExtractEngineVersion => "can't extract docker version"@,
            Attempt::FindCompose => "can't find your docker-compose program"@,
            Attempt::RunCompose => "run docker compose"@,
            Attempt::ResolveSource => "get from abs path"@,
            Attempt::ResolveDestination => "get to abs path"@,
            Attempt::CheckDirectories => "source and destination must be directories"@,
            Attempt::ReadDir => "read dir"@,
            Attempt::RemoveFile => "remove file"@,
            Attempt::CopyFile => "copy file"@,
            Attempt::RemoveDir => "remove dir"@,
            Attempt::CreateDir => "create target dir"@,
            Attempt::CheckNewDir => "check new application dir"@,
            Attempt::WriteAsset => "write file"@,
            Attempt::SetPermissions => "set permissions"@,
        }
    }

    /// What was being done, in words for the user.
    pub fn describe(self) -> (text: String)
        ensures
            text@ == self.description(),
    {
        match self {
            Attempt::CreateTargetDir => String::from_str("create target dir"),
            Attempt::CopyFiles => String::from_str("copy file to target dir"),
            Attempt::ReadManifest => String::from_str("read manifest"),
            Attempt::ParseManifest => String::from_str("can't parse config"),
            Attempt::ReadTemplate => String::from_str("read template content"),
            Attempt::CompileTemplate => String::from_str("compile template file"),
            Attempt::RenderTemplate => String::from_str("render template"),
            Attempt::WriteResult => String::from_str("write result to file"),
            Attempt::CheckTarget => String::from_str("check target dir"),
            Attempt::ResolveScript => String::from_str("script path illegal"),
            Attempt::FindShell => String::from_str("can't find your sh"),
            Attempt::RunScript => String::from_str("run script with sh"),
            Attempt::FindEngine => String::from_str("can't find your docker program"),
            Attempt::CheckEngineVersion => String::from_str("check docker version"),
            Attempt::ExtractEngineVersion => String::from_str("can't extract docker version"),
            Attempt::FindCompose => String::from_str("can't find your docker-compose program"),
            Attempt::RunCompose => String::from_str("run docker compose"),
            Attempt::ResolveSource => String::from_str("get from abs path"),
            Attempt::ResolveDestination => String::from_str("get to abs path"),
            Attempt::CheckDirectories => String::from_str(
                "source and destination must be directories",
            ),
            Attempt::ReadDir => String::from_str("read dir"),
            Attempt::RemoveFile => String::from_str("remove file"),
            Attempt::CopyFile => String::from_str("copy file"),
            Attempt::RemoveDir => String::from_str("remove dir"),
            Attempt::CreateDir => String::from_str("create target dir"),
            Attempt::CheckNewDir => String::from_str("check new application dir"),
            Attempt::WriteAsset => String::from_str("write file"),
            Attempt::SetPermissions => String::from_str("set permissions"),
        }
    }
}

impl Resolution {
    /// The script's path where the script may be run, else the failure: a
    /// script that is missing or that lies outside the deployment directory
    /// is a failure of the environment.
    pub open spec fn cleared(self) -> Result<String, Failure> {
        match self {
            Resolution::Resolved { root, script } => if within(script@, root@) {
                Ok(script)
            } else {
                Err(
                    Failure {
                        kind: ErrorKind::Environment,
                        attempt: Attempt::ResolveScript,
                        cause: Cause::Message(script),
                    },
                )
            },
            Resolution::Missing(text) => Err(
                Failure {
                    kind: ErrorKind::Environment,
                    attempt: Attempt::ResolveScript,
                    cause: Cause::Message(text),
                },
            ),
        }
    }

    /// The script's path where the script may be run, else the failure.
    pub fn clear(self) -> (checked: Result<String, Failure>)
        ensures
            checked == self.cleared(),
    {
        match self {
            Resolution::Resolved { root, script } => if is_within(script.as_str(), root.as_str()) {
                Ok(script)
            } else {
                Err(
                    Failure {
                        kind: ErrorKind::Environment,
                        attempt: Attempt::ResolveScript,
                        cause: Cause::Message(script),
                    },
                )
            },
            Resolution::Missing(text) => Err(
                Failure {
                    kind: ErrorKind::Environment,
                    attempt: Attempt::ResolveScript,
                    cause: Cause::Message(text),
                },
            ),
        }
    }
}

impl ExitStatus {
    /// The process ended with code zero.
    pub open spec fn succeeded_spec(self) -> bool {
        self.code == Some(0i32)
    }

    /// Whether the process ended with code zero.
    #[verifier::when_used_as_spec(succeeded_spec)]
    pub fn succeeded(self) -> (success: bool)
        ensures
            success == self.succeeded_spec(),
    {
        match self.code {
            Some(code) => code == 0,
            None => false,
        }
    }
}

impl Outcome {
    /// The failure of kind `kind` during `attempt` with the message `text`.
    pub open spec fn failed(kind: ErrorKind, attempt: Attempt, text: String) -> Outcome {
        Outcome::Failed(Failure { kind, attempt, cause: Cause::Message(text) })
    }

    /// The outcome of a process run during `attempt`: success for exit code
    /// zero, a failure that carries the status for any other end, the neutral
    /// cancelled outcome where the process was killed on cancellation.
    pub open spec fn of_run_spec(attempt: Attempt, run: RunResult) -> Outcome {
        match run {
            RunResult::Exited(status) => if status.succeeded() {
                Outcome::Completed
            } else {
                Outcome::Failed(
                    Failure {
                        kind: ErrorKind::ExternalProcess,
                        attempt,
                        cause: Cause::Exit(status.code),
                    },
                )
            },
            RunResult::Cancelled => Outcome::Cancelled,
            RunResult::Failed(text) => Outcome::failed(ErrorKind::Io, attempt, text),
        }
    }

    /// The outcome of a process run during `attempt`.
    pub fn of_run(attempt: Attempt, run: RunResult) -> (outcome: Outcome)
        ensures
            outcome == Outcome::of_run_spec(attempt, run),
    {
        match run {
            RunResult::Exited(status) => if status.succeeded() {
                Outcome::Completed
            } else {
                Outcome::Failed(
                    Failure {
                        kind: ErrorKind::ExternalProcess,
                        attempt,
                        cause: Cause::Exit(status.code),
                    },
                )
            },
            RunResult::Cancelled => Outcome::Cancelled,
            RunResult::Failed(text) => Outcome::Failed(
                Failure { kind: ErrorKind::Io, attempt, cause: Cause::Message(text) },
            ),
        }
    }

    /// The outcome of running a script: a missing shell is a failure of the
    /// environment.
    pub open spec fn of_script_spec(run: ScriptRun) -> Outcome {
        match run {
            ScriptRun::NoShell(text) => Outcome::failed(
                ErrorKind::Environment,
                Attempt::FindShell,
                text,
            ),
            ScriptRun::Ran(run) => Outcome::of_run_spec(Attempt::RunScript, run),
        }
    }

    /// The outcome of running a script.
    pub fn of_script(run: ScriptRun) -> (outcome: Outcome)
        ensures
            outcome == Outcome::of_script_spec(run),
    {
        match run {
            ScriptRun::NoShell(text) => Outcome::Failed(
                Failure {
                    kind: ErrorKind::Environment,
                    attempt: Attempt::FindShell,
                    cause: Cause::Message(text),
                },
            ),
            ScriptRun::Ran(run) => Outcome::of_run(Attempt::RunScript, run),
        }
    }

    /// The outcome of a file-system step during `attempt`.
    pub open spec fn of_step_spec(attempt: Attempt, step: StepResult) -> Outcome {
        match step {
            StepResult::Done => Outcome::Completed,
            StepResult::Cancelled => Outcome::Cancelled,
            StepResult::Failed(text) => Outcome::failed(ErrorKind::Io, attempt, text),
        }
    }

    /// The outcome of a file-system step during `attempt`.
    pub fn of_step(attempt: Attempt, step: StepResult) -> (outcome: Outcome)
        ensures
            outcome == Outcome::of_step_spec(attempt, step),
    {
        match step {
            StepResult::Done => Outcome::Completed,
            StepResult::Cancelled => Outcome::Cancelled,
            StepResult::Failed(text) => Outcome::Failed(
                Failure { kind: ErrorKind::Io, attempt, cause: Cause::Message(text) },
            ),
        }
    }
}

} // verus!
