//! The top of the program: which command's result becomes which exit code,
//! and the graceful shutdown that an interrupt sets off.
//!
//! The coordinator watches four things at once: the interrupt signal, the
//! acknowledgement of the cancellation it has requested, the shutdown
//! deadline, and the end of the command. It ends with the command's exit
//! code, or with [`FORCED_EXIT`] where the command outlives the deadline.

use vstd::prelude::*;
use vstd::string::*;
use crate::outcome::Outcome;

verus! {

/// Seconds that a cancelled command is given to end by itself.
pub const GRACE_SECONDS: u64 = 30;

/// The exit code of a successful command.
pub const EXIT_SUCCESS: u8 = 0;

/// The exit code of a failed command.
pub const EXIT_FAILURE: u8 = 1;

/// The exit code of a shutdown that had to be forced.
pub const FORCED_EXIT: u8 = 0xeb;

/// The commands of the program.
#[derive(Debug, Clone, Copy, PartialEq, Eq, Structural)]
pub enum CommandKind {
    /// Create an application from the starter files.
    New,
    /// Render the application and bring it up.
    Up,
    /// Take the application down.
    Down,
}

/// What the program says and returns when a command has ended.
#[derive(Debug, PartialEq, Eq)]
pub struct Report {
    pub exit_code: u8,
    /// On success the line to print; on failure the words that go before
    /// the error.
    pub headline: String,
}

impl CommandKind {
    /// The line that reports success.
    pub open spec fn success_line(self) -> Seq<char> {
        match self {
            CommandKind::New => "Create success."@,
            CommandKind::Up => "Up success."@,
            CommandKind::Down => "Down success."@,
        }
    }

    /// The words that introduce a failure.
    pub open spec fn failure_prefix(self) -> Seq<char> {
        match self {
            CommandKind::New => "new application"@,
            CommandKind::Up => "Up app"@,
            CommandKind::Down => "Down app"@,
        }
    }
}

/// The exit code that goes with `outcome`: a cancelled command has not
/// failed.
pub open spec fn exit_code_of(outcome: Outcome) -> u8 {
    match outcome {
        Outcome::Failed(_) => EXIT_FAILURE,
        _ => EXIT_SUCCESS,
    }
}

/// What to say and return now that the command `kind` has ended with
/// `outcome`.
pub fn deliver_command(kind: CommandKind, outcome: &Outcome) -> (report: Report)
    ensures
        report.exit_code == exit_code_of(*outcome),
        report.headline@ == if outcome is Failed {
            kind.failure_prefix()
        } else {
            kind.success_line()
        },
{
    match outcome {
        Outcome::Failed(_) => Report {
            exit_code: EXIT_FAILURE,
            headline: match kind {
                CommandKind::New => String::from_str("new application"),
                CommandKind::Up => String::from_str("Up app"),
                CommandKind::Down => String::from_str("Down app"),
            },
        },
        _ => Report {
            exit_code: EXIT_SUCCESS,
            headline: match kind {
                CommandKind::New => String::from_str("Create success."),
                CommandKind::Up => String::from_str("Up success."),
                CommandKind::Down => String::from_str("Down success."),
            },
        },
    }
}

/// Where the shutdown stands.
#[derive(Debug, Clone, Copy, PartialEq, Eq, Structural)]
pub enum ShutdownPhase {
    /// No interrupt was seen; the command runs.
    Running,
    /// An interrupt was seen and cancellation requested; its
    /// acknowledgement is awaited.
    Cancelling,
    /// Cancellation is acknowledged and the deadline runs.
    Draining,
    /// The program ends with this exit code.
    Exited(u8),
}

/// What happened.
#[derive(Debug, Clone, Copy, PartialEq, Eq, Structural)]
pub enum CoordinatorEvent {
    /// The operating system asked the program to stop.
    Interrupted,
    /// The program cannot listen for that request.
    ListenFailed,
    /// Every task has observed the cancellation.
    Acknowledged,
    /// The shutdown deadline has passed.
    DeadlineElapsed,
    /// The command has ended, with this exit code.
    TaskFinished(u8),
}

/// What to do about it.
#[derive(Debug, Clone, Copy, PartialEq, Eq, Structural)]
pub enum CoordinatorAction {
    /// Nothing; keep watching.
    Wait,
    /// Request cancellation and watch for its acknowledgement.
    Cancel,
    /// Start the deadline of this many seconds.
    ArmDeadline(u64),
    /// End the program with this exit code.
    Exit(u8),
}

/// The phase and the action that `event` leads to from `phase`.
///
/// The end of the command ends the program with the command's exit code,
/// whatever the phase. The first interrupt requests cancellation; once that
/// is acknowledged the deadline starts, and when it passes the program ends
/// with `FORCED_EXIT`. An event that does not fit the phase changes nothing:
/// a further interrupt neither shortens the deadline nor ends the program.
pub open spec fn next(phase: ShutdownPhase, event: CoordinatorEvent) -> (
    ShutdownPhase,
    CoordinatorAction,
) {
    match (phase, event) {
        (ShutdownPhase::Exited(code), _) => (phase, CoordinatorAction::Exit(code)),
        (_, CoordinatorEvent::TaskFinished(code)) => (
            ShutdownPhase::Exited(code),
            CoordinatorAction::Exit(code),
        ),
        (ShutdownPhase::Running, CoordinatorEvent::Interrupted) => (
            ShutdownPhase::Cancelling,
            CoordinatorAction::Cancel,
        ),
        (ShutdownPhase::Running, CoordinatorEvent::ListenFailed) => (
            ShutdownPhase::Exited(EXIT_FAILURE),
            CoordinatorAction::Exit(EXIT_FAILURE),
        ),
        (ShutdownPhase::Cancelling, CoordinatorEvent::Acknowledged) => (
            ShutdownPhase::Draining,
            CoordinatorAction::ArmDeadline(GRACE_SECONDS),
        ),
        (ShutdownPhase::Draining, CoordinatorEvent::DeadlineElapsed) => (
            ShutdownPhase::Exited(FORCED_EXIT),
            CoordinatorAction::Exit(FORCED_EXIT),
        ),
        _ => (phase, CoordinatorAction::Wait),
    }
}

/// One step of the coordinator: the next phase and what to do, given the
/// phase and what happened.
pub fn coordinate(phase: ShutdownPhase, event: CoordinatorEvent) -> (step: (
    ShutdownPhase,
    CoordinatorAction,
))
    ensures
        step == next(phase, event),
{
    match phase {
        ShutdownPhase::Exited(code) => (phase, CoordinatorAction::Exit(code)),
        _ => match event {
            CoordinatorEvent::TaskFinished(code) => (
                ShutdownPhase::Exited(code),
                CoordinatorAction::Exit(code),
            ),
            CoordinatorEvent::Interrupted => match phase {
                ShutdownPhase::Running => (ShutdownPhase::Cancelling, CoordinatorAction::Cancel),
                _ => (phase, CoordinatorAction::Wait),
            },
            CoordinatorEvent::ListenFailed => match phase {
                ShutdownPhase::Running => (
                    ShutdownPhase::Exited(EXIT_FAILURE),
                    CoordinatorAction::Exit(EXIT_FAILURE),
                ),
                _ => (phase, CoordinatorAction::Wait),
            },
            CoordinatorEvent::Acknowledged => match phase {
                ShutdownPhase::Cancelling => (
                    ShutdownPhase::Draining,
                    CoordinatorAction::ArmDeadline(GRACE_SECONDS),
                ),
                _ => (phase, CoordinatorAction::Wait),
            },
            CoordinatorEvent::DeadlineElapsed => match phase {
                ShutdownPhase::Draining => (
                    ShutdownPhase::Exited(FORCED_EXIT),
                    CoordinatorAction::Exit(FORCED_EXIT),
                ),
                _ => (phase, CoordinatorAction::Wait),
            },
        },
    }
}

/// The phase after `events`, from `phase`.
pub open spec fn phase_after(phase: ShutdownPhase, events: Seq<CoordinatorEvent>) -> ShutdownPhase
    decreases events.len(),
{
    if events.len() == 0 {
        phase
    } else {
        next(phase_after(phase, events.drop_last()), events.last()).0
    }
}

/// The actions that `events` lead to, from `phase`, one for each event.
pub open spec fn actions_of(phase: ShutdownPhase, events: Seq<CoordinatorEvent>) -> Seq<
    CoordinatorAction,
>
    decreases events.len(),
{
    if events.len() == 0 {
        Seq::empty()
    } else {
        actions_of(phase, events.drop_last()).push(
            next(phase_after(phase, events.drop_last()), events.last()).1,
        )
    }
}

/// How often `action` occurs in `actions`.
pub open spec fn count(actions: Seq<CoordinatorAction>, action: CoordinatorAction) -> nat
    decreases actions.len(),
{
    if actions.len() == 0 {
        0
    } else {
        count(actions.drop_last(), action) + if actions.last() == action {
            1nat
        } else {
            0nat
        }
    }
}

/// Cancellation has been requested and the program has not ended yet.
pub open spec fn cancelling(phase: ShutdownPhase) -> bool {
    phase == ShutdownPhase::Cancelling || phase == ShutdownPhase::Draining
}

/// Cancellation is one-way: once it is requested, it stays requested until
/// the program ends, and it is requested by the first interrupt only.
pub proof fn lemma_cancellation_is_one_way(phase: ShutdownPhase, event: CoordinatorEvent)
    ensures
        cancelling(phase) ==> cancelling(next(phase, event).0) || next(phase, event).0 is Exited,
        !cancelling(phase) && cancelling(next(phase, event).0) ==> phase == ShutdownPhase::Running
            && event == CoordinatorEvent::Interrupted && next(phase, event).1
            == CoordinatorAction::Cancel,
{
}

/// A further interrupt during the shutdown changes nothing: the deadline is
/// neither shortened nor is the program ended at once.
pub proof fn lemma_second_interrupt_is_ignored(phase: ShutdownPhase)
    requires
        phase == ShutdownPhase::Cancelling || phase == ShutdownPhase::Draining,
    ensures
        next(phase, CoordinatorEvent::Interrupted) == (phase, CoordinatorAction::Wait),
{
}

/// Once the program has an exit code it keeps it, whatever happens.
pub proof fn lemma_exit_is_final(code: u8, events: Seq<CoordinatorEvent>)
    ensures
        phase_after(ShutdownPhase::Exited(code), events) == ShutdownPhase::Exited(code),
    decreases events.len(),
{
    if events.len() > 0 {
        lemma_exit_is_final(code, events.drop_last());
    }
}

/// From the start, the program ends on the first of "the command ended"
/// and "the deadline passed": every event until then leaves it running.
pub proof fn lemma_ends_only_on_task_or_deadline(
    phase: ShutdownPhase,
    event: CoordinatorEvent,
)
    requires
        phase !is Exited,
        next(phase, event).0 is Exited,
    ensures
        event is TaskFinished || (event == CoordinatorEvent::DeadlineElapsed && phase
            == ShutdownPhase::Draining) || (event == CoordinatorEvent::ListenFailed && phase
            == ShutdownPhase::Running),
        event == CoordinatorEvent::DeadlineElapsed ==> next(phase, event).1
            == CoordinatorAction::Exit(FORCED_EXIT),
        event matches CoordinatorEvent::TaskFinished(code) ==> next(phase, event).1
            == CoordinatorAction::Exit(code),
{
}

/// What the actions so far must be, by the phase reached.
spec fn asked_so_far(phase: ShutdownPhase, actions: Seq<CoordinatorAction>) -> bool {
    let cancels = count(actions, CoordinatorAction::Cancel);
    let deadlines = count(actions, CoordinatorAction::ArmDeadline(GRACE_SECONDS));
    match phase {
        ShutdownPhase::Running => cancels == 0 && deadlines == 0,
        ShutdownPhase::Cancelling => cancels == 1 && deadlines == 0,
        ShutdownPhase::Draining => cancels == 1 && deadlines == 1,
        ShutdownPhase::Exited(_) => cancels <= 1 && deadlines <= cancels,
    }
}

proof fn lemma_asked_so_far(events: Seq<CoordinatorEvent>)
    ensures
        asked_so_far(
            phase_after(ShutdownPhase::Running, events),
            actions_of(ShutdownPhase::Running, events),
        ),
    decreases events.len(),
{
    if events.len() > 0 {
        lemma_asked_so_far(events.drop_last());
        let before = actions_of(ShutdownPhase::Running, events.drop_last());
        let after = actions_of(ShutdownPhase::Running, events);
        assert(after.drop_last() =~= before);
    }
}

/// In every run from the start, cancellation is requested at most once and
/// the deadline is started at most once, and never without a cancellation
/// before it.
pub proof fn lemma_single_stage_shutdown(events: Seq<CoordinatorEvent>)
    ensures
        count(actions_of(ShutdownPhase::Running, events), CoordinatorAction::Cancel) <= 1,
        count(
            actions_of(ShutdownPhase::Running, events),
            CoordinatorAction::ArmDeadline(GRACE_SECONDS),
        ) <= count(actions_of(ShutdownPhase::Running, events), CoordinatorAction::Cancel),
{
    lemma_asked_so_far(events);
}

} // verus!
