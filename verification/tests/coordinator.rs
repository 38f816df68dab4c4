use collie_app::coordinator::{
    coordinate, deliver_command, CommandKind, CoordinatorAction, CoordinatorEvent, ShutdownPhase,
    EXIT_FAILURE, EXIT_SUCCESS, FORCED_EXIT, GRACE_SECONDS,
};
use collie_app::outcome::{Attempt, Cause, ErrorKind, Failure, Outcome};

fn all_events() -> Vec<CoordinatorEvent> {
    vec![
        CoordinatorEvent::Interrupted,
        CoordinatorEvent::ListenFailed,
        CoordinatorEvent::Acknowledged,
        CoordinatorEvent::DeadlineElapsed,
        CoordinatorEvent::TaskFinished(0),
        CoordinatorEvent::TaskFinished(1),
    ]
}

fn run(events: &[CoordinatorEvent]) -> (ShutdownPhase, Vec<CoordinatorAction>) {
    let mut phase = ShutdownPhase::Running;
    let mut actions = Vec::new();
    for event in events {
        let (next, action) = coordinate(phase, *event);
        phase = next;
        actions.push(action);
    }
    (phase, actions)
}

#[test]
fn constants_are_the_documented_ones() {
    assert_eq!(GRACE_SECONDS, 30);
    assert_eq!(EXIT_SUCCESS, 0);
    assert_eq!(EXIT_FAILURE, 1);
    assert_eq!(FORCED_EXIT, 235);
}

#[test]
fn a_command_that_ends_gives_its_exit_code() {
    assert_eq!(
        run(&[CoordinatorEvent::TaskFinished(0)]),
        (ShutdownPhase::Exited(0), vec![CoordinatorAction::Exit(0)])
    );
    assert_eq!(
        run(&[CoordinatorEvent::TaskFinished(1)]),
        (ShutdownPhase::Exited(1), vec![CoordinatorAction::Exit(1)])
    );
}

#[test]
fn graceful_shutdown_in_time() {
    let (phase, actions) = run(&[
        CoordinatorEvent::Interrupted,
        CoordinatorEvent::Acknowledged,
        CoordinatorEvent::TaskFinished(0),
    ]);
    assert_eq!(phase, ShutdownPhase::Exited(0));
    assert_eq!(
        actions,
        vec![
            CoordinatorAction::Cancel,
            CoordinatorAction::ArmDeadline(30),
            CoordinatorAction::Exit(0),
        ]
    );
}

#[test]
fn shutdown_is_forced_when_the_deadline_passes() {
    let (phase, actions) = run(&[
        CoordinatorEvent::Interrupted,
        CoordinatorEvent::Acknowledged,
        CoordinatorEvent::DeadlineElapsed,
    ]);
    assert_eq!(phase, ShutdownPhase::Exited(0xeb));
    assert_eq!(actions[2], CoordinatorAction::Exit(0xeb));
}

#[test]
fn a_second_interrupt_changes_nothing() {
    assert_eq!(
        coordinate(ShutdownPhase::Cancelling, CoordinatorEvent::Interrupted),
        (ShutdownPhase::Cancelling, CoordinatorAction::Wait)
    );
    assert_eq!(
        coordinate(ShutdownPhase::Draining, CoordinatorEvent::Interrupted),
        (ShutdownPhase::Draining, CoordinatorAction::Wait)
    );
    let (_, actions) = run(&[
        CoordinatorEvent::Interrupted,
        CoordinatorEvent::Interrupted,
        CoordinatorEvent::Acknowledged,
        CoordinatorEvent::Interrupted,
        CoordinatorEvent::Acknowledged,
    ]);
    let deadlines = actions.iter().filter(|a| matches!(a, CoordinatorAction::ArmDeadline(_))).count();
    let cancels = actions.iter().filter(|a| matches!(a, CoordinatorAction::Cancel)).count();
    assert_eq!((cancels, deadlines), (1, 1));
}

#[test]
fn a_listener_that_fails_ends_the_program() {
    assert_eq!(
        coordinate(ShutdownPhase::Running, CoordinatorEvent::ListenFailed),
        (ShutdownPhase::Exited(1), CoordinatorAction::Exit(1))
    );
    assert_eq!(
        coordinate(ShutdownPhase::Draining, CoordinatorEvent::ListenFailed),
        (ShutdownPhase::Draining, CoordinatorAction::Wait)
    );
}

#[test]
fn events_out_of_turn_are_waited_out() {
    for event in [CoordinatorEvent::Acknowledged, CoordinatorEvent::DeadlineElapsed] {
        assert_eq!(
            coordinate(ShutdownPhase::Running, event),
            (ShutdownPhase::Running, CoordinatorAction::Wait)
        );
    }
    assert_eq!(
        coordinate(ShutdownPhase::Cancelling, CoordinatorEvent::DeadlineElapsed),
        (ShutdownPhase::Cancelling, CoordinatorAction::Wait)
    );
    assert_eq!(
        coordinate(ShutdownPhase::Draining, CoordinatorEvent::Acknowledged),
        (ShutdownPhase::Draining, CoordinatorAction::Wait)
    );
}

#[test]
fn an_exit_code_is_kept() {
    for event in all_events() {
        assert_eq!(
            coordinate(ShutdownPhase::Exited(7), event),
            (ShutdownPhase::Exited(7), CoordinatorAction::Exit(7))
        );
    }
}

#[test]
fn the_task_may_end_in_any_phase() {
    for phase in [ShutdownPhase::Running, ShutdownPhase::Cancelling, ShutdownPhase::Draining] {
        assert_eq!(
            coordinate(phase, CoordinatorEvent::TaskFinished(1)),
            (ShutdownPhase::Exited(1), CoordinatorAction::Exit(1))
        );
    }
}

#[test]
fn every_run_cancels_and_arms_at_most_once() {
    let events = all_events();
    let n = events.len();
    for a in 0..n {
        for b in 0..n {
            for c in 0..n {
                for d in 0..n {
                    let (_, actions) = run(&[events[a], events[b], events[c], events[d]]);
                    let cancels = actions.iter().filter(|x| **x == CoordinatorAction::Cancel).count();
                    let arms = actions
                        .iter()
                        .filter(|x| **x == CoordinatorAction::ArmDeadline(GRACE_SECONDS))
                        .count();
                    assert!(cancels <= 1 && arms <= cancels);
                }
            }
        }
    }
}

fn failure() -> Outcome {
    Outcome::Failed(Failure {
        kind: ErrorKind::Io,
        attempt: Attempt::CopyFile,
        cause: Cause::Message("x".to_string()),
    })
}

#[test]
fn reports_say_what_ended_how() {
    let report = deliver_command(CommandKind::Up, &Outcome::Completed);
    assert_eq!((report.exit_code, report.headline.as_str()), (0, "Up success."));
    let report = deliver_command(CommandKind::Down, &Outcome::Completed);
    assert_eq!((report.exit_code, report.headline.as_str()), (0, "Down success."));
    let report = deliver_command(CommandKind::New, &Outcome::Completed);
    assert_eq!((report.exit_code, report.headline.as_str()), (0, "Create success."));
    let report = deliver_command(CommandKind::Up, &failure());
    assert_eq!((report.exit_code, report.headline.as_str()), (1, "Up app"));
    let report = deliver_command(CommandKind::Down, &failure());
    assert_eq!((report.exit_code, report.headline.as_str()), (1, "Down app"));
    let report = deliver_command(CommandKind::New, &failure());
    assert_eq!((report.exit_code, report.headline.as_str()), (1, "new application"));
}

#[test]
fn a_cancelled_command_exits_with_zero() {
    let report = deliver_command(CommandKind::Up, &Outcome::Cancelled);
    assert_eq!((report.exit_code, report.headline.as_str()), (0, "Up success."));
}
