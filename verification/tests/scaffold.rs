use collie_app::new::{
    app_id, generate, manifest_data, manifest_written, NewAction, NewEvent, NewPhase, NewState,
    APP_ID_SUFFIX,
};
use collie_app::outcome::{Attempt, Cause, ErrorKind, Failure, Outcome, StepResult};
use collie_app::up::renderer::{RenderFault, Stage};

fn assets() -> Vec<String> {
    ["manifest.yaml", "scripts/init.sh", "docker-compose.yaml", "scripts/uninstall.sh"]
        .iter()
        .map(|s| s.to_string())
        .collect()
}

fn drive(assets: Vec<String>, mark: bool, manifest: &str) -> Vec<NewAction> {
    let mut state = NewState::new(assets, mark);
    let mut event = NewEvent::Start;
    let mut actions = Vec::new();
    loop {
        let (next, action) = generate(state, event);
        state = next;
        event = match &action {
            NewAction::CheckAbsent => NewEvent::Absent,
            NewAction::WriteAsset(_) | NewAction::MarkExecutable(_) | NewAction::WriteManifest(_) => {
                NewEvent::Step(StepResult::Done)
            },
            NewAction::ReadManifest => NewEvent::Manifest(manifest.to_string()),
            NewAction::Finish(_) => {
                assert_eq!(state.current_phase(), NewPhase::Finished);
                actions.push(action);
                return actions;
            },
            NewAction::Ignored => panic!("an answer was dropped"),
        };
        actions.push(action);
    }
}

#[test]
fn app_id_is_the_id_and_the_suffix() {
    assert_eq!(APP_ID_SUFFIX, "@COLI");
    assert_eq!(app_id("bva9lbqn1bt68k8mj62g"), "bva9lbqn1bt68k8mj62g@COLI");
    assert_eq!(app_id(""), "@COLI");
}

#[test]
fn files_are_written_in_order_and_scripts_marked() {
    let actions = drive(assets(), true, "id: {{app_id}}\n");
    let names: Vec<String> = actions
        .iter()
        .map(|action| match action {
            NewAction::CheckAbsent => "check".to_string(),
            NewAction::WriteAsset(path) => format!("write {path}"),
            NewAction::MarkExecutable(path) => format!("mark {path}"),
            NewAction::ReadManifest => "read".to_string(),
            NewAction::WriteManifest(_) => "manifest".to_string(),
            NewAction::Finish(outcome) => format!("{outcome:?}"),
            NewAction::Ignored => "ignored".to_string(),
        })
        .collect();
    assert_eq!(
        names,
        vec![
            "check",
            "write manifest.yaml",
            "write scripts/init.sh",
            "mark scripts/init.sh",
            "write docker-compose.yaml",
            "write scripts/uninstall.sh",
            "mark scripts/uninstall.sh",
            "read",
            "manifest",
            "Completed",
        ]
    );
}

#[test]
fn nothing_is_marked_where_the_platform_has_no_modes() {
    let actions = drive(assets(), false, "x");
    assert!(!actions.iter().any(|a| matches!(a, NewAction::MarkExecutable(_))));
    assert_eq!(actions.last(), Some(&NewAction::Finish(Outcome::Completed)));
}

#[test]
fn the_manifest_gets_a_fresh_id_each_time() {
    let content = |actions: Vec<NewAction>| {
        actions
            .into_iter()
            .find_map(|action| match action {
                NewAction::WriteManifest(content) => Some(content),
                _ => None,
            })
            .unwrap()
    };
    let first = content(drive(assets(), true, "id: {{app_id}}"));
    let second = content(drive(assets(), true, "id: {{app_id}}"));
    assert!(first.starts_with("id: ") && first.ends_with("@COLI"));
    assert_eq!(first.len(), 4 + 20 + 5);
    assert_ne!(first, second);
}

#[test]
fn no_assets_means_only_the_manifest() {
    let actions = drive(Vec::new(), true, "plain");
    assert_eq!(
        actions,
        vec![
            NewAction::CheckAbsent,
            NewAction::ReadManifest,
            NewAction::WriteManifest("plain".to_string()),
            NewAction::Finish(Outcome::Completed),
        ]
    );
}

#[test]
fn an_existing_directory_is_refused() {
    let (state, _) = generate(NewState::new(assets(), true), NewEvent::Start);
    let (state, action) = generate(state, NewEvent::Present("demo has been exist".to_string()));
    assert_eq!(state.current_phase(), NewPhase::Finished);
    assert_eq!(
        action,
        NewAction::Finish(Outcome::Failed(Failure {
            kind: ErrorKind::Environment,
            attempt: Attempt::CheckNewDir,
            cause: Cause::Message("demo has been exist".to_string()),
        }))
    );
}

fn at_first_write() -> NewState {
    let (state, _) = generate(NewState::new(assets(), true), NewEvent::Start);
    let (state, action) = generate(state, NewEvent::Absent);
    assert_eq!(action, NewAction::WriteAsset("manifest.yaml".to_string()));
    state
}

#[test]
fn a_cancelled_write_ends_the_scaffolding_without_error() {
    let (state, action) = generate(at_first_write(), NewEvent::Step(StepResult::Cancelled));
    assert_eq!(action, NewAction::Finish(Outcome::Cancelled));
    assert_eq!(state.current_phase(), NewPhase::Finished);
}

#[test]
fn failures_name_what_was_attempted() {
    let failed = |attempt: Attempt| {
        NewAction::Finish(Outcome::Failed(Failure {
            kind: ErrorKind::Io,
            attempt,
            cause: Cause::Message("e".to_string()),
        }))
    };
    let io = || NewEvent::Step(StepResult::Failed("e".to_string()));
    let (_, action) = generate(at_first_write(), io());
    assert_eq!(action, failed(Attempt::WriteAsset));
    let (state, _) = generate(at_first_write(), NewEvent::Step(StepResult::Done));
    let (state, action) = generate(state, NewEvent::Step(StepResult::Done));
    assert_eq!(action, NewAction::MarkExecutable("scripts/init.sh".to_string()));
    assert_eq!(state.current_phase(), NewPhase::Marking(1));
    let (_, action) = generate(state, io());
    assert_eq!(action, failed(Attempt::SetPermissions));

    let (state, _) = generate(NewState::new(Vec::new(), true), NewEvent::Start);
    let (state, action) = generate(state, NewEvent::Absent);
    assert_eq!(action, NewAction::ReadManifest);
    let (_, action) = generate(state, io());
    assert_eq!(action, failed(Attempt::ReadTemplate));

    let (state, _) = generate(NewState::new(Vec::new(), true), NewEvent::Start);
    let (state, _) = generate(state, NewEvent::Absent);
    let (state, _) = generate(state, NewEvent::Manifest("m".to_string()));
    assert_eq!(state.current_phase(), NewPhase::WritingManifest);
    let (_, action) = generate(state, io());
    assert_eq!(action, failed(Attempt::WriteResult));
}

#[test]
fn a_manifest_that_does_not_compile_is_a_configuration_error() {
    let actions = drive(Vec::new(), true, "{{#if}}");
    match actions.last() {
        Some(NewAction::Finish(Outcome::Failed(Failure {
            kind: ErrorKind::Configuration,
            attempt: Attempt::CompileTemplate,
            cause: Cause::Template(fault),
        }))) => {
            assert_eq!(fault.template, "manifest.yaml");
            assert_eq!(fault.stage, Stage::Compile);
        },
        other => panic!("{other:?}"),
    }
}

#[test]
fn scaffolding_drops_what_answers_nothing() {
    let (state, action) = generate(NewState::new(assets(), true), NewEvent::Absent);
    assert_eq!(action, NewAction::Ignored);
    assert_eq!(state.current_phase(), NewPhase::Created);
    let (state, action) = generate(at_first_write(), NewEvent::Start);
    assert_eq!(action, NewAction::Ignored);
    assert_eq!(state.current_phase(), NewPhase::Writing(0));
}

#[test]
fn the_manifest_is_rendered_against_the_id_and_the_suffix() {
    assert_eq!(manifest_data("bva9lbqn1bt68k8mj62g").to_string(), r#"{"app_id":"bva9lbqn1bt68k8mj62g@COLI"}"#);
    assert_eq!(manifest_data("").to_string(), r#"{"app_id":"@COLI"}"#);
}

fn reading_manifest() -> NewState {
    let (state, _) = generate(NewState::new(Vec::new(), true), NewEvent::Start);
    let (state, action) = generate(state, NewEvent::Absent);
    assert_eq!(action, NewAction::ReadManifest);
    state
}

#[test]
fn the_rendered_manifest_is_what_is_written() {
    let (state, action) = manifest_written(reading_manifest(), Ok("id: x@COLI".to_string()));
    assert_eq!(state.current_phase(), NewPhase::WritingManifest);
    assert_eq!(action, NewAction::WriteManifest("id: x@COLI".to_string()));
}

#[test]
fn a_manifest_fault_ends_the_scaffolding_by_its_stage() {
    let fault = |stage: Stage| RenderFault {
        template: "manifest.yaml".to_string(),
        stage,
        reason: "why".to_string(),
    };
    for (stage, attempt) in
        [(Stage::Compile, Attempt::CompileTemplate), (Stage::Render, Attempt::RenderTemplate)]
    {
        let (state, action) = manifest_written(reading_manifest(), Err(fault(stage)));
        assert_eq!(state.current_phase(), NewPhase::Finished);
        assert_eq!(
            action,
            NewAction::Finish(Outcome::Failed(Failure {
                kind: ErrorKind::Configuration,
                attempt,
                cause: Cause::Template(fault(stage)),
            }))
        );
    }
}

#[test]
fn a_rendered_manifest_outside_its_phase_is_dropped() {
    let (state, action) = manifest_written(NewState::new(assets(), true), Ok("x".to_string()));
    assert_eq!(state.current_phase(), NewPhase::Created);
    assert_eq!(action, NewAction::Ignored);
}

#[test]
fn a_manifest_that_includes_a_template_is_refused() {
    let actions = drive(Vec::new(), true, "id: {{> other}}");
    match actions.last() {
        Some(NewAction::Finish(Outcome::Failed(Failure {
            kind: ErrorKind::Configuration,
            attempt: Attempt::CompileTemplate,
            cause: Cause::Template(fault),
        }))) => {
            assert_eq!(fault.template, "manifest.yaml");
            assert_eq!(fault.stage, Stage::Compile);
        },
        other => panic!("{other:?}"),
    }
}
