use std::collections::BTreeMap;

use collie_app::outcome::{Attempt, Cause, ErrorKind, Failure, Outcome, StepResult};
use collie_app::up::sync::{
    copy_dirs, EntryKind, Inspection, SyncAction, SyncEvent, SyncPhase, SyncState,
};

/// A file tree held in memory, which the tests let the walk work on.
#[derive(Clone, Debug, PartialEq)]
enum Node {
    File(Vec<u8>),
    Dir(BTreeMap<String, Node>),
    Special,
}

fn file(content: &str) -> Node {
    Node::File(content.as_bytes().to_vec())
}

fn dir(entries: Vec<(&str, Node)>) -> Node {
    Node::Dir(entries.into_iter().map(|(name, node)| (name.to_string(), node)).collect())
}

fn lookup<'a>(root: &'a Node, path: &[String]) -> Option<&'a Node> {
    let mut node = root;
    for name in path {
        match node {
            Node::Dir(entries) => node = entries.get(name)?,
            _ => return None,
        }
    }
    Some(node)
}

fn parent_of<'a>(root: &'a mut Node, path: &[String]) -> Option<&'a mut BTreeMap<String, Node>> {
    let mut node = root;
    for name in &path[..path.len() - 1] {
        match node {
            Node::Dir(entries) => node = entries.get_mut(name)?,
            _ => return None,
        }
    }
    match node {
        Node::Dir(entries) => Some(entries),
        _ => None,
    }
}

fn done_or(failed: Option<&str>) -> SyncEvent {
    match failed {
        None => SyncEvent::Step(StepResult::Done),
        Some(text) => SyncEvent::Step(StepResult::Failed(text.to_string())),
    }
}

/// Performs `action` on the two trees as a file system would.
fn perform(source: &Node, dest: &mut Node, action: &SyncAction) -> SyncEvent {
    match action {
        SyncAction::List(path) => match (lookup(source, path), lookup(dest, path)) {
            (Some(Node::Dir(entries)), Some(Node::Dir(_))) => {
                SyncEvent::Listed(entries.keys().cloned().collect())
            },
            (None, _) => SyncEvent::ListFailed(Attempt::ResolveSource, "no source".to_string()),
            (_, None) => SyncEvent::ListFailed(Attempt::ResolveDestination, "no dest".to_string()),
            _ => SyncEvent::ListFailed(Attempt::CheckDirectories, "not directories".to_string()),
        },
        SyncAction::Inspect(path) => SyncEvent::Inspected(Inspection {
            is_self: false,
            kind: match lookup(source, path) {
                Some(Node::File(_)) => EntryKind::File,
                Some(Node::Dir(_)) => EntryKind::Dir,
                _ => EntryKind::Other,
            },
            exists: lookup(dest, path).is_some(),
        }),
        SyncAction::RemoveFile(path) => {
            let is_dir = matches!(lookup(dest, path), Some(Node::Dir(_)) | None);
            if is_dir {
                return done_or(Some("is a directory"));
            }
            parent_of(dest, path).unwrap().remove(path.last().unwrap());
            done_or(None)
        },
        SyncAction::RemoveDir(path) => {
            if !matches!(lookup(dest, path), Some(Node::Dir(_))) {
                return done_or(Some("not a directory"));
            }
            parent_of(dest, path).unwrap().remove(path.last().unwrap());
            done_or(None)
        },
        SyncAction::CopyFile(path) => {
            let content = match lookup(source, path) {
                Some(Node::File(content)) => content.clone(),
                _ => return done_or(Some("no such file")),
            };
            match parent_of(dest, path) {
                Some(entries) => {
                    entries.insert(path.last().unwrap().clone(), Node::File(content));
                    done_or(None)
                },
                None => done_or(Some("no parent")),
            }
        },
        SyncAction::CreateDir(path) => match parent_of(dest, path) {
            Some(entries) => {
                entries.entry(path.last().unwrap().clone()).or_insert(Node::Dir(BTreeMap::new()));
                done_or(None)
            },
            None => done_or(Some("no parent")),
        },
        SyncAction::Finish(_) | SyncAction::Ignored => panic!("nothing to perform"),
    }
}

fn sync(source: &Node, dest: &mut Node) -> (Outcome, Vec<SyncAction>) {
    let mut state = SyncState::new();
    let mut event = SyncEvent::Start;
    let mut actions = Vec::new();
    loop {
        let (next, action) = copy_dirs(state, event);
        state = next;
        if let SyncAction::Finish(outcome) = action {
            assert_eq!(state.current_phase(), SyncPhase::Finished);
            return (outcome, actions);
        }
        event = perform(source, dest, &action);
        actions.push(action);
    }
}

fn path(names: &[&str]) -> Vec<String> {
    names.iter().map(|n| n.to_string()).collect()
}

fn source_tree() -> Node {
    dir(vec![
        ("manifest.yaml", file("templates: []")),
        ("docker-compose.yaml", file("services: {}")),
        ("scripts", dir(vec![("init.sh", file("#!/bin/sh")), ("uninstall.sh", file("exit 0"))])),
        ("conf", dir(vec![("nested", dir(vec![("deep.env", file("A=1"))])), ("empty", dir(vec![]))])),
        ("socket", Node::Special),
    ])
}

/// What a destination that was empty holds after the walk.
fn copy_of(node: &Node) -> Node {
    match node {
        Node::Dir(entries) => Node::Dir(
            entries
                .iter()
                .filter(|(_, node)| **node != Node::Special)
                .map(|(name, node)| (name.clone(), copy_of(node)))
                .collect(),
        ),
        other => other.clone(),
    }
}

#[test]
fn an_empty_destination_becomes_a_copy() {
    let source = source_tree();
    let mut dest = dir(vec![]);
    let (outcome, _) = sync(&source, &mut dest);
    assert_eq!(outcome, Outcome::Completed);
    assert_eq!(dest, copy_of(&source));
    assert!(lookup(&dest, &path(&["socket"])).is_none());
    assert_eq!(lookup(&dest, &path(&["conf", "nested", "deep.env"])), Some(&file("A=1")));
    assert_eq!(lookup(&dest, &path(&["conf", "empty"])), Some(&dir(vec![])));
}

#[test]
fn the_walk_is_depth_first_and_asks_one_thing_at_a_time() {
    let source = dir(vec![("a", dir(vec![("x", file("1"))])), ("b", file("2"))]);
    let mut dest = dir(vec![("b", file("old"))]);
    let (outcome, actions) = sync(&source, &mut dest);
    assert_eq!(outcome, Outcome::Completed);
    assert_eq!(
        actions,
        vec![
            SyncAction::List(path(&[])),
            SyncAction::Inspect(path(&["a"])),
            SyncAction::CreateDir(path(&["a"])),
            SyncAction::List(path(&["a"])),
            SyncAction::Inspect(path(&["a", "x"])),
            SyncAction::CopyFile(path(&["a", "x"])),
            SyncAction::Inspect(path(&["b"])),
            SyncAction::RemoveFile(path(&["b"])),
            SyncAction::CopyFile(path(&["b"])),
        ]
    );
}

#[test]
fn syncing_twice_gives_the_same_content() {
    let source = source_tree();
    let mut dest = dir(vec![
        ("manifest.yaml", file("stale")),
        ("kept.txt", file("mine")),
        ("scripts", dir(vec![("old.sh", file("rm"))])),
    ]);
    let (first, _) = sync(&source, &mut dest);
    assert_eq!(first, Outcome::Completed);
    let after_first = dest.clone();
    let (second, _) = sync(&source, &mut dest);
    assert_eq!(second, Outcome::Completed);
    assert_eq!(dest, after_first);
}

#[test]
fn a_directory_is_replaced_wholesale() {
    let source = source_tree();
    let mut dest = dir(vec![
        ("scripts", dir(vec![("old.sh", file("rm")), ("init.sh", file("previous"))])),
        ("conf", dir(vec![("nested", dir(vec![("stale.env", file("B=2"))]))])),
    ]);
    let (outcome, actions) = sync(&source, &mut dest);
    assert_eq!(outcome, Outcome::Completed);
    assert!(lookup(&dest, &path(&["scripts", "old.sh"])).is_none());
    assert!(lookup(&dest, &path(&["conf", "nested", "stale.env"])).is_none());
    assert_eq!(lookup(&dest, &path(&["scripts"])), Some(&copy_of(lookup(&source, &path(&["scripts"])).unwrap())));
    assert_eq!(dest, copy_of(&source));
    assert!(actions.contains(&SyncAction::RemoveDir(path(&["scripts"]))));
    assert!(actions.contains(&SyncAction::RemoveDir(path(&["conf"]))));
}

#[test]
fn what_the_source_does_not_name_stays() {
    let source = dir(vec![("a", file("new"))]);
    let mut dest = dir(vec![("a", file("old")), ("b", file("keep")), ("c", dir(vec![("d", file("keep"))]))]);
    let (outcome, _) = sync(&source, &mut dest);
    assert_eq!(outcome, Outcome::Completed);
    assert_eq!(
        dest,
        dir(vec![("a", file("new")), ("b", file("keep")), ("c", dir(vec![("d", file("keep"))]))])
    );
}

#[test]
fn an_entry_that_is_the_destination_is_skipped() {
    let mut state = SyncState::new();
    let (next, action) = copy_dirs(state, SyncEvent::Start);
    assert_eq!(action, SyncAction::List(path(&[])));
    state = next;
    let (next, action) = copy_dirs(state, SyncEvent::Listed(path(&[".render", "a"])));
    assert_eq!(action, SyncAction::Inspect(path(&[".render"])));
    state = next;
    let (next, action) = copy_dirs(
        state,
        SyncEvent::Inspected(Inspection { is_self: true, kind: EntryKind::Dir, exists: true }),
    );
    assert_eq!(action, SyncAction::Inspect(path(&["a"])));
    state = next;
    let (next, action) = copy_dirs(
        state,
        SyncEvent::Inspected(Inspection { is_self: false, kind: EntryKind::Other, exists: false }),
    );
    assert_eq!(action, SyncAction::Finish(Outcome::Completed));
    assert_eq!(next.current_phase(), SyncPhase::Finished);
}

#[test]
fn a_file_cannot_replace_a_directory() {
    let source = dir(vec![("a", file("x")), ("b", file("y"))]);
    let mut dest = dir(vec![("a", dir(vec![]))]);
    let (outcome, _) = sync(&source, &mut dest);
    assert_eq!(
        outcome,
        Outcome::Failed(Failure {
            kind: ErrorKind::Io,
            attempt: Attempt::RemoveFile,
            cause: Cause::Message("is a directory".to_string()),
        })
    );
    assert!(lookup(&dest, &path(&["b"])).is_none());
}

#[test]
fn a_failure_leaves_what_was_copied() {
    let source = dir(vec![("a", file("x")), ("b", dir(vec![]))]);
    let mut dest = dir(vec![("b", file("in the way"))]);
    let (outcome, _) = sync(&source, &mut dest);
    assert_eq!(
        outcome,
        Outcome::Failed(Failure {
            kind: ErrorKind::Io,
            attempt: Attempt::RemoveDir,
            cause: Cause::Message("not a directory".to_string()),
        })
    );
    assert_eq!(lookup(&dest, &path(&["a"])), Some(&file("x")));
}

#[test]
fn roots_that_are_no_directories_fail_at_once() {
    let (outcome, actions) = sync(&file("x"), &mut dir(vec![]));
    assert_eq!(actions, vec![SyncAction::List(path(&[]))]);
    assert_eq!(
        outcome,
        Outcome::Failed(Failure {
            kind: ErrorKind::Io,
            attempt: Attempt::CheckDirectories,
            cause: Cause::Message("not directories".to_string()),
        })
    );
}

#[test]
fn each_step_of_the_walk_fails_with_its_own_description() {
    let at = |events: Vec<SyncEvent>| {
        let mut state = SyncState::new();
        let mut last = SyncAction::Ignored;
        for event in events {
            let (next, action) = copy_dirs(state, event);
            state = next;
            last = action;
        }
        last
    };
    let found = |kind, exists| SyncEvent::Inspected(Inspection { is_self: false, kind, exists });
    let begin = || vec![SyncEvent::Start, SyncEvent::Listed(path(&["a"]))];
    let failed = |attempt| {
        SyncAction::Finish(Outcome::Failed(Failure {
            kind: ErrorKind::Io,
            attempt,
            cause: Cause::Message("e".to_string()),
        }))
    };
    let io = || SyncEvent::Step(StepResult::Failed("e".to_string()));

    let mut events = begin();
    events.extend([found(EntryKind::File, false), io()]);
    assert_eq!(at(events), failed(Attempt::CopyFile));
    let mut events = begin();
    events.extend([found(EntryKind::File, true), io()]);
    assert_eq!(at(events), failed(Attempt::RemoveFile));
    let mut events = begin();
    events.extend([found(EntryKind::Dir, true), io()]);
    assert_eq!(at(events), failed(Attempt::RemoveDir));
    let mut events = begin();
    events.extend([found(EntryKind::Dir, false), io()]);
    assert_eq!(at(events), failed(Attempt::CreateDir));
    assert_eq!(
        at(vec![SyncEvent::Start, SyncEvent::ListFailed(Attempt::ReadDir, "e".to_string())]),
        failed(Attempt::ReadDir)
    );
    let mut events = begin();
    events.extend([found(EntryKind::File, false), SyncEvent::Step(StepResult::Cancelled)]);
    assert_eq!(at(events), SyncAction::Finish(Outcome::Cancelled));
}

#[test]
fn the_walk_drops_what_answers_nothing() {
    let (state, action) = copy_dirs(SyncState::new(), SyncEvent::Step(StepResult::Done));
    assert_eq!(action, SyncAction::Ignored);
    assert_eq!(state.current_phase(), SyncPhase::Created);
    let (state, _) = copy_dirs(state, SyncEvent::Start);
    let (state, action) = copy_dirs(state, SyncEvent::Start);
    assert_eq!(action, SyncAction::Ignored);
    assert_eq!(state.current_phase(), SyncPhase::Listing);
}

/// Like `sync`, with the destination held by the source's root under the
/// name `nest`.
fn sync_nested(source: &Node, nest: &str, dest: &mut Node) -> (Outcome, Vec<SyncAction>) {
    let mut state = SyncState::new();
    let mut event = SyncEvent::Start;
    let mut actions = Vec::new();
    loop {
        let (next, action) = copy_dirs(state, event);
        state = next;
        if let SyncAction::Finish(outcome) = action {
            return (outcome, actions);
        }
        event = match perform(source, dest, &action) {
            SyncEvent::Inspected(found) => SyncEvent::Inspected(Inspection {
                is_self: action == SyncAction::Inspect(path(&[nest])),
                ..found
            }),
            other => other,
        };
        actions.push(action);
    }
}

fn nested_source() -> Node {
    dir(vec![
        (".render", dir(vec![("anything", file("never read"))])),
        ("manifest.yaml", file("templates: []")),
        ("scripts", dir(vec![("init.sh", file("#!/bin/sh"))])),
    ])
}

#[test]
fn a_destination_inside_the_source_is_passed_over() {
    let source = nested_source();
    let mut dest = dir(vec![(".render", file("mine")), ("scripts", dir(vec![("old.sh", file("rm"))]))]);
    let (outcome, actions) = sync_nested(&source, ".render", &mut dest);
    assert_eq!(outcome, Outcome::Completed);
    assert_eq!(
        dest,
        dir(vec![
            (".render", file("mine")),
            ("manifest.yaml", file("templates: []")),
            ("scripts", dir(vec![("init.sh", file("#!/bin/sh"))])),
        ])
    );
    assert!(!actions.iter().any(|action| matches!(
        action,
        SyncAction::List(p) | SyncAction::CreateDir(p) | SyncAction::RemoveDir(p)
            | SyncAction::CopyFile(p) | SyncAction::RemoveFile(p)
            if p.first().map(String::as_str) == Some(".render")
    )));
}

#[test]
fn syncing_twice_into_a_nested_destination_gives_the_same_content() {
    let source = nested_source();
    let mut dest = dir(vec![("stale.txt", file("kept"))]);
    let (first, _) = sync_nested(&source, ".render", &mut dest);
    assert_eq!(first, Outcome::Completed);
    assert!(lookup(&dest, &path(&[".render"])).is_none());
    let after_first = dest.clone();
    let (second, _) = sync_nested(&source, ".render", &mut dest);
    assert_eq!(second, Outcome::Completed);
    assert_eq!(dest, after_first);
    assert_eq!(lookup(&dest, &path(&["stale.txt"])), Some(&file("kept")));
}
