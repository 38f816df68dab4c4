//! Mirroring the source tree into the deployment directory.
//!
//! The walk goes through the source tree depth first, one entry at a time,
//! with an explicit stack of the directories it is in. An entry that is the
//! destination itself is skipped. A file replaces what the destination has
//! under its name; a directory replaces it wholesale: what is there is
//! removed, the directory is created anew and filled from the source. Any
//! failure ends the walk and leaves the destination as far as it got.
//!
//! Paths are lists of names, relative to the two roots: the same list names
//! an entry of the source and its counterpart in the destination.

use vstd::prelude::*;
use crate::outcome::{Attempt, Cause, ErrorKind, Failure, Outcome, StepResult};

verus! {

/// What an entry of the source is.
#[derive(Debug, Clone, Copy, PartialEq, Eq, Structural)]
pub enum EntryKind {
    File,
    Dir,
    /// Neither a file nor a directory.
    Other,
}

/// What the caller found out about an entry.
#[derive(Debug, Clone, Copy, PartialEq, Eq, Structural)]
pub struct Inspection {
    /// The entry's resolved path is the destination directory that is being
    /// filled.
    pub is_self: bool,
    pub kind: EntryKind,
    /// The destination has something under the entry's name.
    pub exists: bool,
}

/// What the walk waits for.
#[derive(Debug, Clone, Copy, PartialEq, Eq, Structural)]
pub enum SyncPhase {
    /// Nothing was asked for yet.
    Created,
    /// The directory on top of the stack is being listed.
    Listing,
    /// The current entry is being inspected.
    Inspecting,
    /// What the destination has under the current entry's name is being
    /// removed; the entry is of this kind.
    Removing(EntryKind),
    /// The current entry, a file, is being copied.
    Copying,
    /// The current entry, a directory, is being created in the destination.
    Creating,
    /// The walk has ended.
    Finished,
}

/// What the caller reports.
#[derive(Debug)]
pub enum SyncEvent {
    /// Begin.
    Start,
    /// The names of the entries of the directory that was to be listed.
    Listed(Vec<String>),
    /// The directory could not be listed: resolving the source or the
    /// destination failed, one of them is no directory, or reading failed.
    ListFailed(Attempt, String),
    /// The entry was inspected.
    Inspected(Inspection),
    /// Removing, copying or creating ended.
    Step(StepResult),
}

/// What the caller is asked to do next. Every path is relative to both
/// roots.
#[derive(Debug, PartialEq, Eq)]
pub enum SyncAction {
    /// Resolve this directory in the source and in the destination, check
    /// that both are directories and list the source's; answer with `Listed`
    /// or `ListFailed`.
    List(Vec<String>),
    /// Find out what this entry of the source is, whether it is the
    /// destination directory itself, and whether the destination has
    /// something under its name; answer with `Inspected`.
    Inspect(Vec<String>),
    /// Remove this file from the destination; answer with `Step`.
    RemoveFile(Vec<String>),
    /// Copy this file from the source to the destination; answer with
    /// `Step`.
    CopyFile(Vec<String>),
    /// Remove this directory and all it holds from the destination; answer
    /// with `Step`.
    RemoveDir(Vec<String>),
    /// Create this directory in the destination; answer with `Step`.
    CreateDir(Vec<String>),
    /// The walk has ended with this outcome.
    Finish(Outcome),
    /// The event answers nothing that was asked; it was dropped.
    Ignored,
}

/// A directory that the walk is in: its path, the names of its entries, and
/// how many of them the walk has taken up.
#[derive(Debug)]
pub struct Frame {
    dir: Vec<String>,
    names: Vec<String>,
    next: usize,
}

/// The walk's state.
#[derive(Debug)]
pub struct SyncState {
    phase: SyncPhase,
    frames: Vec<Frame>,
}

/// A frame, as the contracts see it.
pub struct FrameView {
    pub dir: Seq<String>,
    pub names: Seq<String>,
    pub next: nat,
}

/// The walk's state, as the contracts see it.
pub struct WalkView {
    pub phase: SyncPhase,
    pub frames: Seq<FrameView>,
}

/// An action, as the contracts see it.
pub enum ActionView {
    List(Seq<String>),
    Inspect(Seq<String>),
    RemoveFile(Seq<String>),
    CopyFile(Seq<String>),
    RemoveDir(Seq<String>),
    CreateDir(Seq<String>),
    Finish(Outcome),
    Ignored,
}

impl View for Frame {
    type V = FrameView;

    closed spec fn view(&self) -> FrameView {
        FrameView { dir: self.dir@, names: self.names@, next: self.next as nat }
    }
}

/// The views of a stack of frames.
pub open spec fn views(frames: Seq<Frame>) -> Seq<FrameView> {
    Seq::new(frames.len(), |j: int| frames[j]@)
}

impl View for SyncState {
    type V = WalkView;

    closed spec fn view(&self) -> WalkView {
        WalkView { phase: self.phase, frames: views(self.frames@) }
    }
}

impl View for SyncAction {
    type V = ActionView;

    open spec fn view(&self) -> ActionView {
        match *self {
            SyncAction::List(path) => ActionView::List(path@),
            SyncAction::Inspect(path) => ActionView::Inspect(path@),
            SyncAction::RemoveFile(path) => ActionView::RemoveFile(path@),
            SyncAction::CopyFile(path) => ActionView::CopyFile(path@),
            SyncAction::RemoveDir(path) => ActionView::RemoveDir(path@),
            SyncAction::CreateDir(path) => ActionView::CreateDir(path@),
            SyncAction::Finish(outcome) => ActionView::Finish(outcome),
            SyncAction::Ignored => ActionView::Ignored,
        }
    }
}

impl FrameView {
    /// The path of the entry that the walk has taken up last.
    pub open spec fn entry(self) -> Seq<String> {
        self.dir.push(self.names[self.next - 1])
    }
}

/// The stack is one that the walk can have: each directory is the entry
/// that the walk has taken up in the directory below it, and the lowest is
/// the root. With `busy`, the top directory has an entry taken up.
pub open spec fn stacked(frames: Seq<FrameView>, busy: bool) -> bool {
    &&& forall|j: int| 0 <= j < frames.len() ==> (#[trigger] frames[j]).next <= frames[j].names.len()
    &&& forall|j: int|
        0 <= j < frames.len() - 1 ==> (#[trigger] frames[j]).next >= 1 && frames[j + 1].dir
            == frames[j].entry()
    &&& frames.len() > 0 ==> frames[0].dir.len() == 0
    &&& busy ==> frames.len() > 0 && frames.last().next >= 1
}

impl WalkView {
    /// The state is one that the walk can be in.
    pub open spec fn wf(self) -> bool {
        match self.phase {
            SyncPhase::Created | SyncPhase::Finished => self.frames.len() == 0,
            SyncPhase::Listing => {
                &&& stacked(self.frames, false)
                &&& self.frames.len() > 0
                &&& self.frames.last().names.len() == 0
            },
            SyncPhase::Removing(kind) => stacked(self.frames, true) && kind != EntryKind::Other,
            _ => stacked(self.frames, true),
        }
    }
}

/// The walk has ended with `outcome`.
pub open spec fn ended(outcome: Outcome) -> (WalkView, ActionView) {
    (WalkView { phase: SyncPhase::Finished, frames: Seq::empty() }, ActionView::Finish(outcome))
}

/// What follows once the current entry is dealt with: the next entry of the
/// directory on top of the stack is taken up; a directory without a next
/// entry is left for the one below it; the walk is complete when the root
/// is left.
pub open spec fn advance(frames: Seq<FrameView>) -> (WalkView, ActionView)
    decreases frames.len(),
{
    if frames.len() == 0 {
        ended(Outcome::Completed)
    } else {
        let top = frames.last();
        if top.next < top.names.len() {
            let entered = FrameView { dir: top.dir, names: top.names, next: top.next + 1 };
            (
                WalkView { phase: SyncPhase::Inspecting, frames: frames.drop_last().push(entered) },
                ActionView::Inspect(entered.entry()),
            )
        } else {
            advance(frames.drop_last())
        }
    }
}

/// The directory `dir`, not listed yet.
pub open spec fn unlisted(dir: Seq<String>) -> FrameView {
    FrameView { dir, names: Seq::empty(), next: 0 }
}

/// The state and the action that `event` leads to from `pre`.
pub open spec fn next(pre: WalkView, event: SyncEvent) -> (WalkView, ActionView) {
    let frames = pre.frames;
    let top = frames.last();
    let ignored = (pre, ActionView::Ignored);
    match (pre.phase, event) {
        (SyncPhase::Created, SyncEvent::Start) => (
            WalkView { phase: SyncPhase::Listing, frames: seq![unlisted(Seq::empty())] },
            ActionView::List(Seq::empty()),
        ),
        (SyncPhase::Listing, SyncEvent::Listed(names)) => advance(
            frames.drop_last().push(FrameView { dir: top.dir, names: names@, next: 0 }),
        ),
        (SyncPhase::Listing, SyncEvent::ListFailed(attempt, text)) => ended(
            Outcome::failed(ErrorKind::Io, attempt, text),
        ),
        (SyncPhase::Inspecting, SyncEvent::Inspected(found)) => if found.is_self {
            advance(frames)
        } else {
            match (found.kind, found.exists) {
                (EntryKind::File, true) => (
                    WalkView { phase: SyncPhase::Removing(EntryKind::File), frames },
                    ActionView::RemoveFile(top.entry()),
                ),
                (EntryKind::File, false) => (
                    WalkView { phase: SyncPhase::Copying, frames },
                    ActionView::CopyFile(top.entry()),
                ),
                (EntryKind::Dir, true) => (
                    WalkView { phase: SyncPhase::Removing(EntryKind::Dir), frames },
                    ActionView::RemoveDir(top.entry()),
                ),
                (EntryKind::Dir, false) => (
                    WalkView { phase: SyncPhase::Creating, frames },
                    ActionView::CreateDir(top.entry()),
                ),
                (EntryKind::Other, _) => advance(frames),
            }
        },
        (SyncPhase::Removing(kind), SyncEvent::Step(result)) => match (result, kind) {
            (StepResult::Done, EntryKind::File) => (
                WalkView { phase: SyncPhase::Copying, frames },
                ActionView::CopyFile(top.entry()),
            ),
            (StepResult::Done, EntryKind::Dir) => (
                WalkView { phase: SyncPhase::Creating, frames },
                ActionView::CreateDir(top.entry()),
            ),
            (StepResult::Done, EntryKind::Other) => ignored,
            (_, EntryKind::Dir) => ended(Outcome::of_step_spec(Attempt::RemoveDir, result)),
            (_, _) => ended(Outcome::of_step_spec(Attempt::RemoveFile, result)),
        },
        (SyncPhase::Copying, SyncEvent::Step(result)) => match result {
            StepResult::Done => advance(frames),
            _ => ended(Outcome::of_step_spec(Attempt::CopyFile, result)),
        },
        (SyncPhase::Creating, SyncEvent::Step(result)) => match result {
            StepResult::Done => (
                WalkView { phase: SyncPhase::Listing, frames: frames.push(unlisted(top.entry())) },
                ActionView::List(top.entry()),
            ),
            _ => ended(Outcome::of_step_spec(Attempt::CreateDir, result)),
        },
        _ => ignored,
    }
}

impl SyncState {
    /// A walk that has not begun.
    pub fn new() -> (state: SyncState)
        ensures
            state@.wf(),
            state@.phase == SyncPhase::Created,
    {
        SyncState { phase: SyncPhase::Created, frames: Vec::new() }
    }

    /// What the walk waits for.
    pub fn current_phase(&self) -> (phase: SyncPhase)
        ensures
            phase == self@.phase,
    {
        self.phase
    }
}

fn clone_path(path: &Vec<String>) -> (copy: Vec<String>)
    ensures
        copy@ == path@,
{
    let mut copy: Vec<String> = Vec::new();
    let mut i: usize = 0;
    while i < path.len()
        invariant
            i <= path.len(),
            copy@ == path@.take(i as int),
        decreases path.len() - i,
    {
        copy.push(path[i].clone());
        i = i + 1;
    }
    copy
}

/// The path of the entry that the walk has taken up last in `frame`.
fn entry_path(frame: &Frame) -> (path: Vec<String>)
    requires
        1 <= frame.next <= frame.names.len(),
    ensures
        path@ == frame@.entry(),
{
    let mut path = clone_path(&frame.dir);
    path.push(frame.names[frame.next - 1].clone());
    path
}

fn end(outcome: Outcome) -> (step: (SyncState, SyncAction))
    ensures
        step.0@.wf(),
        (step.0@, step.1@) == ended(outcome),
{
    let state = SyncState { phase: SyncPhase::Finished, frames: Vec::new() };
    assert(views(state.frames@) =~= Seq::<FrameView>::empty());
    (state, SyncAction::Finish(outcome))
}

fn advance_walk(frames: Vec<Frame>) -> (step: (SyncState, SyncAction))
    requires
        stacked(views(frames@), false),
    ensures
        step.0@.wf(),
        (step.0@, step.1@) == advance(views(frames@)),
{
    let mut rest = frames;
    while rest.len() > 0
        invariant
            stacked(views(rest@), false),
            advance(views(rest@)) == advance(views(frames@)),
        decreases rest.len(),
    {
        let ghost before = views(rest@);
        let top = rest.pop().unwrap();
        proof {
            assert(views(rest@) =~= before.drop_last());
        }
        if top.next < top.names.len() {
            let entered = Frame { dir: top.dir, names: top.names, next: top.next + 1 };
            let path = entry_path(&entered);
            rest.push(entered);
            proof {
                let after = views(rest@);
                assert(after =~= before.drop_last().push(entered@));
            }
            return (
                SyncState { phase: SyncPhase::Inspecting, frames: rest },
                SyncAction::Inspect(path),
            );
        }
    }
    end(Outcome::Completed)
}

/// One step of mirroring the source tree into the destination: takes the
/// walk's state and what the caller reports, and returns the next state and
/// what to do.
pub fn copy_dirs(state: SyncState, event: SyncEvent) -> (step: (SyncState, SyncAction))
    requires
        state@.wf(),
    ensures
        step.0@.wf(),
        (step.0@, step.1@) == next(state@, event),
{
    let SyncState { phase, frames } = state;
    let ghost stack = views(frames@);
    match phase {
        SyncPhase::Created => match event {
            SyncEvent::Start => {
                let mut frames = frames;
                frames.push(Frame { dir: Vec::new(), names: Vec::new(), next: 0 });
                assert(views(frames@) =~= seq![unlisted(Seq::empty())]);
                (SyncState { phase: SyncPhase::Listing, frames }, SyncAction::List(Vec::new()))
            },
            _ => (SyncState { phase, frames }, SyncAction::Ignored),
        },
        SyncPhase::Listing => match event {
            SyncEvent::Listed(names) => {
                let mut frames = frames;
                let top = frames.pop().unwrap();
                let listed = Frame { dir: top.dir, names, next: 0 };
                frames.push(listed);
                proof {
                    let after = views(frames@);
                    assert(after =~= stack.drop_last().push(
                        FrameView { dir: stack.last().dir, names: names@, next: 0 },
                    ));
                }
                advance_walk(frames)
            },
            SyncEvent::ListFailed(attempt, text) => end(
                Outcome::Failed(Failure { kind: ErrorKind::Io, attempt, cause: Cause::Message(text) }),
            ),
            _ => (SyncState { phase, frames }, SyncAction::Ignored),
        },
        SyncPhase::Inspecting => match event {
            SyncEvent::Inspected(found) => {
                if found.is_self {
                    advance_walk(frames)
                } else {
                    match found.kind {
                        EntryKind::File => {
                            let path = entry_path(&frames[frames.len() - 1]);
                            if found.exists {
                                (
                                    SyncState { phase: SyncPhase::Removing(EntryKind::File), frames },
                                    SyncAction::RemoveFile(path),
                                )
                            } else {
                                (
                                    SyncState { phase: SyncPhase::Copying, frames },
                                    SyncAction::CopyFile(path),
                                )
                            }
                        },
                        EntryKind::Dir => {
                            let path = entry_path(&frames[frames.len() - 1]);
                            if found.exists {
                                (
                                    SyncState { phase: SyncPhase::Removing(EntryKind::Dir), frames },
                                    SyncAction::RemoveDir(path),
                                )
                            } else {
                                (
                                    SyncState { phase: SyncPhase::Creating, frames },
                                    SyncAction::CreateDir(path),
                                )
                            }
                        },
                        EntryKind::Other => advance_walk(frames),
                    }
                }
            },
            _ => (SyncState { phase, frames }, SyncAction::Ignored),
        },
        SyncPhase::Removing(kind) => match event {
            SyncEvent::Step(StepResult::Done) => {
                let path = entry_path(&frames[frames.len() - 1]);
                match kind {
                    EntryKind::File => (
                        SyncState { phase: SyncPhase::Copying, frames },
                        SyncAction::CopyFile(path),
                    ),
                    EntryKind::Dir => (
                        SyncState { phase: SyncPhase::Creating, frames },
                        SyncAction::CreateDir(path),
                    ),
                    EntryKind::Other => (SyncState { phase, frames }, SyncAction::Ignored),
                }
            },
            SyncEvent::Step(result) => match kind {
                EntryKind::Dir => end(Outcome::of_step(Attempt::RemoveDir, result)),
                _ => end(Outcome::of_step(Attempt::RemoveFile, result)),
            },
            _ => (SyncState { phase, frames }, SyncAction::Ignored),
        },
        SyncPhase::Copying => match event {
            SyncEvent::Step(StepResult::Done) => advance_walk(frames),
            SyncEvent::Step(result) => end(Outcome::of_step(Attempt::CopyFile, result)),
            _ => (SyncState { phase, frames }, SyncAction::Ignored),
        },
        SyncPhase::Creating => match event {
            SyncEvent::Step(StepResult::Done) => {
                let mut frames = frames;
                let path = entry_path(&frames[frames.len() - 1]);
                let dir = clone_path(&path);
                frames.push(Frame { dir, names: Vec::new(), next: 0 });
                proof {
                    let after = views(frames@);
                    assert(after =~= stack.push(unlisted(stack.last().entry())));
                }
                (SyncState { phase: SyncPhase::Listing, frames }, SyncAction::List(path))
            },
            SyncEvent::Step(result) => end(Outcome::of_step(Attempt::CreateDir, result)),
            _ => (SyncState { phase, frames }, SyncAction::Ignored),
        },
        SyncPhase::Finished => (SyncState { phase, frames }, SyncAction::Ignored),
    }
}

} // verus!
