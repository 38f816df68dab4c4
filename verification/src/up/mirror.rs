//! What mirroring does to the destination, stated over file trees.
//!
//! A tree maps names to files, directories and other things. The walk of
//! [`crate::up::sync`] asks for one operation at a time; here each operation
//! is given its meaning on the trees, and every completed walk is shown to
//! leave the destination as [`mirrored`] says.

use vstd::prelude::*;
use crate::outcome::{Outcome, StepResult};
use crate::paths::texts;
use crate::up::sync::{
    advance, next, stacked, ActionView, EntryKind, FrameView, Inspection, SyncEvent, SyncPhase,
    WalkView,
};

verus! {

/// A name within a directory.
pub type Name = Seq<char>;

/// The content of a directory.
pub type Tree = Map<Name, Node>;

/// An entry of a directory.
pub enum Node {
    /// A file and its bytes.
    File(Seq<u8>),
    /// A directory and its entries.
    Dir(Tree),
    /// Something that is neither.
    Special,
}

/// The kind of an entry, as an inspection reports it.
pub open spec fn kind_of(node: Option<Node>) -> EntryKind {
    match node {
        Some(Node::File(_)) => EntryKind::File,
        Some(Node::Dir(_)) => EntryKind::Dir,
        _ => EntryKind::Other,
    }
}

/// What mirroring makes of a source entry in a place where nothing was:
/// a file is copied, a directory is copied entry by entry, and what is
/// neither is left out.
pub open spec fn copy_of(node: Node) -> Node
    decreases node,
{
    match node {
        Node::Dir(entries) => Node::Dir(
            Map::new(
                |name: Name|
                    entries.dom().finite() && entries.dom().contains(name) && entries[name]
                        !is Special,
                |name: Name|
                    if entries.dom().finite() && entries.dom().contains(name) {
                        copy_of(entries[name])
                    } else {
                        Node::Special
                    },
            ),
        ),
        other => other,
    }
}

/// `name` is an entry of `source` that mirroring copies.
pub open spec fn copied(source: Tree, name: Name) -> bool {
    source.dom().contains(name) && source[name] !is Special
}

/// The destination after the entries of `source` whose names are in `done`
/// have been mirrored into `dest`: each of them replaces what `dest` had
/// under its name, everything else stays.
pub open spec fn mirrored_on(source: Tree, dest: Tree, done: Set<Name>) -> Tree {
    Map::new(
        |name: Name| (done.contains(name) && copied(source, name)) || dest.dom().contains(name),
        |name: Name|
            if done.contains(name) && copied(source, name) {
                copy_of(source[name])
            } else {
                dest[name]
            },
    )
}

/// The destination after `source` has been mirrored into `dest`.
pub open spec fn mirrored(source: Tree, dest: Tree) -> Tree {
    mirrored_on(source, dest, source.dom())
}

/// The entry of `tree` at `path`; the empty path is the tree itself.
pub open spec fn lookup(tree: Tree, path: Seq<Name>) -> Option<Node>
    decreases path.len(),
{
    if path.len() == 0 {
        Some(Node::Dir(tree))
    } else if !tree.dom().contains(path[0]) {
        None
    } else if path.len() == 1 {
        Some(tree[path[0]])
    } else {
        match tree[path[0]] {
            Node::Dir(inner) => lookup(inner, path.skip(1)),
            _ => None,
        }
    }
}

/// `entries` with `node` under `name`, or without `name` where `node` is
/// `None`.
pub open spec fn with_entry(entries: Tree, name: Name, node: Option<Node>) -> Tree {
    match node {
        Some(node) => entries.insert(name, node),
        None => entries.remove(name),
    }
}

/// `tree` with `node` at `path`, or without that entry where `node` is
/// `None`. Nothing changes where the path leads through something that is no
/// directory.
pub open spec fn store(tree: Tree, path: Seq<Name>, node: Option<Node>) -> Tree
    decreases path.len(),
{
    if path.len() == 0 {
        tree
    } else if path.len() == 1 {
        with_entry(tree, path[0], node)
    } else if tree.dom().contains(path[0]) && tree[path[0]] is Dir {
        tree.insert(path[0], Node::Dir(store(tree[path[0]]->Dir_0, path.skip(1), node)))
    } else {
        tree
    }
}

/// The tree whose directories along `path` are `levels`: `levels[0]` is the
/// root, and `levels[j + 1]` is what it has under `path[j]`, whatever
/// `levels[j]` itself says of that name.
spec fn plug(levels: Seq<Tree>, path: Seq<Name>) -> Tree
    decreases path.len(),
{
    if path.len() == 0 {
        levels[0]
    } else {
        levels[0].insert(path[0], Node::Dir(plug(levels.skip(1), path.skip(1))))
    }
}

/// The entry under `name` in the directory at `path`.
proof fn lemma_lookup_entry(tree: Tree, path: Seq<Name>, name: Name)
    ensures
        lookup(tree, path.push(name)) == match lookup(tree, path) {
            Some(Node::Dir(entries)) => if entries.dom().contains(name) {
                Some(entries[name])
            } else {
                None
            },
            _ => None,
        },
    decreases path.len(),
{
    if path.len() > 0 {
        assert(path.push(name).skip(1) =~= path.skip(1).push(name));
        if tree.dom().contains(path[0]) {
            if let Node::Dir(inner) = tree[path[0]] {
                lemma_lookup_entry(inner, path.skip(1), name);
            }
        }
    }
}

/// The directory at the end of `path` in a plugged tree is the last level.
proof fn lemma_plug_lookup(levels: Seq<Tree>, path: Seq<Name>)
    requires
        levels.len() == path.len() + 1,
    ensures
        lookup(plug(levels, path), path) == Some(Node::Dir(levels.last())),
    decreases path.len(),
{
    if path.len() > 0 {
        lemma_plug_lookup(levels.skip(1), path.skip(1));
    }
}

/// Storing an entry in the directory at the end of `path` changes the last
/// level and nothing else.
proof fn lemma_plug_store(levels: Seq<Tree>, path: Seq<Name>, name: Name, node: Option<Node>)
    requires
        levels.len() == path.len() + 1,
    ensures
        store(plug(levels, path), path.push(name), node) == plug(
            levels.update(levels.len() - 1, with_entry(levels.last(), name, node)),
            path,
        ),
    decreases path.len(),
{
    let changed = levels.update(levels.len() - 1, with_entry(levels.last(), name, node));
    if path.len() > 0 {
        lemma_plug_store(levels.skip(1), path.skip(1), name, node);
        assert(path.push(name).skip(1) =~= path.skip(1).push(name));
        assert(changed.skip(1) =~= levels.skip(1).update(
            levels.skip(1).len() - 1,
            with_entry(levels.last(), name, node),
        ));
    }
}

/// A further level is the same as a directory entry of the level before it.
proof fn lemma_plug_push(levels: Seq<Tree>, path: Seq<Name>, name: Name, child: Tree)
    requires
        levels.len() == path.len() + 1,
    ensures
        plug(levels.push(child), path.push(name)) == plug(
            levels.update(levels.len() - 1, levels.last().insert(name, Node::Dir(child))),
            path,
        ),
    decreases path.len(),
{
    let longer = path.push(name);
    let more = levels.push(child);
    let changed = levels.update(levels.len() - 1, levels.last().insert(name, Node::Dir(child)));
    if path.len() == 0 {
        assert(plug(more.skip(1), longer.skip(1)) == child);
    } else {
        lemma_plug_push(levels.skip(1), path.skip(1), name, child);
        assert(longer.skip(1) =~= path.skip(1).push(name));
        assert(more.skip(1) =~= levels.skip(1).push(child));
        assert(changed.skip(1) =~= levels.skip(1).update(
            levels.skip(1).len() - 1,
            levels.last().insert(name, Node::Dir(child)),
        ));
    }
}

/// Mirroring a second time changes nothing: the destination that one
/// mirroring has left is what another one leaves.
pub proof fn lemma_mirrored_twice(source: Tree, dest: Tree)
    ensures
        mirrored(source, mirrored(source, dest)) == mirrored(source, dest),
{
}

/// A directory of the source replaces what the destination had under its
/// name wholesale: afterwards the destination holds the copy of the source's
/// directory there, whatever was there before, and so nothing that the
/// source's directory does not name.
pub proof fn lemma_directory_is_replaced(source: Tree, dest: Tree, other: Tree, name: Name)
    requires
        source.dom().contains(name),
        source[name] is Dir,
    ensures
        mirrored(source, dest).dom().contains(name),
        mirrored(source, dest)[name] == copy_of(source[name]),
        mirrored(source, dest)[name] == mirrored(source, other)[name],
        mirrored(source, dest)[name] matches Node::Dir(entries) && forall|inner: Name|
            entries.dom().contains(inner) ==> source[name]->Dir_0.dom().contains(inner),
{
}

/// What the source does not name, or names as neither file nor directory,
/// stays in the destination as it was.
pub proof fn lemma_other_entries_stay(source: Tree, dest: Tree, name: Name)
    requires
        !copied(source, name),
    ensures
        mirrored(source, dest).dom().contains(name) == dest.dom().contains(name),
        dest.dom().contains(name) ==> mirrored(source, dest)[name] == dest[name],
{
}

/// `names` lists the entries of `entries`: each name once, and no other.
pub open spec fn is_listing(names: Seq<Name>, entries: Tree) -> bool {
    &&& entries.dom().finite()
    &&& forall|i: int, j: int| 0 <= i < j < names.len() ==> names[i] != names[j]
    &&& forall|i: int| 0 <= i < names.len() ==> entries.dom().contains(#[trigger] names[i])
    &&& forall|name: Name|
        entries.dom().contains(name) ==> exists|i: int|
            0 <= i < names.len() && #[trigger] names[i] == name
}

/// The first `upto` of `names`, as a set.
spec fn taken(names: Seq<Name>, upto: int) -> Set<Name> {
    Set::new(|name: Name| exists|i: int| 0 <= i < upto && #[trigger] names[i] == name)
}

/// The source as the walk sees it. Where the source's root holds the
/// destination itself, under the name `nest`, that entry counts as neither
/// file nor directory: the walk never reads what lies under it.
pub open spec fn apart(source: Tree, nest: Option<Name>) -> Tree {
    match nest {
        Some(name) => if source.dom().contains(name) {
            source.insert(name, Node::Special)
        } else {
            source
        },
        None => source,
    }
}

/// `path` is the entry of the source's root that is the destination.
pub open spec fn is_nest(nest: Option<Name>, path: Seq<Name>) -> bool {
    nest matches Some(name) && path == seq![name]
}

/// What the file system answers to an action of the walk, and what it does
/// to the destination. The destination lies outside the source, or it is
/// the entry `nest` of the source's root.
///
/// A listing names each entry of the source's directory once. An inspection
/// tells whether the entry is the destination itself, what the source has
/// there, and whether the destination has anything under that path. A step
/// that is done has had its effect; one that is not has had none.
pub open spec fn answers(
    source: Tree,
    nest: Option<Name>,
    before: Tree,
    action: ActionView,
    event: SyncEvent,
    after: Tree,
) -> bool {
    match action {
        ActionView::List(dir) => {
            &&& after == before
            &&& match event {
                SyncEvent::Listed(names) => {
                    &&& lookup(source, texts(dir)) matches Some(Node::Dir(entries))
                    &&& is_listing(texts(names@), entries)
                },
                SyncEvent::ListFailed(_, _) => true,
                _ => false,
            }
        },
        ActionView::Inspect(path) => {
            &&& after == before
            &&& event matches SyncEvent::Inspected(found)
            &&& found.is_self == is_nest(nest, texts(path))
            &&& found.kind == kind_of(lookup(source, texts(path)))
            &&& found.exists == lookup(before, texts(path)) is Some
        },
        ActionView::RemoveFile(path) => match event {
            SyncEvent::Step(StepResult::Done) => {
                &&& lookup(before, texts(path)) matches Some(node)
                &&& node !is Dir
                &&& after == store(before, texts(path), None)
            },
            SyncEvent::Step(_) => after == before,
            _ => false,
        },
        ActionView::RemoveDir(path) => match event {
            SyncEvent::Step(StepResult::Done) => {
                &&& lookup(before, texts(path)) matches Some(Node::Dir(_))
                &&& after == store(before, texts(path), None)
            },
            SyncEvent::Step(_) => after == before,
            _ => false,
        },
        ActionView::CopyFile(path) => match event {
            SyncEvent::Step(StepResult::Done) => {
                &&& lookup(source, texts(path)) matches Some(Node::File(bytes))
                &&& !(lookup(before, texts(path)) matches Some(Node::Dir(_)))
                &&& after == store(before, texts(path), Some(Node::File(bytes)))
            },
            SyncEvent::Step(_) => after == before,
            _ => false,
        },
        ActionView::CreateDir(path) => match event {
            SyncEvent::Step(StepResult::Done) => match lookup(before, texts(path)) {
                None => after == store(before, texts(path), Some(Node::Dir(Map::empty()))),
                Some(Node::Dir(_)) => after == before,
                Some(_) => false,
            },
            SyncEvent::Step(_) => after == before,
            _ => false,
        },
        ActionView::Finish(_) | ActionView::Ignored => false,
    }
}

/// What the file system answers where no entry of the source is the
/// destination.
spec fn answers_seen(
    source: Tree,
    before: Tree,
    action: ActionView,
    event: SyncEvent,
    after: Tree,
) -> bool {
    match action {
        ActionView::List(dir) => {
            &&& after == before
            &&& match event {
                SyncEvent::Listed(names) => {
                    &&& lookup(source, texts(dir)) matches Some(Node::Dir(entries))
                    &&& is_listing(texts(names@), entries)
                },
                SyncEvent::ListFailed(_, _) => true,
                _ => false,
            }
        },
        ActionView::Inspect(path) => {
            &&& after == before
            &&& event matches SyncEvent::Inspected(found)
            &&& !found.is_self
            &&& found.kind == kind_of(lookup(source, texts(path)))
            &&& found.exists == lookup(before, texts(path)) is Some
        },
        ActionView::RemoveFile(path) => match event {
            SyncEvent::Step(StepResult::Done) => {
                &&& lookup(before, texts(path)) matches Some(node)
                &&& node !is Dir
                &&& after == store(before, texts(path), None)
            },
            SyncEvent::Step(_) => after == before,
            _ => false,
        },
        ActionView::RemoveDir(path) => match event {
            SyncEvent::Step(StepResult::Done) => {
                &&& lookup(before, texts(path)) matches Some(Node::Dir(_))
                &&& after == store(before, texts(path), None)
            },
            SyncEvent::Step(_) => after == before,
            _ => false,
        },
        ActionView::CopyFile(path) => match event {
            SyncEvent::Step(StepResult::Done) => {
                &&& lookup(source, texts(path)) matches Some(Node::File(bytes))
                &&& !(lookup(before, texts(path)) matches Some(Node::Dir(_)))
                &&& after == store(before, texts(path), Some(Node::File(bytes)))
            },
            SyncEvent::Step(_) => after == before,
            _ => false,
        },
        ActionView::CreateDir(path) => match event {
            SyncEvent::Step(StepResult::Done) => match lookup(before, texts(path)) {
                None => after == store(before, texts(path), Some(Node::Dir(Map::empty()))),
                Some(Node::Dir(_)) => after == before,
                Some(_) => false,
            },
            SyncEvent::Step(_) => after == before,
            _ => false,
        },
        ActionView::Finish(_) | ActionView::Ignored => false,
    }
}

/// A walk from its beginning, with a caller that performs each action on
/// the destination and answers it: `states[k + 1]` and `actions[k]` are what
/// `events[k]` led to from `states[k]`, and `dests[k]` is the destination
/// when `events[k]` was reported.
pub open spec fn is_walk(
    source: Tree,
    nest: Option<Name>,
    states: Seq<WalkView>,
    events: Seq<SyncEvent>,
    actions: Seq<ActionView>,
    dests: Seq<Tree>,
) -> bool {
    &&& events.len() >= 1
    &&& states.len() == events.len() + 1
    &&& actions.len() == events.len()
    &&& dests.len() == events.len()
    &&& states[0] == WalkView { phase: SyncPhase::Created, frames: Seq::empty() }
    &&& events[0] == SyncEvent::Start
    &&& forall|k: int|
        0 <= k < events.len() ==> (#[trigger] states[k + 1], actions[k]) == next(
            states[k],
            events[k],
        )
    &&& forall|k: int|
        0 <= k < events.len() - 1 ==> answers(
            source,
            nest,
            #[trigger] dests[k],
            actions[k],
            events[k + 1],
            dests[k + 1],
        )
}

proof fn lemma_texts_push(path: Seq<String>, name: String)
    ensures
        texts(path.push(name)) == texts(path).push(name@),
{
}

proof fn lemma_taken_next(names: Seq<Name>, upto: int)
    requires
        0 <= upto < names.len(),
    ensures
        taken(names, upto + 1) == taken(names, upto).insert(names[upto]),
{
}

proof fn lemma_taken_all(names: Seq<Name>, entries: Tree)
    requires
        is_listing(names, entries),
    ensures
        taken(names, names.len() as int) == entries.dom(),
{
}

/// Mirroring no entry changes nothing.
proof fn lemma_mirrored_on_none(source: Tree, dest: Tree, names: Seq<Name>)
    ensures
        mirrored_on(source, dest, taken(names, 0)) == dest,
{
}

/// An entry that is not copied counts as mirrored as it is.
proof fn lemma_mirrored_on_skipped(source: Tree, dest: Tree, done: Set<Name>, name: Name)
    requires
        !copied(source, name),
    ensures
        mirrored_on(source, dest, done.insert(name)) == mirrored_on(source, dest, done),
{
}

/// Putting the copy of an entry in its place mirrors that entry.
proof fn lemma_mirrored_on_copied(
    source: Tree,
    dest: Tree,
    done: Set<Name>,
    name: Name,
    here: Tree,
)
    requires
        copied(source, name),
        here.remove(name) == mirrored_on(source, dest, done).remove(name),
    ensures
        here.insert(name, copy_of(source[name])) == mirrored_on(source, dest, done.insert(name)),
{
    let wanted = mirrored_on(source, dest, done.insert(name));
    let made = here.insert(name, copy_of(source[name]));
    let off = mirrored_on(source, dest, done).remove(name);
    assert forall|other: Name| made.dom().contains(other) == wanted.dom().contains(other) by {
        if other != name {
            assert(here.remove(name).dom().contains(other) == off.dom().contains(other));
        }
    }
    assert forall|other: Name| made.dom().contains(other) implies made[other] == wanted[other] by {
        if other != name {
            assert(here.remove(name)[other] == off[other]);
        }
    }
}

/// A directory that was empty and has every entry mirrored into it is the
/// copy of the source's directory.
proof fn lemma_filled_is_copy(entries: Tree)
    requires
        entries.dom().finite(),
    ensures
        Node::Dir(mirrored(entries, Map::empty())) == copy_of(Node::Dir(entries)),
{
    assert(mirrored(entries, Map::empty()) =~= copy_of(Node::Dir(entries))->Dir_0);
}

/// The directories along the walk's path, lowest first: the source's, and
/// the destination's as they are but for the entry that the walk has gone
/// into.
struct Levels {
    sources: Seq<Tree>,
    locals: Seq<Tree>,
}

/// What a directory of the destination held when the walk came to it: the
/// root what the destination held at the beginning, any other nothing.
spec fn base_of(depth: int, dest: Tree) -> Tree {
    if depth == 0 {
        dest
    } else {
        Map::empty()
    }
}

/// The name of the entry that the walk has taken up last in `frame`.
spec fn current(frame: FrameView) -> Name {
    texts(frame.names)[frame.next - 1]
}

/// The entries before the current one are mirrored, and but for the current
/// one `here` is what that makes of `base`.
spec fn busy_with(frame: FrameView, there: Tree, base: Tree, here: Tree) -> bool {
    let names = texts(frame.names);
    &&& is_listing(names, there)
    &&& 1 <= frame.next <= names.len()
    &&& here.remove(current(frame)) == mirrored_on(there, base, taken(names, frame.next - 1)).remove(
        current(frame),
    )
}

/// A directory that the walk has gone below: its current entry is the
/// directory `child` of the source.
spec fn lower_ok(frame: FrameView, there: Tree, base: Tree, here: Tree, child: Tree) -> bool {
    &&& busy_with(frame, there, base, here)
    &&& there[current(frame)] == Node::Dir(child)
}

/// The directory that the walk is in, by the phase.
spec fn top_ok(phase: SyncPhase, frame: FrameView, there: Tree, base: Tree, here: Tree) -> bool {
    match phase {
        SyncPhase::Listing => frame.names.len() == 0 && frame.next == 0 && here == base,
        SyncPhase::Inspecting => {
            &&& busy_with(frame, there, base, here)
            &&& here == mirrored_on(there, base, taken(texts(frame.names), frame.next - 1))
        },
        SyncPhase::Removing(kind) => {
            &&& busy_with(frame, there, base, here)
            &&& kind == kind_of(Some(there[current(frame)]))
            &&& kind != EntryKind::Other
        },
        SyncPhase::Copying => {
            &&& busy_with(frame, there, base, here)
            &&& there[current(frame)] is File
        },
        SyncPhase::Creating => {
            &&& busy_with(frame, there, base, here)
            &&& there[current(frame)] is Dir
            &&& !here.dom().contains(current(frame))
        },
        _ => false,
    }
}

/// The directory that the walk is in has its first `next` entries mirrored
/// and none taken up.
spec fn settled_ok(frame: FrameView, there: Tree, base: Tree, here: Tree) -> bool {
    let names = texts(frame.names);
    &&& is_listing(names, there)
    &&& frame.next <= names.len()
    &&& here == mirrored_on(there, base, taken(names, frame.next as int))
}

spec fn source_at(source: Tree, path: Seq<Name>, levels: Levels, j: int) -> bool {
    lookup(source, path.take(j)) == Some(Node::Dir(levels.sources[j]))
}

spec fn lower_at(dest0: Tree, frames: Seq<FrameView>, path: Seq<Name>, levels: Levels, j: int) -> bool {
    &&& path[j] == current(frames[j])
    &&& lower_ok(
        frames[j],
        levels.sources[j],
        base_of(j, dest0),
        levels.locals[j],
        levels.sources[j + 1],
    )
}

/// How the stack, the levels and the two trees hang together.
spec fn spine(
    source: Tree,
    dest0: Tree,
    frames: Seq<FrameView>,
    levels: Levels,
    dest: Tree,
) -> bool {
    let n = frames.len() as int;
    let path = texts(frames.last().dir);
    &&& n >= 1
    &&& levels.sources.len() == n
    &&& levels.locals.len() == n
    &&& path.len() == n - 1
    &&& dest == plug(levels.locals, path)
    &&& forall|j: int| 0 <= j < n ==> #[trigger] source_at(source, path, levels, j)
    &&& forall|j: int| 0 <= j < n - 1 ==> #[trigger] lower_at(dest0, frames, path, levels, j)
}

/// What holds of a walk's state and the destination between two steps.
spec fn inv(source: Tree, dest0: Tree, view: WalkView, levels: Levels, dest: Tree) -> bool {
    match view.phase {
        SyncPhase::Created => view.frames.len() == 0 && dest == dest0,
        SyncPhase::Finished => true,
        phase => {
            &&& stacked(view.frames, phase != SyncPhase::Listing)
            &&& spine(source, dest0, view.frames, levels, dest)
            &&& top_ok(
                phase,
                view.frames.last(),
                levels.sources.last(),
                base_of(view.frames.len() - 1, dest0),
                levels.locals.last(),
            )
        },
    }
}

/// The action that a state waits for the answer to.
spec fn pending(view: WalkView) -> ActionView {
    let top = view.frames.last();
    match view.phase {
        SyncPhase::Listing => ActionView::List(top.dir),
        SyncPhase::Inspecting => ActionView::Inspect(top.entry()),
        SyncPhase::Removing(EntryKind::Dir) => ActionView::RemoveDir(top.entry()),
        SyncPhase::Removing(_) => ActionView::RemoveFile(top.entry()),
        SyncPhase::Copying => ActionView::CopyFile(top.entry()),
        SyncPhase::Creating => ActionView::CreateDir(top.entry()),
        _ => ActionView::Ignored,
    }
}

/// What a step of the proof hands on: the walk goes on with the invariant,
/// or it has ended, and where it is complete the destination is mirrored.
spec fn carried(
    source: Tree,
    dest0: Tree,
    step: (WalkView, ActionView),
    levels: Levels,
    dest: Tree,
) -> bool {
    if step.0.phase == SyncPhase::Finished {
        &&& step.1 is Finish
        &&& step.1 == ActionView::Finish(Outcome::Completed) ==> dest == mirrored(source, dest0)
    } else {
        inv(source, dest0, step.0, levels, dest) && step.1 == pending(step.0)
    }
}

proof fn lemma_advance(
    source: Tree,
    dest0: Tree,
    frames: Seq<FrameView>,
    levels: Levels,
    dest: Tree,
) -> (after: Levels)
    requires
        stacked(frames, false),
        spine(source, dest0, frames, levels, dest),
        settled_ok(
            frames.last(),
            levels.sources.last(),
            base_of(frames.len() - 1, dest0),
            levels.locals.last(),
        ),
    ensures
        carried(source, dest0, advance(frames), after, dest),
    decreases frames.len(),
{
    let n = frames.len() as int;
    let top = frames.last();
    let names = texts(top.names);
    let path = texts(top.dir);
    let there = levels.sources.last();
    let here = levels.locals.last();
    if top.next < top.names.len() {
        let entered = FrameView { dir: top.dir, names: top.names, next: top.next + 1 };
        let stack = frames.drop_last().push(entered);
        assert forall|j: int| 0 <= j < n - 1 implies #[trigger] lower_at(
            dest0,
            stack,
            path,
            levels,
            j,
        ) by {
            assert(lower_at(dest0, frames, path, levels, j));
        }
        levels
    } else {
        lemma_taken_all(names, there);
        assert(advance(frames) == advance(frames.drop_last()));
        if n == 1 {
            assert(source_at(source, path, levels, 0));
            levels
        } else {
            let below = frames.drop_last();
            let parent = frames[n - 2];
            let name = current(parent);
            assert(lower_at(dest0, frames, path, levels, n - 2));
            let upper = path.drop_last();
            lemma_texts_push(parent.dir, parent.names[parent.next - 1]);
            assert(upper =~= texts(parent.dir));
            let parent_there = levels.sources[n - 2];
            let parent_here = levels.locals[n - 2];
            let parent_base = base_of(n - 2, dest0);
            let filled = parent_here.insert(name, Node::Dir(here));
            let kept = levels.locals.drop_last();
            let after = Levels {
                sources: levels.sources.drop_last(),
                locals: kept.update(n - 2, filled),
            };
            lemma_plug_push(kept, upper, name, here);
            assert(kept.push(here) =~= levels.locals);
            lemma_filled_is_copy(there);
            lemma_mirrored_on_copied(
                parent_there,
                parent_base,
                taken(texts(parent.names), parent.next - 1),
                name,
                parent_here,
            );
            lemma_taken_next(texts(parent.names), parent.next - 1);
            assert forall|j: int| 0 <= j < n - 1 implies #[trigger] source_at(
                source,
                upper,
                after,
                j,
            ) by {
                assert(source_at(source, path, levels, j));
                assert(upper.take(j) =~= path.take(j));
            }
            assert forall|j: int| 0 <= j < n - 2 implies #[trigger] lower_at(
                dest0,
                below,
                upper,
                after,
                j,
            ) by {
                assert(lower_at(dest0, frames, path, levels, j));
            }
            lemma_advance(source, dest0, below, after, dest)
        }
    }
}

/// What the two trees hold under the current entry of the walk.
proof fn lemma_current_entry(
    source: Tree,
    dest0: Tree,
    view: WalkView,
    levels: Levels,
    dest: Tree,
)
    requires
        inv(source, dest0, view, levels, dest),
        view.phase != SyncPhase::Created,
        view.phase != SyncPhase::Finished,
        view.phase != SyncPhase::Listing,
    ensures
        texts(view.frames.last().entry()) == texts(view.frames.last().dir).push(
            current(view.frames.last()),
        ),
        levels.sources.last().dom().contains(current(view.frames.last())),
        lookup(source, texts(view.frames.last().entry())) == Some(
            levels.sources.last()[current(view.frames.last())],
        ),
        lookup(dest, texts(view.frames.last().entry())) == if levels.locals.last().dom().contains(
            current(view.frames.last()),
        ) {
            Some(levels.locals.last()[current(view.frames.last())])
        } else {
            None
        },
{
    let top = view.frames.last();
    let n = view.frames.len() as int;
    let path = texts(top.dir);
    let name = current(top);
    assert(source_at(source, path, levels, n - 1));
    assert(path.take(n - 1) =~= path);
    lemma_lookup_entry(source, path, name);
    lemma_plug_lookup(levels.locals, path);
    lemma_lookup_entry(dest, path, name);
}

/// The invariant with another directory on top of the stack.
proof fn lemma_with_top(
    source: Tree,
    dest0: Tree,
    frames: Seq<FrameView>,
    levels: Levels,
    dest: Tree,
    here: Tree,
    after: Tree,
) -> (then: Levels)
    requires
        spine(source, dest0, frames, levels, dest),
        after == plug(levels.locals.update(frames.len() - 1, here), texts(frames.last().dir)),
    ensures
        then == (Levels {
            sources: levels.sources,
            locals: levels.locals.update(frames.len() - 1, here),
        }),
        spine(source, dest0, frames, then, after),
        then.locals.last() == here,
        then.sources.last() == levels.sources.last(),
{
    let n = frames.len() as int;
    let path = texts(frames.last().dir);
    let then = Levels { sources: levels.sources, locals: levels.locals.update(n - 1, here) };
    assert forall|j: int| 0 <= j < n implies #[trigger] source_at(source, path, then, j) by {
        assert(source_at(source, path, levels, j));
    }
    assert forall|j: int| 0 <= j < n - 1 implies #[trigger] lower_at(
        dest0,
        frames,
        path,
        then,
        j,
    ) by {
        assert(lower_at(dest0, frames, path, levels, j));
    }
    then
}

proof fn lemma_listed(
    source: Tree,
    dest0: Tree,
    pre: WalkView,
    levels: Levels,
    dest: Tree,
    event: SyncEvent,
) -> (then: Levels)
    requires
        pre.phase == SyncPhase::Listing,
        inv(source, dest0, pre, levels, dest),
        answers_seen(source, dest, pending(pre), event, dest),
    ensures
        carried(source, dest0, next(pre, event), then, dest),
{
    let frames = pre.frames;
    let n = frames.len() as int;
    let top = frames.last();
    let path = texts(top.dir);
    match event {
        SyncEvent::Listed(names) => {
            let listed = FrameView { dir: top.dir, names: names@, next: 0 };
            let stack = frames.drop_last().push(listed);
            assert(source_at(source, path, levels, n - 1));
            assert(path.take(n - 1) =~= path);
            assert forall|j: int| 0 <= j < n - 1 implies #[trigger] lower_at(
                dest0,
                stack,
                path,
                levels,
                j,
            ) by {
                assert(lower_at(dest0, frames, path, levels, j));
            }
            lemma_mirrored_on_none(
                levels.sources.last(),
                base_of(n - 1, dest0),
                texts(names@),
            );
            lemma_advance(source, dest0, stack, levels, dest)
        },
        _ => levels,
    }
}

proof fn lemma_inspected(
    source: Tree,
    dest0: Tree,
    pre: WalkView,
    levels: Levels,
    dest: Tree,
    event: SyncEvent,
) -> (then: Levels)
    requires
        pre.phase == SyncPhase::Inspecting,
        inv(source, dest0, pre, levels, dest),
        answers_seen(source, dest, pending(pre), event, dest),
    ensures
        carried(source, dest0, next(pre, event), then, dest),
{
    let frames = pre.frames;
    let n = frames.len() as int;
    let top = frames.last();
    let names = texts(top.names);
    let name = current(top);
    let there = levels.sources.last();
    lemma_current_entry(source, dest0, pre, levels, dest);
    match event {
        SyncEvent::Inspected(found) => {
            if found.kind == EntryKind::Other {
                lemma_mirrored_on_skipped(
                    there,
                    base_of(n - 1, dest0),
                    taken(names, top.next - 1),
                    name,
                );
                lemma_taken_next(names, top.next - 1);
                lemma_advance(source, dest0, frames, levels, dest)
            } else {
                levels
            }
        },
        _ => levels,
    }
}

proof fn lemma_removed(
    source: Tree,
    dest0: Tree,
    pre: WalkView,
    levels: Levels,
    before: Tree,
    event: SyncEvent,
    after: Tree,
) -> (then: Levels)
    requires
        pre.phase is Removing,
        inv(source, dest0, pre, levels, before),
        answers_seen(source, before, pending(pre), event, after),
    ensures
        carried(source, dest0, next(pre, event), then, after),
{
    let frames = pre.frames;
    let top = frames.last();
    let name = current(top);
    let here = levels.locals.last();
    lemma_current_entry(source, dest0, pre, levels, before);
    match event {
        SyncEvent::Step(StepResult::Done) => {
            lemma_plug_store(levels.locals, texts(top.dir), name, None);
            let then = lemma_with_top(
                source,
                dest0,
                frames,
                levels,
                before,
                here.remove(name),
                after,
            );
            assert(here.remove(name).remove(name) =~= here.remove(name));
            then
        },
        _ => levels,
    }
}

proof fn lemma_copied(
    source: Tree,
    dest0: Tree,
    pre: WalkView,
    levels: Levels,
    before: Tree,
    event: SyncEvent,
    after: Tree,
) -> (then: Levels)
    requires
        pre.phase == SyncPhase::Copying,
        inv(source, dest0, pre, levels, before),
        answers_seen(source, before, pending(pre), event, after),
    ensures
        carried(source, dest0, next(pre, event), then, after),
{
    let frames = pre.frames;
    let n = frames.len() as int;
    let top = frames.last();
    let names = texts(top.names);
    let name = current(top);
    let there = levels.sources.last();
    let here = levels.locals.last();
    lemma_current_entry(source, dest0, pre, levels, before);
    match event {
        SyncEvent::Step(StepResult::Done) => {
            lemma_plug_store(levels.locals, texts(top.dir), name, Some(there[name]));
            let then = lemma_with_top(
                source,
                dest0,
                frames,
                levels,
                before,
                here.insert(name, there[name]),
                after,
            );
            lemma_mirrored_on_copied(
                there,
                base_of(n - 1, dest0),
                taken(names, top.next - 1),
                name,
                here,
            );
            lemma_taken_next(names, top.next - 1);
            lemma_advance(source, dest0, frames, then, after)
        },
        _ => levels,
    }
}

proof fn lemma_created(
    source: Tree,
    dest0: Tree,
    pre: WalkView,
    levels: Levels,
    before: Tree,
    event: SyncEvent,
    after: Tree,
) -> (then: Levels)
    requires
        pre.phase == SyncPhase::Creating,
        inv(source, dest0, pre, levels, before),
        answers_seen(source, before, pending(pre), event, after),
    ensures
        carried(source, dest0, next(pre, event), then, after),
{
    let frames = pre.frames;
    let n = frames.len() as int;
    let top = frames.last();
    let name = current(top);
    let path = texts(top.dir);
    let there = levels.sources.last();
    lemma_current_entry(source, dest0, pre, levels, before);
    match event {
        SyncEvent::Step(StepResult::Done) => {
            let child = there[name]->Dir_0;
            let empty = Map::<Name, Node>::empty();
            let entered = crate::up::sync::unlisted(top.entry());
            let stack = frames.push(entered);
            let deeper = path.push(name);
            let then = Levels {
                sources: levels.sources.push(child),
                locals: levels.locals.push(empty),
            };
            lemma_plug_store(levels.locals, path, name, Some(Node::Dir(empty)));
            lemma_plug_push(levels.locals, path, name, empty);
            assert forall|j: int| 0 <= j < n + 1 implies #[trigger] source_at(
                source,
                deeper,
                then,
                j,
            ) by {
                if j < n {
                    assert(source_at(source, path, levels, j));
                    assert(deeper.take(j) =~= path.take(j));
                } else {
                    assert(deeper.take(j) =~= deeper);
                }
            }
            assert forall|j: int| 0 <= j < n implies #[trigger] lower_at(
                dest0,
                stack,
                deeper,
                then,
                j,
            ) by {
                if j < n - 1 {
                    assert(lower_at(dest0, frames, path, levels, j));
                }
            }
            then
        },
        _ => levels,
    }
}

proof fn lemma_step(
    source: Tree,
    dest0: Tree,
    pre: WalkView,
    levels: Levels,
    before: Tree,
    event: SyncEvent,
    after: Tree,
) -> (then: Levels)
    requires
        pre.phase != SyncPhase::Created,
        pre.phase != SyncPhase::Finished,
        inv(source, dest0, pre, levels, before),
        answers_seen(source, before, pending(pre), event, after),
    ensures
        carried(source, dest0, next(pre, event), then, after),
{
    match pre.phase {
        SyncPhase::Listing => lemma_listed(source, dest0, pre, levels, before, event),
        SyncPhase::Inspecting => lemma_inspected(source, dest0, pre, levels, before, event),
        SyncPhase::Removing(_) => lemma_removed(source, dest0, pre, levels, before, event, after),
        SyncPhase::Copying => lemma_copied(source, dest0, pre, levels, before, event, after),
        _ => lemma_created(source, dest0, pre, levels, before, event, after),
    }
}

/// The event as the walk takes it: an entry that is the destination itself
/// is passed over like one that is neither file nor directory.
spec fn seen_event(event: SyncEvent) -> SyncEvent {
    match event {
        SyncEvent::Inspected(found) => if found.is_self {
            SyncEvent::Inspected(
                Inspection { is_self: false, kind: EntryKind::Other, exists: found.exists },
            )
        } else {
            event
        },
        _ => event,
    }
}

/// The path that the walk is on does not begin with the entry that is the
/// destination.
proof fn lemma_path_apart(
    source: Tree,
    nest: Option<Name>,
    dest0: Tree,
    frames: Seq<FrameView>,
    levels: Levels,
    dest: Tree,
)
    requires
        spine(apart(source, nest), dest0, frames, levels, dest),
        frames.len() >= 2,
    ensures
        !(nest matches Some(name) && source.dom().contains(name) && texts(frames.last().dir)[0]
            == name),
{
    let path = texts(frames.last().dir);
    assert(lower_at(dest0, frames, path, levels, 0));
    assert(source_at(apart(source, nest), path, levels, 0));
}

/// What the file system answers is, to the walk, an answer of a source
/// that lies apart from the destination.
proof fn lemma_seen(
    source: Tree,
    nest: Option<Name>,
    dest0: Tree,
    pre: WalkView,
    levels: Levels,
    before: Tree,
    event: SyncEvent,
    after: Tree,
)
    requires
        pre.phase != SyncPhase::Created,
        pre.phase != SyncPhase::Finished,
        inv(apart(source, nest), dest0, pre, levels, before),
        answers(source, nest, before, pending(pre), event, after),
    ensures
        answers_seen(apart(source, nest), before, pending(pre), seen_event(event), after),
        next(pre, seen_event(event)) == next(pre, event),
{
    let frames = pre.frames;
    let top = frames.last();
    if frames.len() >= 2 {
        lemma_path_apart(source, nest, dest0, frames, levels, before);
    }
    if pre.phase == SyncPhase::Inspecting || pre.phase == SyncPhase::Copying {
        lemma_current_entry(apart(source, nest), dest0, pre, levels, before);
        let entry = texts(top.dir).push(current(top));
        if nest is Some && source.dom().contains(nest->Some_0) && entry[0] == nest->Some_0 {
            assert(entry =~= seq![nest->Some_0]);
        }
    }
}

proof fn lemma_walk(
    source: Tree,
    nest: Option<Name>,
    states: Seq<WalkView>,
    events: Seq<SyncEvent>,
    actions: Seq<ActionView>,
    dests: Seq<Tree>,
    k: int,
) -> (levels: Levels)
    requires
        is_walk(source, nest, states, events, actions, dests),
        0 <= k < events.len(),
    ensures
        carried(apart(source, nest), dests[0], (states[k + 1], actions[k]), levels, dests[k]),
    decreases k,
{
    let seen = apart(source, nest);
    if k == 0 {
        let levels = Levels { sources: seq![seen], locals: seq![dests[0]] };
        levels
    } else {
        let before = lemma_walk(source, nest, states, events, actions, dests, k - 1);
        lemma_seen(source, nest, dests[0], states[k], before, dests[k - 1], events[k], dests[k]);
        lemma_step(
            seen,
            dests[0],
            states[k],
            before,
            dests[k - 1],
            seen_event(events[k]),
            dests[k],
        )
    }
}

/// Every walk that completes leaves the destination mirrored: each file and
/// directory of the source replaces what the destination had under its name,
/// and everything else in the destination stays. Where the destination is
/// itself an entry of the source's root, that entry is passed over.
pub proof fn lemma_completed_walk_mirrors(
    source: Tree,
    nest: Option<Name>,
    states: Seq<WalkView>,
    events: Seq<SyncEvent>,
    actions: Seq<ActionView>,
    dests: Seq<Tree>,
)
    requires
        is_walk(source, nest, states, events, actions, dests),
        actions.last() == ActionView::Finish(Outcome::Completed),
    ensures
        dests.last() == mirrored(apart(source, nest), dests[0]),
{
    let levels = lemma_walk(source, nest, states, events, actions, dests, events.len() - 1);
}

/// Mirroring is idempotent: a second completed walk over the same source
/// leaves the destination as the first one left it.
pub proof fn lemma_second_walk_changes_nothing(
    source: Tree,
    nest: Option<Name>,
    first: (Seq<WalkView>, Seq<SyncEvent>, Seq<ActionView>, Seq<Tree>),
    second: (Seq<WalkView>, Seq<SyncEvent>, Seq<ActionView>, Seq<Tree>),
)
    requires
        is_walk(source, nest, first.0, first.1, first.2, first.3),
        first.2.last() == ActionView::Finish(Outcome::Completed),
        is_walk(source, nest, second.0, second.1, second.2, second.3),
        second.2.last() == ActionView::Finish(Outcome::Completed),
        second.3[0] == first.3.last(),
    ensures
        second.3.last() == first.3.last(),
{
    lemma_completed_walk_mirrors(source, nest, first.0, first.1, first.2, first.3);
    lemma_completed_walk_mirrors(source, nest, second.0, second.1, second.2, second.3);
}

/// After a completed walk, a directory of the source has replaced what the
/// destination had under its name wholesale: the destination holds the copy
/// of the source's directory there, and nothing under it that the source's
/// directory does not name.
pub proof fn lemma_walk_replaces_directories(
    source: Tree,
    nest: Option<Name>,
    states: Seq<WalkView>,
    events: Seq<SyncEvent>,
    actions: Seq<ActionView>,
    dests: Seq<Tree>,
    name: Name,
)
    requires
        is_walk(source, nest, states, events, actions, dests),
        actions.last() == ActionView::Finish(Outcome::Completed),
        source.dom().contains(name),
        source[name] is Dir,
        nest != Some(name),
    ensures
        dests.last().dom().contains(name),
        dests.last()[name] == copy_of(source[name]),
        dests.last()[name] matches Node::Dir(entries) && forall|inner: Name|
            entries.dom().contains(inner) ==> source[name]->Dir_0.dom().contains(inner),
{
    lemma_completed_walk_mirrors(source, nest, states, events, actions, dests);
}

/// After a completed walk, what the source's root does not name stays in the
/// destination as it was, and so does what the destination has under the
/// name of an entry that is the destination itself or neither file nor
/// directory: nothing is pruned.
pub proof fn lemma_walk_keeps_other_entries(
    source: Tree,
    nest: Option<Name>,
    states: Seq<WalkView>,
    events: Seq<SyncEvent>,
    actions: Seq<ActionView>,
    dests: Seq<Tree>,
    name: Name,
)
    requires
        is_walk(source, nest, states, events, actions, dests),
        actions.last() == ActionView::Finish(Outcome::Completed),
        !copied(source, name) || nest == Some(name),
    ensures
        dests.last().dom().contains(name) == dests[0].dom().contains(name),
        dests[0].dom().contains(name) ==> dests.last()[name] == dests[0][name],
{
    lemma_completed_walk_mirrors(source, nest, states, events, actions, dests);
}

} // verus!
