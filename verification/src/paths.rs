//! Relative paths, read byte by byte: which of them stay inside the directory
//! they are joined to.
//!
//! A path is split at every `/`. An empty segment and `.` stay where they
//! are, `..` climbs one level, any other segment descends one level. A path
//! is confined when it is relative and never climbs above its starting point.

use vstd::prelude::*;
use vstd::string::*;

verus! {

/// The texts of a list of strings.
pub open spec fn texts(list: Seq<String>) -> Seq<Seq<char>> {
    Seq::new(list.len(), |i: int| list[i]@)
}

/// The byte `/`.
pub const SLASH: u8 = 0x2f;

/// The byte `.`.
pub const DOT: u8 = 0x2e;

/// The segments between the slashes of `path`; a path without a slash is one
/// segment.
pub open spec fn segments(path: Seq<u8>) -> Seq<Seq<u8>>
    decreases path.len(),
{
    if path.len() == 0 {
        seq![Seq::<u8>::empty()]
    } else {
        let before = segments(path.drop_last());
        if path.last() == SLASH {
            before.push(Seq::<u8>::empty())
        } else {
            before.drop_last().push(before.last().push(path.last()))
        }
    }
}

/// The depth below the starting directory after walking `segment` from
/// `depth`, or `None` once the walk has left the starting directory.
pub open spec fn walk(depth: Option<nat>, segment: Seq<u8>) -> Option<nat> {
    match depth {
        None => None,
        Some(d) => if segment.len() == 0 || segment == seq![DOT] {
            Some(d)
        } else if segment == seq![DOT, DOT] {
            if d == 0 {
                None
            } else {
                Some((d - 1) as nat)
            }
        } else {
            Some(d + 1)
        },
    }
}

/// The depth reached after walking all of `segments` from the starting
/// directory.
pub open spec fn depth_after(segments: Seq<Seq<u8>>) -> Option<nat>
    decreases segments.len(),
{
    if segments.len() == 0 {
        Some(0)
    } else {
        walk(depth_after(segments.drop_last()), segments.last())
    }
}

/// `path` is relative and never climbs above the directory it starts in.
pub open spec fn confined(path: Seq<u8>) -> bool {
    &&& path.len() > 0 ==> path[0] != SLASH
    &&& depth_after(segments(path)) is Some
}

/// `path`, as text, is confined: its UTF-8 bytes are.
pub open spec fn confined_path(path: Seq<char>) -> bool {
    confined(vstd::utf8::encode_utf8(path))
}

/// What the scan knows of the segment it is in.
enum Shape {
    Empty,
    Dot,
    DotDot,
    Name,
}

impl Shape {
    spec fn describes(self, segment: Seq<u8>) -> bool {
        match self {
            Shape::Empty => segment.len() == 0,
            Shape::Dot => segment == seq![DOT],
            Shape::DotDot => segment == seq![DOT, DOT],
            Shape::Name => segment.len() > 0 && segment != seq![DOT] && segment != seq![DOT, DOT],
        }
    }
}

proof fn lemma_segments_nonempty(path: Seq<u8>)
    ensures
        segments(path).len() > 0,
{
}

/// Whether `path` is confined.
pub fn is_confined(path: &str) -> (inside: bool)
    ensures
        inside == confined_path(path@),
{
    let bytes = path.as_bytes();
    let n = bytes.len();
    if n > 0 && bytes[0] == SLASH {
        return false;
    }
    let mut depth: usize = 0;
    let mut shape = Shape::Empty;
    let mut i: usize = 0;
    while i < n
        invariant
            i <= n,
            n == bytes@.len(),
            bytes@ == path.spec_bytes(),
            n > 0 ==> bytes@[0] != SLASH,
            depth <= i,
            depth_after(segments(bytes@.take(i as int)).drop_last()) == Some(depth as nat),
            shape.describes(segments(bytes@.take(i as int)).last()),
        decreases n - i,
    {
        let ghost before = segments(bytes@.take(i as int));
        let ghost after = segments(bytes@.take(i + 1));
        let b = bytes[i];
        proof {
            assert(bytes@.take(i + 1).drop_last() =~= bytes@.take(i as int));
        }
        if b == SLASH {
            proof {
                assert(after.drop_last() =~= before);
            }
            match shape {
                Shape::Empty | Shape::Dot => {},
                Shape::DotDot => {
                    if depth == 0 {
                        proof {
                            lemma_escape_is_final(bytes@, i + 1);
                        }
                        return false;
                    }
                    depth = depth - 1;
                },
                Shape::Name => {
                    depth = depth + 1;
                },
            }
            shape = Shape::Empty;
        } else {
            proof {
                assert(after.drop_last() =~= before.drop_last());
                assert(after.last() == before.last().push(b));
            }
            shape =
            match shape {
                Shape::Empty => if b == DOT {
                    Shape::Dot
                } else {
                    Shape::Name
                },
                Shape::Dot => if b == DOT {
                    Shape::DotDot
                } else {
                    Shape::Name
                },
                Shape::DotDot | Shape::Name => Shape::Name,
            };
            proof {
                let grown = before.last().push(b);
                assert(grown[grown.len() - 1] == b);
                if before.last() == seq![DOT] {
                    assert(b == DOT ==> grown =~= seq![DOT, DOT]);
                } else if grown == seq![DOT, DOT] {
                    assert(before.last() =~= seq![DOT]);
                }
            }
        }
        i = i + 1;
    }
    proof {
        assert(bytes@.take(n as int) =~= bytes@);
        let all = segments(bytes@);
        lemma_segments_nonempty(bytes@);
        assert(all.drop_last().push(all.last()) =~= all);
    }
    match shape {
        Shape::DotDot => depth > 0,
        _ => true,
    }
}

/// Once a prefix of a path has left the starting directory, the whole path
/// has.
proof fn lemma_escape_is_final(path: Seq<u8>, k: int)
    requires
        0 <= k <= path.len(),
        depth_after(segments(path.take(k)).drop_last()) is None,
    ensures
        depth_after(segments(path)) is None,
    decreases path.len() - k,
{
    let head = segments(path.take(k));
    assert(depth_after(head) is None);
    if k == path.len() {
        assert(path.take(k) =~= path);
    } else {
        let next = segments(path.take(k + 1));
        assert(path.take(k + 1).drop_last() =~= path.take(k));
        lemma_segments_nonempty(path.take(k + 1));
        if path.take(k + 1).last() == SLASH {
            assert(next.drop_last() =~= head);
        } else {
            assert(next.drop_last() =~= head.drop_last());
        }
        lemma_escape_is_final(path, k + 1);
    }
}

/// The manifest's file name, in the source directory.
pub const MANIFEST_FILENAME: &'static str = "manifest.yaml";

/// The script that prepares the host, relative to the deployment directory.
pub const INIT_SCRIPT: &'static str = "scripts/init.sh";

/// The script that cleans up after the containers are removed.
pub const UNINSTALL_SCRIPT: &'static str = "scripts/uninstall.sh";

/// The script that migrates an existing deployment.
pub const UPGRADE_SCRIPT: &'static str = "scripts/upgrade.sh";

/// `path` ends with the whole segments of `tail`: it is `tail`, or it ends
/// with a slash followed by `tail`.
pub open spec fn ends_with_segments(path: Seq<u8>, tail: Seq<u8>) -> bool {
    let start = path.len() - tail.len();
    &&& start >= 0
    &&& path.subrange(start, path.len() as int) == tail
    &&& start > 0 ==> path[start - 1] == SLASH
}

/// Whether `path` ends with the whole segments of `tail`.
pub fn ends_with_path(path: &str, tail: &str) -> (ends: bool)
    ensures
        ends == ends_with_segments(path.spec_bytes(), tail.spec_bytes()),
{
    let whole = path.as_bytes();
    let end = tail.as_bytes();
    if whole.len() < end.len() {
        return false;
    }
    let start = whole.len() - end.len();
    if start > 0 && whole[start - 1] != SLASH {
        return false;
    }
    let mut i: usize = 0;
    while i < end.len()
        invariant
            i <= end.len(),
            whole@ == path.spec_bytes(),
            end@ == tail.spec_bytes(),
            start + end.len() == whole.len(),
            start > 0 ==> whole@[start - 1] == SLASH,
            forall|k: int| 0 <= k < i ==> whole@[start + k] == end@[k],
        decreases end.len() - i,
    {
        if whole[start + i] != end[i] {
            return false;
        }
        i = i + 1;
    }
    assert(whole@.subrange(start as int, whole@.len() as int) =~= end@);
    true
}

/// `path` begins with the whole segments of `root`: it is `root`, or it
/// goes on with a slash after `root`.
pub open spec fn starts_with_segments(path: Seq<u8>, root: Seq<u8>) -> bool {
    &&& root.len() <= path.len()
    &&& path.subrange(0, root.len() as int) == root
    &&& {
        ||| root.len() == path.len()
        ||| path[root.len() as int] == SLASH
        ||| root.len() > 0 && root[root.len() - 1] == SLASH
    }
}

/// `path`, as text, lies in the directory `root` or is `root`.
pub open spec fn within(path: Seq<char>, root: Seq<char>) -> bool {
    starts_with_segments(vstd::utf8::encode_utf8(path), vstd::utf8::encode_utf8(root))
}

/// Whether `path` lies in the directory `root` or is `root`. Both are
/// resolved paths: absolute, without `.`, `..` or repeated slashes.
pub fn is_within(path: &str, root: &str) -> (inside: bool)
    ensures
        inside == within(path@, root@),
{
    let whole = path.as_bytes();
    let begin = root.as_bytes();
    if whole.len() < begin.len() {
        return false;
    }
    let mut i: usize = 0;
    while i < begin.len()
        invariant
            i <= begin.len() <= whole.len(),
            whole@ == path.spec_bytes(),
            begin@ == root.spec_bytes(),
            forall|k: int| 0 <= k < i ==> whole@[k] == begin@[k],
        decreases begin.len() - i,
    {
        if whole[i] != begin[i] {
            return false;
        }
        i = i + 1;
    }
    assert(whole@.subrange(0, begin@.len() as int) =~= begin@);
    whole.len() == begin.len() || whole[begin.len()] == SLASH || (begin.len() > 0 && begin[begin.len()
        - 1] == SLASH)
}

/// `path` is one of the three lifecycle scripts, wherever it lies.
pub open spec fn is_script(path: Seq<char>) -> bool {
    let bytes = vstd::utf8::encode_utf8(path);
    ||| ends_with_segments(bytes, vstd::utf8::encode_utf8(INIT_SCRIPT@))
    ||| ends_with_segments(bytes, vstd::utf8::encode_utf8(UNINSTALL_SCRIPT@))
    ||| ends_with_segments(bytes, vstd::utf8::encode_utf8(UPGRADE_SCRIPT@))
}

/// Whether `path` is one of the three lifecycle scripts, which are made
/// executable where the platform knows of that.
pub fn is_lifecycle_script(path: &str) -> (script: bool)
    ensures
        script == is_script(path@),
{
    ends_with_path(path, INIT_SCRIPT) || ends_with_path(path, UNINSTALL_SCRIPT) || ends_with_path(
        path,
        UPGRADE_SCRIPT,
    )
}

} // verus!
