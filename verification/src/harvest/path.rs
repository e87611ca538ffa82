//! Syntax of package paths.
//!
//! Paths are POSIX-style text: `/` is the only separator, a path that begins
//! with `/` has a root, and the components of a path are the maximal runs of
//! characters between separators. There are no drive prefixes in this syntax.

use vstd::prelude::*;
use vstd::string::{StrSliceExecFns, StringExecFns};

verus! {

/// The path begins at the root of the file system.
pub open spec fn has_root(path: Seq<char>) -> bool {
    path.len() > 0 && path[0] == '/'
}

/// The components of a path: the pieces of text between its separators,
/// in order. A path without a separator is its own single component, and
/// where two separators meet, or one begins or ends the path, the piece
/// between is empty.
pub open spec fn components(path: Seq<char>) -> Seq<Seq<char>>
    decreases path.len(),
{
    if path.len() == 0 {
        seq![Seq::<char>::empty()]
    } else {
        let before = components(path.drop_last());
        if path.last() == '/' {
            before.push(Seq::<char>::empty())
        } else {
            before.update(before.len() - 1, before.last().push(path.last()))
        }
    }
}

/// The component that names the parent directory: `..`.
pub open spec fn parent_component() -> Seq<char> {
    seq!['.', '.']
}

/// Some component of the path is `..`.
pub open spec fn has_parent_component(path: Seq<char>) -> bool {
    components(path).contains(parent_component())
}

/// A component that is exactly `..` begins at index `i` of the path: two
/// dots stand there, between the beginning of the path or a separator and
/// a separator or the end of the path.
pub open spec fn parent_component_at(path: Seq<char>, i: int) -> bool {
    &&& 0 <= i
    &&& i + 2 <= path.len()
    &&& path[i] == '.'
    &&& path[i + 1] == '.'
    &&& (i == 0 || path[i - 1] == '/')
    &&& (i + 2 == path.len() || path[i + 2] == '/')
}

/// Where the last component of a path begins.
spec fn last_component_start(path: Seq<char>) -> int
    decreases path.len(),
{
    if path.len() == 0 {
        0
    } else if path.last() == '/' {
        path.len() as int
    } else {
        last_component_start(path.drop_last())
    }
}

/// A `..` component that a separator ends begins at index `i` of the path.
spec fn ended_parent_component_at(path: Seq<char>, i: int) -> bool {
    parent_component_at(path, i) && i + 2 < path.len()
}

/// The last component of a path begins after the last separator and runs
/// to the end.
proof fn lemma_last_component(path: Seq<char>)
    ensures
        0 <= last_component_start(path) <= path.len(),
        last_component_start(path) == 0 || path[last_component_start(path) - 1] == '/',
        forall|j: int| last_component_start(path) <= j < path.len() ==> path[j] != '/',
        components(path).len() >= 1,
        components(path).last() == path.subrange(
            last_component_start(path),
            path.len() as int,
        ),
    decreases path.len(),
{
    if path.len() > 0 {
        let shorter = path.drop_last();
        lemma_last_component(shorter);
        assert(forall|j: int| 0 <= j < shorter.len() ==> path[j] == shorter[j]);
    }
}

/// The components of a path but the last are the ones that a separator
/// ends: one of them is `..` exactly where two dots stand between the
/// beginning of the path or a separator and a separator.
proof fn lemma_ended_components(path: Seq<char>)
    ensures
        components(path).drop_last().contains(parent_component()) <==> exists|i: int|
            ended_parent_component_at(path, i),
    decreases path.len(),
{
    let parent = parent_component();
    if path.len() > 0 {
        let shorter = path.drop_last();
        let before = components(shorter);
        let n = shorter.len() as int;
        let start = last_component_start(shorter);
        lemma_ended_components(shorter);
        lemma_last_component(shorter);
        if path.last() == '/' {
            // The separator ends what was the last component.
            assert(components(path).drop_last() =~= before);
            if before.contains(parent) {
                let k = choose|k: int| 0 <= k < before.len() && before[k] == parent;
                if k < before.len() - 1 {
                    assert(before.drop_last()[k] == parent);
                    let i = choose|i: int| ended_parent_component_at(shorter, i);
                    assert(ended_parent_component_at(path, i));
                } else {
                    assert(shorter.subrange(start, n).len() == 2);
                    assert(ended_parent_component_at(path, start));
                }
            }
            if exists|i: int| ended_parent_component_at(path, i) {
                let i = choose|i: int| ended_parent_component_at(path, i);
                if i + 2 < n {
                    assert(ended_parent_component_at(shorter, i));
                } else {
                    // The two dots are what was the last component.
                    if start < i {
                        assert(shorter[i - 1] != '/');
                    }
                    assert(shorter.subrange(start, n) =~= parent);
                }
            }
        } else {
            // The last component grows, and the others stay.
            assert(components(path).drop_last() =~= before.drop_last());
            if exists|i: int| ended_parent_component_at(shorter, i) {
                let i = choose|i: int| ended_parent_component_at(shorter, i);
                assert(ended_parent_component_at(path, i));
            }
            if exists|i: int| ended_parent_component_at(path, i) {
                let i = choose|i: int| ended_parent_component_at(path, i);
                assert(ended_parent_component_at(shorter, i));
            }
        }
    }
}

/// A path has a `..` component exactly where two dots stand in it between
/// the beginning of the path or a separator and a separator or the end of
/// the path.
pub proof fn lemma_parent_component_positions(path: Seq<char>)
    ensures
        has_parent_component(path) <==> exists|i: int| parent_component_at(path, i),
{
    let parent = parent_component();
    let parts = components(path);
    let n = path.len() as int;
    let start = last_component_start(path);
    lemma_last_component(path);
    lemma_ended_components(path);
    if parts.contains(parent) {
        let k = choose|k: int| 0 <= k < parts.len() && parts[k] == parent;
        if k < parts.len() - 1 {
            assert(parts.drop_last()[k] == parent);
        } else {
            assert(path.subrange(start, n).len() == 2);
            assert(parent_component_at(path, start));
        }
    }
    if exists|i: int| parent_component_at(path, i) {
        let i = choose|i: int| parent_component_at(path, i);
        if i + 2 < n {
            assert(ended_parent_component_at(path, i));
        } else {
            // The two dots are the last component.
            assert(parts[parts.len() - 1] == parent);
        }
    }
}

/// Resolving the path against a directory could leave that directory.
pub open spec fn escapes_root(path: Seq<char>) -> bool {
    has_root(path) || has_parent_component(path)
}

/// The path `relative` adjoined to `root`: a separator is put between the two
/// unless `root` is empty or already ends with one.
pub open spec fn joined(root: Seq<char>, relative: Seq<char>) -> Seq<char> {
    if root.len() == 0 || root.last() == '/' {
        root + relative
    } else {
        root + seq!['/'] + relative
    }
}

/// A path without a root and without a `..` component, adjoined to a
/// directory, stays in that directory: the result begins with the directory,
/// and what follows names no parent directory, so that every `..` component
/// of the result is one of the directory itself.
pub proof fn lemma_child_stays_inside(root: Seq<char>, relative: Seq<char>)
    requires
        !escapes_root(relative),
    ensures
        has_parent_component(joined(root, relative)) ==> has_parent_component(root),
        joined(root, relative).len() >= root.len(),
        joined(root, relative).subrange(0, root.len() as int) == root,
        forall|i: int|
            parent_component_at(joined(root, relative), i) ==> parent_component_at(root, i),
{
    let path = joined(root, relative);
    lemma_parent_component_positions(relative);
    lemma_parent_component_positions(root);
    lemma_parent_component_positions(path);
    assert forall|i: int| parent_component_at(path, i) implies parent_component_at(root, i) by {
        let gap: int = if root.len() == 0 || root.last() == '/' {
            0
        } else {
            1
        };
        let start = root.len() + gap;
        if i >= start {
            // Two dots in the part that `relative` gave would be a `..`
            // component of `relative`.
            assert(parent_component_at(relative, i - start));
        }
    }
}

/// The characters of a string, in order.
pub fn chars_of(text: &str) -> (chars: Vec<char>)
    ensures
        chars@ == text@,
{
    let mut chars: Vec<char> = Vec::new();
    for c in it: text.chars()
        invariant
            chars@ == it.seq().take(it.index() as int),
            it.seq() == text@,
    {
        chars.push(c);
    }
    chars
}

/// Whether resolving `relative` against a directory could leave that
/// directory: whether it has a root or a `..` component.
pub fn is_escaping(relative: &str) -> (escaping: bool)
    ensures
        escaping == escapes_root(relative@),
{
    let chars = chars_of(relative);
    let n: usize = chars.len();
    if n > 0 && chars[0] == '/' {
        return true;
    }
    let mut i: usize = 0;
    while i < n
        invariant
            i <= n,
            n == chars.len(),
            chars@ == relative@,
            forall|j: int| 0 <= j < i ==> !parent_component_at(chars@, j),
        decreases n - i,
    {
        if chars[i] == '.' && i + 1 < n && chars[i + 1] == '.' && (i == 0 || chars[i - 1] == '/')
            && (i + 2 == n || chars[i + 2] == '/') {
            proof {
                assert(parent_component_at(chars@, i as int));
                lemma_parent_component_positions(relative@);
            }
            return true;
        }
        i += 1;
    }
    proof {
        lemma_parent_component_positions(relative@);
    }
    false
}

/// Adjoins `relative` to `root`.
pub fn join(root: &str, relative: &str) -> (path: String)
    ensures
        path@ == joined(root@, relative@),
{
    let mut path = String::from_str(root);
    let len: usize = root.unicode_len();
    if len > 0 && root.get_char(len - 1) != '/' {
        proof {
            reveal_strlit("/");
        }
        path.append("/");
    }
    path.append(relative);
    path
}

} // verus!
