//! Relative paths as text: segments with `/` between them.

use crate::text::chars_of;
use vstd::prelude::*;

verus! {

/// `name` appended to the relative path `prefix`: alone where the prefix
/// is empty, behind a `/` otherwise.
pub open spec fn join_path(prefix: Seq<char>, name: Seq<char>) -> Seq<char> {
    if prefix.len() == 0 {
        name
    } else {
        prefix + seq!['/'] + name
    }
}

/// Whether a segment that is exactly `..` starts at index `i` of `path`:
/// it stands at the start or behind a `/`, and ends the path or is followed
/// by a `/`.
pub open spec fn parent_segment_at(path: Seq<char>, i: int) -> bool {
    &&& 0 <= i
    &&& i + 2 <= path.len()
    &&& (i == 0 || path[i - 1] == '/')
    &&& path[i] == '.'
    &&& path[i + 1] == '.'
    &&& (i + 2 == path.len() || path[i + 2] == '/')
}

/// Whether some segment of `path` is the parent-directory marker `..`.
pub open spec fn has_parent_segment(path: Seq<char>) -> bool {
    exists|i: int| parent_segment_at(path, i)
}

/// Whether `path` is absolute: it starts with `/`.
pub open spec fn is_absolute(path: Seq<char>) -> bool {
    path.len() > 0 && path[0] == '/'
}

/// Whether `path`, taken from a directory, leads out of it: it is absolute,
/// or one of its segments is `..`.
pub open spec fn leaves_root(path: Seq<char>) -> bool {
    is_absolute(path) || has_parent_segment(path)
}

/// Whether `name` is a single segment other than `..`: the name of an
/// entry as a directory holds it.
pub open spec fn plain_name(name: Seq<char>) -> bool {
    &&& forall|i: int| 0 <= i < name.len() ==> name[i] != '/'
    &&& name != seq!['.', '.']
}

/// Appending a plain name to a path that stays inside gives a path that
/// stays inside: it is not absolute and has no `..` segment.
pub proof fn lemma_join_stays_inside(prefix: Seq<char>, name: Seq<char>)
    requires
        !leaves_root(prefix),
        plain_name(name),
    ensures
        !leaves_root(join_path(prefix, name)),
{
    let path = join_path(prefix, name);
    assert forall|i: int| !parent_segment_at(path, i) by {
        if parent_segment_at(path, i) {
            if prefix.len() == 0 {
                // No separator stands in the name, so the segment is the whole name.
                assert(name =~= seq!['.', '.']);
            } else {
                let p = prefix.len() as int;
                if i + 2 <= p {
                    // The segment lies in the prefix.
                    assert(parent_segment_at(prefix, i));
                } else if i > p {
                    // The segment lies in the name, hence is the whole name.
                    assert(name =~= seq!['.', '.']);
                } else {
                    // One of the two dots would be the separator behind the prefix.
                    assert(path[p] == '/');
                }
            }
        }
    }
}

/// Tells whether some segment of `path` is `..`.
pub fn has_parent_dir(path: &str) -> (found: bool)
    ensures
        found == has_parent_segment(path@),
{
    let chars = chars_of(path);
    let n = chars.len();
    let mut i: usize = 0;
    while i < n
        invariant
            n == chars@.len(),
            chars@ == path@,
            i <= n,
            forall|k: int| 0 <= k < i ==> !parent_segment_at(path@, k),
        decreases n - i,
    {
        if chars[i] == '.' && i + 1 < n && chars[i + 1] == '.' && (i == 0 || chars[i - 1] == '/')
            && (i + 2 == n || chars[i + 2] == '/') {
            assert(parent_segment_at(path@, i as int));
            return true;
        }
        i += 1;
    }
    false
}

/// Tells whether `path` is absolute.
pub fn is_absolute_path(path: &str) -> (absolute: bool)
    ensures
        absolute == is_absolute(path@),
{
    if path.is_empty() {
        false
    } else {
        path.get_char(0) == '/'
    }
}

/// Tells whether `path`, taken from a directory, leads out of it.
pub fn leaves_root_dir(path: &str) -> (leaves: bool)
    ensures
        leaves == leaves_root(path@),
{
    is_absolute_path(path) || has_parent_dir(path)
}

/// Appends `name` to the relative path `prefix`.
pub fn join(prefix: &str, name: &str) -> (out: String)
    ensures
        out@ == join_path(prefix@, name@),
{
    if prefix.is_empty() {
        name.to_owned()
    } else {
        let mut out = prefix.to_owned();
        proof {
            reveal_strlit("/");
        }
        out.append("/");
        out.append(name);
        out
    }
}

} // verus!
