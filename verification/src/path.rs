//! Relative destination paths and the addresses they have on a mirror.
//!
//! Paths are separated by `/`; a manifest written with `\` is normalised first.

use vstd::prelude::*;
use vstd::string::*;

verus! {

/// A path with every `\` replaced by `/`.
pub open spec fn normalized(path: Seq<char>) -> Seq<char> {
    Seq::new(
        path.len(),
        |i: int|
            if path[i] == '\\' {
                '/'
            } else {
                path[i]
            },
    )
}

/// The path without what follows its last name: trailing separators and
/// trailing `.` components.
pub open spec fn without_trailing(path: Seq<char>) -> Seq<char>
    decreases path.len(),
{
    if path.len() == 0 {
        path
    } else if path.last() == '/' {
        without_trailing(path.drop_last())
    } else if path.last() == '.' && (path.len() == 1 || path[path.len() - 2] == '/') {
        without_trailing(path.drop_last())
    } else {
        path
    }
}

/// Where the last component of a path begins: behind its last separator, or at
/// the start where it has none.
pub open spec fn last_component_start(path: Seq<char>) -> int
    decreases path.len(),
{
    if path.len() == 0 {
        0
    } else if path.last() == '/' {
        path.len() as int
    } else {
        last_component_start(path.drop_last())
    }
}

/// The final name of a path, if it has one: the last component that is
/// neither empty nor `.`, unless that component is `..`.
pub open spec fn file_name(path: Seq<char>) -> Option<Seq<char>> {
    let trimmed = without_trailing(path);
    let name = trimmed.subrange(last_component_start(trimmed), trimmed.len() as int);
    if trimmed.len() == 0 || name == seq!['.', '.'] {
        None
    } else {
        Some(name)
    }
}

/// The name shown for a path: its final name, or the whole path where it has
/// none.
pub open spec fn shown_name(path: Seq<char>) -> Seq<char> {
    match file_name(path) {
        Some(name) => name,
        None => path,
    }
}

/// Replaces every `\` of a destination path by `/`.
pub fn normalize_path(path: &str) -> (out: String)
    ensures
        out@ == normalized(path@),
{
    let len = path.unicode_len();
    let mut out = String::new();
    let mut i: usize = 0;
    while i < len
        invariant
            i <= len,
            len == path@.len(),
            out@ == normalized(path@).take(i as int),
        decreases len - i,
    {
        let c = path.get_char(i);
        let ghost before = out@;
        if c == '\\' {
            proof {
                reveal_strlit("/");
            }
            out.append("/");
            assert("/"@ =~= seq!['/']);
        } else {
            out.append(path.substring_char(i, i + 1));
            assert(path@.subrange(i as int, i + 1) =~= seq![c]);
        }
        assert(out@ =~= before.push(normalized(path@)[i as int]));
        assert(out@ =~= normalized(path@).take(i + 1));
        i += 1;
    }
    assert(out@ =~= normalized(path@));
    out
}

/// The address of a destination on a mirror: the mirror's base followed by the
/// destination, with nothing put between them.
pub fn mirror_url(base: &str, dest: &str) -> (url: String)
    ensures
        url@ == base@ + dest@,
{
    base.to_owned().concat(dest)
}

/// The final name of a path, for messages; the whole path where it has none
/// (an empty path, a root, a path that ends in `..`).
pub fn get_filename(path: &str) -> (name: String)
    ensures
        name@ == shown_name(path@),
{
    let len = path.unicode_len();
    let mut end: usize = len;
    assert(path@.take(len as int) =~= path@);
    while end > 0
        invariant
            end <= len,
            len == path@.len(),
            without_trailing(path@) == without_trailing(path@.take(end as int)),
        ensures
            end <= len,
            without_trailing(path@) == path@.take(end as int),
        decreases end,
    {
        let ghost head = path@.take(end as int);
        let c = path.get_char(end - 1);
        assert(head.last() == c);
        assert(head.drop_last() =~= path@.take(end - 1));
        if c == '/' {
            end -= 1;
        } else if c == '.' && (end == 1 || path.get_char(end - 2) == '/') {
            assert(end > 1 ==> head[head.len() - 2] == path@[end - 2]);
            end -= 1;
        } else {
            assert(end > 1 ==> head[head.len() - 2] == path@[end - 2]);
            assert(without_trailing(head) == head);
            break ;
        }
    }
    let ghost trimmed = path@.take(end as int);
    if end == 0 {
        return path.to_owned();
    }
    let mut start: usize = end;
    assert(trimmed.take(end as int) =~= trimmed);
    while start > 0
        invariant
            start <= end <= len,
            len == path@.len(),
            trimmed == path@.take(end as int),
            last_component_start(trimmed) == last_component_start(trimmed.take(start as int)),
        ensures
            start <= end,
            last_component_start(trimmed) == start,
        decreases start,
    {
        let ghost head = trimmed.take(start as int);
        let c = path.get_char(start - 1);
        assert(head.last() == c);
        assert(head.drop_last() =~= trimmed.take(start - 1));
        if c == '/' {
            break ;
        }
        start -= 1;
    }
    let ghost name = trimmed.subrange(start as int, end as int);
    assert(name =~= path@.subrange(start as int, end as int));
    if end - start == 2 && path.get_char(start) == '.' && path.get_char(start + 1) == '.' {
        assert(name =~= seq!['.', '.']);
        return path.to_owned();
    }
    assert(name != seq!['.', '.']) by {
        if name == seq!['.', '.'] {
            assert(name.len() == 2);
            assert(name[0] == '.' && name[1] == '.');
        }
    }
    path.substring_char(start, end).to_owned()
}

} // verus!
