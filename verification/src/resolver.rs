//! Path resolution: computing the concrete target path for one source.
//!
//! When the destination is an existing directory, the target is the
//! destination joined with the source's base name; otherwise the target is
//! the destination path verbatim. All of it is pure string work: no probe of
//! the filesystem happens here.

use vstd::prelude::*;
use vstd::string::StrSliceExecFns;
use vstd::string::StringExecFns;
use crate::errors::CopyError;

verus! {

/// The path separator.
pub open spec fn is_sep(c: char) -> bool {
    c == '/'
}

/// The length of `s` once trailing separators are dropped, scanning left
/// from the candidate end `i`.
pub open spec fn trim_end(s: Seq<char>, i: int) -> int
    decreases i,
{
    if 0 < i <= s.len() && is_sep(s[i - 1]) {
        trim_end(s, i - 1)
    } else {
        i
    }
}

/// The start of the path component that ends at `i`: the position right
/// after the last separator before `i`.
pub open spec fn component_start(s: Seq<char>, i: int) -> int
    decreases i,
{
    if 0 < i <= s.len() && !is_sep(s[i - 1]) {
        component_start(s, i - 1)
    } else {
        i
    }
}

/// The base name of a path: its final component, with trailing separators
/// ignored. A path made of separators alone (a root), an empty path, and a
/// path whose final component is one of the navigation segments `.` and `..`
/// have no base name.
pub open spec fn base_name(s: Seq<char>) -> Option<Seq<char>> {
    let end = trim_end(s, s.len() as int);
    let start = component_start(s, end);
    if start == end {
        None
    } else {
        let name = s.subrange(start, end);
        if name == seq!['.'] || name == seq!['.', '.'] {
            None
        } else {
            Some(name)
        }
    }
}

/// `dest` joined with the component `name`: a separator is inserted unless
/// `dest` already ends with one or is empty.
pub open spec fn join_path(dest: Seq<char>, name: Seq<char>) -> Seq<char> {
    if dest.len() > 0 && !is_sep(dest[dest.len() - 1]) {
        dest + seq!['/'] + name
    } else {
        dest + name
    }
}

/// What `resolve` returns: the destination verbatim unless the destination
/// is an existing directory, in which case the source's base name is
/// appended — and a source without a base name is rejected.
pub open spec fn resolve_spec(
    source: Seq<char>,
    dest: Seq<char>,
    dest_exists: bool,
    dest_is_dir: bool,
) -> Result<Seq<char>, CopyError> {
    if dest_exists && dest_is_dir {
        match base_name(source) {
            Some(name) => Ok(join_path(dest, name)),
            None => Err(CopyError::NoFileName),
        }
    } else {
        Ok(dest)
    }
}

/// The final component of `path`, or `None` where the path has no
/// extractable base name (empty, a root, or ending in `.` or `..`).
pub fn file_base_name(path: &str) -> (r: Option<String>)
    ensures
        match r {
            Some(name) => base_name(path@) == Some(name@),
            None => base_name(path@) is None,
        },
{
    let n = path.unicode_len();
    let mut end: usize = n;
    while end > 0 && path.get_char(end - 1) == '/'
        invariant
            end <= n,
            n == path@.len(),
            trim_end(path@, n as int) == trim_end(path@, end as int),
        decreases end,
    {
        end = end - 1;
    }
    let mut start: usize = end;
    while start > 0 && path.get_char(start - 1) != '/'
        invariant
            start <= end <= n,
            n == path@.len(),
            component_start(path@, end as int) == component_start(path@, start as int),
        decreases start,
    {
        start = start - 1;
    }
    assert(trim_end(path@, path@.len() as int) == end as int);
    assert(component_start(path@, end as int) == start as int);
    if start == end {
        return None;
    }
    let name = path.substring_char(start, end);
    let len = end - start;
    if len == 1 && name.get_char(0) == '.' {
        assert(name@ =~= seq!['.']);
        return None;
    }
    if len == 2 && name.get_char(0) == '.' && name.get_char(1) == '.' {
        assert(name@ =~= seq!['.', '.']);
        return None;
    }
    assert(name@ != seq!['.'] && name@ != seq!['.', '.']) by {
        if name@ == seq!['.'] {
            assert(name@.len() == 1 && name@[0] == '.');
        }
        if name@ == seq!['.', '.'] {
            assert(name@.len() == 2 && name@[0] == '.' && name@[1] == '.');
        }
    }
    Some(name.to_owned())
}

/// `dest` joined with `name`, inserting a separator unless `dest` is empty
/// or already ends with one.
pub fn join(dest: &str, name: &str) -> (r: String)
    ensures
        r@ == join_path(dest@, name@),
{
    proof {
        reveal_strlit("/");
    }
    let dlen = dest.unicode_len();
    let mut out = String::from_str(dest);
    if dlen > 0 && dest.get_char(dlen - 1) != '/' {
        out.append("/");
    }
    out.append(name);
    out
}

/// The concrete target path for one source, per the destination's
/// pre-computed existence and kind. Pure and deterministic: the same four
/// inputs always give the same target.
///
/// An existing directory destination receives the source's base name inside
/// it; a source without a base name is rejected with `NoFileName`. Every
/// other destination — not existing yet, or existing as a non-directory —
/// is returned verbatim, and no other error can arise.
pub fn resolve(source: &str, dest: &str, dest_exists: bool, dest_is_dir: bool) -> (r: Result<
    String,
    CopyError,
>)
    ensures
        match (r, resolve_spec(source@, dest@, dest_exists, dest_is_dir)) {
            (Ok(target), Ok(t)) => target@ == t,
            (Err(e), Err(es)) => e == es,
            _ => false,
        },
        !(dest_exists && dest_is_dir) ==> (r matches Ok(target) && target@ == dest@),
        (dest_exists && dest_is_dir && base_name(source@) is Some) ==> (r matches Ok(target)
            && target@ == join_path(dest@, base_name(source@).unwrap())),
        r is Err <==> (dest_exists && dest_is_dir && base_name(source@) is None),
        r matches Err(e) ==> e == CopyError::NoFileName,
{
    if dest_exists && dest_is_dir {
        match file_base_name(source) {
            Some(name) => Ok(join(dest, name.as_str())),
            None => Err(CopyError::NoFileName),
        }
    } else {
        Ok(dest.to_owned())
    }
}

} // verus!
