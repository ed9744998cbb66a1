//! File-system paths, resolved without touching the file system.
//!
//! A path is a string of bytes, as the operating system has it: components
//! separated by `/`. Resolving a path makes it absolute: a relative path is
//! adjoined to a base, component by component. Empty components and `.` are
//! dropped, `..` is kept as it stands (what it names depends on links, which
//! only the file system knows), and a trailing separator is kept because it
//! says that a directory is meant.

use vstd::prelude::*;
use vstd::slice::slice_subrange;

verus! {

/// The byte that separates the components of a path: `/`.
pub const SEPARATOR: u8 = 47;

/// The byte `.`, which alone makes the component that names the directory it
/// stands in.
pub const DOT: u8 = 46;

/// A path is absolute when it starts at the root.
pub open spec fn is_absolute(path: Seq<u8>) -> bool {
    path.len() > 0 && path[0] == SEPARATOR
}

/// Whether a path ends with a separator.
pub open spec fn ends_with_separator(path: Seq<u8>) -> bool {
    path.len() > 0 && path.last() == SEPARATOR
}

/// The component `.`, which names the directory it stands in.
pub open spec fn is_dot(component: Seq<u8>) -> bool {
    component.len() == 1 && component[0] == DOT
}

/// `buf` with one more component adjoined; a separator goes in between unless
/// `buf` is empty or already ends with one.
pub open spec fn pushed(buf: Seq<u8>, component: Seq<u8>) -> Seq<u8> {
    if buf.len() > 0 && buf.last() != SEPARATOR {
        buf + seq![SEPARATOR] + component
    } else {
        buf + component
    }
}

/// `buf` after the component read so far has come to its end: empty
/// components and `.` leave `buf` as it is, any other is adjoined.
pub open spec fn closed(buf: Seq<u8>, component: Seq<u8>) -> Seq<u8> {
    if component.len() == 0 || is_dot(component) {
        buf
    } else {
        pushed(buf, component)
    }
}

/// `buf` with every component of a path adjoined in order, where `component`
/// holds the bytes of the component being read and `rest` what of the path is
/// still to be read.
pub open spec fn extended(buf: Seq<u8>, component: Seq<u8>, rest: Seq<u8>) -> Seq<u8>
    decreases rest.len(),
{
    if rest.len() == 0 {
        closed(buf, component)
    } else if rest[0] == SEPARATOR {
        extended(closed(buf, component), Seq::empty(), rest.skip(1))
    } else {
        extended(buf, component.push(rest[0]), rest.skip(1))
    }
}

/// Where an absolute path starts: at `//` when it begins with exactly two
/// separators, which systems may read in a way of their own, else at `/`.
pub open spec fn root_of(path: Seq<u8>) -> Seq<u8> {
    if path.len() >= 2 && path[1] == SEPARATOR && !(path.len() >= 3 && path[2] == SEPARATOR) {
        seq![SEPARATOR, SEPARATOR]
    } else {
        seq![SEPARATOR]
    }
}

/// `buf`, ending with a separator if `wanted` and `buf` is not empty.
pub open spec fn as_directory(buf: Seq<u8>, wanted: bool) -> Seq<u8> {
    if wanted && buf.len() > 0 && buf.last() != SEPARATOR {
        buf + seq![SEPARATOR]
    } else {
        buf
    }
}

/// `path` without the separator that closes it, if it has one; a path that
/// is nothing but its root stays as it is.
pub open spec fn unclosed(path: Seq<u8>) -> Seq<u8> {
    if path.len() > 1 && path.last() == SEPARATOR && !(path.len() == 2 && path[0] == SEPARATOR) {
        path.drop_last()
    } else {
        path
    }
}

/// The absolute form of `path`, read from `base` if it is relative. There is
/// none for the empty path, nor for a relative path where the base is not
/// absolute itself.
pub open spec fn spec_resolve(base: Seq<u8>, path: Seq<u8>) -> Option<Seq<u8>> {
    if path.len() == 0 {
        None
    } else if is_absolute(path) {
        Some(as_directory(extended(root_of(path), Seq::empty(), path), ends_with_separator(path)))
    } else if is_absolute(base) {
        Some(as_directory(extended(base, Seq::empty(), path), ends_with_separator(path)))
    } else {
        None
    }
}

/// The form of `path` where relative paths are kept under `root`: absolute
/// where `root` is. An absolute `path` stands for itself. A relative one is
/// adjoined to `root`; what comes out names a directory, with a closing
/// separator, exactly when `path` is empty or ends with a separator.
pub open spec fn spec_resolve_under(root: Seq<u8>, path: Seq<u8>) -> Seq<u8> {
    if is_absolute(path) {
        as_directory(extended(root_of(path), Seq::empty(), path), ends_with_separator(path))
    } else if path.len() == 0 || ends_with_separator(path) {
        as_directory(extended(root, Seq::empty(), path), true)
    } else {
        unclosed(extended(root, Seq::empty(), path))
    }
}

/// Whether `path` is `root` itself or lies below it: `root` is where `path`
/// starts, and it ends there at the end of a component, so that `/srv/static`
/// has `/srv/static/papers` under it and not `/srv/staticfoo`.
pub open spec fn is_under(root: Seq<u8>, path: Seq<u8>) -> bool {
    &&& root.is_prefix_of(path)
    &&& path.len() == root.len() || ends_with_separator(root) || path[root.len() as int]
        == SEPARATOR
}

/// Adjoining components only ever adds to the end, and what it adds to a path
/// that is open at its end starts with a separator.
pub proof fn lemma_extended_goes_below(buf: Seq<u8>, component: Seq<u8>, rest: Seq<u8>)
    requires
        buf.len() > 0,
    ensures
        is_under(buf, extended(buf, component, rest)),
    decreases rest.len(),
{
    if rest.len() == 0 {
        assert(buf.is_prefix_of(closed(buf, component)));
    } else if rest[0] == SEPARATOR {
        let next = closed(buf, component);
        assert(buf.is_prefix_of(next));
        lemma_extended_goes_below(next, Seq::empty(), rest.skip(1));
        let all = extended(next, Seq::empty(), rest.skip(1));
        assert(next =~= all.subrange(0, next.len() as int));
        assert(buf =~= next.subrange(0, buf.len() as int));
        assert(buf =~= all.subrange(0, buf.len() as int));
        if next.len() > buf.len() && !ends_with_separator(buf) {
            assert(next[buf.len() as int] == SEPARATOR);
            assert(all[buf.len() as int] == next[buf.len() as int]);
        }
    } else {
        lemma_extended_goes_below(buf, component.push(rest[0]), rest.skip(1));
    }
}

/// A relative path is resolved to an absolute path that lies under the root
/// it was resolved against, taken without the separator that may close it.
pub proof fn lemma_resolved_under_root(root: Seq<u8>, path: Seq<u8>)
    requires
        is_absolute(root),
        !is_absolute(path),
    ensures
        is_absolute(spec_resolve_under(root, path)),
        is_under(unclosed(root), spec_resolve_under(root, path)),
{
    lemma_extended_goes_below(root, Seq::empty(), path);
    let body = extended(root, Seq::empty(), path);
    let out = spec_resolve_under(root, path);
    let stem = unclosed(root);
    assert(root =~= body.subrange(0, root.len() as int));
    assert(body[0] == root[0]);
    assert(out[0] == body[0]);
    if body.len() == root.len() {
        assert(body =~= root);
    }
    assert(stem =~= out.subrange(0, stem.len() as int));
    if out.len() > stem.len() && !ends_with_separator(stem) {
        if stem.len() < root.len() {
            assert(out[stem.len() as int] == root[stem.len() as int]);
        } else if body.len() > root.len() {
            assert(out[stem.len() as int] == body[root.len() as int]);
        }
    }
}

/// Whatever the base, a resolved path is absolute.
pub proof fn lemma_resolved_is_absolute(base: Seq<u8>, path: Seq<u8>)
    requires
        spec_resolve(base, path) is Some,
    ensures
        is_absolute(spec_resolve(base, path)->Some_0),
{
    let start = if is_absolute(path) {
        root_of(path)
    } else {
        base
    };
    lemma_extended_goes_below(start, Seq::empty(), path);
    let body = extended(start, Seq::empty(), path);
    assert(start =~= body.subrange(0, start.len() as int));
    assert(body[0] == start[0]);
}

/// Whether a path is not empty and does not end with a separator.
fn is_open(path: &Vec<u8>) -> (open: bool)
    ensures
        open == (path@.len() > 0 && path@.last() != SEPARATOR),
{
    let n = path.len();
    n > 0 && path[n - 1] != SEPARATOR
}

/// Brings the component `path[start..end]` to its end: adjoins it to `out`
/// unless it is empty or `.`.
fn close_component(out: Vec<u8>, path: &[u8], start: usize, end: usize) -> (done: Vec<u8>)
    requires
        start <= end <= path@.len(),
    ensures
        done@ == closed(out@, path@.subrange(start as int, end as int)),
{
    let ghost component = path@.subrange(start as int, end as int);
    let dot = end - start == 1 && path[start] == DOT;
    assert(dot == is_dot(component));
    if end == start || dot {
        return out;
    }
    let mut out = out;
    let ghost before = out@;
    if is_open(&out) {
        out.push(SEPARATOR);
    }
    let ghost opened = out@;
    out.extend_from_slice(slice_subrange(path, start, end));
    assert(out@ =~= opened + component);
    out
}

/// Adjoins the components of `path` to `out`, and a closing separator where
/// `directory` asks for one.
fn extend_with(out: Vec<u8>, path: &[u8], directory: bool) -> (done: Vec<u8>)
    ensures
        done@ == as_directory(extended(out@, Seq::empty(), path@), directory),
{
    let mut out = out;
    let ghost before = out@;
    let n = path.len();
    let mut start: usize = 0;
    let mut i: usize = 0;
    assert(path@.subrange(0, 0) =~= Seq::<u8>::empty());
    assert(path@.skip(0) =~= path@);
    while i < n
        invariant
            start <= i <= n,
            n == path@.len(),
            extended(before, Seq::empty(), path@) == extended(
                out@,
                path@.subrange(start as int, i as int),
                path@.skip(i as int),
            ),
        decreases n - i,
    {
        let ghost component = path@.subrange(start as int, i as int);
        let ghost rest = path@.skip(i as int);
        assert(rest[0] == path@[i as int]);
        assert(rest.skip(1) =~= path@.skip(i + 1));
        if path[i] == SEPARATOR {
            out = close_component(out, path, start, i);
            start = i + 1;
            assert(path@.subrange(start as int, i + 1) =~= Seq::<u8>::empty());
        } else {
            assert(component.push(rest[0]) =~= path@.subrange(start as int, i + 1));
        }
        i += 1;
    }
    assert(path@.skip(n as int) =~= Seq::<u8>::empty());
    out = close_component(out, path, start, n);
    if directory && is_open(&out) {
        out.push(SEPARATOR);
    }
    out
}

/// Whether a path starts at the root.
pub fn starts_at_root(path: &[u8]) -> (absolute: bool)
    ensures
        absolute == is_absolute(path@),
{
    path.len() > 0 && path[0] == SEPARATOR
}

/// Whether a path ends with a separator.
fn ends_with_slash(path: &[u8]) -> (ends: bool)
    ensures
        ends == ends_with_separator(path@),
{
    let n = path.len();
    n > 0 && path[n - 1] == SEPARATOR
}

/// The bytes at which an absolute path starts.
fn root_bytes(path: &[u8]) -> (root: Vec<u8>)
    requires
        is_absolute(path@),
    ensures
        root@ == root_of(path@),
{
    let n = path.len();
    let mut root: Vec<u8> = Vec::new();
    root.push(SEPARATOR);
    if n >= 2 && path[1] == SEPARATOR && !(n >= 3 && path[2] == SEPARATOR) {
        root.push(SEPARATOR);
        assert(root@ =~= seq![SEPARATOR, SEPARATOR]);
    } else {
        assert(root@ =~= seq![SEPARATOR]);
    }
    root
}

/// A vector with the bytes of a slice.
fn copied(bytes: &[u8]) -> (copy: Vec<u8>)
    ensures
        copy@ == bytes@,
{
    let mut copy: Vec<u8> = Vec::new();
    copy.extend_from_slice(bytes);
    assert(copy@ =~= bytes@);
    copy
}

/// Makes `path` absolute, reading it from `base` if it is relative. `None` for
/// the empty path, and for a relative path where `base` is not absolute.
pub fn resolve(base: &[u8], path: &[u8]) -> (resolved: Option<Vec<u8>>)
    ensures
        match resolved {
            Some(bytes) => spec_resolve(base@, path@) == Some(bytes@),
            None => spec_resolve(base@, path@) is None,
        },
{
    if path.len() == 0 {
        None
    } else if starts_at_root(path) {
        Some(extend_with(root_bytes(path), path, ends_with_slash(path)))
    } else if starts_at_root(base) {
        Some(extend_with(copied(base), path, ends_with_slash(path)))
    } else {
        None
    }
}

/// Takes the closing separator off a path that is more than its root.
fn unclose(path: Vec<u8>) -> (done: Vec<u8>)
    ensures
        done@ == unclosed(path@),
{
    let mut path = path;
    let n = path.len();
    if n > 1 && path[n - 1] == SEPARATOR && !(n == 2 && path[0] == SEPARATOR) {
        path.pop();
    }
    path
}

/// Resolves `path`, keeping a relative path under `root`. What comes out is
/// absolute where `root` is.
pub fn resolve_under(root: &[u8], path: &[u8]) -> (resolved: Vec<u8>)
    ensures
        resolved@ == spec_resolve_under(root@, path@),
{
    if starts_at_root(path) {
        extend_with(root_bytes(path), path, ends_with_slash(path))
    } else if path.len() == 0 || ends_with_slash(path) {
        extend_with(copied(root), path, true)
    } else {
        unclose(extend_with(copied(root), path, false))
    }
}

} // verus!
