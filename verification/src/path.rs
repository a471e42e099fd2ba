//! File paths as text.

use vstd::prelude::*;

use crate::text::{self, cat, cat3, chars, copy, Deep, Text};

verus! {

/// `name` inside the directory `dir`. An absolute name stays as it is.
pub open spec fn join_spec(dir: Seq<char>, name: Seq<char>) -> Seq<char> {
    if name.begins("/"@) {
        name
    } else if dir.len() == 0 || dir.ends("/"@) {
        dir + name
    } else {
        dir + "/"@ + name
    }
}

pub fn join(dir: &str, name: &str) -> (r: String)
    ensures
        r@ == join_spec(dir@, name@),
{
    let d = chars(dir);
    if text::begins(&chars(name), "/") {
        copy(name)
    } else if d.len() == 0 || text::ends(&d, "/") {
        cat(dir, name)
    } else {
        cat3(dir, "/", name)
    }
}

/// The components of a path: the pieces between slashes, without the empty
/// ones, and without `.` anywhere but at the beginning of a relative path.
pub open spec fn components_spec(path: Seq<char>) -> Seq<Seq<char>> {
    let pieces = path.split("/"@);
    kept(pieces, pieces.len() as int)
}

/// Whether the piece at `i` is a component.
pub open spec fn is_component(pieces: Seq<Seq<char>>, i: int) -> bool {
    pieces[i].len() > 0 && (pieces[i] != "."@ || i == 0)
}

/// The components among the first `n` pieces.
pub open spec fn kept(pieces: Seq<Seq<char>>, n: int) -> Seq<Seq<char>>
    decreases n,
{
    if n <= 0 {
        seq![]
    } else if is_component(pieces, n - 1) {
        kept(pieces, n - 1).push(pieces[n - 1])
    } else {
        kept(pieces, n - 1)
    }
}

pub fn components(path: &[char]) -> (r: Vec<&[char]>)
    ensures
        r@.deep() == components_spec(path@),
{
    let pieces = text::split(path, "/");
    let ghost all = pieces@.deep();
    let mut out: Vec<&[char]> = Vec::new();
    let mut i: usize = 0;
    assert(out@.deep() =~= seq![]);
    while i < pieces.len()
        invariant
            i <= pieces.len(),
            all == pieces@.deep(),
            out@.deep() == kept(all, i as int),
        decreases pieces.len() - i,
    {
        assert(all[i as int] == pieces@[i as int]@);
        if pieces[i].len() > 0 && (!text::is(pieces[i], ".") || i == 0) {
            let ghost before = out@;
            out.push(pieces[i]);
            assert(out@.deep() =~= before.deep().push(all[i as int]));
        }
        i += 1;
    }
    out
}

/// A component as the name of a file: `.` and `..` are none.
pub open spec fn name_of(component: Option<Seq<char>>) -> Option<Seq<char>> {
    match component {
        Some(name) if name != "."@ && name != ".."@ => Some(name),
        _ => None,
    }
}

/// The last component of a path, if it names a file or directory.
pub open spec fn file_name_spec(path: Seq<char>) -> Option<Seq<char>> {
    let parts = components_spec(path);
    if parts.len() == 0 {
        None
    } else {
        name_of(Some(parts.last()))
    }
}

/// The last component of the parent of a path, if it names a directory.
pub open spec fn parent_name_spec(path: Seq<char>) -> Option<Seq<char>> {
    let parts = components_spec(path);
    if parts.len() < 2 {
        None
    } else {
        name_of(Some(parts[parts.len() - 2]))
    }
}

fn named<'a>(component: &'a [char]) -> (r: Option<&'a [char]>)
    ensures
        r.deep() == name_of(Some(component@)),
{
    if !text::is(component, ".") && !text::is(component, "..") {
        Some(component)
    } else {
        None
    }
}

pub fn file_name(path: &[char]) -> (r: Option<&[char]>)
    ensures
        r.deep() == file_name_spec(path@),
{
    let parts = components(path);
    if parts.len() == 0 {
        None
    } else {
        named(parts[parts.len() - 1])
    }
}

pub fn parent_name(path: &[char]) -> (r: Option<&[char]>)
    ensures
        r.deep() == parent_name_spec(path@),
{
    let parts = components(path);
    if parts.len() < 2 {
        None
    } else {
        named(parts[parts.len() - 2])
    }
}

} // verus!
