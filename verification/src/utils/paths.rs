//! Path operations of `std::path`, whose results are named rather than
//! restated.

use vstd::prelude::*;

use crate::utils::text::has_suffix;

verus! {

/// What `Path::file_stem` gives for a path: the file name without its
/// extension, or none when the path has no file name.
pub uninterp spec fn path_stem(path: Seq<char>) -> Option<Seq<char>>;

/// What `Path::parent` gives for a path: the path without its final
/// component, or none for a root or an empty path.
pub uninterp spec fn path_parent(path: Seq<char>) -> Option<Seq<char>>;

/// What `Path::extension` gives for a path: the part of the file name
/// after its last `.`, or none when there is no such part.
pub uninterp spec fn path_extension(path: Seq<char>) -> Option<Seq<char>>;

/// What `Path::join` gives: `name` appended to `base` as a new component.
pub uninterp spec fn path_join(base: Seq<char>, name: Seq<char>) -> Seq<char>;

/// The view of an optional owned text.
pub open spec fn opt_text(o: Option<String>) -> Option<Seq<char>> {
    match o {
        Some(s) => Some(s@),
        None => None,
    }
}

/// Calls `Path::file_stem` on `path`. The stem is part of the final
/// component of the path, so it holds no separator.
#[verifier::external_body]
pub(crate) fn file_stem(path: &str) -> (r: Option<String>)
    ensures
        opt_text(r) == path_stem(path@),
        r matches Some(s) ==> forall|i: int| 0 <= i < s@.len() ==> s@[i] != '/',
{
    match std::path::Path::new(path).file_stem() {
        Some(s) => Some(s.to_string_lossy().into_owned()),
        None => None,
    }
}

/// Calls `Path::parent` on `path`.
#[verifier::external_body]
pub(crate) fn parent(path: &str) -> (r: Option<String>)
    ensures
        opt_text(r) == path_parent(path@),
{
    match std::path::Path::new(path).parent() {
        Some(p) => Some(p.to_string_lossy().into_owned()),
        None => None,
    }
}

/// Calls `Path::extension` on `path`.
#[verifier::external_body]
pub(crate) fn extension(path: &str) -> (r: Option<String>)
    ensures
        opt_text(r) == path_extension(path@),
{
    match std::path::Path::new(path).extension() {
        Some(e) => Some(e.to_string_lossy().into_owned()),
        None => None,
    }
}

/// Calls `Path::join` on `base` with `name`. A `name` that does not start
/// with `/` is relative and is adjoined after `base` (with a separator
/// where needed), so the result ends with it.
#[verifier::external_body]
pub(crate) fn join_path(base: &str, name: &str) -> (r: String)
    ensures
        r@ == path_join(base@, name@),
        !(name@.len() > 0 && name@[0] == '/') ==> has_suffix(r@, name@),
{
    std::path::Path::new(base).join(name).to_string_lossy().into_owned()
}

} // verus!
