use std::path::{Component, Path};
use vstd::prelude::*;

verus! {

/// The kind of one component of a path.
#[derive(Debug, Clone, Copy, PartialEq, Eq, Structural)]
pub enum PathPart {
    Prefix,
    RootDir,
    CurDir,
    ParentDir,
    Normal,
}

/// Whether `std::path::Path::is_absolute` holds of the path written `path`.
pub uninterp spec fn is_absolute_path(path: Seq<char>) -> bool;

/// The kinds of the components that `std::path::Path::components` gives for
/// the path written `path`, in order.
pub uninterp spec fn parts_of_path(path: Seq<char>) -> Seq<PathPart>;

/// What `std::path::Path::join` makes of the paths written `base` and `path`.
pub uninterp spec fn joined_path(base: Seq<char>, path: Seq<char>) -> Seq<char>;

/// How `std::path::Path` shows the path written `path` under `{:?}`: in
/// double quotes, with escapes.
pub uninterp spec fn quoted_path(path: Seq<char>) -> Seq<char>;

/// Tells whether a path is absolute.
///
/// Calls `std::path::Path::is_absolute`. Trusted: the answer depends on the
/// path's text alone.
#[verifier::external_body]
pub(crate) fn is_absolute(path: &str) -> (r: bool)
    ensures
        r == is_absolute_path(path@),
{
    Path::new(path).is_absolute()
}

/// Splits a path into the kinds of its components.
///
/// Calls `std::path::Path::components` and keeps the kind of each component.
/// Trusted: the kinds depend on the path's text alone.
#[verifier::external_body]
pub(crate) fn parts(path: &str) -> (r: Vec<PathPart>)
    ensures
        r@ == parts_of_path(path@),
{
    let mut out = Vec::new();
    for component in Path::new(path).components() {
        out.push(
            match component {
                Component::Prefix(_) => PathPart::Prefix,
                Component::RootDir => PathPart::RootDir,
                Component::CurDir => PathPart::CurDir,
                Component::ParentDir => PathPart::ParentDir,
                Component::Normal(_) => PathPart::Normal,
            },
        );
    }
    out
}

/// Joins a path onto a base.
///
/// Calls `std::path::Path::join`. Trusted: the joined path depends on the two
/// texts alone.
#[verifier::external_body]
pub(crate) fn join(base: &str, path: &str) -> (r: String)
    ensures
        r@ == joined_path(base@, path@),
{
    Path::new(base).join(path).to_string_lossy().into_owned()
}

/// Shows a path in quotes.
///
/// Formats `std::path::Path` with `{:?}`. Trusted: the text depends on the
/// path's text alone.
#[verifier::external_body]
pub(crate) fn quoted(path: &str) -> (r: String)
    ensures
        r@ == quoted_path(path@),
{
    format!("{:?}", Path::new(path))
}

} // verus!
