//! The two path queries the pipeline makes on its file names.

use vstd::prelude::*;

verus! {

/// The final component of a path, as `Path::file_name` computes it.
pub uninterp spec fn path_file_name(path: Seq<char>) -> Option<Seq<char>>;

/// The path without its final component, as `Path::parent` computes it.
pub uninterp spec fn path_parent(path: Seq<char>) -> Option<Seq<char>>;

/// The texts of an optional string.
pub open spec fn opt_text(s: Option<String>) -> Option<Seq<char>> {
    match s {
        Some(t) => Some(t@),
        None => None,
    }
}

/// The file name of `path`.
///
/// Trusted: calls `std::path::Path::file_name` on `path`; the name comes from a
/// `&str`, so the lossy conversion back to text keeps it. The result is
/// named by `path_file_name`.
#[verifier::external_body]
pub fn file_name(path: &str) -> (r: Option<String>)
    ensures
        opt_text(r) == path_file_name(path@),
{
    match std::path::Path::new(path).file_name() {
        Some(n) => Some(n.to_string_lossy().into_owned()),
        None => None,
    }
}

/// The parent directory of `path`.
///
/// Trusted: calls `std::path::Path::parent` on `path`; the parent of a path
/// made from a `&str` is valid text. The result is named by `path_parent`.
#[verifier::external_body]
pub fn parent(path: &str) -> (r: Option<String>)
    ensures
        opt_text(r) == path_parent(path@),
{
    match std::path::Path::new(path).parent() {
        Some(p) => Some(p.to_string_lossy().into_owned()),
        None => None,
    }
}

} // verus!
