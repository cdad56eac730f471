//! Paths of files and directories, as the platform has them.

use vstd::prelude::*;

verus! {

/// A path. It need not be Unicode, so it is carried through and joined onto,
/// never read as text.
#[verifier::external_type_specification]
#[verifier::external_body]
pub struct ExPathBuf(std::path::PathBuf);

/// The path that `std::path::PathBuf::from` makes of a text.
pub uninterp spec fn path_from(text: Seq<char>) -> std::path::PathBuf;

/// The path that `std::path::Path::join` makes of a base and a part.
pub uninterp spec fn path_joined(base: std::path::PathBuf, part: Seq<char>) -> std::path::PathBuf;

/// Calls `std::path::PathBuf::from`. The path depends on the text alone.
#[verifier::external_body]
pub(crate) fn path_of(text: &str) -> (path: std::path::PathBuf)
    ensures
        path == path_from(text@),
{
    std::path::PathBuf::from(text)
}

/// Calls `std::path::Path::join`. The path depends on the base and the part
/// alone.
#[verifier::external_body]
pub(crate) fn join_path(base: &std::path::PathBuf, part: &str) -> (path: std::path::PathBuf)
    ensures
        path == path_joined(*base, part@),
{
    base.join(part)
}

/// Calls `std::path::PathBuf::clone`, which gives the same path again.
#[verifier::external_body]
pub(crate) fn same_path(path: &std::path::PathBuf) -> (copy: std::path::PathBuf)
    ensures
        copy == *path,
{
    path.clone()
}

} // verus!
