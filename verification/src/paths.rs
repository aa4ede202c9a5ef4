//! What the library takes on trust of `std::path::PathBuf`.

use std::path::PathBuf;
use vstd::prelude::*;

verus! {

/// `std::path::PathBuf`, held and handed on; nothing inside it is read.
#[verifier::external_type_specification]
#[verifier::external_body]
pub struct ExPathBuf(PathBuf);

/// `PathBuf::clone` gives back an equal path.
pub assume_specification[ <PathBuf as Clone>::clone ](path: &PathBuf) -> (r: PathBuf)
    ensures
        r == *path,
;

/// What `Path::parent` gives for `path`: the path without its final component,
/// `None` where there is none to take off (a root, a prefix, the empty path).
pub uninterp spec fn parent_of(path: PathBuf) -> Option<PathBuf>;

/// `Path::parent`, which goes by its argument alone: the result is the parent
/// that contracts call `parent_of`.
#[verifier::external_body]
pub(crate) fn parent_dir(path: &PathBuf) -> (r: Option<PathBuf>)
    ensures
        r == parent_of(*path),
{
    match path.parent() {
        Some(dir) => Some(dir.to_path_buf()),
        None => None,
    }
}

/// `PathBuf::eq`: whether two paths are equal. Equality of paths in contracts
/// is this equality.
#[verifier::external_body]
pub(crate) fn same_path(a: &PathBuf, b: &PathBuf) -> (r: bool)
    ensures
        r == (*a == *b),
{
    a == b
}

} // verus!
