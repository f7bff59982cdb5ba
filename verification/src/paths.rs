//! Paths: the same when they have the same components, whether an
//! operand is owned or borrowed.

use vstd::prelude::*;
use std::path::{Path, PathBuf};
use crate::protocol::IsSame;

verus! {

/// `std::path::Path`, carried through as an opaque value.
#[verifier::external_type_specification]
#[verifier::external_body]
pub struct ExPath(Path);

/// `std::path::PathBuf`, carried through as an opaque value.
#[verifier::external_type_specification]
#[verifier::external_body]
pub struct ExPathBuf(PathBuf);

/// What a borrowed path holds: the components that `Path::components`
/// yields, first to last, after the normalization that std documents
/// there (repeated separators, a trailing separator and inner `.` fall
/// away). Each component stands as a byte string; two components have one
/// byte string exactly when std holds them equal.
pub uninterp spec fn path_components(p: &Path) -> Seq<Seq<u8>>;

/// What an owned path holds: the components of the path that it owns.
pub uninterp spec fn path_buf_components(p: &PathBuf) -> Seq<Seq<u8>>;

impl IsSame for Path {
    open spec fn same(&self, other: &Path) -> bool {
        path_components(self) == path_components(other)
    }

    open spec fn by_content() -> bool {
        true
    }

    fn is_same(&self, other: &Path) -> (r: bool) {
        equal_paths(self, other)
    }
}

impl<'a> IsSame<&'a Path> for Path {
    open spec fn same(&self, other: &&'a Path) -> bool {
        path_components(self) == path_components(*other)
    }

    open spec fn by_content() -> bool {
        true
    }

    fn is_same(&self, other: &&'a Path) -> (r: bool) {
        equal_paths(self, *other)
    }
}

impl IsSame<PathBuf> for Path {
    open spec fn same(&self, other: &PathBuf) -> bool {
        path_components(self) == path_buf_components(other)
    }

    open spec fn by_content() -> bool {
        true
    }

    fn is_same(&self, other: &PathBuf) -> (r: bool) {
        equal_paths(self, borrowed_path(other))
    }
}

impl IsSame for PathBuf {
    open spec fn same(&self, other: &PathBuf) -> bool {
        path_buf_components(self) == path_buf_components(other)
    }

    open spec fn by_content() -> bool {
        true
    }

    fn is_same(&self, other: &PathBuf) -> (r: bool) {
        equal_paths(borrowed_path(self), borrowed_path(other))
    }
}

impl IsSame<Path> for PathBuf {
    open spec fn same(&self, other: &Path) -> bool {
        path_buf_components(self) == path_components(other)
    }

    open spec fn by_content() -> bool {
        true
    }

    fn is_same(&self, other: &Path) -> (r: bool) {
        equal_paths(borrowed_path(self), other)
    }
}

impl<'a> IsSame<&'a Path> for PathBuf {
    open spec fn same(&self, other: &&'a Path) -> bool {
        path_buf_components(self) == path_components(*other)
    }

    open spec fn by_content() -> bool {
        true
    }

    fn is_same(&self, other: &&'a Path) -> (r: bool) {
        equal_paths(borrowed_path(self), *other)
    }
}

/// `Path`'s `==` from std, which compares the two paths' components, one
/// by one and in order: the answer is `true` exactly when the two paths
/// have the same components.
#[verifier::external_body]
fn equal_paths(a: &Path, b: &Path) -> (r: bool)
    ensures
        r == (path_components(a) == path_components(b)),
{
    a == b
}

/// `PathBuf::as_path` from std: the owned path, borrowed. It is the same
/// path, so it has the same components.
#[verifier::external_body]
fn borrowed_path(p: &PathBuf) -> (r: &Path)
    ensures
        path_components(r) == path_buf_components(p),
{
    p.as_path()
}

} // verus!
