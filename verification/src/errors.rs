//! Errors reported while building a tree: a coarse classification of what
//! went wrong plus a human-readable message.

use vstd::prelude::*;

verus! {

/// The classification of an error encountered during traversal.  Only
/// `PermissionDenied` is treated as ignorable by the default policy; every
/// other kind, including `NotFound`, is fatal by default.
#[derive(Clone, Copy, PartialEq, Eq, Debug)]
pub enum ErrorKind {
    PermissionDenied,
    NotFound,
    Other,
}

/// An error routed through the traversal policy: its classification and a
/// message describing the underlying failure.
#[derive(Clone, PartialEq, Eq, Debug)]
pub struct TreeError {
    pub kind: ErrorKind,
    pub message: String,
}

impl TreeError {
    /// Build an error of the given classification carrying `message`.
    pub fn new(kind: ErrorKind, message: String) -> (e: TreeError)
        ensures
            e.kind == kind,
            e.message@ == message@,
    {
        TreeError { kind, message }
    }
}

} // verus!
