//! The errors that encoding, decoding and construction report.

use vstd::prelude::*;

verus! {

/// Why an operation of this library failed.
#[derive(Debug, Clone, Copy, PartialEq, Eq, Structural)]
pub enum ErrorKind {
    /// The byte source ran short, or the byte sink has no room left.
    Io,
    /// A connection identifier was asked for with a length outside its range.
    InvalidLength,
    /// The value is larger than the largest size class can carry.
    Overflow,
}

/// An error of this library: a kind, and nothing else.
#[derive(Debug, Clone, Copy, PartialEq, Eq, Structural)]
pub struct Error {
    kind: ErrorKind,
}

impl Error {
    /// The kind of this error, for contracts.
    pub closed spec fn kind_of(self) -> ErrorKind {
        self.kind
    }

    /// An error of the given kind.
    pub fn new(kind: ErrorKind) -> (e: Error)
        ensures
            e.kind_of() == kind,
    {
        Error { kind }
    }

    /// The kind of this error.
    pub fn kind(&self) -> (k: ErrorKind)
        ensures
            k == self.kind_of(),
    {
        self.kind
    }
}

/// Two errors of one kind are the same error.
pub proof fn error_is_its_kind(a: Error, b: Error)
    requires
        a.kind_of() == b.kind_of(),
    ensures
        a == b,
{
}

} // verus!
