//! The error type shared by every fallible operation of the crate.

use vstd::prelude::*;

verus! {

/// What went wrong, at the granularity callers dispatch on: setting up the
/// node (home directory, configuration, ports, endpoint) failed, launching
/// the node process failed, or a lock-file operation failed.
#[derive(Clone, Copy, Debug, PartialEq, Eq, Structural)]
pub enum ErrorKind {
    /// Home-directory or configuration setup failed, the endpoint was
    /// malformed, the port pool was exhausted, or a required credential was
    /// not configured.
    InitFailure,
    /// The node child process could not be launched.
    RunFailure,
    /// A lock file could not be created, locked, or unlocked.
    Io,
}

/// An error kind together with a human-readable message and, where one
/// exists, the text of the underlying cause.
#[derive(Debug)]
pub struct Error {
    kind: ErrorKind,
    message: String,
    cause: Option<String>,
}

impl Error {
    pub closed spec fn spec_kind(&self) -> ErrorKind {
        self.kind
    }

    pub closed spec fn spec_message(&self) -> Seq<char> {
        self.message@
    }

    pub closed spec fn spec_cause(&self) -> Option<Seq<char>> {
        match self.cause {
            Some(c) => Some(c@),
            None => None,
        }
    }

    /// An error with no recorded underlying cause.
    pub fn new(kind: ErrorKind, message: String) -> (r: Error)
        ensures
            r.spec_kind() == kind,
            r.spec_message() == message@,
            r.spec_cause() is None,
    {
        Error { kind, message, cause: None }
    }

    /// An error wrapping the text of an underlying cause.
    pub fn full(kind: ErrorKind, message: String, cause: String) -> (r: Error)
        ensures
            r.spec_kind() == kind,
            r.spec_message() == message@,
            r.spec_cause() == Some(cause@),
    {
        Error { kind, message, cause: Some(cause) }
    }

    pub fn kind(&self) -> (r: ErrorKind)
        ensures
            r == self.spec_kind(),
    {
        self.kind
    }

    pub fn message(&self) -> (r: &String)
        ensures
            r@ == self.spec_message(),
    {
        &self.message
    }

    pub fn cause(&self) -> (r: &Option<String>)
        ensures
            r is Some <==> self.spec_cause() is Some,
            r matches Some(c) ==> self.spec_cause() == Some(c@),
    {
        &self.cause
    }
}

} // verus!
