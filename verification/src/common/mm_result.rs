//! Error model shared by the data-access and controller layers.
//!
//! Every operational failure is classified by an [`MMErrorKind`]; the kinds
//! are caught at the controller boundary and turned into a caller-safe
//! `Failure` outcome, never forwarded verbatim.

use vstd::prelude::*;

verus! {

/// Where in the stack an error originated.
#[derive(Clone, Copy, PartialEq, Eq, Structural, Debug)]
pub enum MMErrorKind {
    /// No store connection was established, or the connection itself failed.
    Database,
    /// A query or write failed after a connection was obtained.
    DAO,
    /// An orchestration-level failure, such as a cross-entity lookup
    /// performed during validation.
    Controller,
    /// Session resolution failed.
    Auth,
    /// Structured, non-fatal validation trouble.
    Validation,
}

/// An internal error: a message for the log and a kind for classification.
#[derive(Debug)]
pub struct MMError {
    msg: String,
    kind: MMErrorKind,
}

impl MMError {
    pub closed spec fn message(&self) -> Seq<char> {
        self.msg@
    }

    pub closed spec fn kind_of(&self) -> MMErrorKind {
        self.kind
    }

    pub fn new(msg: &str, kind: MMErrorKind) -> (e: MMError)
        ensures
            e.message() == msg@,
            e.kind_of() == kind,
    {
        MMError { msg: msg.to_owned(), kind }
    }

    pub fn get_message(&self) -> (m: &str)
        ensures
            m@ == self.message(),
    {
        self.msg.as_str()
    }

    pub fn get_kind(&self) -> (k: MMErrorKind)
        ensures
            k == self.kind_of(),
    {
        self.kind
    }
}

/// The result type every fallible internal operation returns.
pub type MMResult<T> = Result<T, MMError>;

} // verus!
