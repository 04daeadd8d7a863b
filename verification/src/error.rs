//! The error taxonomy of the write layer: per-document write errors,
//! write-concern errors, and the general classification everything else
//! falls under. Every failure is a value; nothing here panics.

use vstd::prelude::*;

verus! {

/// A failure of one targeted write within a command.
#[derive(Debug, PartialEq)]
pub struct WriteError {
    pub code: i64,
    pub code_name: Option<String>,
    pub message: String,
}

/// A failure to satisfy the requested write concern even though the write
/// itself was applied.
#[derive(Debug, PartialEq)]
pub struct WriteConcernError {
    pub code: i64,
    pub code_name: String,
    pub message: String,
}

/// The one kind of write failure a response carries in this layer.
#[derive(Debug, PartialEq)]
pub enum WriteFailure {
    WriteError(WriteError),
    WriteConcernError(WriteConcernError),
}

/// The general error classification of the driver core.
#[derive(Debug, PartialEq)]
pub enum ErrorKind {
    /// The caller's configuration cannot be sent to the target server.
    ArgumentError { message: String },
    /// The server's reply does not match any recognized shape.
    ResponseError { message: String },
    /// The server reported a write failure.
    WriteError(WriteFailure),
}

/// An error of the write layer, carrying its classification.
#[derive(Debug, PartialEq)]
pub struct Error {
    pub kind: ErrorKind,
}

impl Error {
    /// Wrap a classification as an error value.
    pub fn new(kind: ErrorKind) -> (e: Error)
        ensures
            e.kind == kind,
    {
        Error { kind }
    }
}

} // verus!
