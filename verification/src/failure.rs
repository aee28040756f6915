//! What can go wrong, and how each failure is reported to the client.

use vstd::prelude::*;

verus! {

/// The ways a request can fail.
#[derive(Clone, Copy, Debug, PartialEq, Eq, Structural)]
pub enum ErrorKind {
    /// The multipart framing of the request could not be read.
    MalformedRequest,
    /// The request ended without a field named `file`.
    NoFileProvided,
    /// A download named something other than a single plain path segment.
    InvalidArtifactName,
    /// A download named an artifact that does not exist.
    NotFound,
    /// Writing, compressing or finalizing failed on the server's side.
    StorageFailure,
}

/// Status of a response that reports a malformed or incomplete request.
pub const BAD_REQUEST: u16 = 400;

/// Status of a response that reports a missing artifact.
pub const NOT_FOUND: u16 = 404;

/// Status of a response that reports a failure of the server's own.
pub const INTERNAL_ERROR: u16 = 500;

impl ErrorKind {
    /// Whether the client, rather than the server, is at fault.
    pub open spec fn is_client_error(self) -> bool {
        !(self is StorageFailure)
    }

    /// The HTTP status that reports the failure.
    pub open spec fn status(self) -> u16 {
        match self {
            ErrorKind::MalformedRequest => BAD_REQUEST,
            ErrorKind::NoFileProvided => BAD_REQUEST,
            ErrorKind::InvalidArtifactName => BAD_REQUEST,
            ErrorKind::NotFound => NOT_FOUND,
            ErrorKind::StorageFailure => INTERNAL_ERROR,
        }
    }

    /// The plain-text body that explains the failure.
    pub open spec fn explanation(self) -> Seq<char> {
        match self {
            ErrorKind::MalformedRequest => "Malformed multipart request"@,
            ErrorKind::NoFileProvided => "No file uploaded"@,
            ErrorKind::InvalidArtifactName => "Invalid artifact name"@,
            ErrorKind::NotFound => "Artifact not found"@,
            ErrorKind::StorageFailure => "Storage failure"@,
        }
    }

    /// The HTTP status to answer with: 4xx for the client's faults, 500 for
    /// the server's.
    pub fn status_code(&self) -> (code: u16)
        ensures
            code == self.status(),
            self.is_client_error() <==> 400 <= code < 500,
            !self.is_client_error() <==> code == INTERNAL_ERROR,
    {
        match self {
            ErrorKind::MalformedRequest => BAD_REQUEST,
            ErrorKind::NoFileProvided => BAD_REQUEST,
            ErrorKind::InvalidArtifactName => BAD_REQUEST,
            ErrorKind::NotFound => NOT_FOUND,
            ErrorKind::StorageFailure => INTERNAL_ERROR,
        }
    }

    /// Whether the client, rather than the server, is at fault.
    pub fn is_client_fault(&self) -> (b: bool)
        ensures
            b == self.is_client_error(),
    {
        match self {
            ErrorKind::StorageFailure => false,
            _ => true,
        }
    }

    /// The plain-text body that explains the failure.
    pub fn message(&self) -> (text: &'static str)
        ensures
            text@ == self.explanation(),
    {
        match self {
            ErrorKind::MalformedRequest => "Malformed multipart request",
            ErrorKind::NoFileProvided => "No file uploaded",
            ErrorKind::InvalidArtifactName => "Invalid artifact name",
            ErrorKind::NotFound => "Artifact not found",
            ErrorKind::StorageFailure => "Storage failure",
        }
    }
}

} // verus!
