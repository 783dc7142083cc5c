//! The one error type that every fallible operation returns: what kind it is,
//! the HTTP status it maps to, and the message a caller may see.

use vstd::prelude::*;

verus! {

/// Who is at fault.
#[derive(Debug, Clone, Copy, PartialEq, Eq, Structural)]
pub enum ErrorKind {
    Client,
    Server,
}

/// A machine-readable mark on an error that callers act on without reading
/// its message.
#[derive(Debug, Clone, Copy, PartialEq, Eq, Structural)]
pub enum ErrorTag {
    /// The actor has a recorded vote in the poll already.
    DuplicateVote,
}

/// An error of the statuses core.
#[derive(Debug, PartialEq, Eq)]
pub struct AppError {
    pub kind: ErrorKind,
    /// The HTTP status code that the error maps to.
    pub status: u16,
    /// The message that the caller of the API sees.
    pub public_message: String,
    pub tag: Option<ErrorTag>,
}

impl Clone for AppError {
    fn clone(&self) -> (r: AppError)
        ensures
            r == *self,
    {
        AppError {
            kind: self.kind,
            status: self.status,
            public_message: self.public_message.clone(),
            tag: self.tag,
        }
    }
}

pub const FORBIDDEN: u16 = 403;

pub const NOT_FOUND: u16 = 404;

pub const UNPROCESSABLE_ENTITY: u16 = 422;

impl AppError {
    /// Whether the error is a client error with the given status, message
    /// and tag.
    pub open spec fn shows(self, status: u16, message: Seq<char>, tag: Option<ErrorTag>) -> bool {
        &&& self.kind == ErrorKind::Client
        &&& self.status == status
        &&& self.public_message@ == message
        &&& self.tag == tag
    }

    /// Whether the error is an untagged client error with the given status
    /// and message.
    pub open spec fn is_client(self, status: u16, message: Seq<char>) -> bool {
        self.shows(status, message, None)
    }

    /// A client error.
    pub fn client(status: u16, message: String) -> (r: AppError)
        ensures
            r.is_client(status, message@),
    {
        AppError { kind: ErrorKind::Client, status, public_message: message, tag: None }
    }
}

/// The `422` that a malformed or unacceptable request gets.
pub fn rejected(message: &str) -> (r: AppError)
    ensures
        r.is_client(UNPROCESSABLE_ENTITY, message@),
{
    AppError::client(UNPROCESSABLE_ENTITY, message.to_owned())
}

/// The `422` that a malformed document gets.
pub fn malformed(message: &str) -> (r: AppError)
    ensures
        r.is_client(UNPROCESSABLE_ENTITY, message@),
{
    AppError::client(UNPROCESSABLE_ENTITY, message.to_owned())
}

/// The `403` that an actor gets who does not own what they act on.
pub fn forbidden(message: &str) -> (r: AppError)
    ensures
        r.is_client(FORBIDDEN, message@),
{
    AppError::client(FORBIDDEN, message.to_owned())
}

/// The `404` for a status that does not exist or may not be seen.
pub fn not_found() -> (r: AppError)
    ensures
        r.is_client(NOT_FOUND, "status not found"@),
{
    AppError::client(NOT_FOUND, "status not found".to_owned())
}

} // verus!
