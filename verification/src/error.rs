//! The error type of the library: an HTTP-like status code and a message.
use vstd::prelude::*;

verus! {

pub const STATUS_BAD_REQUEST: u16 = 400;

pub const STATUS_NOT_FOUND: u16 = 404;

pub const STATUS_CONFLICT: u16 = 409;

pub const STATUS_UPSTREAM: u16 = 502;

#[derive(Debug)]
pub struct CoreError {
    pub status: u16,
    pub message: String,
}

pub type CoreResult<T> = Result<T, CoreError>;

/// The message of a "not found" error about `entity`.
pub open spec fn not_found_message(entity: Seq<char>) -> Seq<char> {
    entity + " not found"@
}

impl CoreError {
    pub fn new(status: u16, message: String) -> (e: CoreError)
        ensures
            e.status == status,
            e.message@ == message@,
    {
        CoreError { status, message }
    }

    /// A 404 error naming the missing entity.
    pub fn not_found(entity: &str) -> (e: CoreError)
        ensures
            e.status == STATUS_NOT_FOUND,
            e.message@ == not_found_message(entity@),
    {
        let mut message = String::from_str(entity);
        message.append(" not found");
        CoreError { status: STATUS_NOT_FOUND, message }
    }

    /// A 400 error with the given message.
    pub fn bad_request(message: &str) -> (e: CoreError)
        ensures
            e.status == STATUS_BAD_REQUEST,
            e.message@ == message@,
    {
        CoreError { status: STATUS_BAD_REQUEST, message: String::from_str(message) }
    }

    /// A 409 error with the given message.
    pub fn conflict(message: &str) -> (e: CoreError)
        ensures
            e.status == STATUS_CONFLICT,
            e.message@ == message@,
    {
        CoreError { status: STATUS_CONFLICT, message: String::from_str(message) }
    }

    /// A 502 error: an upstream service failed.
    pub fn upstream(message: String) -> (e: CoreError)
        ensures
            e.status == STATUS_UPSTREAM,
            e.message@ == message@,
    {
        CoreError { status: STATUS_UPSTREAM, message }
    }
}

} // verus!
