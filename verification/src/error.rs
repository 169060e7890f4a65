//! Closed error taxonomy surfaced by every session backend.

use vstd::prelude::*;

verus! {

/// Machine-readable error kinds. The set is closed: every failure a backend
/// can surface maps onto exactly one of these.
#[derive(Clone, Copy, Debug, PartialEq, Eq, Structural)]
pub enum ErrorCode {
    /// Tenant alignment failure, immutable-context mutation, ambiguous lookup.
    InvalidInput,
    /// Update or remove targeting an absent key.
    NotFound,
    /// Backend connectivity failure.
    Unavailable,
    /// Serialization or deserialization failure.
    Internal,
}

/// Error carrying a machine-readable code and a human-readable message.
#[derive(Debug)]
pub struct GreenticError {
    /// Machine-readable error code.
    pub code: ErrorCode,
    /// Human-readable message naming the mismatched field or missing key.
    pub message: String,
}

impl GreenticError {
    /// Creates a new error with the provided code and message.
    pub fn new(code: ErrorCode, message: String) -> (r: GreenticError)
        ensures
            r.code == code,
            r.message@ == message@,
    {
        GreenticError { code, message }
    }
}

/// Convenient result alias for store operations.
pub type SessionResult<T> = Result<T, GreenticError>;

/// Builds an `InvalidInput` error from a prepared message.
pub(crate) fn invalid_argument(message: String) -> (r: GreenticError)
    ensures
        r.code == ErrorCode::InvalidInput,
        r.message@ == message@,
{
    GreenticError::new(ErrorCode::InvalidInput, message)
}

/// The message reported when a keyed operation targets an absent session.
pub open spec fn not_found_message(key: Seq<char>) -> Seq<char> {
    "session "@ + key + " was not found"@
}

/// Builds the `NotFound` error for an absent session key.
pub(crate) fn not_found_for(key_text: &str) -> (r: GreenticError)
    ensures
        r.code == ErrorCode::NotFound,
        r.message@ == not_found_message(key_text@),
{
    let mut message = String::from_str("session ");
    message.append(key_text);
    message.append(" was not found");
    GreenticError::new(ErrorCode::NotFound, message)
}

} // verus!
