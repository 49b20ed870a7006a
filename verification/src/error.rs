//! The library's error type and the envelope shown to users.
use vstd::prelude::*;
use vstd::string::StringExecFns;

use crate::text::concat2;

verus! {

/// Everything that can go wrong in the library, each with its message text.
#[derive(Debug)]
pub enum AppError {
    InvalidInput(String),
    Cancelled,
    Network(String),
    Fs(String),
    Db(String),
    Inference(String),
    Internal(String),
}

/// Results of the library's fallible operations.
pub type AppResult<T> = Result<T, AppError>;

impl AppError {
    /// The text a user sees for this error.
    pub open spec fn message_view(&self) -> Seq<char> {
        match self {
            AppError::InvalidInput(s) => "Invalid input: "@ + s@,
            AppError::Cancelled => "Cancelled"@,
            AppError::Network(s) => "Network error: "@ + s@,
            AppError::Fs(s) => "Filesystem error: "@ + s@,
            AppError::Db(s) => "Database error: "@ + s@,
            AppError::Inference(s) => "Inference error: "@ + s@,
            AppError::Internal(s) => "Internal error: "@ + s@,
        }
    }

    /// The text a user sees for this error (what `to_string` gives).
    pub fn message(&self) -> (r: String)
        ensures
            r@ == self.message_view(),
    {
        match self {
            AppError::InvalidInput(s) => concat2("Invalid input: ", s.as_str()),
            AppError::Cancelled => String::from_str("Cancelled"),
            AppError::Network(s) => concat2("Network error: ", s.as_str()),
            AppError::Fs(s) => concat2("Filesystem error: ", s.as_str()),
            AppError::Db(s) => concat2("Database error: ", s.as_str()),
            AppError::Inference(s) => concat2("Inference error: ", s.as_str()),
            AppError::Internal(s) => concat2("Internal error: ", s.as_str()),
        }
    }
}

/// The message of an error, as handed to the user interface.
pub fn to_err(e: &AppError) -> (r: String)
    ensures
        r@ == e.message_view(),
{
    e.message()
}

/// A user-facing error: what happened, some detail and what to do about it.
#[derive(Debug)]
pub struct ErrorEnvelope {
    pub message: String,
    pub detail: Option<String>,
    pub remediation: Option<String>,
}

impl ErrorEnvelope {
    /// An envelope with only a message.
    pub fn simple(message: String) -> (r: ErrorEnvelope)
        ensures
            r.message == message,
            r.detail is None,
            r.remediation is None,
    {
        ErrorEnvelope { message, detail: None, remediation: None }
    }

    /// An envelope with a message, a detail and an optional remediation.
    pub fn with_detail(message: String, detail: String, remediation: Option<String>) -> (r:
        ErrorEnvelope)
        ensures
            r.message == message,
            r.detail == Some(detail),
            r.remediation == remediation,
    {
        ErrorEnvelope { message, detail: Some(detail), remediation }
    }
}

} // verus!
