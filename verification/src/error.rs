//! The closed error taxonomy of the backend and its mapping to the wire:
//! every failure a handler can report, with the HTTP status and body text
//! it is serialized to.

use vstd::prelude::*;
use vstd::string::StringExecFns;

verus! {

/// Every failure the request pipeline can produce. Validation and
/// authorization failures are detected before any write; storage and
/// upstream failures are wrapped with context by the caller.
#[derive(Debug)]
pub enum AppError {
    /// A failure inside the server itself (an outbound call that could not
    /// be made, a malformed stored record).
    Internal(String),
    /// A storage-layer failure, surfaced with the storage engine's message.
    InternalServerError(String),
    /// The email provider answered with a non-success status.
    Resend(String),
    /// The request body failed input validation; the message names the field.
    ValidationError(String),
    /// The request carried no valid credential.
    Unauthorized(String),
    /// The target of an update does not exist.
    NotFound(String),
    /// The caller exceeded the rate limiter's budget.
    RateLimited(String),
}

impl AppError {
    /// The HTTP status code this error is reported under.
    pub open spec fn spec_status(&self) -> u16 {
        match self {
            AppError::Internal(_) => 500,
            AppError::InternalServerError(_) => 500,
            AppError::Resend(_) => 502,
            AppError::ValidationError(_) => 400,
            AppError::Unauthorized(_) => 401,
            AppError::NotFound(_) => 404,
            AppError::RateLimited(_) => 429,
        }
    }

    /// The body text this error is reported with.
    pub open spec fn spec_message(&self) -> Seq<char> {
        match self {
            AppError::Internal(m) => "Internal server error: "@ + m@,
            AppError::InternalServerError(m) => "Internal server error: "@ + m@,
            AppError::Resend(m) => "Error sending email: "@ + m@,
            AppError::ValidationError(m) => m@,
            AppError::Unauthorized(m) => m@,
            AppError::NotFound(m) => m@,
            AppError::RateLimited(m) => m@,
        }
    }

    pub fn status(&self) -> (s: u16)
        ensures
            s == self.spec_status(),
    {
        match self {
            AppError::Internal(_) => 500,
            AppError::InternalServerError(_) => 500,
            AppError::Resend(_) => 502,
            AppError::ValidationError(_) => 400,
            AppError::Unauthorized(_) => 401,
            AppError::NotFound(_) => 404,
            AppError::RateLimited(_) => 429,
        }
    }

    pub fn wire_message(&self) -> (m: String)
        ensures
            m@ == self.spec_message(),
    {
        match self {
            AppError::Internal(msg) => {
                let mut r = "Internal server error: ".to_owned();
                r.append(msg.as_str());
                r
            },
            AppError::InternalServerError(msg) => {
                let mut r = "Internal server error: ".to_owned();
                r.append(msg.as_str());
                r
            },
            AppError::Resend(msg) => {
                let mut r = "Error sending email: ".to_owned();
                r.append(msg.as_str());
                r
            },
            AppError::ValidationError(msg) => msg.clone(),
            AppError::Unauthorized(msg) => msg.clone(),
            AppError::NotFound(msg) => msg.clone(),
            AppError::RateLimited(msg) => msg.clone(),
        }
    }

    /// Status and body together: the pair a response is built from.
    pub fn to_wire(&self) -> (r: (u16, String))
        ensures
            r.0 == self.spec_status(),
            r.1@ == self.spec_message(),
    {
        (self.status(), self.wire_message())
    }
}

} // verus!
