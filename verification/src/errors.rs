use vstd::prelude::*;
use vstd::string::*;

verus! {

/// The failure kinds a feed request can end in, together with the HTTP
/// status code and user-facing message each one is reported with.
#[derive(Clone, Copy, Debug, PartialEq, Eq, Structural)]
pub enum AppError {
    /// The request's path segment is not valid base64.
    InvalidEncoding,
    /// The decoded bytes do not form a syntactically valid URL.
    InvalidUrl,
    /// The HTTP call to the backend failed at the transport level.
    UpstreamTransportFailure,
    /// The backend's response misses a required field, has a field of the
    /// wrong type, or carries an unparsable timestamp.
    MalformedResponse,
    /// Catch-all for unclassified failures.
    Unknown,
}

/// The HTTP status code each error kind is reported with: client faults
/// get 400, backend faults get 500.
pub open spec fn status_code_spec(e: AppError) -> u16 {
    match e {
        AppError::InvalidEncoding => 400,
        AppError::InvalidUrl => 400,
        AppError::UpstreamTransportFailure => 500,
        AppError::MalformedResponse => 500,
        AppError::Unknown => 400,
    }
}

/// The user-facing message of each error kind.
pub open spec fn message_spec(e: AppError) -> Seq<char> {
    match e {
        AppError::InvalidEncoding => "invalid base64 url"@,
        AppError::InvalidUrl => "failed to parse url"@,
        AppError::UpstreamTransportFailure => "failed to request http"@,
        AppError::MalformedResponse => "malformed response from backend"@,
        AppError::Unknown => "unknown error"@,
    }
}

impl AppError {
    /// The status code this error is surfaced with at the HTTP boundary.
    pub fn status_code(&self) -> (s: u16)
        ensures
            s == status_code_spec(*self),
    {
        match self {
            AppError::InvalidEncoding => 400,
            AppError::InvalidUrl => 400,
            AppError::UpstreamTransportFailure => 500,
            AppError::MalformedResponse => 500,
            AppError::Unknown => 400,
        }
    }

    /// The message this error is surfaced with at the HTTP boundary.
    pub fn message(&self) -> (m: String)
        ensures
            m@ == message_spec(*self),
    {
        match self {
            AppError::InvalidEncoding => String::from_str("invalid base64 url"),
            AppError::InvalidUrl => String::from_str("failed to parse url"),
            AppError::UpstreamTransportFailure => String::from_str("failed to request http"),
            AppError::MalformedResponse => String::from_str("malformed response from backend"),
            AppError::Unknown => String::from_str("unknown error"),
        }
    }
}

} // verus!
