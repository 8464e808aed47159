//! Error types for the crate checker.
//!
//! Failure causes carried by outside layers (HTTP transport, serializers,
//! configuration, I/O) arrive here already rendered to text; the enum keeps
//! the cause classification and the verified message builders.

use vstd::prelude::*;
use vstd::string::*;
use crate::text::{dec_digits, u64_to_dec};

verus! {

/// Main error type for the crate checker.
#[derive(Debug, Clone, PartialEq)]
pub enum CrateCheckerError {
    /// HTTP request failed.
    HttpError(String),
    /// JSON serialization/deserialization failed.
    JsonError(String),
    /// YAML serialization/deserialization failed.
    YamlError(String),
    /// Configuration error.
    ConfigError(String),
    /// IO operation failed.
    IoError(String),
    /// Crate not found.
    CrateNotFound(String),
    /// Version not found.
    VersionNotFound { crate_name: String, version: String },
    /// Invalid crate name, with the pattern or rule it broke.
    InvalidCrateName(String, String),
    /// API rate limit exceeded.
    RateLimitExceeded,
    /// Server error from the registry API.
    ServerError { status: u16, message: String },
    /// Timeout after the given number of seconds.
    Timeout(u64),
    /// Batch processing error.
    BatchError(String),
    /// Invalid batch input.
    InvalidBatchInput(String),
    /// Validation error.
    ValidationError(String),
    /// Generic application error.
    ApplicationError(String),
    /// Network connectivity error.
    NetworkError(String),
    /// Authentication error.
    AuthError(String),
    /// Service unavailable.
    ServiceUnavailable(String),
}

/// The display message of each error, one line per variant.
pub open spec fn spec_error_message(e: CrateCheckerError) -> Seq<char> {
    match e {
        CrateCheckerError::HttpError(m) => "HTTP request failed: "@ + m@,
        CrateCheckerError::JsonError(m) => "JSON parsing failed: "@ + m@,
        CrateCheckerError::YamlError(m) => "YAML parsing failed: "@ + m@,
        CrateCheckerError::ConfigError(m) => "Configuration error: "@ + m@,
        CrateCheckerError::IoError(m) => "IO error: "@ + m@,
        CrateCheckerError::CrateNotFound(n) => "Crate '"@ + n@ + "' not found"@,
        CrateCheckerError::VersionNotFound { crate_name, version } => "Version '"@ + version@
            + "' not found for crate '"@ + crate_name@ + "'"@,
        CrateCheckerError::InvalidCrateName(n, pattern) => "Invalid crate name: '"@ + n@
            + "'. Crate names must match the pattern: "@ + pattern@,
        CrateCheckerError::RateLimitExceeded => "API rate limit exceeded. Please try again later"@,
        CrateCheckerError::ServerError { status, message } => "Server error: "@ + dec_digits(
            status as nat,
        ) + " - "@ + message@,
        CrateCheckerError::Timeout(secs) => "Request timeout after "@ + dec_digits(secs as nat)
            + " seconds"@,
        CrateCheckerError::BatchError(m) => "Batch processing failed: "@ + m@,
        CrateCheckerError::InvalidBatchInput(m) => "Invalid batch input: "@ + m@,
        CrateCheckerError::ValidationError(m) => "Validation error: "@ + m@,
        CrateCheckerError::ApplicationError(m) => "Application error: "@ + m@,
        CrateCheckerError::NetworkError(m) => "Network error: "@ + m@,
        CrateCheckerError::AuthError(m) => "Authentication failed: "@ + m@,
        CrateCheckerError::ServiceUnavailable(m) => "Service temporarily unavailable: "@ + m@,
    }
}

/// The user-facing message of each error: a friendlier sentence for the
/// common cases, the display message otherwise.
pub open spec fn spec_user_message(e: CrateCheckerError) -> Seq<char> {
    match e {
        CrateCheckerError::CrateNotFound(n) => "The crate '"@ + n@
            + "' does not exist on crates.io"@,
        CrateCheckerError::VersionNotFound { crate_name, version } => "Version '"@ + version@
            + "' of crate '"@ + crate_name@ + "' was not found"@,
        CrateCheckerError::InvalidCrateName(n, pattern) => "'"@ + n@
            + "' is not a valid crate name. Names must match: "@ + pattern@,
        CrateCheckerError::RateLimitExceeded =>
            "You've exceeded the API rate limit. Please wait a moment before trying again."@,
        CrateCheckerError::NetworkError(_) =>
            "Network connection failed. Please check your internet connection."@,
        CrateCheckerError::ServiceUnavailable(_) =>
            "The crates.io service is temporarily unavailable. Please try again later."@,
        _ => spec_error_message(e),
    }
}

impl CrateCheckerError {
    /// Create a new application error.
    pub fn application(message: &str) -> (r: Self)
        ensures
            r matches CrateCheckerError::ApplicationError(m) && m@ == message@,
    {
        CrateCheckerError::ApplicationError(message.to_owned())
    }

    /// Create a new validation error.
    pub fn validation(message: &str) -> (r: Self)
        ensures
            r matches CrateCheckerError::ValidationError(m) && m@ == message@,
    {
        CrateCheckerError::ValidationError(message.to_owned())
    }

    /// Create a new batch error.
    pub fn batch(message: &str) -> (r: Self)
        ensures
            r matches CrateCheckerError::BatchError(m) && m@ == message@,
    {
        CrateCheckerError::BatchError(message.to_owned())
    }

    /// Create a new network error.
    pub fn network(message: &str) -> (r: Self)
        ensures
            r matches CrateCheckerError::NetworkError(m) && m@ == message@,
    {
        CrateCheckerError::NetworkError(message.to_owned())
    }

    /// Check if this error is recoverable (i.e., worth retrying).
    pub fn is_recoverable(&self) -> (r: bool)
        ensures
            r == (self is HttpError || self is NetworkError || self is Timeout
                || self is ServiceUnavailable || self is RateLimitExceeded),
    {
        match self {
            CrateCheckerError::HttpError(_) => true,
            CrateCheckerError::NetworkError(_) => true,
            CrateCheckerError::Timeout(_) => true,
            CrateCheckerError::ServiceUnavailable(_) => true,
            CrateCheckerError::RateLimitExceeded => true,
            _ => false,
        }
    }

    /// Get the HTTP status code if this error maps to one.
    pub fn status_code(&self) -> (r: Option<u16>)
        ensures
            r == spec_status_code(*self),
    {
        match self {
            CrateCheckerError::ServerError { status, .. } => Some(*status),
            CrateCheckerError::CrateNotFound(_) => Some(404),
            CrateCheckerError::VersionNotFound { .. } => Some(404),
            CrateCheckerError::RateLimitExceeded => Some(429),
            CrateCheckerError::AuthError(_) => Some(401),
            CrateCheckerError::ValidationError(_) => Some(400),
            CrateCheckerError::InvalidCrateName(_, _) => Some(400),
            CrateCheckerError::ServiceUnavailable(_) => Some(503),
            _ => None,
        }
    }

    /// Render the error as its display message.
    pub fn to_message(&self) -> (r: String)
        ensures
            r@ == spec_error_message(*self),
    {
        match self {
            CrateCheckerError::HttpError(m) => prefixed("HTTP request failed: ", m),
            CrateCheckerError::JsonError(m) => prefixed("JSON parsing failed: ", m),
            CrateCheckerError::YamlError(m) => prefixed("YAML parsing failed: ", m),
            CrateCheckerError::ConfigError(m) => prefixed("Configuration error: ", m),
            CrateCheckerError::IoError(m) => prefixed("IO error: ", m),
            CrateCheckerError::CrateNotFound(n) => {
                let mut s = prefixed("Crate '", n);
                s.append("' not found");
                s
            },
            CrateCheckerError::VersionNotFound { crate_name, version } => {
                let mut s = prefixed("Version '", version);
                s.append("' not found for crate '");
                s.append(crate_name.as_str());
                s.append("'");
                s
            },
            CrateCheckerError::InvalidCrateName(n, pattern) => {
                let mut s = prefixed("Invalid crate name: '", n);
                s.append("'. Crate names must match the pattern: ");
                s.append(pattern.as_str());
                s
            },
            CrateCheckerError::RateLimitExceeded => "API rate limit exceeded. Please try again later".to_owned(),
            CrateCheckerError::ServerError { status, message } => {
                let mut s = "Server error: ".to_owned();
                let n = u64_to_dec(*status as u64);
                s.append(n.as_str());
                s.append(" - ");
                s.append(message.as_str());
                s
            },
            CrateCheckerError::Timeout(secs) => {
                let mut s = "Request timeout after ".to_owned();
                let n = u64_to_dec(*secs);
                s.append(n.as_str());
                s.append(" seconds");
                s
            },
            CrateCheckerError::BatchError(m) => prefixed("Batch processing failed: ", m),
            CrateCheckerError::InvalidBatchInput(m) => prefixed("Invalid batch input: ", m),
            CrateCheckerError::ValidationError(m) => prefixed("Validation error: ", m),
            CrateCheckerError::ApplicationError(m) => prefixed("Application error: ", m),
            CrateCheckerError::NetworkError(m) => prefixed("Network error: ", m),
            CrateCheckerError::AuthError(m) => prefixed("Authentication failed: ", m),
            CrateCheckerError::ServiceUnavailable(m) => prefixed("Service temporarily unavailable: ", m),
        }
    }

    /// Convert to a user-friendly message.
    pub fn user_message(&self) -> (r: String)
        ensures
            r@ == spec_user_message(*self),
    {
        match self {
            CrateCheckerError::CrateNotFound(n) => {
                let mut s = prefixed("The crate '", n);
                s.append("' does not exist on crates.io");
                s
            },
            CrateCheckerError::VersionNotFound { crate_name, version } => {
                let mut s = prefixed("Version '", version);
                s.append("' of crate '");
                s.append(crate_name.as_str());
                s.append("' was not found");
                s
            },
            CrateCheckerError::InvalidCrateName(n, pattern) => {
                let mut s = prefixed("'", n);
                s.append("' is not a valid crate name. Names must match: ");
                s.append(pattern.as_str());
                s
            },
            CrateCheckerError::RateLimitExceeded =>
                "You've exceeded the API rate limit. Please wait a moment before trying again.".to_owned(),
            CrateCheckerError::NetworkError(_) =>
                "Network connection failed. Please check your internet connection.".to_owned(),
            CrateCheckerError::ServiceUnavailable(_) =>
                "The crates.io service is temporarily unavailable. Please try again later.".to_owned(),
            _ => self.to_message(),
        }
    }
}

/// The spec-level counterpart of [`CrateCheckerError::status_code`].
pub open spec fn spec_status_code(e: CrateCheckerError) -> Option<u16> {
    match e {
        CrateCheckerError::ServerError { status, .. } => Some(status),
        CrateCheckerError::CrateNotFound(_) => Some(404u16),
        CrateCheckerError::VersionNotFound { .. } => Some(404u16),
        CrateCheckerError::RateLimitExceeded => Some(429u16),
        CrateCheckerError::AuthError(_) => Some(401u16),
        CrateCheckerError::ValidationError(_) => Some(400u16),
        CrateCheckerError::InvalidCrateName(_, _) => Some(400u16),
        CrateCheckerError::ServiceUnavailable(_) => Some(503u16),
        _ => None,
    }
}

fn prefixed(prefix: &str, rest: &String) -> (r: String)
    ensures
        r@ == prefix@ + rest@,
{
    let mut s = prefix.to_owned();
    s.append(rest.as_str());
    s
}

/// Canonical reason phrase for the statuses the registry is expected to
/// return outside the specially-handled ones; "Unknown error" otherwise.
pub open spec fn spec_reason_phrase(status: u16) -> Seq<char> {
    if status == 100 { "Continue"@ }
    else if status == 101 { "Switching Protocols"@ }
    else if status == 200 { "OK"@ }
    else if status == 201 { "Created"@ }
    else if status == 202 { "Accepted"@ }
    else if status == 204 { "No Content"@ }
    else if status == 301 { "Moved Permanently"@ }
    else if status == 302 { "Found"@ }
    else if status == 303 { "See Other"@ }
    else if status == 304 { "Not Modified"@ }
    else if status == 307 { "Temporary Redirect"@ }
    else if status == 308 { "Permanent Redirect"@ }
    else if status == 400 { "Bad Request"@ }
    else if status == 401 { "Unauthorized"@ }
    else if status == 402 { "Payment Required"@ }
    else if status == 403 { "Forbidden"@ }
    else if status == 404 { "Not Found"@ }
    else if status == 405 { "Method Not Allowed"@ }
    else if status == 406 { "Not Acceptable"@ }
    else if status == 408 { "Request Timeout"@ }
    else if status == 409 { "Conflict"@ }
    else if status == 410 { "Gone"@ }
    else if status == 418 { "I'm a teapot"@ }
    else if status == 422 { "Unprocessable Entity"@ }
    else if status == 429 { "Too Many Requests"@ }
    else { "Unknown error"@ }
}

/// Canonical reason phrase for a status code, as [`spec_reason_phrase`].
pub fn reason_phrase(status: u16) -> (r: &'static str)
    ensures
        r@ == spec_reason_phrase(status),
{
    match status {
        100 => "Continue",
        101 => "Switching Protocols",
        200 => "OK",
        201 => "Created",
        202 => "Accepted",
        204 => "No Content",
        301 => "Moved Permanently",
        302 => "Found",
        303 => "See Other",
        304 => "Not Modified",
        307 => "Temporary Redirect",
        308 => "Permanent Redirect",
        400 => "Bad Request",
        401 => "Unauthorized",
        402 => "Payment Required",
        403 => "Forbidden",
        404 => "Not Found",
        405 => "Method Not Allowed",
        406 => "Not Acceptable",
        408 => "Request Timeout",
        409 => "Conflict",
        410 => "Gone",
        418 => "I'm a teapot",
        422 => "Unprocessable Entity",
        429 => "Too Many Requests",
        _ => "Unknown error",
    }
}

/// Classify an upstream HTTP status into an error.
///
/// A plain 404 on a generic request is treated as a validation problem, 429
/// as rate limiting, any 5xx as temporary unavailability; everything else
/// becomes a server error carrying the status and its reason phrase.
pub fn error_from_status(status: u16) -> (r: CrateCheckerError)
    ensures
        status == 404 ==> (r matches CrateCheckerError::ValidationError(m) && m@
            == "Resource not found"@),
        status == 429 ==> r is RateLimitExceeded,
        500 <= status <= 599 ==> (r matches CrateCheckerError::ServiceUnavailable(m) && m@
            == "Server error: "@ + dec_digits(status as nat)),
        !(status == 404 || status == 429 || 500 <= status <= 599) ==> (r matches
            CrateCheckerError::ServerError { status: s, message } && s == status && message@
            == spec_reason_phrase(status)),
    {
    if status == 404 {
        CrateCheckerError::ValidationError("Resource not found".to_owned())
    } else if status == 429 {
        CrateCheckerError::RateLimitExceeded
    } else if 500 <= status && status <= 599 {
        let mut s = "Server error: ".to_owned();
        let n = u64_to_dec(status as u64);
        s.append(n.as_str());
        CrateCheckerError::ServiceUnavailable(s)
    } else {
        CrateCheckerError::ServerError { status, message: reason_phrase(status).to_owned() }
    }
}

} // verus!
