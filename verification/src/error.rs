//! Error types with canonical error codes.
use serde_json::Error as JsonError;
use std::io::Error as IoError;
use vstd::prelude::*;

verus! {

/// Declares `serde_json::Error` so that it can be carried in [`Error::Json`].
#[verifier::external_type_specification]
#[verifier::external_body]
pub struct ExJsonError(JsonError);

/// Declares `std::io::Error` so that it can be carried in [`Error::Io`].
#[verifier::external_type_specification]
#[verifier::external_body]
pub struct ExIoError(IoError);

/// Canonical error codes for stdio_bus operations.
#[derive(Debug, Clone, Copy, PartialEq, Eq, Structural, Hash)]
pub enum ErrorCode {
    /// Invalid argument provided
    InvalidArgument,
    /// Operation not valid in current state
    InvalidState,
    /// Request timed out
    Timeout,
    /// Request was cancelled
    Cancelled,
    /// Transport-level failure
    TransportError,
    /// Protocol negotiation failed
    NegotiationFailed,
    /// Required extension not available
    ExtensionUnavailable,
    /// Operation denied by policy
    PolicyDenied,
    /// Internal error
    InternalError,
    /// Resource exhausted
    ResourceExhausted,
}

impl ErrorCode {
    /// The canonical numeric value of a code (`-1` down to `-10`).
    pub open spec fn value(self) -> int {
        match self {
            ErrorCode::InvalidArgument => -1,
            ErrorCode::InvalidState => -2,
            ErrorCode::Timeout => -3,
            ErrorCode::Cancelled => -4,
            ErrorCode::TransportError => -5,
            ErrorCode::NegotiationFailed => -6,
            ErrorCode::ExtensionUnavailable => -7,
            ErrorCode::PolicyDenied => -8,
            ErrorCode::InternalError => -9,
            ErrorCode::ResourceExhausted => -10,
        }
    }

    /// The upper-case name a code is displayed with.
    pub open spec fn name(self) -> Seq<char> {
        match self {
            ErrorCode::InvalidArgument => "INVALID_ARGUMENT"@,
            ErrorCode::InvalidState => "INVALID_STATE"@,
            ErrorCode::Timeout => "TIMEOUT"@,
            ErrorCode::Cancelled => "CANCELLED"@,
            ErrorCode::TransportError => "TRANSPORT_ERROR"@,
            ErrorCode::NegotiationFailed => "NEGOTIATION_FAILED"@,
            ErrorCode::ExtensionUnavailable => "EXTENSION_UNAVAILABLE"@,
            ErrorCode::PolicyDenied => "POLICY_DENIED"@,
            ErrorCode::InternalError => "INTERNAL_ERROR"@,
            ErrorCode::ResourceExhausted => "RESOURCE_EXHAUSTED"@,
        }
    }

    /// The canonical numeric value of this code.
    pub fn as_i32(&self) -> (r: i32)
        ensures
            r == self.value(),
    {
        match self {
            ErrorCode::InvalidArgument => -1,
            ErrorCode::InvalidState => -2,
            ErrorCode::Timeout => -3,
            ErrorCode::Cancelled => -4,
            ErrorCode::TransportError => -5,
            ErrorCode::NegotiationFailed => -6,
            ErrorCode::ExtensionUnavailable => -7,
            ErrorCode::PolicyDenied => -8,
            ErrorCode::InternalError => -9,
            ErrorCode::ResourceExhausted => -10,
        }
    }

    /// The display form of this code (`INVALID_ARGUMENT`, ...).
    pub fn to_string(&self) -> (r: String)
        ensures
            r@ == self.name(),
    {
        match self {
            ErrorCode::InvalidArgument => "INVALID_ARGUMENT".to_string(),
            ErrorCode::InvalidState => "INVALID_STATE".to_string(),
            ErrorCode::Timeout => "TIMEOUT".to_string(),
            ErrorCode::Cancelled => "CANCELLED".to_string(),
            ErrorCode::TransportError => "TRANSPORT_ERROR".to_string(),
            ErrorCode::NegotiationFailed => "NEGOTIATION_FAILED".to_string(),
            ErrorCode::ExtensionUnavailable => "EXTENSION_UNAVAILABLE".to_string(),
            ErrorCode::PolicyDenied => "POLICY_DENIED".to_string(),
            ErrorCode::InternalError => "INTERNAL_ERROR".to_string(),
            ErrorCode::ResourceExhausted => "RESOURCE_EXHAUSTED".to_string(),
        }
    }

    /// Whether an operation that failed with this code may succeed if retried.
    pub open spec fn retryable(self) -> bool {
        self == ErrorCode::Timeout || self == ErrorCode::TransportError || self
            == ErrorCode::ResourceExhausted
    }
}

/// Every code has its own value, between -10 and -1.
pub proof fn lemma_error_code_values(a: ErrorCode, b: ErrorCode)
    ensures
        -10 <= a.value() <= -1,
        a.value() == b.value() ==> a == b,
{
}

/// Main error type for stdio_bus operations.
#[derive(Debug)]
pub enum Error {
    InvalidArgument { message: String },
    InvalidState { expected: String, actual: String },
    Timeout { timeout_ms: u64 },
    Cancelled,
    TransportError { message: String },
    NegotiationFailed { message: String },
    ExtensionUnavailable { extension: String },
    PolicyDenied { message: String },
    InternalError { message: String },
    ResourceExhausted { resource: String },
    Json(JsonError),
    Io(IoError),
}

/// The canonical code of an error: each variant has its own code, a JSON
/// error counts as an invalid argument and an I/O error as a transport error.
pub open spec fn code_of(e: Error) -> ErrorCode {
    match e {
        Error::InvalidArgument { .. } => ErrorCode::InvalidArgument,
        Error::InvalidState { .. } => ErrorCode::InvalidState,
        Error::Timeout { .. } => ErrorCode::Timeout,
        Error::Cancelled => ErrorCode::Cancelled,
        Error::TransportError { .. } => ErrorCode::TransportError,
        Error::NegotiationFailed { .. } => ErrorCode::NegotiationFailed,
        Error::ExtensionUnavailable { .. } => ErrorCode::ExtensionUnavailable,
        Error::PolicyDenied { .. } => ErrorCode::PolicyDenied,
        Error::InternalError { .. } => ErrorCode::InternalError,
        Error::ResourceExhausted { .. } => ErrorCode::ResourceExhausted,
        Error::Json(_) => ErrorCode::InvalidArgument,
        Error::Io(_) => ErrorCode::TransportError,
    }
}

/// Renders a `serde_json::Error` through its `Display` impl. What the text
/// holds is serde_json's own wording; no clause states it.
#[verifier::external_body]
fn json_error_text(e: &JsonError) -> String {
    e.to_string()
}

/// Renders a `std::io::Error` through its `Display` impl. What the text holds
/// comes from the operating system and std; no clause states it.
#[verifier::external_body]
fn io_error_text(e: &IoError) -> String {
    e.to_string()
}

fn prefixed(prefix: &str, body: &String) -> (r: String)
    ensures
        r@ == prefix@ + body@,
{
    let mut r = prefix.to_string();
    r.append(body.as_str());
    r
}

impl Error {
    /// Get the canonical error code.
    pub fn code(&self) -> (r: ErrorCode)
        ensures
            r == code_of(*self),
    {
        match self {
            Error::InvalidArgument { .. } => ErrorCode::InvalidArgument,
            Error::InvalidState { .. } => ErrorCode::InvalidState,
            Error::Timeout { .. } => ErrorCode::Timeout,
            Error::Cancelled => ErrorCode::Cancelled,
            Error::TransportError { .. } => ErrorCode::TransportError,
            Error::NegotiationFailed { .. } => ErrorCode::NegotiationFailed,
            Error::ExtensionUnavailable { .. } => ErrorCode::ExtensionUnavailable,
            Error::PolicyDenied { .. } => ErrorCode::PolicyDenied,
            Error::InternalError { .. } => ErrorCode::InternalError,
            Error::ResourceExhausted { .. } => ErrorCode::ResourceExhausted,
            Error::Json(_) => ErrorCode::InvalidArgument,
            Error::Io(_) => ErrorCode::TransportError,
        }
    }

    /// Check if error is retryable: its code is `Timeout`, `TransportError`
    /// or `ResourceExhausted`.
    pub fn is_retryable(&self) -> (r: bool)
        ensures
            r == code_of(*self).retryable(),
    {
        let c = self.code();
        matches!(c, ErrorCode::Timeout | ErrorCode::TransportError | ErrorCode::ResourceExhausted)
    }

    /// The human-readable message of this error.
    pub fn to_string(&self) -> (r: String)
        ensures
            match *self {
                Error::InvalidArgument { message } => r@ == "Invalid argument: "@ + message@,
                Error::InvalidState { expected, actual } => r@ == "Invalid state: expected "@
                    + expected@ + ", got "@ + actual@,
                Error::Timeout { timeout_ms } => r@ == "Request timed out after "@
                    + crate::text::decimal(timeout_ms as nat) + "ms"@,
                Error::Cancelled => r@ == "Request cancelled"@,
                Error::TransportError { message } => r@ == "Transport error: "@ + message@,
                Error::NegotiationFailed { message } => r@ == "Negotiation failed: "@ + message@,
                Error::ExtensionUnavailable { extension } => r@ == "Extension unavailable: "@
                    + extension@,
                Error::PolicyDenied { message } => r@ == "Policy denied: "@ + message@,
                Error::InternalError { message } => r@ == "Internal error: "@ + message@,
                Error::ResourceExhausted { resource } => r@ == "Resource exhausted: "@
                    + resource@,
                Error::Json(_) => exists|t: Seq<char>| r@ == "JSON error: "@ + t,
                Error::Io(_) => exists|t: Seq<char>| r@ == "IO error: "@ + t,
            },
    {
        match self {
            Error::InvalidArgument { message } => prefixed("Invalid argument: ", message),
            Error::InvalidState { expected, actual } => {
                let mut r = prefixed("Invalid state: expected ", expected);
                r.append(", got ");
                r.append(actual.as_str());
                r
            },
            Error::Timeout { timeout_ms } => {
                let digits = crate::text::decimal_string(*timeout_ms as u128);
                let mut r = prefixed("Request timed out after ", &digits);
                r.append("ms");
                r
            },
            Error::Cancelled => "Request cancelled".to_string(),
            Error::TransportError { message } => prefixed("Transport error: ", message),
            Error::NegotiationFailed { message } => prefixed("Negotiation failed: ", message),
            Error::ExtensionUnavailable { extension } => prefixed(
                "Extension unavailable: ",
                extension,
            ),
            Error::PolicyDenied { message } => prefixed("Policy denied: ", message),
            Error::InternalError { message } => prefixed("Internal error: ", message),
            Error::ResourceExhausted { resource } => prefixed("Resource exhausted: ", resource),
            Error::Json(e) => {
                let t = json_error_text(e);
                prefixed("JSON error: ", &t)
            },
            Error::Io(e) => {
                let t = io_error_text(e);
                prefixed("IO error: ", &t)
            },
        }
    }
}

impl From<JsonError> for Error {
    fn from(e: JsonError) -> (r: Error) {
        Error::Json(e)
    }
}

impl vstd::std_specs::convert::FromSpecImpl<JsonError> for Error {
    open spec fn obeys_from_spec() -> bool {
        true
    }

    open spec fn from_spec(v: JsonError) -> Error {
        Error::Json(v)
    }
}

impl From<IoError> for Error {
    fn from(e: IoError) -> (r: Error) {
        Error::Io(e)
    }
}

impl vstd::std_specs::convert::FromSpecImpl<IoError> for Error {
    open spec fn obeys_from_spec() -> bool {
        true
    }

    open spec fn from_spec(v: IoError) -> Error {
        Error::Io(v)
    }
}

/// Which errors are worth retrying: a timeout, a transport failure (an I/O
/// error among them) and an exhausted resource may succeed on a second try;
/// every other error, an internal error or an invalid argument among them,
/// is final.
pub proof fn lemma_retryable_errors(e: Error)
    ensures
        code_of(e).retryable() <==> (e is Timeout || e is TransportError || e is ResourceExhausted
            || e is Io),
        e is InternalError ==> !code_of(e).retryable(),
        e is InvalidArgument ==> !code_of(e).retryable(),
        e is InvalidState ==> !code_of(e).retryable(),
        e is Json ==> !code_of(e).retryable(),
{
}

/// The three retryable codes, and no other.
pub proof fn lemma_retryable_codes(c: ErrorCode)
    ensures
        c.retryable() <==> (c == ErrorCode::Timeout || c == ErrorCode::TransportError || c
            == ErrorCode::ResourceExhausted),
        c.retryable() ==> c.value() == -3 || c.value() == -5 || c.value() == -10,
{
}

} // verus!
