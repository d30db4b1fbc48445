//! The error type shared by the server-side crates.

use vstd::prelude::*;
use crate::text::{str_chars, chars_to_string, append_str};

verus! {

/// `std::io::Error`, carried through opaque.
#[verifier::external_type_specification]
#[verifier::external_body]
pub struct ExIoError(std::io::Error);

/// `serde_json::Error`, carried through opaque.
#[verifier::external_type_specification]
#[verifier::external_body]
pub struct ExJsonError(serde_json::Error);

/// Error of a core operation.
#[derive(Debug)]
pub enum CoreError {
    /// The configuration is not acceptable.
    Config { message: String },
    /// An I/O operation failed.
    Io(std::io::Error),
    /// JSON could not be read or written.
    Json(serde_json::Error),
    /// A configuration source could not be parsed; its message.
    ConfigParsing(String),
    /// Data is malformed.
    InvalidData { message: String },
    /// The operation is not supported.
    NotSupported { operation: String },
    /// A resource does not exist.
    NotFound { resource: String },
    /// The operation is not permitted.
    PermissionDenied { operation: String },
    /// The operation took too long.
    Timeout { operation: String },
    /// Something failed inside the system.
    Internal { message: String },
}

fn owned(t: &str) -> (s: String)
    ensures
        s@ == t@,
{
    chars_to_string(&str_chars(t))
}

/// Calls `Display::fmt` of `std::io::Error` through `to_string`. The text
/// depends on the operating system's messages, so nothing is stated of it.
#[verifier::external_body]
pub(crate) fn io_error_text(e: &std::io::Error) -> (r: String) {
    e.to_string()
}

/// Calls `Display::fmt` of `serde_json::Error` through `to_string`. Nothing is
/// stated of the text.
#[verifier::external_body]
pub(crate) fn json_error_text(e: &serde_json::Error) -> (r: String) {
    e.to_string()
}

impl CoreError {
    /// A configuration error.
    pub fn config(message: String) -> (r: Self)
        ensures
            r matches CoreError::Config { message: m } && m@ == message@,
    {
        CoreError::Config { message }
    }

    /// An invalid-data error.
    pub fn invalid_data(message: String) -> (r: Self)
        ensures
            r matches CoreError::InvalidData { message: m } && m@ == message@,
    {
        CoreError::InvalidData { message }
    }

    /// A not-supported error.
    pub fn not_supported(operation: String) -> (r: Self)
        ensures
            r matches CoreError::NotSupported { operation: o } && o@ == operation@,
    {
        CoreError::NotSupported { operation }
    }

    /// A not-found error.
    pub fn not_found(resource: String) -> (r: Self)
        ensures
            r matches CoreError::NotFound { resource: x } && x@ == resource@,
    {
        CoreError::NotFound { resource }
    }

    /// A permission-denied error.
    pub fn permission_denied(operation: String) -> (r: Self)
        ensures
            r matches CoreError::PermissionDenied { operation: o } && o@ == operation@,
    {
        CoreError::PermissionDenied { operation }
    }

    /// A timeout error.
    pub fn timeout(operation: String) -> (r: Self)
        ensures
            r matches CoreError::Timeout { operation: o } && o@ == operation@,
    {
        CoreError::Timeout { operation }
    }

    /// An internal error.
    pub fn internal(message: String) -> (r: Self)
        ensures
            r matches CoreError::Internal { message: m } && m@ == message@,
    {
        CoreError::Internal { message }
    }

    /// The text the error displays.
    pub fn to_message(&self) -> (r: String)
        ensures
            match self {
                CoreError::Config { message } => r@ == "Configuration error: "@ + message@,
                CoreError::Io(_) => r@.len() >= 11 && r@.subrange(0, 11) == "I/O error: "@,
                CoreError::Json(_) => r@.len() >= 42
                    && r@.subrange(0, 42) == "JSON serialization/deserialization error: "@,
                CoreError::ConfigParsing(m) => r@ == "Configuration parsing error: "@ + m@,
                CoreError::InvalidData { message } => r@ == "Invalid data: "@ + message@,
                CoreError::NotSupported { operation } => r@ == "Operation not supported: "@ + operation@,
                CoreError::NotFound { resource } => r@ == "Resource not found: "@ + resource@,
                CoreError::PermissionDenied { operation } => r@ == "Permission denied: "@ + operation@,
                CoreError::Timeout { operation } => r@ == "Timeout occurred during: "@ + operation@,
                CoreError::Internal { message } => r@ == "Internal error: "@ + message@,
            },
    {
        let mut v: Vec<char> = Vec::new();
        match self {
            CoreError::Config { message } => {
                append_str(&mut v, "Configuration error: ");
                append_str(&mut v, message.as_str());
            },
            CoreError::Io(e) => {
                append_str(&mut v, "I/O error: ");
                let t = io_error_text(e);
                proof {
                    reveal_strlit("I/O error: ");
                }
                assert(v@.len() == 11);
                let ghost head = v@;
                append_str(&mut v, t.as_str());
                assert(v@.subrange(0, 11) =~= head);
            },
            CoreError::Json(e) => {
                append_str(&mut v, "JSON serialization/deserialization error: ");
                let t = json_error_text(e);
                proof {
                    reveal_strlit("JSON serialization/deserialization error: ");
                }
                assert(v@.len() == 42);
                let ghost head = v@;
                append_str(&mut v, t.as_str());
                assert(v@.subrange(0, 42) =~= head);
            },
            CoreError::ConfigParsing(m) => {
                append_str(&mut v, "Configuration parsing error: ");
                append_str(&mut v, m.as_str());
            },
            CoreError::InvalidData { message } => {
                append_str(&mut v, "Invalid data: ");
                append_str(&mut v, message.as_str());
            },
            CoreError::NotSupported { operation } => {
                append_str(&mut v, "Operation not supported: ");
                append_str(&mut v, operation.as_str());
            },
            CoreError::NotFound { resource } => {
                append_str(&mut v, "Resource not found: ");
                append_str(&mut v, resource.as_str());
            },
            CoreError::PermissionDenied { operation } => {
                append_str(&mut v, "Permission denied: ");
                append_str(&mut v, operation.as_str());
            },
            CoreError::Timeout { operation } => {
                append_str(&mut v, "Timeout occurred during: ");
                append_str(&mut v, operation.as_str());
            },
            CoreError::Internal { message } => {
                append_str(&mut v, "Internal error: ");
                append_str(&mut v, message.as_str());
            },
        }
        chars_to_string(&v)
    }
}

impl From<std::io::Error> for CoreError {
    fn from(e: std::io::Error) -> (r: Self) {
        CoreError::Io(e)
    }
}

impl vstd::std_specs::convert::FromSpecImpl<std::io::Error> for CoreError {
    open spec fn obeys_from_spec() -> bool {
        true
    }

    open spec fn from_spec(e: std::io::Error) -> Self {
        CoreError::Io(e)
    }
}

impl From<serde_json::Error> for CoreError {
    fn from(e: serde_json::Error) -> (r: Self) {
        CoreError::Json(e)
    }
}

impl vstd::std_specs::convert::FromSpecImpl<serde_json::Error> for CoreError {
    open spec fn obeys_from_spec() -> bool {
        true
    }

    open spec fn from_spec(e: serde_json::Error) -> Self {
        CoreError::Json(e)
    }
}

} // verus!
