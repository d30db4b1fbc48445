//! Error types of the server and of its API.

use vstd::prelude::*;
use crate::core_errors::{CoreError, io_error_text, json_error_text};
use crate::text::{str_chars, chars_to_string, append_str};

verus! {

/// Error of a server operation.
#[derive(Debug)]
pub enum ServerError {
    Config { message: String },
    Bootstrap { message: String },
    Runtime { message: String },
    InvalidRequest(String),
    Unsupported(String),
    Auth(String),
    NotFound(String),
    AlreadyExists(String),
    Internal(String),
    Io(std::io::Error),
    Serialization(serde_json::Error),
    Core(CoreError),
}

impl ServerError {
    /// A configuration error.
    pub fn config(message: String) -> (r: Self)
        ensures
            r matches ServerError::Config { message: m } && m == message,
    {
        ServerError::Config { message }
    }

    /// A bootstrap error.
    pub fn bootstrap(message: String) -> (r: Self)
        ensures
            r matches ServerError::Bootstrap { message: m } && m == message,
    {
        ServerError::Bootstrap { message }
    }

    /// A runtime error.
    pub fn runtime(message: String) -> (r: Self)
        ensures
            r matches ServerError::Runtime { message: m } && m == message,
    {
        ServerError::Runtime { message }
    }
}

/// Error of an API operation.
#[derive(Debug)]
pub enum ApiError {
    Config { message: String },
    Bootstrap { message: String },
    Runtime { message: String },
    InvalidRequest(String),
    Unsupported(String),
    Auth(String),
    NotFound(String),
    AlreadyExists(String),
    Internal(String),
    Io(std::io::Error),
    Serialization(serde_json::Error),
    Parse { message: String },
    Lsp(String),
    Ast(String),
    Plugin(String),
}

/// The category name of each kind of API error.
pub open spec fn category_of(e: ApiError) -> Seq<char> {
    match e {
        ApiError::Config { .. } => "config_error"@,
        ApiError::Bootstrap { .. } => "bootstrap_error"@,
        ApiError::Runtime { .. } => "runtime_error"@,
        ApiError::InvalidRequest(_) => "invalid_request"@,
        ApiError::Unsupported(_) => "unsupported_operation"@,
        ApiError::Auth(_) => "authentication_error"@,
        ApiError::NotFound(_) => "not_found"@,
        ApiError::AlreadyExists(_) => "already_exists"@,
        ApiError::Internal(_) => "internal_error"@,
        ApiError::Io(_) => "io_error"@,
        ApiError::Serialization(_) => "serialization_error"@,
        ApiError::Parse { .. } => "parse_error"@,
        ApiError::Lsp(_) => "lsp_error"@,
        ApiError::Ast(_) => "ast_error"@,
        ApiError::Plugin(_) => "plugin_error"@,
    }
}

/// The errors a client caused: bad, unsupported, unauthorised requests and
/// missing or clashing resources.
pub open spec fn caused_by_client(e: ApiError) -> bool {
    match e {
        ApiError::InvalidRequest(_) | ApiError::Unsupported(_) | ApiError::Auth(_)
        | ApiError::NotFound(_) | ApiError::AlreadyExists(_) => true,
        _ => false,
    }
}

impl ApiError {
    /// The category of the error, for structured logging.
    pub fn category(&self) -> (r: &'static str)
        ensures
            r@ == category_of(*self),
    {
        match self {
            ApiError::Config { .. } => "config_error",
            ApiError::Bootstrap { .. } => "bootstrap_error",
            ApiError::Runtime { .. } => "runtime_error",
            ApiError::InvalidRequest(_) => "invalid_request",
            ApiError::Unsupported(_) => "unsupported_operation",
            ApiError::Auth(_) => "authentication_error",
            ApiError::NotFound(_) => "not_found",
            ApiError::AlreadyExists(_) => "already_exists",
            ApiError::Internal(_) => "internal_error",
            ApiError::Io(_) => "io_error",
            ApiError::Serialization(_) => "serialization_error",
            ApiError::Parse { .. } => "parse_error",
            ApiError::Lsp(_) => "lsp_error",
            ApiError::Ast(_) => "ast_error",
            ApiError::Plugin(_) => "plugin_error",
        }
    }

    /// Whether the client caused the error (a 4xx-style error).
    pub fn is_client_error(&self) -> (r: bool)
        ensures
            r == caused_by_client(*self),
    {
        match self {
            ApiError::InvalidRequest(_) | ApiError::Unsupported(_) | ApiError::Auth(_)
            | ApiError::NotFound(_) | ApiError::AlreadyExists(_) => true,
            _ => false,
        }
    }

    /// Whether the server caused the error (a 5xx-style error).
    pub fn is_server_error(&self) -> (r: bool)
        ensures
            r == !caused_by_client(*self),
    {
        !self.is_client_error()
    }

    /// A configuration error.
    pub fn config(message: String) -> (r: Self)
        ensures
            r matches ApiError::Config { message: m } && m == message,
    {
        ApiError::Config { message }
    }

    /// A bootstrap error.
    pub fn bootstrap(message: String) -> (r: Self)
        ensures
            r matches ApiError::Bootstrap { message: m } && m == message,
    {
        ApiError::Bootstrap { message }
    }

    /// A runtime error.
    pub fn runtime(message: String) -> (r: Self)
        ensures
            r matches ApiError::Runtime { message: m } && m == message,
    {
        ApiError::Runtime { message }
    }

    /// An internal error.
    pub fn internal(message: String) -> (r: Self)
        ensures
            r matches ApiError::Internal(m) && m == message,
    {
        ApiError::Internal(message)
    }

    /// A language-server error.
    pub fn lsp(message: String) -> (r: Self)
        ensures
            r matches ApiError::Lsp(m) && m == message,
    {
        ApiError::Lsp(message)
    }

    /// A syntax-tree error.
    pub fn ast(message: String) -> (r: Self)
        ensures
            r matches ApiError::Ast(m) && m == message,
    {
        ApiError::Ast(message)
    }

    /// A plugin error.
    pub fn plugin(message: String) -> (r: Self)
        ensures
            r matches ApiError::Plugin(m) && m == message,
    {
        ApiError::Plugin(message)
    }

    /// The API error a core error becomes: configuration, missing-resource,
    /// invalid-data, internal and unsupported errors keep their kind and
    /// message; any other becomes an internal error with the core error's text.
    pub fn from_core(error: CoreError) -> (r: Self)
        ensures
            match error {
                CoreError::Config { message } => r matches ApiError::Config { message: m } && m == message,
                CoreError::NotFound { resource } => r matches ApiError::NotFound(m) && m == resource,
                CoreError::InvalidData { message } => r matches ApiError::InvalidRequest(m) && m == message,
                CoreError::Internal { message } => r matches ApiError::Internal(m) && m == message,
                CoreError::NotSupported { operation } => r matches ApiError::Unsupported(m) && m == operation,
                _ => r is Internal,
            },
    {
        let text = error.to_message();
        match error {
            CoreError::Config { message } => ApiError::Config { message },
            CoreError::NotFound { resource } => ApiError::NotFound(resource),
            CoreError::InvalidData { message } => ApiError::InvalidRequest(message),
            CoreError::Internal { message } => ApiError::Internal(message),
            CoreError::NotSupported { operation } => ApiError::Unsupported(operation),
            _ => ApiError::Internal(text),
        }
    }
}

/// The core error a server error becomes: a core error is handed back as it
/// is, any other becomes an internal error whose message starts with
/// `Server error: `.
pub fn server_error_into_core(err: ServerError) -> (r: CoreError)
    ensures
        match err {
            ServerError::Core(e) => r == e,
            _ => r matches CoreError::Internal { message } && message@.len() >= 14
                && message@.subrange(0, 14) == "Server error: "@,
        },
{
    match err {
        ServerError::Core(e) => e,
        _ => {
            let mut v: Vec<char> = Vec::new();
            append_str(&mut v, "Server error: ");
            proof {
                reveal_strlit("Server error: ");
            }
            let ghost head = v@;
            let t = server_error_text(&err);
            append_str(&mut v, t.as_str());
            assert(v@.subrange(0, 14) =~= head);
            CoreError::internal(chars_to_string(&v))
        },
    }
}

/// The text a server error displays.
pub fn server_error_text(e: &ServerError) -> (r: String)
    ensures
        match e {
            ServerError::Config { message } => r@ == "Configuration error: "@ + message@,
            ServerError::Bootstrap { message } => r@ == "Bootstrap error: "@ + message@,
            ServerError::Runtime { message } => r@ == "Runtime error: "@ + message@,
            ServerError::InvalidRequest(m) => r@ == "Invalid request: "@ + m@,
            ServerError::Unsupported(m) => r@ == "Unsupported operation: "@ + m@,
            ServerError::Auth(m) => r@ == "Authentication error: "@ + m@,
            ServerError::NotFound(m) => r@ == "Not found: "@ + m@,
            ServerError::AlreadyExists(m) => r@ == "Already exists: "@ + m@,
            ServerError::Internal(m) => r@ == "Internal error: "@ + m@,
            _ => true,
        },
{
    let mut v: Vec<char> = Vec::new();
    match e {
        ServerError::Config { message } => {
            append_str(&mut v, "Configuration error: ");
            append_str(&mut v, message.as_str());
        },
        ServerError::Bootstrap { message } => {
            append_str(&mut v, "Bootstrap error: ");
            append_str(&mut v, message.as_str());
        },
        ServerError::Runtime { message } => {
            append_str(&mut v, "Runtime error: ");
            append_str(&mut v, message.as_str());
        },
        ServerError::InvalidRequest(m) => {
            append_str(&mut v, "Invalid request: ");
            append_str(&mut v, m.as_str());
        },
        ServerError::Unsupported(m) => {
            append_str(&mut v, "Unsupported operation: ");
            append_str(&mut v, m.as_str());
        },
        ServerError::Auth(m) => {
            append_str(&mut v, "Authentication error: ");
            append_str(&mut v, m.as_str());
        },
        ServerError::NotFound(m) => {
            append_str(&mut v, "Not found: ");
            append_str(&mut v, m.as_str());
        },
        ServerError::AlreadyExists(m) => {
            append_str(&mut v, "Already exists: ");
            append_str(&mut v, m.as_str());
        },
        ServerError::Internal(m) => {
            append_str(&mut v, "Internal error: ");
            append_str(&mut v, m.as_str());
        },
        ServerError::Io(x) => {
            append_str(&mut v, "IO error: ");
            let t = io_error_text(x);
            append_str(&mut v, t.as_str());
        },
        ServerError::Serialization(x) => {
            append_str(&mut v, "Serialization error: ");
            let t = json_error_text(x);
            append_str(&mut v, t.as_str());
        },
        ServerError::Core(x) => {
            append_str(&mut v, "Core error: ");
            let t = x.to_message();
            append_str(&mut v, t.as_str());
        },
    }
    chars_to_string(&v)
}

} // verus!
