use codebuddy::client::ClientError;
use codebuddy::core_errors::CoreError;
use codebuddy::errors::{PluginError, RefactoringError};
use codebuddy::server_errors::{server_error_into_core, server_error_text, ApiError, ServerError};
use std::io;

#[test]
fn test_core_error_creation() {
    match CoreError::config("Invalid configuration".to_string()) {
        CoreError::Config { message } => assert_eq!(message, "Invalid configuration"),
        _ => panic!("Expected config error"),
    }
    match CoreError::invalid_data("Bad format".to_string()) {
        CoreError::InvalidData { message } => assert_eq!(message, "Bad format"),
        _ => panic!("Expected invalid data error"),
    }
    match CoreError::not_supported("operation_x".to_string()) {
        CoreError::NotSupported { operation } => assert_eq!(operation, "operation_x"),
        _ => panic!("Expected not supported error"),
    }
}

#[test]
fn test_core_error_from_io() {
    let io_error = io::Error::new(io::ErrorKind::NotFound, "File not found");
    let core_error: CoreError = io_error.into();
    match core_error {
        CoreError::Io(_) => {}
        _ => panic!("Expected IO error conversion"),
    }
}

#[test]
fn test_core_error_from_json() {
    let json_error = serde_json::from_str::<serde_json::Value>("invalid json");
    assert!(json_error.is_err());
    let core_error: CoreError = json_error.unwrap_err().into();
    match core_error {
        CoreError::Json(_) => {}
        _ => panic!("Expected JSON error conversion"),
    }
}

#[test]
fn test_core_error_display() {
    let display_string = CoreError::config("Test message".to_string()).to_message();
    assert!(display_string.contains("Configuration error"));
    assert!(display_string.contains("Test message"));
    let display_string = CoreError::not_found("file.txt".to_string()).to_message();
    assert!(display_string.contains("Resource not found"));
    assert!(display_string.contains("file.txt"));
    let display_string = CoreError::timeout("network_request".to_string()).to_message();
    assert!(display_string.contains("Timeout occurred during"));
    assert!(display_string.contains("network_request"));
}

#[test]
fn test_core_error_debug() {
    let debug_string = format!("{:?}", CoreError::internal("Debug message".to_string()));
    assert!(debug_string.contains("Internal"));
    assert!(debug_string.contains("Debug message"));
}

#[test]
fn test_core_result_type_alias() {
    fn test_function() -> Result<String, CoreError> {
        Ok("success".to_string())
    }
    fn test_error_function() -> Result<String, CoreError> {
        Err(CoreError::internal("test error".to_string()))
    }
    let success_result = test_function();
    assert!(success_result.is_ok());
    assert_eq!(success_result.unwrap(), "success");
    match test_error_function().unwrap_err() {
        CoreError::Internal { message } => assert_eq!(message, "test error"),
        _ => panic!("Expected internal error"),
    }
}

#[test]
fn test_error_chain() {
    fn inner_function() -> Result<(), io::Error> {
        Err(io::Error::new(io::ErrorKind::PermissionDenied, "Access denied"))
    }
    fn outer_function() -> Result<(), CoreError> {
        inner_function().map_err(CoreError::from)?;
        Ok(())
    }
    match outer_function().unwrap_err() {
        CoreError::Io(io_error) => assert_eq!(io_error.kind(), io::ErrorKind::PermissionDenied),
        _ => panic!("Expected IO error"),
    }
}

#[test]
fn test_error_helpers() {
    match CoreError::permission_denied("read_file".to_string()) {
        CoreError::PermissionDenied { operation } => assert_eq!(operation, "read_file"),
        _ => panic!("Expected permission denied error"),
    }
    match CoreError::not_found("database.db".to_string()) {
        CoreError::NotFound { resource } => assert_eq!(resource, "database.db"),
        _ => panic!("Expected not found error"),
    }
    match CoreError::timeout("api_call".to_string()) {
        CoreError::Timeout { operation } => assert_eq!(operation, "api_call"),
        _ => panic!("Expected timeout error"),
    }
}

#[test]
fn test_error_serialization() {
    let error_message = CoreError::config("Invalid port number".to_string()).to_message();
    let json = serde_json::to_string(&error_message).unwrap();
    assert!(json.contains("Configuration error"));
    assert!(json.contains("Invalid port number"));
    let deserialized: String = serde_json::from_str(&json).unwrap();
    assert_eq!(deserialized, error_message);
}

#[test]
fn io_error_text_prefix() {
    let e: CoreError = io::Error::new(io::ErrorKind::Other, "boom").into();
    assert_eq!(e.to_message(), "I/O error: boom");
}

#[test]
fn api_error_categories() {
    assert_eq!(ApiError::NotFound("x".to_string()).category(), "not_found");
    assert!(ApiError::NotFound("x".to_string()).is_client_error());
    assert!(ApiError::internal("x".to_string()).is_server_error());
    assert_eq!(ApiError::plugin("p".to_string()).category(), "plugin_error");
    match ApiError::from_core(CoreError::invalid_data("bad".to_string())) {
        ApiError::InvalidRequest(m) => assert_eq!(m, "bad"),
        _ => panic!("expected an invalid request"),
    }
    match ApiError::from_core(CoreError::timeout("t".to_string())) {
        ApiError::Internal(m) => assert_eq!(m, "Timeout occurred during: t"),
        _ => panic!("expected an internal error"),
    }
}

#[test]
fn server_and_client_errors() {
    assert_eq!(server_error_text(&ServerError::NotFound("f".to_string())), "Not found: f");
    match server_error_into_core(ServerError::Internal("x".to_string())) {
        CoreError::Internal { message } => assert_eq!(message, "Server error: Internal error: x"),
        _ => panic!("expected an internal error"),
    }
    match server_error_into_core(ServerError::Core(CoreError::not_found("r".to_string()))) {
        CoreError::NotFound { resource } => assert_eq!(resource, "r"),
        _ => panic!("expected the core error back"),
    }
    let c = ClientError::connection("refused".to_string());
    assert_eq!(c.to_message(), "Connection error: refused");
    match c.into_core() {
        CoreError::Internal { message } => assert_eq!(message, "Client error: Connection error: refused"),
        _ => panic!("expected an internal error"),
    }
    assert_eq!(RefactoringError::Parse("eof".to_string()).to_message(), "Parse error: eof");
    assert_eq!(PluginError::Internal("m".to_string()).message(), "m");
}
