//! Error values of the language plugins.

use vstd::prelude::*;

verus! {

/// Error of a language-plugin operation.
#[derive(Debug, Clone)]
pub enum PluginError {
    /// The operation cannot be carried out on this input.
    NotSupported(String),
    /// Something failed inside the plugin.
    Internal(String),
    /// The source could not be parsed.
    Parse(String),
    /// An argument is not acceptable.
    InvalidInput(String),
}

impl PluginError {
    /// The message carried by the error.
    pub fn message(&self) -> (r: String)
        ensures
            r@ == match self {
                PluginError::NotSupported(m) => m@,
                PluginError::Internal(m) => m@,
                PluginError::Parse(m) => m@,
                PluginError::InvalidInput(m) => m@,
            },
    {
        match self {
            PluginError::NotSupported(m) => m.clone(),
            PluginError::Internal(m) => m.clone(),
            PluginError::Parse(m) => m.clone(),
            PluginError::InvalidInput(m) => m.clone(),
        }
    }
}

/// Error type for the Python refactoring operations.
#[derive(Debug, Clone)]
pub enum RefactoringError {
    /// The analysis of the code failed.
    Analysis(String),
    /// The code could not be parsed.
    Parse(String),
}

impl RefactoringError {
    /// The text the error displays: `Analysis error: ...` or `Parse error: ...`.
    pub fn to_message(&self) -> (r: String)
        ensures
            r@ == match self {
                RefactoringError::Analysis(m) => "Analysis error: "@ + m@,
                RefactoringError::Parse(m) => "Parse error: "@ + m@,
            },
    {
        let mut v: Vec<char> = Vec::new();
        match self {
            RefactoringError::Analysis(m) => {
                crate::text::append_str(&mut v, "Analysis error: ");
                crate::text::append_str(&mut v, m.as_str());
            },
            RefactoringError::Parse(m) => {
                crate::text::append_str(&mut v, "Parse error: ");
                crate::text::append_str(&mut v, m.as_str());
            },
        }
        crate::text::chars_to_string(&v)
    }
}

} // verus!
