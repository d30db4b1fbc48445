//! What an import analysis reports about one import statement.

use vstd::prelude::*;

verus! {

/// The kind of an import statement.
#[derive(Debug, Clone, Copy, PartialEq, Eq, Structural)]
pub enum ImportType {
    /// An ECMAScript `import`.
    EsModule,
    /// A namespace import (Java, Swift, Rust `use`).
    Namespace,
    /// A Python `import x`.
    PythonImport,
    /// A Python `from x import y`.
    PythonFromImport,
    /// A C or C++ `#include`.
    CInclude,
}

/// A name brought in by an import.
#[derive(Debug, Clone)]
pub struct NamedImport {
    pub name: String,
    pub alias: Option<String>,
    pub type_only: bool,
}

/// Where an import stands in its file.
#[derive(Debug, Clone, Copy, PartialEq, Eq, Structural)]
pub struct SourceLocation {
    pub start_line: u32,
    pub start_column: u32,
    pub end_line: u32,
    pub end_column: u32,
}

/// One import statement.
#[derive(Debug, Clone)]
pub struct ImportInfo {
    pub module: String,
    pub import_type: ImportType,
    pub named_imports: Vec<NamedImport>,
    pub default_import: Option<String>,
    pub namespace_import: Option<String>,
    pub type_only: bool,
    pub location: SourceLocation,
}

/// The location at the start of line `line`.
pub open spec fn line_start(line: int) -> SourceLocation {
    SourceLocation { start_line: line as u32, start_column: 0, end_line: line as u32, end_column: 0 }
}

/// What an import graph records about how it was built.
#[derive(Debug, Clone)]
pub struct ImportGraphMetadata {
    pub language: String,
    /// Seconds since the Unix epoch.
    pub parsed_at: i64,
    pub parser_version: String,
    pub circular_dependencies: Vec<Vec<String>>,
    pub external_dependencies: Vec<String>,
}

/// The imports of one file.
#[derive(Debug, Clone)]
pub struct ImportGraph {
    pub source_file: String,
    pub imports: Vec<ImportInfo>,
    pub importers: Vec<String>,
    pub metadata: ImportGraphMetadata,
}

} // verus!
