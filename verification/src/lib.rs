//! Verified core of a code-navigation and refactoring toolkit: text scanning,
//! literal extraction, import analysis, manifest editing and configuration
//! handling for several programming languages.

pub mod text;
pub mod naming;
pub mod numeric;
pub mod edit;
pub mod literals;
pub mod extract_constant;
pub mod regex_support;
pub mod errors;
pub mod c_lang;
pub mod python_lang;
pub mod rust_lang;
pub mod paths;
pub mod python_strings;
pub mod imports;
pub mod java_imports;
pub mod csharp;
pub mod lsp_installers;
pub mod swift;
pub mod core_errors;
pub mod app_config;
pub mod client;
pub mod presets;
pub mod server_checks;
pub mod server_errors;
pub mod file_service;
pub mod lsp_protocol;
pub mod package_extractor;
pub mod python_ast;
pub mod go_project;
pub mod rust_imports;
pub mod cpp_analysis;
pub mod workspace_edit;
pub mod mcp_dispatch;
pub mod mcp_editing;
pub mod fuse_fs;
pub mod python_refactor;
pub mod python_tree;
pub mod ts_refactor;
pub mod mcp_analysis;
pub mod swc_parse;
pub mod ts_literals;
pub mod ts_plugin;
pub mod mcp_refactoring;
pub mod python_parse;
pub mod rust_parse;
