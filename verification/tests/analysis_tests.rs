use codebuddy::imports::{ImportInfo, ImportType, SourceLocation};
use codebuddy::mcp_analysis::{
    checks_references, dead_symbol_report, import_stats, is_source_file, references_request_id,
    select_analyzed_files, symbol_kind_name,
};

fn import(module: &str, type_only: bool, default: Option<&str>, namespace: Option<&str>) -> ImportInfo {
    ImportInfo {
        module: module.to_string(),
        import_type: ImportType::EsModule,
        named_imports: Vec::new(),
        default_import: default.map(|s| s.to_string()),
        namespace_import: namespace.map(|s| s.to_string()),
        type_only,
        location: SourceLocation { start_line: 0, start_column: 0, end_line: 0, end_column: 0 },
    }
}

#[test]
fn test_import_stats_counts() {
    let imports = vec![
        import("react", false, Some("React"), None),
        import("./types", true, None, None),
        import("react", false, None, None),
        import("lodash", false, None, Some("_")),
    ];
    let stats = import_stats(&imports);
    assert_eq!(stats.total_imports, 4);
    assert_eq!(stats.unique_modules, 3);
    assert_eq!(stats.type_only_imports, 1);
    assert_eq!(stats.namespace_imports, 1);
    assert_eq!(stats.default_imports, 1);
    assert!(stats.unique_modules <= stats.total_imports);
}

#[test]
fn test_import_stats_empty() {
    let stats = import_stats(&Vec::new());
    assert_eq!(stats.total_imports, 0);
    assert_eq!(stats.unique_modules, 0);
}

#[test]
fn test_symbol_kind_names() {
    assert_eq!(symbol_kind_name(1), "File");
    assert_eq!(symbol_kind_name(5), "Class");
    assert_eq!(symbol_kind_name(12), "Function");
    assert_eq!(symbol_kind_name(18), "Array");
    assert_eq!(symbol_kind_name(0), "Unknown");
    assert_eq!(symbol_kind_name(19), "Unknown");
}

#[test]
fn test_checked_kinds() {
    assert!(checks_references(5));
    assert!(checks_references(6));
    assert!(checks_references(11));
    assert!(checks_references(12));
    assert!(!checks_references(13));
    assert!(!checks_references(1));
}

#[test]
fn test_dead_symbol_reasons() {
    let none = dead_symbol_report("foo", 12, "/w/a.ts", 3, 4, 0).unwrap();
    assert_eq!(none.reason, "No references found");
    assert_eq!(none.symbol_kind, "Function");
    assert_eq!(none.line, 3);
    assert_eq!(none.column, 4);
    let one = dead_symbol_report("Bar", 5, "/w/b.ts", 0, 0, 1).unwrap();
    assert_eq!(one.reason, "Only declaration found, no usage");
    assert_eq!(one.file_path, "/w/b.ts");
    assert!(dead_symbol_report("baz", 12, "/w/c.ts", 0, 0, 2).is_none());
}

#[test]
fn test_source_file_filter() {
    assert!(is_source_file("/w/src/a.ts"));
    assert!(is_source_file("lib.rs"));
    assert!(is_source_file("x/y.jsx"));
    assert!(!is_source_file("README.md"));
    assert!(!is_source_file("Makefile"));
    assert!(!is_source_file("/w/.ts/plain"));
}

#[test]
fn test_select_first_ten_sources() {
    let mut paths = vec!["notes.txt".to_string()];
    for i in 0..12 {
        paths.push(format!("f{}.py", i));
        paths.push(format!("d{}.json", i));
    }
    let chosen = select_analyzed_files(&paths);
    assert_eq!(chosen.len(), 10);
    assert_eq!(chosen[0], "f0.py");
    assert_eq!(chosen[9], "f9.py");
    let few = select_analyzed_files(&vec!["a.rs".to_string(), "b.txt".to_string()]);
    assert_eq!(few, vec!["a.rs".to_string()]);
}

#[test]
fn test_references_request_id() {
    assert_eq!(references_request_id(2, 3), 2003);
    assert_eq!(references_request_id(10, 0), 10000);
}
