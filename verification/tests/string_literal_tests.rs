use codebuddy::python_strings::{is_path_like, rewrite_string_literals};

#[test]
fn test_is_path_like() {
    assert!(is_path_like("src/main.py"));
    assert!(is_path_like("config/settings.json"));
    assert!(is_path_like("../tests/fixtures"));
    assert!(is_path_like("file.py"));
    assert!(!is_path_like("hello world"));
    assert!(!is_path_like("just-a-name"));
}

#[test]
fn path_like_edge_cases() {
    assert!(is_path_like("a\\b"));
    assert!(!is_path_like("version 1.2"));
    assert!(is_path_like("notes.md"));
    assert!(!is_path_like(""));
}

#[test]
fn test_rewrite_double_quotes() {
    let (result, count) = rewrite_string_literals("path = \"tests/fixtures/test.py\"", "tests", "e2e").unwrap();
    assert_eq!(count, 1);
    assert!(result.contains("\"e2e/fixtures/test.py\""));
}

#[test]
fn test_rewrite_single_quotes() {
    let (result, count) = rewrite_string_literals("path = 'tests/fixtures/test.py'", "tests", "e2e").unwrap();
    assert_eq!(count, 1);
    assert!(result.contains("'e2e/fixtures/test.py'"));
}

#[test]
fn test_rewrite_fstring_double() {
    let (result, count) = rewrite_string_literals("path = f\"tests/fixtures/test.py\"", "tests", "e2e").unwrap();
    assert_eq!(count, 1);
    assert!(result.contains("f\"e2e/fixtures/test.py\""));
}

#[test]
fn test_no_rewrite_non_path() {
    let source = "msg = \"Hello world\"";
    let (result, count) = rewrite_string_literals(source, "tests", "e2e").unwrap();
    assert_eq!(count, 0);
    assert_eq!(result, source);
}

#[test]
fn test_idempotency_nested_rename() {
    let source = "path = \"tests/e2e/test.py\"";
    let (result, count) = rewrite_string_literals(source, "tests", "tests/e2e").unwrap();
    assert_eq!(count, 0);
    assert_eq!(result, source);
}

#[test]
fn rewrite_relative_and_renamed_directory() {
    let (result, count) = rewrite_string_literals("p = \"../config/settings.json\"", "app/config", "app/configuration").unwrap();
    assert_eq!(count, 1);
    assert_eq!(result, "p = \"../configuration/settings.json\"");
    let (same, none) = rewrite_string_literals("p = r\"config/a.json\"", "config", "conf").unwrap();
    assert_eq!(none, 0);
    assert_eq!(same, "p = r\"config/a.json\"");
}

#[test]
fn triple_quoted_strings_left_alone() {
    let source = "x = \"\"\"tests/a.py\"\"\"";
    let (result, count) = rewrite_string_literals(source, "tests", "e2e").unwrap();
    assert_eq!(count, 0);
    assert_eq!(result, source);
    let single = "x = '''tests/a.py'''";
    let (result, count) = rewrite_string_literals(single, "tests", "e2e").unwrap();
    assert_eq!(count, 0);
    assert_eq!(result, single);
}
