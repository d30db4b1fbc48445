use codebuddy::rust_parse::{list_functions, parse_rust_imports_ast, parse_rust_imports_checked};
use codebuddy::package_extractor::AstError;

#[test]
fn test_list_rust_functions_and_methods() {
    let source = "\nfn top_level() {}\n\nstruct MyStruct;\n\nimpl MyStruct {\n    fn my_method() {}\n    fn another_method(&self) {}\n}\n\nmod my_mod {\n    fn function_in_mod() {}\n}\n";
    let functions = list_functions(source).unwrap();
    assert_eq!(functions.len(), 4);
    assert!(functions.contains(&"top_level".to_string()));
    assert!(functions.contains(&"my_method".to_string()));
    assert!(functions.contains(&"another_method".to_string()));
    assert!(functions.contains(&"function_in_mod".to_string()));
}

#[test]
fn test_list_rust_nested_functions() {
    let source = "\nfn outer() {\n    fn inner() {}\n}\n";
    let functions = list_functions(source).unwrap();
    assert_eq!(functions.len(), 2);
    assert!(functions.contains(&"outer".to_string()));
    assert!(functions.contains(&"inner".to_string()));
}

#[test]
fn test_list_rust_syntax_error() {
    let source = "fn my_func {";
    let result = list_functions(source);
    assert!(result.is_err());
}

#[test]
fn rust_functions_in_visit_order() {
    let source = "fn a() { let x = { fn b() {} 1 }; if x > 0 { fn c() {} } }\ntrait T { fn d() { fn e() {} } }\n";
    assert_eq!(list_functions(source).unwrap(), vec!["a", "b", "c", "e"]);
    match list_functions("fn {") {
        Err(AstError::Analysis { message }) => assert!(message.starts_with("Failed to parse Rust code: ")),
        _ => panic!("expected a parse error"),
    }
}

#[test]
fn rust_imports_numbered_by_items() {
    let source = "use std::collections::{HashMap, HashSet as Set};\nstruct S;\nuse serde::*;\nfn f() { use std::fmt; }\n";
    let imports = parse_rust_imports_ast(source).unwrap();
    assert_eq!(imports.len(), 4);
    assert_eq!(imports[0].module, "std::collections");
    assert_eq!(imports[0].named_imports[0].name, "HashMap");
    assert_eq!(imports[0].location.start_line, 1);
    assert_eq!(imports[1].named_imports[0].alias, Some("Set".to_string()));
    assert_eq!(imports[2].module, "serde");
    assert_eq!(imports[2].namespace_import, Some("serde".to_string()));
    assert_eq!(imports[2].location.start_line, 3);
    assert_eq!(imports[3].module, "std");
    assert_eq!(imports[3].named_imports[0].name, "fmt");
    assert_eq!(imports[3].location.start_line, 5);
    match parse_rust_imports_ast("use ;") {
        Err(AstError::Analysis { message }) => assert!(message.starts_with("Failed to parse Rust source: ")),
        _ => panic!("expected a parse error"),
    }
    assert_eq!(parse_rust_imports_checked("use a::b;").unwrap().unwrap().len(), 1);
}

#[test]
fn rust_imports_in_nested_items() {
    let source = "impl S { fn m() { use a::b; } }\nmod inner { use c::d; }\nuse e::f;\n";
    let imports = parse_rust_imports_ast(source).unwrap();
    assert_eq!(imports.len(), 3);
    assert_eq!(imports[0].module, "a");
    assert_eq!(imports[0].location.start_line, 2);
    assert_eq!(imports[1].module, "c");
    assert_eq!(imports[1].location.start_line, 4);
    assert_eq!(imports[2].module, "e");
    assert_eq!(imports[2].location.start_line, 5);
}
