use codebuddy::c_lang::{
    find_c_literal_occurrences, find_c_numeric_literal_at_position, is_valid_c_literal_location, is_valid_c_number,
    plan_extract_constant as c_plan_extract_constant, plan_extract_function as c_plan_extract_function,
    plan_extract_variable as c_plan_extract_variable, plan_inline_variable as c_plan_inline_variable,
    plan_inline_variable_checked, find_c_insertion_point_for_constant, CWorkspaceSupport,
};
use codebuddy::edit::{ArgValue, EditType};
use codebuddy::errors::{PluginError, RefactoringError};
use codebuddy::naming::is_screaming_snake_case;
use codebuddy::python_lang::{
    find_insertion_point, find_python_insertion_point_for_constant, find_python_literal_at_position,
    find_python_literal_occurrences, generate_function_call, is_valid_python_literal_location,
    plan_extract_constant as py_plan_extract_constant, suggest_variable_name, ExtractableFunction,
    analyze_extract_constant as py_analyze_extract_constant,
};
use codebuddy::edit::CodeRange;
use codebuddy::python_ast::{PythonValueType, PythonVariable};
use codebuddy::ts_refactor::{
    extract_range_text, generate_extracted_function as ts_generate_extracted_function,
    generate_function_call as ts_generate_function_call, extract_function_plan as ts_extract_function_plan,
    inline_variable_plan as ts_inline_variable_plan,
};
use codebuddy::python_refactor::{
    analyze_extract_function as py_analyze_extract_function, analyze_extract_variable as py_analyze_extract_variable,
    analyze_inline_variable as py_analyze_inline_variable, generate_extracted_function as py_generate_extracted_function,
    plan_extract_function as py_plan_extract_function, plan_extract_variable as py_plan_extract_variable,
    plan_inline_variable as py_plan_inline_variable,
};
use codebuddy::rust_lang::{
    analyze_extract_constant as rs_analyze_extract_constant, find_rust_insertion_point_for_constant,
    find_rust_literal_at_position, find_rust_literal_occurrences, is_valid_literal_location,
    plan_extract_constant as rs_plan_extract_constant, plan_extract_function as rs_plan_extract_function,
    plan_extract_variable as rs_plan_extract_variable, plan_inline_variable as rs_plan_inline_variable,
};

// ---- naming ----

#[test]
fn refactoring_test_is_screaming_snake_case() {
    assert!(is_screaming_snake_case("MAX_SIZE"));
    assert!(is_screaming_snake_case("TAX_RATE"));
    assert!(is_screaming_snake_case("A"));
    assert!(is_screaming_snake_case("BUFFER_LEN"));

    assert!(!is_screaming_snake_case(""));
    assert!(!is_screaming_snake_case("_MAX_SIZE"));
    assert!(!is_screaming_snake_case("MAX_SIZE_"));
    assert!(!is_screaming_snake_case("max_size"));
    assert!(!is_screaming_snake_case("MaxSize"));
    assert!(!is_screaming_snake_case("max-size"));

    assert!(is_screaming_snake_case("MAX_VALUE"));
    assert!(is_screaming_snake_case("PI"));
    assert!(!is_screaming_snake_case("_TAX_RATE"));
    assert!(!is_screaming_snake_case("TAX_RATE_"));
    assert!(!is_screaming_snake_case("tax_rate"));
    assert!(!is_screaming_snake_case("TaxRate"));
    assert!(!is_screaming_snake_case("tax-rate"));
}

#[test]
fn screaming_snake_case_digits_and_underscores() {
    assert!(is_screaming_snake_case("HTTP_2"));
    assert!(is_screaming_snake_case("A__B"));
    assert!(!is_screaming_snake_case("123"));
    assert!(!is_screaming_snake_case("_"));
}

// ---- C ----

#[test]
fn test_find_c_numeric_literal_at_position_integer() {
    let line = "int x = 42;";
    let result = find_c_numeric_literal_at_position(line, 8);
    assert!(result.is_some());
    let (literal, _range) = result.unwrap();
    assert_eq!(literal, "42");
}

#[test]
fn test_find_c_numeric_literal_at_position_float() {
    let line = "float pi = 3.14;";
    let result = find_c_numeric_literal_at_position(line, 11);
    assert!(result.is_some());
    let (literal, _range) = result.unwrap();
    assert_eq!(literal, "3.14");
}

#[test]
fn c_numeric_literal_hex_and_range() {
    let line = "int m = 0xFF;";
    let (literal, range) = find_c_numeric_literal_at_position(line, 10).unwrap();
    assert_eq!(literal, "0xFF");
    assert_eq!((range.start_col, range.end_col), (8, 12));
    assert!(find_c_numeric_literal_at_position(line, 1).is_none());
}

#[test]
fn c_number_syntax() {
    assert!(is_valid_c_number("42"));
    assert!(is_valid_c_number("0x1F"));
    assert!(is_valid_c_number("3.14"));
    assert!(!is_valid_c_number(""));
    assert!(!is_valid_c_number("abc"));
}

#[test]
fn test_find_c_literal_occurrences() {
    let source = "int x = 42;\nint y = 42;\nint z = 100;";
    let occurrences = find_c_literal_occurrences(source, "42");
    assert_eq!(occurrences.len(), 2);
    assert_eq!(occurrences[0].start_line, 0);
    assert_eq!(occurrences[1].start_line, 1);
}

#[test]
fn c_occurrences_skip_strings_and_comments() {
    let source = "int a = 7; // 7\nchar *s = \"7\";\nint b = 7;";
    let occurrences = find_c_literal_occurrences(source, "7");
    assert_eq!(occurrences.len(), 2);
    assert_eq!((occurrences[0].start_line, occurrences[0].start_col), (0, 8));
    assert_eq!((occurrences[1].start_line, occurrences[1].start_col), (2, 8));
    assert!(!is_valid_c_literal_location("int a = 7; // 7", 14, 1));
    assert!(is_valid_c_literal_location("int a = 7; // 7", 8, 1));
}

#[test]
fn c_insertion_point_after_includes() {
    let source = "#include <stdio.h>\n#include <stdlib.h>\n\nint main() {\n    return 0;\n}\n";
    let point = find_c_insertion_point_for_constant(source).unwrap();
    assert_eq!(point.start_line, 2);
}

#[test]
fn test_plan_extract_constant_valid_number() {
    let source = "int x = 42;\nint y = 42;\n";
    let result = c_plan_extract_constant(source, 0, 8, "MAX_VALUE", "test.c");
    assert!(result.is_ok(), "Should extract numeric literal successfully");
}

#[test]
fn test_plan_extract_constant_invalid_name() {
    let source = "int x = 42;\n";
    let result = c_plan_extract_constant(source, 0, 8, "max_value", "test.c");
    assert!(result.is_err(), "Should reject lowercase name");
}

#[test]
fn test_plan_extract_constant_float() {
    let source = "float pi = 3.14;\nfloat tau = 3.14 * 2;\n";
    let result = c_plan_extract_constant(source, 0, 11, "PI_VALUE", "test.c");
    assert!(result.is_ok(), "Should extract float literal");
}

#[test]
fn test_plan_extract_constant_integration() {
    let source = "#include <stdio.h>\n\nint main() {\n    int x = 42;\n    int y = 42;\n    printf(\"Sum: %d\\n\", x + y);\n    return 0;\n}\n";
    let result = c_plan_extract_constant(source, 3, 12, "MAGIC_NUMBER", "test.c");
    assert!(result.is_ok(), "Should extract constant successfully");
    let plan = result.unwrap();
    assert_eq!(plan.edits.len(), 3, "Should have 3 edits (1 insert + 2 replacements)");
    let declaration_edit = plan.edits.iter().find(|e| e.edit_type == EditType::Insert).unwrap();
    assert!(declaration_edit.new_text.contains("#define MAGIC_NUMBER 42"));
    assert_eq!(declaration_edit.location.start_line, 1);
    let replacements: Vec<_> = plan.edits.iter().filter(|e| e.edit_type == EditType::Replace).collect();
    assert_eq!(replacements.len(), 2, "Should have 2 replacements");
    for replacement in replacements {
        assert_eq!(replacement.original_text, "42");
        assert_eq!(replacement.new_text, "MAGIC_NUMBER");
    }
    assert_eq!(plan.metadata.intent_name, "extract_constant");
    assert_eq!(plan.metadata.complexity, 2);
}

#[test]
fn c_plan_extract_constant_errors() {
    match c_plan_extract_constant("int x = 42;\n", 5, 0, "X", "t.c") {
        Err(PluginError::NotSupported(m)) => assert_eq!(m, "Invalid line number"),
        _ => panic!("expected an invalid line error"),
    }
    match c_plan_extract_constant("int x = 42;\n", 0, 1, "X", "t.c") {
        Err(PluginError::NotSupported(m)) => assert_eq!(m, "No numeric literal found at the specified location"),
        _ => panic!("expected a missing literal error"),
    }
    match c_plan_extract_constant("int x = 42;\n", 0, 8, "bad", "t.c") {
        Err(PluginError::NotSupported(m)) => assert!(m.starts_with("Constant name 'bad' must be in SCREAMING_SNAKE_CASE")),
        _ => panic!("expected a name error"),
    }
}

#[test]
fn c_plan_extract_constant_priorities_and_descriptions() {
    let source = "int a = 5;\nint b = 5;\nint c = 5;\n";
    let plan = c_plan_extract_constant(source, 0, 8, "FIVE", "f.c").unwrap();
    assert_eq!(plan.edits.len(), 4);
    assert_eq!(plan.edits[0].priority, 100);
    assert_eq!(plan.edits[0].description, "Extract '5' into constant 'FIVE'");
    assert_eq!(plan.edits[1].priority, 90);
    assert_eq!(plan.edits[2].priority, 89);
    assert_eq!(plan.edits[3].priority, 88);
    assert_eq!(plan.edits[3].description, "Replace occurrence 3 of literal with constant 'FIVE'");
    assert_eq!(plan.validations[0].description, "Verify C syntax is valid after constant extraction");
    match &plan.metadata.intent_arguments[2].1 {
        ArgValue::Number(n) => assert_eq!(*n, 3),
        _ => panic!("expected a count"),
    }
}

#[test]
fn c_plan_extract_function_edits() {
    let source = "#include <stdio.h>\nint main() {\n    int a = 1;\n    int b = 2;\n    return 0;\n}\n";
    let plan = c_plan_extract_function(source, 2, 3, "setup", "m.c").unwrap();
    assert_eq!(plan.edits.len(), 2);
    assert_eq!(plan.edits[0].edit_type, EditType::Insert);
    assert_eq!(plan.edits[0].location.start_line, 1);
    assert_eq!(plan.edits[0].new_text, "void setup() {\n    int a = 1;\n    int b = 2;\n}\n\n");
    assert_eq!(plan.edits[1].new_text, "    setup();");
    assert_eq!(plan.edits[1].original_text, "    int a = 1;\n    int b = 2;");
    match c_plan_extract_function(source, 3, 2, "f", "m.c") {
        Err(PluginError::NotSupported(m)) => assert_eq!(m, "Invalid line range"),
        _ => panic!("expected a range error"),
    }
}

#[test]
fn c_plan_extract_variable_edits() {
    let source = "int main() {\n    return 2 * 21;\n}\n";
    let plan = c_plan_extract_variable(source, 1, 11, 1, 17, Some("answer".to_string()), "m.c").unwrap();
    assert_eq!(plan.edits[0].new_text, "int answer = 2 * 21;\n    ");
    assert_eq!(plan.edits[1].new_text, "    return answer;");
    match c_plan_extract_variable(source, 0, 0, 1, 0, None, "m.c") {
        Err(PluginError::NotSupported(m)) => assert_eq!(m, "Multi-line variable extraction is not supported."),
        _ => panic!("expected a multi-line error"),
    }
}

#[test]
fn c_plan_inline_variable_edits() {
    let source = "int main() {\n    int size = 10;\n    int total = size * 2;\n    return size;\n}\n";
    let plan = c_plan_inline_variable(source, 1, 4, "m.c").unwrap();
    assert_eq!(plan.edits.len(), 3);
    assert_eq!(plan.edits[0].edit_type, EditType::Delete);
    assert_eq!(plan.edits[0].location.start_line, 0);
    assert_eq!(plan.edits[0].description, "Remove declaration of variable 'size'");
    assert_eq!(plan.edits[1].new_text, "    int total = 10 * 2;");
    assert_eq!(plan.edits[2].new_text, "    return 10;");
    match c_plan_inline_variable(source, 0, 0, "m.c") {
        Err(PluginError::NotSupported(m)) => {
            assert_eq!(m, "Could not find a simple integer variable declaration to inline.")
        }
        _ => panic!("expected no declaration"),
    }
    assert!(plan_inline_variable_checked("int x = 1;\nx;\n", 0, 0, "m.c").is_none());
    assert!(plan_inline_variable_checked("int x = 1;\nx;\n", 9, 0, "m.c").is_some());
}

#[test]
fn c_workspace_members() {
    let ws = CWorkspaceSupport;
    let makefile = "all:\n\tmake\nSUBDIRS = lib app\n";
    assert_eq!(ws.list_workspace_members(makefile), vec!["lib".to_string(), "app".to_string()]);
    assert!(ws.is_workspace_manifest(makefile));
    let added = ws.add_workspace_member(makefile, "tools");
    assert_eq!(ws.list_workspace_members(&added), vec!["lib".to_string(), "app".to_string(), "tools".to_string()]);
    let removed = ws.remove_workspace_member(&added, "app");
    assert_eq!(ws.list_workspace_members(&removed), vec!["lib".to_string(), "tools".to_string()]);
    assert_eq!(ws.add_workspace_member("all:\n", "x"), "all:\n\nSUBDIRS = x");
    assert_eq!(ws.update_package_name(makefile, "n"), makefile);
}

// ---- Python ----

#[test]
fn test_suggest_variable_name_len() {
    assert_eq!(suggest_variable_name("len(items)"), "length");
}

#[test]
fn test_suggest_variable_name_split() {
    assert_eq!(suggest_variable_name("text.split(',')"), "parts");
}

#[test]
fn test_suggest_variable_name_string() {
    assert_eq!(suggest_variable_name("\"hello\""), "text");
}

#[test]
fn test_suggest_variable_name_number() {
    assert_eq!(suggest_variable_name("42"), "value");
}

#[test]
fn test_suggest_variable_name_list() {
    assert_eq!(suggest_variable_name("[1, 2, 3]"), "items");
}

#[test]
fn test_suggest_variable_name_arithmetic() {
    assert_eq!(suggest_variable_name("a + b"), "result");
}

#[test]
fn test_suggest_variable_name_default() {
    assert_eq!(suggest_variable_name("some_function()"), "extracted");
}

#[test]
fn suggest_variable_name_other_cases() {
    assert_eq!(suggest_variable_name("', '.join(xs)"), "joined");
    assert_eq!(suggest_variable_name("'a' + 'b'"), "text");
    assert_eq!(suggest_variable_name("sep.join(xs)"), "joined");
    assert_eq!(suggest_variable_name("  True "), "flag");
    assert_eq!(suggest_variable_name("{'a': 1}"), "data");
    assert_eq!(suggest_variable_name("-1.5e3"), "value");
    assert_eq!(suggest_variable_name("inf"), "value");
    assert_eq!(suggest_variable_name("x - 1"), "result");
}

#[test]
fn test_find_python_literal_at_position_number() {
    let (literal, _range) = find_python_literal_at_position("x = 42", 4).unwrap();
    assert_eq!(literal, "42");
}

#[test]
fn test_find_python_literal_at_position_string_double() {
    let (literal, _range) = find_python_literal_at_position("msg = \"hello\"", 8).unwrap();
    assert_eq!(literal, "\"hello\"");
}

#[test]
fn test_find_python_literal_at_position_string_single() {
    let (literal, _range) = find_python_literal_at_position("msg = 'world'", 8).unwrap();
    assert_eq!(literal, "'world'");
}

#[test]
fn test_find_python_literal_at_position_true() {
    let (literal, _range) = find_python_literal_at_position("flag = True", 7).unwrap();
    assert_eq!(literal, "True");
}

#[test]
fn test_find_python_literal_at_position_false() {
    let (literal, _range) = find_python_literal_at_position("flag = False", 8).unwrap();
    assert_eq!(literal, "False");
}

#[test]
fn test_find_python_literal_at_position_none() {
    let (literal, _range) = find_python_literal_at_position("value = None", 8).unwrap();
    assert_eq!(literal, "None");
}

#[test]
fn test_find_python_literal_occurrences() {
    let occurrences = find_python_literal_occurrences("x = 42\ny = 42\nz = 100", "42");
    assert_eq!(occurrences.len(), 2);
    assert_eq!(occurrences[0].start_line, 0);
    assert_eq!(occurrences[1].start_line, 1);
}

#[test]
fn python_literal_locations() {
    assert!(is_valid_python_literal_location("x = 42", 4, 2));
    assert!(!is_valid_python_literal_location("msg = \"42\"", 7, 2));
    assert!(!is_valid_python_literal_location("x = 0  # value is 42", 18, 2));
}

#[test]
fn refactoring_test_plan_extract_constant_valid_number() {
    let result = py_plan_extract_constant("x = 42\ny = 42\n", 0, 4, "ANSWER", "test.py");
    assert!(result.is_ok(), "Should extract numeric literal successfully");
    let plan = result.unwrap();
    assert_eq!(plan.edits[0].new_text, "ANSWER = 42\n");
    assert_eq!(plan.edits.len(), 3);
}

#[test]
fn refactoring_test_plan_extract_constant_invalid_name() {
    let result = py_plan_extract_constant("x = 42\n", 0, 4, "answer", "test.py");
    assert!(result.is_err(), "Should reject lowercase name");
    match result {
        Err(RefactoringError::Analysis(m)) => assert!(m.contains("TAX_RATE, MAX_VALUE, API_KEY, DB_TIMEOUT_MS")),
        _ => panic!("expected an analysis error"),
    }
}

#[test]
fn test_plan_extract_constant_string() {
    let source = "msg = \"hello\"\ngreeting = \"hello\"\n";
    let result = py_plan_extract_constant(source, 0, 8, "GREETING_MSG", "test.py");
    assert!(result.is_ok(), "Should extract string literal");
}

#[test]
fn refactoring_test_plan_extract_constant_boolean() {
    let result = py_plan_extract_constant("debug = True\nverbose = True\n", 0, 8, "DEBUG_MODE", "test.py");
    assert!(result.is_ok(), "Should extract boolean literal");
}

#[test]
fn python_analysis_errors_and_insertion() {
    match py_analyze_extract_constant("x = 1\n", 3, 0, "t.py") {
        Err(e) => assert_eq!(e.to_message(), "Analysis error: Invalid line number"),
        Ok(_) => panic!("expected an error"),
    }
    match py_analyze_extract_constant("x = y\n", 0, 0, "t.py") {
        Err(RefactoringError::Analysis(m)) => assert_eq!(m, "No literal found at the specified location"),
        _ => panic!("expected an error"),
    }
    let src = "\"\"\"\nDoc.\n\"\"\"\nimport os\nfrom sys import path\n\ndef f():\n    import json\n";
    assert_eq!(find_python_insertion_point_for_constant(src).unwrap().start_line, 5);
    let one_line_doc = "\"\"\"Doc.\"\"\"\nimport os\n";
    assert_eq!(find_python_insertion_point_for_constant(one_line_doc).unwrap().start_line, 0);
    let src2 = "class A:\n    pass\ndef g():\n    x = 1\n";
    assert_eq!(find_insertion_point(src2, 3).unwrap().start_line, 2);
    assert_eq!(find_insertion_point(src2, 0).unwrap().start_line, 0);
}

#[test]
fn python_function_call_text() {
    let analysis = ExtractableFunction {
        selected_range: CodeRange { start_line: 0, start_col: 0, end_line: 0, end_col: 0 },
        required_parameters: vec!["a".to_string(), "b".to_string()],
        return_variables: vec!["x".to_string(), "y".to_string()],
        suggested_name: "extracted_function".to_string(),
        insertion_point: CodeRange { start_line: 0, start_col: 0, end_line: 0, end_col: 0 },
        contains_return_statements: false,
        complexity_score: 2,
    };
    assert_eq!(generate_function_call(&analysis, "work").unwrap(), "x, y = work(a, b)");
    let none = ExtractableFunction {
        selected_range: CodeRange { start_line: 0, start_col: 0, end_line: 0, end_col: 0 },
        required_parameters: vec![],
        return_variables: vec![],
        suggested_name: "extracted_function".to_string(),
        insertion_point: CodeRange { start_line: 0, start_col: 0, end_line: 0, end_col: 0 },
        contains_return_statements: false,
        complexity_score: 2,
    };
    assert_eq!(generate_function_call(&none, "go").unwrap(), "go()");
}

// ---- Rust ----

#[test]
fn test_find_rust_literal_at_position_number() {
    let (literal, _range) = find_rust_literal_at_position("let x = 42;", 8).unwrap();
    assert_eq!(literal, "42");
}

#[test]
fn test_find_rust_literal_at_position_true() {
    let (literal, _range) = find_rust_literal_at_position("let flag = true;", 11).unwrap();
    assert_eq!(literal, "true");
}

#[test]
fn test_find_rust_literal_at_position_false() {
    let (literal, _range) = find_rust_literal_at_position("let flag = false;", 12).unwrap();
    assert_eq!(literal, "false");
}

#[test]
fn test_find_rust_literal_occurrences() {
    let occurrences = find_rust_literal_occurrences("let x = 42;\nlet y = 42;\nlet z = 100;", "42");
    assert_eq!(occurrences.len(), 2);
    assert_eq!(occurrences[0].start_line, 0);
    assert_eq!(occurrences[1].start_line, 1);
}

#[test]
fn rust_test_plan_extract_constant_valid_number() {
    let result = rs_plan_extract_constant("let x = 42;\nlet y = 42;\n", 0, 8, "ANSWER", "test.rs");
    assert!(result.is_ok(), "Should extract numeric literal successfully");
    let plan = result.unwrap();
    assert_eq!(plan.edits.len(), 3);
    assert_eq!(plan.edits[0].priority, 100);
    assert!(plan.edits[0].new_text.contains("const ANSWER"));
    assert!(plan.edits[0].new_text.contains("42"));
}

#[test]
fn rust_test_plan_extract_constant_invalid_name() {
    let result = rs_plan_extract_constant("let x = 42;\n", 0, 8, "answer", "test.rs");
    assert!(result.is_err(), "Should reject lowercase name");
    assert!(result.unwrap_err().to_string().contains("SCREAMING_SNAKE_CASE"));
}

#[test]
fn rust_test_plan_extract_constant_boolean() {
    let result = rs_plan_extract_constant("let debug = true;\nlet verbose = true;\n", 0, 12, "DEBUG_MODE", "test.rs");
    assert!(result.is_ok(), "Should extract boolean literal");
    let plan = result.unwrap();
    assert_eq!(plan.edits.len(), 3);
    assert!(plan.edits[0].new_text.contains("const DEBUG_MODE"));
    assert!(plan.edits[0].new_text.contains("true"));
}

#[test]
fn test_plan_extract_constant_no_literal_at_position() {
    let result = rs_plan_extract_constant("let x = 42;\n", 0, 0, "ANSWER", "test.rs");
    assert!(result.is_err(), "Should fail when cursor not on literal");
    assert!(result.unwrap_err().to_string().contains("No literal found"));
}

#[test]
fn test_find_rust_insertion_point_after_uses() {
    let source = "use std::collections::HashMap;\nuse std::io;\n\nfn main() {\n    println!(\"Hello\");\n}\n";
    let point = find_rust_insertion_point_for_constant(source).unwrap();
    assert_eq!(point.start_line, 2);
}

#[test]
fn test_find_rust_insertion_point_no_uses() {
    let source = "fn main() {\n    println!(\"Hello\");\n}\n";
    let point = find_rust_insertion_point_for_constant(source).unwrap();
    assert_eq!(point.start_line, 0);
}

#[test]
fn test_analyze_extract_constant() {
    let analysis = rs_analyze_extract_constant("let x = 42;\nlet y = 42;\nlet z = 100;\n", 0, 8, "test.rs").unwrap();
    assert_eq!(analysis.literal_value, "42");
    assert_eq!(analysis.occurrence_ranges.len(), 2);
    assert!(analysis.is_valid_literal);
    assert!(analysis.blocking_reasons.is_empty());
}

#[test]
fn test_is_valid_literal_location_inside_string() {
    assert!(!is_valid_literal_location("let msg = \"The answer is 42\";", 21, 2));
}

#[test]
fn test_is_valid_literal_location_inside_comment() {
    assert!(!is_valid_literal_location("let x = 10; // TODO: change to 42", 31, 2));
}

#[test]
fn test_is_valid_literal_location_valid() {
    assert!(is_valid_literal_location("let x = 42;", 8, 2));
}

#[test]
fn rust_plan_extract_function_edits() {
    let source = "fn main() {\n    let a = 1;\n    let b = a + 1;\n}\n";
    let plan = rs_plan_extract_function(source, 1, 2, "helper", "m.rs").unwrap();
    assert_eq!(plan.edits[0].new_text, "    helper();");
    assert_eq!(plan.edits[0].original_text, "    let a = 1;\n    let b = a + 1;");
    assert_eq!(plan.edits[1].new_text, "\n    fn helper() {\n    let a = 1;\n    let b = a + 1;\n    }\n");
    match &plan.metadata.intent_arguments[1].1 {
        ArgValue::Number(n) => assert_eq!(*n, 2),
        _ => panic!("expected a line count"),
    }
    assert_eq!(rs_plan_extract_function(source, 1, 9, "h", "m.rs").unwrap_err(), "Line range out of bounds");
}

#[test]
fn rust_plan_extract_variable_edits() {
    let source = "fn main() {\n    let total = price * 2 + tax;\n}\n";
    let plan = rs_plan_extract_variable(source, 1, 16, 1, 25, Some("doubled".to_string()), "m.rs").unwrap();
    assert_eq!(plan.edits[0].new_text, "    let doubled = price * 2;\n");
    assert_eq!(plan.edits[1].original_text, "price * 2");
    assert_eq!(plan.edits[1].new_text, "doubled");
    let multi = "let x = foo(\n    1,\n    2);\n";
    let plan2 = rs_plan_extract_variable(multi, 0, 8, 2, 6, None, "m.rs").unwrap();
    assert_eq!(plan2.edits[1].original_text, "foo(\n    1,\n    2)");
    assert_eq!(plan2.edits[0].new_text, "let extracted = foo(\n    1,\n    2);\n");
}

// ---- Rust inline variable ----

#[test]
fn rust_inline_variable_replaces_whole_word_uses() {
    let src = "fn main() {\n    let x = 5;\n    let y = x + 1;\n    let xs = x * x;\n}\n";
    let plan = rs_plan_inline_variable(src, 1, 8, "main.rs").unwrap();
    assert_eq!(plan.source_file, "main.rs");
    // line 2: one use; line 3: two uses (`xs` is another word); then the delete
    assert_eq!(plan.edits.len(), 4);
    let e = &plan.edits[0];
    assert_eq!(e.edit_type, EditType::Replace);
    assert_eq!((e.location.start_line, e.location.start_column, e.location.end_column), (2, 12, 13));
    assert_eq!(e.original_text, "x");
    assert_eq!(e.new_text, "5");
    assert_eq!(e.priority, 100);
    assert_eq!(e.description, "Inline variable 'x'");
    assert_eq!((plan.edits[1].location.start_line, plan.edits[1].location.start_column), (3, 13));
    assert_eq!((plan.edits[2].location.start_line, plan.edits[2].location.start_column), (3, 17));
    let d = &plan.edits[3];
    assert_eq!(d.edit_type, EditType::Delete);
    assert_eq!((d.location.start_line, d.location.start_column, d.location.end_line, d.location.end_column), (1, 0, 1, 14));
    assert_eq!(d.original_text, "    let x = 5;");
    assert_eq!(d.priority, 50);
    assert_eq!(d.description, "Remove variable declaration for 'x'");
    assert_eq!(plan.metadata.intent_name, "inline_variable");
    assert_eq!(plan.metadata.complexity, 3);
    assert_eq!(plan.validations.len(), 1);
    assert_eq!(plan.validations[0].description, "Verify Rust syntax is valid after inlining");
}

#[test]
fn rust_inline_variable_const_and_mut() {
    let src = "const LIMIT: usize = 10;\nfn f() -> usize { LIMIT }";
    let plan = rs_plan_inline_variable(src, 0, 0, "lib.rs").unwrap();
    assert_eq!(plan.edits.len(), 2);
    assert_eq!(plan.edits[0].new_text, "10");
    assert_eq!(plan.edits[0].location.start_column, 18);
    let src2 = "let mut total = a + b;\nuse_it(total);";
    let plan2 = rs_plan_inline_variable(src2, 0, 0, "lib.rs").unwrap();
    assert_eq!(plan2.edits[0].original_text, "total");
    assert_eq!(plan2.edits[0].new_text, "a + b");
}

#[test]
fn rust_inline_variable_errors() {
    let src = "fn main() {\n    let x = 5;\n}";
    assert_eq!(rs_plan_inline_variable(src, 7, 0, "m.rs").unwrap_err(), "Line number out of bounds");
    assert_eq!(
        rs_plan_inline_variable(src, 0, 0, "m.rs").unwrap_err(),
        "Not a `let` binding or `const` declaration at line 1. Only variables and constants can be inlined with this function."
    );
    let bad = "let (a, b) = pair;";
    assert_eq!(rs_plan_inline_variable(bad, 0, 4, "m.rs").unwrap_err(), "Could not find variable declaration at 0:4");
}

// ---- Python refactorings from parser results ----

#[test]
fn test_extract_variable_analysis_simple() {
    // the parser reads the selection 2:13..2:20 of
    // "\ndef calculate():\n    result = 10 + 20\n    return result\n" as "10 + 20"
    let analysis = py_analyze_extract_variable("10 + 20", 2, 13, 2, 20);
    assert!(analysis.can_extract);
    assert_eq!(analysis.expression.trim(), "10 + 20");
    assert_eq!(analysis.suggested_name, "result");
}

#[test]
fn python_extract_variable_blockers() {
    let a = py_analyze_extract_variable("x = 1", 0, 0, 0, 5);
    assert!(!a.can_extract);
    assert_eq!(a.blocking_reasons, vec!["Cannot extract assignment statements".to_string()]);
    let b = py_analyze_extract_variable("a ==\nb", 0, 0, 1, 1);
    assert_eq!(b.blocking_reasons, vec!["Multi-line expressions must be parenthesized".to_string()]);
    assert!(py_analyze_extract_variable("(a ==\nb)", 0, 0, 1, 2).can_extract);
    let c = py_analyze_extract_variable("def f(x=1)", 0, 0, 0, 10);
    assert_eq!(c.blocking_reasons.len(), 2);
    match py_plan_extract_variable("def f(x=1)", "def f(x=1)", 0, 0, 0, 10, None, "t.py") {
        Err(RefactoringError::Analysis(m)) => assert_eq!(
            m,
            "Cannot extract expression: Cannot extract function or class definitions, Cannot extract assignment statements"
        ),
        other => panic!("unexpected {:?}", other.is_ok()),
    }
}

#[test]
fn python_plan_extract_variable() {
    let source = "\ndef calculate():\n    result = 10 + 20\n    return result\n";
    let plan = py_plan_extract_variable(source, "10 + 20", 2, 13, 2, 20, None, "test.py").unwrap();
    assert_eq!(plan.edits.len(), 2);
    assert_eq!(plan.edits[0].new_text, "    result = 10 + 20\n");
    assert_eq!(plan.edits[0].location.start_line, 2);
    assert_eq!(plan.edits[0].description, "Extract '10 + 20' into variable 'result'");
    assert_eq!(plan.edits[1].new_text, "result");
    assert_eq!((plan.edits[1].location.start_column, plan.edits[1].location.end_column), (13, 20));
    let named = py_plan_extract_variable(source, "10 + 20", 2, 13, 2, 20, Some("total".to_string()), "test.py").unwrap();
    assert_eq!(named.edits[0].new_text, "    total = 10 + 20\n");
}

#[test]
fn test_inline_variable_analysis() {
    let source = "x = 42\ny = x + 1\nz = x * 2";
    let x = PythonVariable { name: "x".to_string(), line: 0, value_type: PythonValueType::Number, is_constant: false };
    // the uses of `x` after its line, as the parser reports them
    let usages = vec![(1, 4, 5), (2, 4, 5)];
    let analysis = py_analyze_inline_variable(source, Some(x), &usages).unwrap();
    assert_eq!(analysis.variable_name, "x");
    assert_eq!(analysis.initializer_expression, "42");
    assert_eq!(analysis.usage_locations.len(), 2);
    assert!(analysis.is_safe_to_inline);
    assert_eq!(analysis.declaration_range, CodeRange { start_line: 0, start_col: 0, end_line: 0, end_col: 6 });
}

#[test]
fn python_inline_variable_errors_and_plan() {
    let var = |n: &str, l: u32| PythonVariable { name: n.to_string(), line: l, value_type: PythonValueType::Unknown, is_constant: false };
    let source = "total = a + b\nprint(total)\nshow(total)";
    assert!(matches!(py_analyze_inline_variable(source, None, &vec![]), Err(RefactoringError::Analysis(m)) if m == "Could not find variable at specified position"));
    assert!(matches!(py_analyze_inline_variable(source, Some(var("total", 9)), &vec![]), Err(RefactoringError::Analysis(m)) if m == "Invalid line number"));
    assert!(matches!(py_analyze_inline_variable(source, Some(var("other", 0)), &vec![]), Err(RefactoringError::Analysis(m)) if m == "Could not find variable assignment"));
    let analysis = py_analyze_inline_variable(source, Some(var("total", 0)), &vec![(1, 6, 11), (2, 5, 10)]).unwrap();
    let plan = py_plan_inline_variable(&analysis, "total = a + b", 0, 0, "m.py").unwrap();
    assert_eq!(plan.edits.len(), 3);
    assert_eq!(plan.edits[0].new_text, "(a + b)");
    assert_eq!(plan.edits[0].priority, 100);
    assert_eq!(plan.edits[1].priority, 99);
    assert_eq!(plan.edits[1].description, "Replace 'total' with its value");
    assert_eq!(plan.edits[2].edit_type, EditType::Delete);
    assert_eq!(plan.edits[2].priority, 50);
    assert_eq!(plan.edits[2].description, "Remove declaration of 'total'");
    assert_eq!(plan.metadata.complexity, 2);
    let simple = py_analyze_inline_variable("n = 42\nuse(n)", Some(var("n", 0)), &vec![(1, 4, 5)]).unwrap();
    assert_eq!(py_plan_inline_variable(&simple, "n = 42", 0, 0, "m.py").unwrap().edits[0].new_text, "42");
}

#[test]
fn python_extract_function_from_parser_results() {
    let source = "import os\n\ndef main():\n    total = 1\n    count = 2\n    print(total + count)\n";
    let var = |n: &str, l: u32| PythonVariable { name: n.to_string(), line: l, value_type: PythonValueType::Number, is_constant: false };
    let vars = vec![var("total", 3), var("count", 4), var("late", 7)];
    let range = CodeRange { start_line: 5, start_col: 4, end_line: 5, end_col: 24 };
    let analysis = py_analyze_extract_function(source, range, &vars, "print(total + count)").unwrap();
    assert_eq!(analysis.required_parameters, vec!["total".to_string(), "count".to_string()]);
    assert_eq!(analysis.insertion_point.start_line, 2);
    assert!(!analysis.contains_return_statements);
    assert_eq!(analysis.suggested_name, "extracted_function");
    let code = py_generate_extracted_function(&analysis, "print(total + count)", "report").unwrap();
    assert_eq!(code, "def report(total, count):\n    print(total + count)\n");
    let plan = py_plan_extract_function(source, range, &vars, "print(total + count)", "report", "m.py").unwrap();
    assert_eq!(plan.edits[0].new_text, "def report(total, count):\n    print(total + count)\n\n\n");
    assert_eq!(plan.edits[0].location.start_line, 2);
    assert_eq!(plan.edits[1].new_text, "report(total, count)");
    assert_eq!(plan.edits[1].original_text, "print(total + count)");
}

#[test]
fn python_extracted_function_body_and_returns() {
    let analysis = ExtractableFunction {
        selected_range: CodeRange { start_line: 0, start_col: 0, end_line: 2, end_col: 0 },
        required_parameters: vec!["a".to_string()],
        return_variables: vec!["x".to_string(), "y".to_string()],
        suggested_name: "extracted_function".to_string(),
        insertion_point: CodeRange { start_line: 0, start_col: 0, end_line: 0, end_col: 0 },
        contains_return_statements: false,
        complexity_score: 2,
    };
    let code = py_generate_extracted_function(&analysis, "x = a\n\ny = a * 2", "pair").unwrap();
    assert_eq!(code, "def pair(a):\n    x = a\n\n    y = a * 2\n    return x, y");
}

// ---- TypeScript / JavaScript plans ----

#[test]
fn test_extract_range_text_single_line() {
    let source = "const message = 'hello world';";
    let range = CodeRange { start_line: 0, start_col: 6, end_line: 0, end_col: 13 };
    let result = extract_range_text(source, range).unwrap();
    assert_eq!(result, "message");
}

#[test]
fn test_extract_range_text_multi_line() {
    let source = "const x = 1;\nconst y = 2;\nconst z = 3;";
    let range = CodeRange { start_line: 0, start_col: 6, end_line: 1, end_col: 7 };
    let result = extract_range_text(source, range).unwrap();
    assert_eq!(result, "x = 1;\nconst y");
}

#[test]
fn ts_range_text_edges() {
    let source = "a\nbb\nccc\ndddd";
    let three = CodeRange { start_line: 0, start_col: 0, end_line: 3, end_col: 2 };
    assert_eq!(extract_range_text(source, three).unwrap(), "a\nbb\nccc\ndd");
    assert!(extract_range_text(source, CodeRange { start_line: 9, start_col: 0, end_line: 9, end_col: 0 }).is_err());
    // lines past the end are left out of a multi-line selection
    assert_eq!(extract_range_text(source, CodeRange { start_line: 2, start_col: 1, end_line: 8, end_col: 0 }).unwrap(), "cc\ndddd\n");
}

fn ts_analysis(params: Vec<&str>, outputs: Vec<&str>) -> ExtractableFunction {
    ExtractableFunction {
        selected_range: CodeRange { start_line: 1, start_col: 2, end_line: 1, end_col: 14 },
        required_parameters: params.into_iter().map(|s| s.to_string()).collect(),
        return_variables: outputs.into_iter().map(|s| s.to_string()).collect(),
        suggested_name: "extractedFunction".to_string(),
        insertion_point: CodeRange { start_line: 0, start_col: 0, end_line: 0, end_col: 0 },
        contains_return_statements: false,
        complexity_score: 12,
    }
}

#[test]
fn ts_function_and_call_text() {
    assert_eq!(ts_generate_function_call(&ts_analysis(vec!["a", "b"], vec![]), "f").unwrap(), "f(a, b);");
    assert_eq!(ts_generate_function_call(&ts_analysis(vec!["a"], vec!["x"]), "f").unwrap(), "const x = f(a);");
    assert_eq!(ts_generate_function_call(&ts_analysis(vec![], vec!["x", "y"]), "f").unwrap(), "const { x, y } = f();");
    assert_eq!(
        ts_generate_extracted_function(&ts_analysis(vec!["a"], vec!["x", "y"]), "f").unwrap(),
        "function f(a) {\n  // TODO: Extracted code\n  return { x, y };\n}"
    );
    assert_eq!(
        ts_generate_extracted_function(&ts_analysis(vec![], vec![]), "g").unwrap(),
        "function g() {\n  // TODO: Extracted code\n\n}"
    );
}

#[test]
fn ts_plans_from_analysis() {
    let source = "function main() {\n  const total = 1;\n}";
    let plan = ts_extract_function_plan(source, &ts_analysis(vec![], vec!["total"]), "makeTotal", "a.ts").unwrap();
    assert_eq!(plan.edits.len(), 2);
    assert_eq!(plan.edits[1].original_text, "const total ");
    assert_eq!(plan.edits[1].new_text, "const total = makeTotal();");
    assert!(plan.edits[0].new_text.starts_with("\nfunction makeTotal() {"));
    assert_eq!(plan.metadata.complexity, 10);
    assert_eq!(plan.validations.len(), 2);
    let analysis = codebuddy::python_refactor::InlineVariableAnalysis {
        variable_name: "total".to_string(),
        declaration_range: CodeRange { start_line: 1, start_col: 0, end_line: 1, end_col: 18 },
        initializer_expression: "a + b".to_string(),
        usage_locations: vec![CodeRange { start_line: 2, start_col: 0, end_line: 2, end_col: 5 }],
        is_safe_to_inline: true,
        blocking_reasons: vec![],
    };
    let inline = ts_inline_variable_plan(source, &analysis, 1, 8, "a.ts").unwrap();
    assert_eq!(inline.edits[0].new_text, "(a + b)");
    assert_eq!(inline.edits[1].original_text, "  const total = 1;");
    let mut unsafe_analysis = analysis.clone();
    unsafe_analysis.is_safe_to_inline = false;
    unsafe_analysis.blocking_reasons = vec!["shadowed".to_string(), "reassigned".to_string()];
    match ts_inline_variable_plan(source, &unsafe_analysis, 1, 8, "a.ts") {
        Err(codebuddy::package_extractor::AstError::Analysis { message }) => {
            assert_eq!(message, "Cannot safely inline variable 'total': shadowed, reassigned")
        }
        other => panic!("unexpected {:?}", other.is_ok()),
    }
}
