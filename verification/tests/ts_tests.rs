use codebuddy::mcp_dispatch::{lsp_tool_reply, LspExchange};
use codebuddy::mcp_refactoring::preview_extract_function;
use codebuddy::server_errors::ServerError;
use codebuddy::mcp_refactoring::{prepare_extract_function, prepare_inline_variable, RefactorFailure, RefactorStep};
use codebuddy::edit::{CodeRange, EditType};
use codebuddy::errors::PluginError;
use codebuddy::naming::is_screaming_snake_case;
use codebuddy::package_extractor::AstError;
use codebuddy::ts_literals::find_ts_literal;
use codebuddy::ts_plugin::{
    analyze_extract_constant, analyze_extract_function, analyze_extract_variable, analyze_inline_variable,
    check_extractability, find_literal_occurrences, is_valid_literal_location, plan_extract_constant,
    plan_extract_function, plan_extract_variable, plan_inline_variable, suggest_variable_name,
};
use codebuddy::ts_refactor::{
    analyze_extract_function as ast_analyze_extract_function, analyze_inline_variable as ast_analyze_inline_variable,
    plan_extract_function as ast_plan_extract_function, plan_inline_variable as ast_plan_inline_variable,
    TsDeclarator, TsVisitEvent,
};

fn chars(s: &str) -> Vec<char> {
    s.chars().collect()
}

#[test]
fn ts_test_is_screaming_snake_case() {
    assert!(is_screaming_snake_case("TAX_RATE"));
    assert!(is_screaming_snake_case("MAX_VALUE"));
    assert!(is_screaming_snake_case("A"));
    assert!(is_screaming_snake_case("PI"));
    assert!(!is_screaming_snake_case(""));
    assert!(!is_screaming_snake_case("_TAX_RATE"));
    assert!(!is_screaming_snake_case("TAX_RATE_"));
    assert!(!is_screaming_snake_case("tax_rate"));
    assert!(!is_screaming_snake_case("TaxRate"));
    assert!(!is_screaming_snake_case("tax-rate"));
}

#[test]
fn test_find_literal_occurrences() {
    let source = "const x = 42;\nconst y = 42;\nconst z = 100;";
    let occurrences = find_literal_occurrences(source, "42");
    assert_eq!(occurrences.len(), 2);
    assert_eq!(occurrences[0].start_line, 0);
    assert_eq!(occurrences[1].start_line, 1);
}

#[test]
fn test_plan_extract_constant_valid() {
    let source = "const x = 42;\nconst y = 42;\n";
    let result = plan_extract_constant(source, 0, 10, "ANSWER", "test.ts");
    assert!(result.is_ok(), "Should extract numeric literal successfully");
}

#[test]
fn ts_test_plan_extract_constant_invalid_name() {
    let source = "const x = 42;\n";
    let result = plan_extract_constant(source, 0, 10, "answer", "test.ts");
    assert!(result.is_err(), "Should reject lowercase name");
}

#[test]
fn ts_extract_constant_plan_edits() {
    let source = "const x = 42;\nconst y = 42;\n";
    let plan = plan_extract_constant(source, 0, 10, "ANSWER", "test.ts").unwrap();
    assert_eq!(plan.edits.len(), 3);
    assert_eq!(plan.edits[0].new_text, "const ANSWER = 42;\n");
    assert_eq!(plan.edits[0].priority, 100);
    assert_eq!(plan.edits[1].edit_type, EditType::Replace);
    assert_eq!(plan.edits[1].priority, 90);
    assert_eq!(plan.edits[2].priority, 89);
    assert_eq!(plan.edits[2].description, "Replace occurrence 2 of literal with constant 'ANSWER'");
    assert_eq!(plan.validations[0].description, "Verify syntax is valid after constant extraction");
    match plan_extract_constant(source, 0, 10, "answer", "test.ts") {
        Err(PluginError::InvalidInput(m)) => assert_eq!(
            m,
            "Constant name 'answer' must be in SCREAMING_SNAKE_CASE format (e.g., TAX_RATE, MAX_VALUE)"
        ),
        other => panic!("unexpected {:?}", other),
    }
}

#[test]
fn ts_extract_constant_analysis() {
    let source = "let s = 'hi';\nlog('hi');\n";
    let a = analyze_extract_constant(source, 0, 10, "a.ts").unwrap();
    assert_eq!(a.literal_value, "'hi'");
    assert_eq!(a.occurrence_ranges.len(), 2);
    assert_eq!(a.insertion_point, CodeRange { start_line: 0, start_col: 0, end_line: 0, end_col: 0 });
    match analyze_extract_constant(source, 5, 0, "a.ts") {
        Err(PluginError::Internal(m)) => assert_eq!(m, "No literal found at the specified location"),
        other => panic!("unexpected {:?}", other),
    }
    match analyze_extract_constant("let = = ;", 0, 0, "a.ts") {
        Err(PluginError::Parse(m)) => assert!(m.starts_with("Failed to parse file: ")),
        other => panic!("unexpected {:?}", other),
    }
}

#[test]
fn ts_literal_finder_kinds() {
    let (t, r) = find_ts_literal(&chars("x = 3.5 + y"), 5).unwrap();
    assert_eq!(t, "3.5");
    assert_eq!((r.start_col, r.end_col), (4, 7));
    let (t, _) = find_ts_literal(&chars("s = `a b`;"), 6).unwrap();
    assert_eq!(t, "`a b`");
    let (t, r) = find_ts_literal(&chars("v = null;"), 4).unwrap();
    assert_eq!(t, "null");
    assert_eq!((r.start_col, r.end_col), (4, 8));
    assert!(find_ts_literal(&chars("nullable = 1"), 2).is_none());
    assert!(find_ts_literal(&chars("abc"), 1).is_none());
}

#[test]
fn ts_literal_location_rules() {
    assert!(is_valid_literal_location("x = 42", 4, 2));
    assert!(!is_valid_literal_location("s = '42'", 5, 2));
    assert!(!is_valid_literal_location("s = `42`", 5, 2));
    assert!(!is_valid_literal_location("y = 1 // 42", 9, 2));
}

#[test]
fn ts_extractability_and_names() {
    assert_eq!(check_extractability("a + b"), (true, vec![]));
    let (ok, reasons) = check_extractability("const a = 1;");
    assert!(!ok);
    assert_eq!(reasons, vec!["Cannot extract variable declarations".to_string(), "Selection contains multiple statements".to_string()]);
    assert_eq!(check_extractability("function f() {}").1, vec!["Cannot extract function or class declarations".to_string()]);
    assert_eq!(suggest_variable_name("document.getElementById('x')"), "element");
    assert_eq!(suggest_variable_name("items.length"), "length");
    assert_eq!(suggest_variable_name(" 'abc' "), "text");
    assert_eq!(suggest_variable_name("3.14"), "value");
    assert_eq!(suggest_variable_name("-2e3"), "value");
    assert_eq!(suggest_variable_name("true"), "flag");
    assert_eq!(suggest_variable_name("a * b"), "result");
    assert_eq!(suggest_variable_name("[1, 2]"), "items");
    assert_eq!(suggest_variable_name("{ a: 1 }"), "obj");
    assert_eq!(suggest_variable_name("foo(bar)"), "extracted");
}

#[test]
fn ts_extract_variable_plan() {
    let source = "function f() {\n  return a + b;\n}\n";
    let analysis = analyze_extract_variable(source, 1, 9, 1, 14, "a.ts").unwrap();
    assert_eq!(analysis.expression, "a + b");
    assert_eq!(analysis.suggested_name, "result");
    let plan = plan_extract_variable(source, 1, 9, 1, 14, None, "a.ts").unwrap();
    assert_eq!(plan.edits[0].new_text, "const result = a + b;\n  ");
    assert_eq!(plan.edits[1].new_text, "result");
    assert_eq!(plan.edits[1].original_text, "a + b");
    let named = plan_extract_variable(source, 1, 9, 1, 14, Some("sum".to_string()), "a.ts").unwrap();
    assert_eq!(named.edits[0].description, "Extract 'a + b' into variable 'sum'");
}

#[test]
fn ts_extract_function_plan() {
    let source = "let a = 1;\nlet b = 2;\nconsole.log(a + b);\n";
    let analysis = analyze_extract_function(source, &CodeRange { start_line: 1, start_col: 0, end_line: 2, end_col: 19 }, "a.ts").unwrap();
    assert_eq!(analysis.suggested_name, "extracted_function");
    assert_eq!(analysis.insertion_point.start_line, 0);
    let plan = plan_extract_function(source, 1, 2, "work", "a.ts").unwrap();
    assert_eq!(plan.edits[0].new_text, "\nfunction work() {\n  let b = 2;\nconsole.log(a + b);\n\n}\n");
    assert_eq!(plan.edits[1].new_text, "work();");
    assert_eq!(plan.edits[1].original_text, "let b = 2;\nconsole.log(a + b);");
}

#[test]
fn ts_inline_variable_not_found() {
    match plan_inline_variable("const a = 1;\nf(a);\n", 0, 6, "a.ts") {
        Err(PluginError::Internal(m)) => assert_eq!(m, "Could not find variable declaration at specified location"),
        other => panic!("unexpected {:?}", other),
    }
    match analyze_inline_variable("const = ;", 0, 0, "a.ts") {
        Err(PluginError::Parse(m)) => assert!(m.starts_with("Failed to parse module: ")),
        other => panic!("unexpected {:?}", other),
    }
}

#[test]
fn ast_extract_function_analysis() {
    let source = "const a = 1;\nconst b = a;\n";
    let range = CodeRange { start_line: 1, start_col: 0, end_line: 1, end_col: 12 };
    let a = ast_analyze_extract_function(source, &range, "m.ts").unwrap();
    assert_eq!(a.suggested_name, "extractedFunction");
    assert_eq!(a.complexity_score, 1);
    let plan = ast_plan_extract_function(source, &range, "g", "m.ts").unwrap();
    assert_eq!(plan.edits[1].new_text, "g();");
    assert_eq!(plan.edits[1].original_text, "const b = a;");
    match ast_analyze_extract_function("let = ;", &range, "m.ts") {
        Err(AstError::Parse { message }) => assert!(message.starts_with("Failed to parse module: ")),
        other => panic!("unexpected {:?}", other),
    }
}

fn decl(name: &str) -> TsVisitEvent {
    TsVisitEvent::VarDecl(vec![TsDeclarator { name: Some(name.to_string()), has_init: true }])
}

fn ident(name: &str) -> TsVisitEvent {
    TsVisitEvent::Ident(name.to_string())
}

#[test]
fn ast_inline_variable_from_walk() {
    let source = "const x = 5;\nf(x, y);\n";
    let events = vec![decl("x"), ident("x"), ident("f"), ident("x"), ident("y")];
    let a = ast_analyze_inline_variable(source, 0, 6, "m.ts", &events).unwrap();
    assert_eq!(a.variable_name, "x");
    assert_eq!(a.usage_locations.len(), 2);
    assert_eq!(a.declaration_range, CodeRange { start_line: 0, start_col: 0, end_line: 0, end_col: 12 });
    assert_eq!(a.initializer_expression, "/* expression */");
    let plan = ast_plan_inline_variable(source, 0, 6, "m.ts", &events).unwrap();
    assert_eq!(plan.edits.len(), 3);
    assert_eq!(plan.edits[0].new_text, "(/* expression */)");
    assert_eq!(plan.edits[1].priority, 99);
    assert_eq!(plan.edits[2].original_text, "const x = 5;");
    match ast_analyze_inline_variable(source, 1, 0, "m.ts", &events) {
        Err(AstError::Analysis { message }) => assert_eq!(message, "Could not find variable declaration at specified location"),
        other => panic!("unexpected {:?}", other),
    }
    let later = vec![decl("x"), ident("x"), decl("z"), ident("x")];
    let b = ast_analyze_inline_variable(source, 0, 0, "m.ts", &later).unwrap();
    assert_eq!(b.variable_name, "z");
    assert_eq!(b.usage_locations.len(), 0);
}

#[test]
fn mcp_prepare_extract_function_steps() {
    let source = "const a = 1;\nconst b = a;\n";
    let range = CodeRange { start_line: 1, start_col: 0, end_line: 1, end_col: 12 };
    match prepare_extract_function(source, &range, "g", "m.ts", Some(true)).unwrap() {
        RefactorStep::Preview(s) => {
            assert_eq!(s.edits_count, 2);
            assert_eq!(s.complexity, 1);
            assert_eq!(s.impact_areas, vec!["function_extraction".to_string()]);
            assert_eq!(s.validations_count, 2);
        }
        other => panic!("unexpected {:?}", other),
    }
    match prepare_extract_function(source, &range, "g", "m.ts", None).unwrap() {
        RefactorStep::Apply(plan, s) => assert_eq!(plan.edits.len(), s.edits_count),
        other => panic!("unexpected {:?}", other),
    }
    let bad = CodeRange { start_line: 9, start_col: 0, end_line: 9, end_col: 1 };
    match prepare_extract_function(source, &bad, "g", "m.ts", None) {
        Err(RefactorFailure::InvalidRequest(m)) => assert_eq!(m, "Start line 9 is beyond source length 2"),
        other => panic!("unexpected {:?}", other),
    }
}

#[test]
fn mcp_prepare_inline_variable_steps() {
    let source = "const x = 5;\nf(x);\n";
    let events = vec![decl("x"), ident("x"), ident("f"), ident("x")];
    match prepare_inline_variable(source, 0, 6, "m.ts", &events, Some(true)).unwrap() {
        RefactorStep::Preview(s) => {
            assert_eq!(s.edits_count, 3);
            assert_eq!(s.complexity, 2);
        }
        other => panic!("unexpected {:?}", other),
    }
    match prepare_inline_variable(source, 0, 40, "m.ts", &events, None) {
        Err(RefactorFailure::InvalidRequest(m)) => assert_eq!(m, "Column 40 is beyond line length 12"),
        other => panic!("unexpected {:?}", other),
    }
}

#[test]
fn mcp_preview_extract_function_edits() {
    let source = "const a = 1;\nconst b = a;\n";
    let range = CodeRange { start_line: 1, start_col: 0, end_line: 1, end_col: 12 };
    let (summary, edits) = preview_extract_function(source, &range, "g", "m.ts").unwrap();
    assert_eq!(summary.edits_count, 2);
    assert_eq!(edits.len(), 2);
    assert_eq!(edits[0].priority, 100);
    assert_eq!(edits[1].edit_type, EditType::Replace);
    assert_eq!(edits[1].description, "Replace selected code with call to 'g'");
}

#[test]
fn mcp_lsp_tool_replies() {
    assert_eq!(lsp_tool_reply(LspExchange::Response { result: Some(7), error_message: None }).unwrap(), 7);
    match lsp_tool_reply::<u32>(LspExchange::Response { result: None, error_message: Some("boom".to_string()) }) {
        Err(ServerError::Runtime { message }) => assert_eq!(message, "LSP error: boom"),
        _ => panic!("unexpected"),
    }
    match lsp_tool_reply::<u32>(LspExchange::Response { result: None, error_message: None }) {
        Err(ServerError::Runtime { message }) => assert_eq!(message, "Empty LSP response"),
        _ => panic!("unexpected"),
    }
    match lsp_tool_reply::<u32>(LspExchange::OtherMessage) {
        Err(ServerError::Runtime { message }) => assert_eq!(message, "Unexpected LSP message type"),
        _ => panic!("unexpected"),
    }
    match lsp_tool_reply::<u32>(LspExchange::Failed("closed".to_string())) {
        Err(ServerError::Runtime { message }) => assert_eq!(message, "LSP request failed: closed"),
        _ => panic!("unexpected"),
    }
}
