use codebuddy::python_parse::{extract_python_functions, extract_python_variables, parse_python_imports_ast, parse_python_module, python_source_outline};
use codebuddy::package_extractor::AstError;
use codebuddy::imports::ImportType;
use codebuddy::python_ast::PythonValueType;
use codebuddy::python_tree::{
    infer_python_value_type, module_functions, module_import_infos, module_variables, PyExpr, PyStmt,
};
use codebuddy::java_imports::{
    extract_package_name, extract_top_level_package, is_external_import, parse_import_statement, parse_imports,
    JavaImportAnalyzer,
};
use codebuddy::swift::{import_pattern_for_module, qualified_path_pattern, SwiftImportSupport, SwiftWorkspaceSupport};

// ---- Java ----

#[test]
fn test_extract_package_name() {
    let source = "\npackage com.example.myapp;\n\nimport java.util.List;\n";
    assert_eq!(extract_package_name(source), "com.example.myapp");
}

#[test]
fn java_no_package_name() {
    assert_eq!(extract_package_name("import a.B;\n"), "");
    assert_eq!(extract_package_name("package broken\npackage  ok.pkg ;\n"), "ok.pkg");
}

#[test]
fn test_parse_single_class_import() {
    let (info, is_external) = parse_import_statement("import java.util.List;", 1, "com.example").unwrap();
    assert_eq!(info.module, "java.util.List");
    assert_eq!(info.named_imports.len(), 1);
    assert_eq!(info.named_imports[0].name, "List");
    assert!(info.namespace_import.is_none());
    assert!(!is_external);
    assert_eq!(info.import_type, ImportType::Namespace);
    assert_eq!(info.location.start_line, 1);
}

#[test]
fn test_parse_wildcard_import() {
    let (info, _) = parse_import_statement("import java.util.*;", 1, "com.example").unwrap();
    assert_eq!(info.module, "java.util");
    assert!(info.namespace_import.is_some());
    assert!(info.named_imports.is_empty());
}

#[test]
fn test_parse_static_import() {
    let (info, _) = parse_import_statement("import static org.junit.Assert.assertEquals;", 1, "com.example").unwrap();
    assert_eq!(info.module, "org.junit.Assert.assertEquals");
    assert_eq!(info.named_imports.len(), 1);
    assert_eq!(info.named_imports[0].name, "assertEquals");
}

#[test]
fn java_rejects_non_imports() {
    assert!(parse_import_statement("class A {}", 0, "").is_none());
    assert!(parse_import_statement("import java.util.List", 0, "").is_none());
}

#[test]
fn test_is_external_import_standard_library() {
    assert!(!is_external_import("java.util.List", "com.example"));
    assert!(!is_external_import("javax.swing.JFrame", "com.example"));
}

#[test]
fn test_is_external_import_same_package() {
    assert!(!is_external_import("com.example.utils.Helper", "com.example"));
    assert!(!is_external_import("com.example.Model", "com.example"));
}

#[test]
fn test_is_external_import_external() {
    assert!(is_external_import("org.junit.Test", "com.example"));
    assert!(is_external_import("com.google.common.collect.Lists", "com.example"));
}

#[test]
fn test_extract_top_level_package() {
    assert_eq!(extract_top_level_package("org.junit.jupiter.api.Test"), Some("org.junit".to_string()));
    assert_eq!(extract_top_level_package("com.google.common.collect.Lists"), Some("com.google".to_string()));
    assert_eq!(extract_top_level_package("java.util"), Some("java.util".to_string()));
    assert_eq!(extract_top_level_package("Test"), None);
}

#[test]
fn test_parse_imports_mixed() {
    let source = "\npackage com.example.myapp;\n\nimport java.util.List;\nimport java.util.*;\nimport org.junit.Test;\nimport com.example.myapp.Model;\nimport static org.junit.Assert.assertEquals;\n";
    let (imports, external_deps) = parse_imports(source).unwrap();
    assert_eq!(imports.len(), 5);
    assert!(external_deps.contains(&"org.junit".to_string()));
    assert!(!external_deps.contains(&"java.util".to_string()));
    assert!(!external_deps.contains(&"com.example".to_string()));
}

#[test]
fn test_parse_imports_no_package() {
    let source = "\nimport java.util.List;\nimport org.junit.Test;\n";
    let (imports, external_deps) = parse_imports(source).unwrap();
    assert_eq!(imports.len(), 2);
    assert_eq!(external_deps.len(), 1);
    assert!(external_deps.contains(&"org.junit".to_string()));
}

#[test]
fn test_parse_imports_ignore_comments() {
    let source = "\n// import java.util.List;\n/* import org.junit.Test; */\nimport java.io.File;\n";
    let (imports, _) = parse_imports(source).unwrap();
    assert_eq!(imports.len(), 1);
    assert_eq!(imports[0].module, "java.io.File");
}

#[test]
fn test_parse_imports_empty() {
    let source = "\npackage com.example;\n\npublic class Main {\n}\n";
    let (imports, external_deps) = parse_imports(source).unwrap();
    assert_eq!(imports.len(), 0);
    assert_eq!(external_deps.len(), 0);
}

#[test]
fn java_external_packages_are_distinct_and_ordered() {
    let source = "import org.junit.Test;\nimport com.google.Foo;\nimport org.junit.Assert;\n";
    let (imports, deps) = parse_imports(source).unwrap();
    assert_eq!(imports.len(), 3);
    assert_eq!(imports[2].location.start_line, 2);
    assert_eq!(deps, vec!["org.junit".to_string(), "com.google".to_string()]);
}

#[test]
fn java_import_graph() {
    let graph = JavaImportAnalyzer.build_import_graph_from("A.java", "import org.x.Y;\n").unwrap();
    assert_eq!(graph.source_file, "A.java");
    assert_eq!(graph.imports.len(), 1);
    assert_eq!(graph.metadata.language, "java");
    assert_eq!(graph.metadata.external_dependencies, vec!["org.x".to_string()]);
}

// ---- Swift ----

#[test]
fn test_import_parsing_basic() {
    let support = SwiftImportSupport;
    let imports = support.parse_imports("import Foundation\nimport UIKit\nimport MyModule\n");
    assert_eq!(imports.len(), 3);
    assert!(imports.contains(&"Foundation".to_string()));
    assert!(imports.contains(&"UIKit".to_string()));
    assert!(imports.contains(&"MyModule".to_string()));
}

#[test]
fn test_contains_import() {
    let support = SwiftImportSupport;
    let source = "import Foundation\nimport UIKit\n";
    assert!(support.contains_import(source, "Foundation"));
    assert!(support.contains_import(source, "UIKit"));
    assert!(!support.contains_import(source, "MyModule"));
}

#[test]
fn test_rewrite_imports() {
    let support = SwiftImportSupport;
    let source = "import Foundation\nimport MyModule\nimport UIKit\n";
    let (result, changes) = support.rewrite_imports_for_rename(source, "MyModule", "NewModule");
    assert_eq!(changes, 1);
    assert!(result.contains("import NewModule"));
    assert!(!result.contains("import MyModule"));
    assert!(result.contains("import Foundation"));
    assert!(result.contains("import UIKit"));
}

#[test]
fn test_remove_import() {
    let support = SwiftImportSupport;
    let result = support.remove_import("import Foundation\nimport MyModule\nimport UIKit\n", "MyModule");
    assert!(!result.contains("import MyModule"));
    assert!(result.contains("import Foundation"));
    assert!(result.contains("import UIKit"));
}

#[test]
fn test_add_import() {
    let support = SwiftImportSupport;
    let result = support.add_import("import Foundation\nimport UIKit\n", "MyModule");
    assert!(result.contains("import MyModule"));
    assert!(result.contains("import Foundation"));
    assert!(result.contains("import UIKit"));
    assert!(result.starts_with("import MyModule"));
}

#[test]
fn swift_add_then_contains_and_move() {
    let support = SwiftImportSupport;
    let added = support.add_import("let x = 1\n", "Net.Kit");
    assert!(support.contains_import(&added, "Net.Kit"));
    let (moved, n) = support.rewrite_imports_for_move("import Old\n", "src/Old.swift", "src/New.swift");
    assert_eq!((moved.as_str(), n), ("import New\n", 1));
}

#[test]
fn swift_workspace_manifest() {
    let ws = SwiftWorkspaceSupport;
    let manifest = "let package = Package(\n    name: \"App\",\n    dependencies: [\n        .package(path: \"Core\"),\n    ]\n)\n";
    assert!(ws.is_workspace_manifest(manifest));
    assert_eq!(ws.list_workspace_members(manifest), vec!["Core".to_string()]);
    let added = ws.add_workspace_member(manifest, "Net");
    assert_eq!(ws.list_workspace_members(&added), vec!["Core".to_string(), "Net".to_string()]);
    let removed = ws.remove_workspace_member(&added, "Core");
    assert_eq!(ws.list_workspace_members(&removed), vec!["Net".to_string()]);
    assert!(!ws.is_workspace_manifest("let x = 1"));
    assert_eq!(ws.add_workspace_member("no deps", "X"), "no deps");
}

// ---- C++ includes ----

#[test]
fn cpp_scan_references_finds_each_include() {
    let content = "#include <stdio.h>\n\nint main() {}\n#include \"stdio.h\"";
    let refs = codebuddy::cpp_analysis::CppAnalysisProvider.scan_references(content, "stdio").unwrap();
    assert_eq!(refs.len(), 2);
    assert_eq!((refs[0].line, refs[0].column, refs[0].length), (0, 0, 18));
    assert_eq!(refs[0].text, "stdio.h");
    assert_eq!(refs[0].kind, codebuddy::cpp_analysis::ReferenceKind::Declaration);
    // three lines precede the second include; the column is counted from the
    // start of the second line, as the plugin does
    assert_eq!((refs[1].line, refs[1].column, refs[1].length), (3, 14, 18));
    assert_eq!(refs[1].text, "stdio.h");
}

#[test]
fn cpp_scan_references_ignores_other_modules() {
    let content = "#include <stdlib.h>\n#include <vector>\n";
    let refs = codebuddy::cpp_analysis::CppAnalysisProvider.scan_references(content, "stdio").unwrap();
    assert!(refs.is_empty());
    let refs = codebuddy::cpp_analysis::CppAnalysisProvider.scan_references(content, "vector").unwrap();
    assert_eq!(refs.len(), 1);
    assert_eq!((refs[0].line, refs[0].column), (1, 20));
    assert_eq!(refs[0].text, "vector");
}

#[test]
fn cpp_import_graph_locates_includes() {
    let content = "#include <vector>\nint x;\n  #include \"foo.h\"\n";
    let g = codebuddy::cpp_analysis::CppAnalysisProvider.build_import_graph_from("main.cpp", content).unwrap();
    assert_eq!(g.source_file, "main.cpp");
    assert_eq!(g.metadata.language, "C++");
    assert_eq!(g.metadata.parser_version, "0.1.0");
    assert_eq!(g.imports.len(), 2);
    assert_eq!(g.imports[0].module, "vector");
    assert_eq!(g.imports[0].import_type, codebuddy::imports::ImportType::CInclude);
    let l0 = g.imports[0].location;
    assert_eq!((l0.start_line, l0.start_column, l0.end_line, l0.end_column), (0, 0, 0, 17));
    assert_eq!(g.imports[1].module, "foo.h");
    let l1 = g.imports[1].location;
    assert_eq!((l1.start_line, l1.start_column, l1.end_line, l1.end_column), (2, 2, 2, 18));
}

// ---- Python module trees (as the Python parser produces them) ----

fn alias(name: &str, asname: Option<&str>) -> (String, Option<String>) {
    (name.to_string(), asname.map(|a| a.to_string()))
}

fn def(name: &str, args: &[&str], body: Vec<PyStmt>, decorators: Vec<PyExpr>, is_async: bool) -> PyStmt {
    PyStmt::FunctionDef {
        name: name.to_string(),
        args: args.iter().map(|a| a.to_string()).collect(),
        body,
        decorators,
        is_async,
    }
}

fn assign(name: &str, value: PyExpr) -> PyStmt {
    PyStmt::Assign { targets: vec![PyExpr::Name(name.to_string())], value }
}

#[test]
fn test_parse_python_imports_ast() {
    let source = "\nimport os\nimport sys as system\nfrom pathlib import Path\nfrom typing import Dict, List as ArrayList\nfrom . import utils\nfrom ..config import settings\n";
    let imports = parse_python_imports_ast(source).unwrap();
    assert_eq!(imports.len(), 6);
    assert_eq!(imports[0].module, "os");
    assert_eq!(imports[0].namespace_import, Some("os".to_string()));
    assert_eq!(imports[0].import_type, ImportType::PythonImport);
    assert_eq!(imports[1].module, "sys");
    assert_eq!(imports[1].namespace_import, Some("system".to_string()));
    assert_eq!(imports[2].module, "pathlib");
    assert_eq!(imports[2].import_type, ImportType::PythonFromImport);
    assert_eq!(imports[2].named_imports[0].name, "Path");
    assert_eq!(imports[3].module, "typing");
    assert_eq!(imports[3].named_imports.len(), 2);
    assert_eq!(imports[3].named_imports[1].alias, Some("ArrayList".to_string()));
    assert_eq!(imports[4].module, ".");
    assert_eq!(imports[5].module, "..config");
}

#[test]
fn test_extract_python_functions() {
    let source = "\ndef simple_function():\n    pass\n\nasync def async_function(param1, param2):\n    return param1 + param2\n\n@decorator\ndef decorated_function():\n    def nested_function():\n        pass\n    return nested_function\n\nclass MyClass:\n    def method(self):\n        pass\n";
    let functions = extract_python_functions(source).unwrap();
    assert!(functions.len() >= 4);
    let simple_func = functions.iter().find(|f| f.name == "simple_function").unwrap();
    assert!(!simple_func.is_async);
    assert_eq!(simple_func.args.len(), 0);
    let async_func = functions.iter().find(|f| f.name == "async_function").unwrap();
    assert!(async_func.is_async);
    assert_eq!(async_func.args, vec!["param1", "param2"]);
    let decorated_func = functions.iter().find(|f| f.name == "decorated_function").unwrap();
    assert_eq!(decorated_func.decorators, vec!["decorator"]);
    let method = functions.iter().find(|f| f.name == "method").unwrap();
    assert_eq!(method.args, vec!["self"]);
}

#[test]
fn python_function_numbering() {
    let module = vec![
        PyStmt::Other,
        def("outer", &[], vec![PyStmt::Other, def("inner", &[], vec![PyStmt::Other], vec![PyExpr::Attribute("setter".to_string()), PyExpr::Other], false)], vec![], false),
    ];
    let functions = module_functions(&module);
    assert_eq!(functions.len(), 2);
    assert_eq!((functions[0].start_line, functions[0].body_start_line, functions[0].end_line), (1, 2, 4));
    assert_eq!(functions[1].name, "inner");
    assert_eq!((functions[1].start_line, functions[1].body_start_line, functions[1].end_line), (3, 4, 5));
    assert_eq!(functions[1].decorators, vec!["setter"]);
}

#[test]
fn test_extract_python_variables() {
    let source = "\nname = \"John\"\nage = 30\nis_active = True\nitems = [1, 2, 3]\nconfig = {\"key\": \"value\"}\nCONSTANT_VALUE = \"constant\"\n\ndef function():\n    local_var = 42\n";
    let variables = extract_python_variables(source).unwrap();
    assert!(variables.len() >= 6);
    let name_var = variables.iter().find(|v| v.name == "name").unwrap();
    assert!(matches!(name_var.value_type, PythonValueType::String));
    assert!(!name_var.is_constant);
    let age_var = variables.iter().find(|v| v.name == "age").unwrap();
    assert!(matches!(age_var.value_type, PythonValueType::Number));
    let active_var = variables.iter().find(|v| v.name == "is_active").unwrap();
    assert!(matches!(active_var.value_type, PythonValueType::Boolean));
    let items_var = variables.iter().find(|v| v.name == "items").unwrap();
    assert!(matches!(items_var.value_type, PythonValueType::List));
    let config_var = variables.iter().find(|v| v.name == "config").unwrap();
    assert!(matches!(config_var.value_type, PythonValueType::Dict));
    let constant_var = variables.iter().find(|v| v.name == "CONSTANT_VALUE").unwrap();
    assert!(constant_var.is_constant);
    let local_var = variables.iter().find(|v| v.name == "local_var").unwrap();
    assert!(matches!(local_var.value_type, PythonValueType::Number));
}

#[test]
fn python_parse_errors_and_outline() {
    match parse_python_module("def (:\n") {
        Err(AstError::Parse { message }) => assert!(message.starts_with("Python parsing error: ")),
        other => panic!("unexpected {:?}", other.is_ok()),
    }
    let (imports, functions, variables) = python_source_outline("import os\nX = 1\ndef f(a):\n    pass\n").unwrap();
    assert_eq!(imports.unwrap().len(), 1);
    assert_eq!(functions.unwrap()[0].args, vec!["a"]);
    assert_eq!(variables.unwrap()[0].name, "X");
}

#[test]
fn python_variables_from_several_targets_and_annotations() {
    let module = vec![
        PyStmt::Assign {
            targets: vec![PyExpr::Name("a".to_string()), PyExpr::Attribute("x".to_string()), PyExpr::Name("B".to_string())],
            value: PyExpr::TupleDisplay,
        },
        PyStmt::AnnAssign { target: PyExpr::Name("typed".to_string()) },
    ];
    let variables = module_variables(&module);
    assert_eq!(variables.len(), 3);
    assert_eq!((variables[0].name.as_str(), variables[0].line), ("a", 0));
    assert_eq!(variables[1].name, "B");
    assert!(variables[1].is_constant);
    assert!(matches!(variables[2].value_type, PythonValueType::Unknown));
    assert_eq!(variables[2].line, 1);
    assert!(matches!(infer_python_value_type(&PyExpr::SetDisplay), PythonValueType::SetValue));
    assert!(matches!(infer_python_value_type(&PyExpr::NoneConst), PythonValueType::NoneValue));
    assert!(matches!(infer_python_value_type(&PyExpr::Lambda), PythonValueType::Function));
    assert!(matches!(infer_python_value_type(&PyExpr::OtherConst), PythonValueType::Unknown));
}

#[test]
fn swift_module_patterns() {
    assert_eq!(qualified_path_pattern("Foundation"), "\\bFoundation\\.");
    assert_eq!(qualified_path_pattern("a.b"), "\\ba\\.b\\.");
    assert_eq!(
        import_pattern_for_module("UIKit"),
        "\\bimport\\s+(?:class|struct|func|enum|protocol|typealias)?\\s*UIKit\\b"
    );
    let re = regex::Regex::new(&import_pattern_for_module("Foundation")).unwrap();
    assert!(re.is_match("import class Foundation.NSObject"));
    assert!(re.is_match("import Foundation"));
    assert!(!re.is_match("import FoundationKit"));
}

#[test]
fn java_prefix_only_package_is_external() {
    assert!(is_external_import("com.examplex.Foo", "com.example"));
    assert!(!is_external_import("com.example", "com.example"));
    assert!(!is_external_import("com.example.sub.Foo", "com.example"));
}
