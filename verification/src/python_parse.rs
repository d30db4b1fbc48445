//! Parsing Python source with rustpython, and the imports, functions and
//! variables of the parsed module.

use vstd::prelude::*;
use crate::imports::ImportInfo;
use crate::package_extractor::AstError;
use crate::python_ast::{PythonFunction, PythonVariable};
use crate::python_tree::{
    PyExpr, PyStmt, body_fits, body_fits_exec, module_imports, import_is, module_import_infos, body_functions,
    function_is, module_functions, body_variables, variable_is, module_variables,
};
use crate::text::{str_chars, chars_to_string, append_str};

verus! {

#[verifier::external_type_specification]
#[verifier::external_body]
#[verifier::reject_recursive_types(R)]
pub struct ExPyAstStmt<R>(rustpython_parser::ast::Stmt<R>);

#[verifier::external_type_specification]
#[verifier::external_body]
#[verifier::reject_recursive_types(R)]
pub struct ExPyAstExpr<R>(rustpython_parser::ast::Expr<R>);

#[verifier::external_type_specification]
#[verifier::external_body]
#[verifier::reject_recursive_types(R)]
pub struct ExPyAstAlias<R>(rustpython_parser::ast::Alias<R>);

#[verifier::external_type_specification]
#[verifier::external_body]
pub struct ExPyAstConstant(rustpython_parser::ast::Constant);

#[verifier::external_type_specification]
#[verifier::external_body]
pub struct ExPyTextRange(rustpython_parser::text_size::TextRange);

/// The statements rustpython's `parse_program` gives for `source`, one model
/// node for each of its nodes, or the text of its parse error.
pub uninterp spec fn python_statements_of(source: Seq<char>) -> Result<Seq<PyStmt>, Seq<char>>;

/// The kind of a constant.
#[verifier::external_body]
fn py_constant(c: &rustpython_parser::ast::Constant) -> (r: PyExpr) {
    match c {
        rustpython_parser::ast::Constant::Str(_) => PyExpr::StrConst,
        rustpython_parser::ast::Constant::Int(_) | rustpython_parser::ast::Constant::Float(_) => PyExpr::NumberConst,
        rustpython_parser::ast::Constant::Bool(_) => PyExpr::BoolConst,
        rustpython_parser::ast::Constant::None => PyExpr::NoneConst,
        _ => PyExpr::OtherConst,
    }
}

/// The model of an expression: its kind, and the name of a name or attribute.
#[verifier::external_body]
fn py_expr(e: &rustpython_parser::ast::Expr) -> (r: PyExpr) {
    match e {
        rustpython_parser::ast::Expr::Constant(c) => py_constant(&c.value),
        rustpython_parser::ast::Expr::List(_) => PyExpr::ListDisplay,
        rustpython_parser::ast::Expr::Dict(_) => PyExpr::DictDisplay,
        rustpython_parser::ast::Expr::Tuple(_) => PyExpr::TupleDisplay,
        rustpython_parser::ast::Expr::Set(_) => PyExpr::SetDisplay,
        rustpython_parser::ast::Expr::Lambda(_) => PyExpr::Lambda,
        rustpython_parser::ast::Expr::Name(n) => PyExpr::Name(n.id.to_string()),
        rustpython_parser::ast::Expr::Attribute(a) => PyExpr::Attribute(a.attr.to_string()),
        _ => PyExpr::Other,
    }
}

/// The models of a list of expressions.
#[verifier::external_body]
fn py_exprs(es: &[rustpython_parser::ast::Expr]) -> (r: Vec<PyExpr>) {
    es.iter().map(py_expr).collect()
}

/// The (name, alias) pairs of an import.
#[verifier::external_body]
fn py_aliases(names: &[rustpython_parser::ast::Alias]) -> (r: Vec<(String, Option<String>)>) {
    names.iter().map(|a| (a.name.to_string(), a.asname.as_ref().map(|n| n.to_string()))).collect()
}

/// The model of an `import` or `from ... import` statement.
#[verifier::external_body]
fn py_import(s: &rustpython_parser::ast::Stmt) -> (r: PyStmt) {
    match s {
        rustpython_parser::ast::Stmt::Import(i) => PyStmt::Import { names: py_aliases(&i.names) },
        rustpython_parser::ast::Stmt::ImportFrom(i) => PyStmt::ImportFrom {
            module: i.module.as_ref().map(|m| m.to_string()),
            names: py_aliases(&i.names),
            level: i.level.as_ref().map(|l| l.to_u32()),
        },
        _ => PyStmt::Other,
    }
}

/// The model of a function definition (`async def` too).
#[verifier::external_body]
fn py_function(s: &rustpython_parser::ast::Stmt) -> (r: PyStmt) {
    match s {
        rustpython_parser::ast::Stmt::FunctionDef(f) => PyStmt::FunctionDef { name: f.name.to_string(),
            args: f.args.args.iter().map(|a| a.def.arg.to_string()).collect(),
            body: py_stmts(&f.body), decorators: py_exprs(&f.decorator_list), is_async: false },
        rustpython_parser::ast::Stmt::AsyncFunctionDef(f) => PyStmt::FunctionDef { name: f.name.to_string(),
            args: f.args.args.iter().map(|a| a.def.arg.to_string()).collect(),
            body: py_stmts(&f.body), decorators: py_exprs(&f.decorator_list), is_async: true },
        _ => PyStmt::Other,
    }
}

/// The model of a class definition or an assignment.
#[verifier::external_body]
fn py_class_or_assign(s: &rustpython_parser::ast::Stmt) -> (r: PyStmt) {
    match s {
        rustpython_parser::ast::Stmt::ClassDef(c) => PyStmt::ClassDef { body: py_stmts(&c.body) },
        rustpython_parser::ast::Stmt::Assign(a) => PyStmt::Assign { targets: py_exprs(&a.targets), value: py_expr(&a.value) },
        rustpython_parser::ast::Stmt::AnnAssign(a) => PyStmt::AnnAssign { target: py_expr(&a.target) },
        _ => PyStmt::Other,
    }
}

/// The model of a statement.
#[verifier::external_body]
fn py_stmt(s: &rustpython_parser::ast::Stmt) -> (r: PyStmt) {
    match s {
        rustpython_parser::ast::Stmt::Import(_) | rustpython_parser::ast::Stmt::ImportFrom(_) => py_import(s),
        rustpython_parser::ast::Stmt::FunctionDef(_) | rustpython_parser::ast::Stmt::AsyncFunctionDef(_) => py_function(s),
        rustpython_parser::ast::Stmt::ClassDef(_) | rustpython_parser::ast::Stmt::Assign(_) | rustpython_parser::ast::Stmt::AnnAssign(_) => py_class_or_assign(s),
        _ => PyStmt::Other,
    }
}

/// The models of a list of statements.
#[verifier::external_body]
fn py_stmts(ss: &[rustpython_parser::ast::Stmt]) -> (r: Vec<PyStmt>) {
    ss.iter().map(py_stmt).collect()
}

/// Calls `rustpython_parser::parse_program` on `source` (named `<string>`),
/// handing out the module as the library's statement model, or the error's
/// display text. The result is named, not described.
#[verifier::external_body]
pub(crate) fn parse_python_statements(source: &str) -> (r: Result<Vec<PyStmt>, String>)
    ensures
        match r {
            Ok(v) => python_statements_of(source@) == Ok::<Seq<PyStmt>, Seq<char>>(v@),
            Err(e) => python_statements_of(source@) == Err::<Seq<PyStmt>, Seq<char>>(e@),
        },
{
    match rustpython_parser::parse_program(source, "<string>") {
        Ok(program) => Ok(py_stmts(&program)),
        Err(e) => Err(e.to_string()),
    }
}

/// The message of a Python parse failure.
pub open spec fn python_parse_message(error: Seq<char>) -> Seq<char> {
    "Python parsing error: "@ + error
}

/// Parses a Python module into the library's statement model.
pub fn parse_python_module(source: &str) -> (r: Result<Vec<PyStmt>, AstError>)
    ensures
        match python_statements_of(source@) {
            Ok(b) => r matches Ok(v) && v@ == b,
            Err(e) => r matches Err(AstError::Parse { message }) && message@ == python_parse_message(e),
        },
{
    match parse_python_statements(source) {
        Ok(v) => Ok(v),
        Err(e) => {
            let mut m = str_chars("Python parsing error: ");
            append_str(&mut m, e.as_str());
            Err(AstError::Parse { message: chars_to_string(&m) })
        },
    }
}

/// Every number the walks of the parsed module compute fits (a module too
/// large breaks the original's counters).
pub open spec fn python_numbers_fit(source: Seq<char>) -> bool {
    match python_statements_of(source) {
        Ok(b) => b.len() <= u32::MAX && body_fits(b, 0, b.len() as int),
        Err(_) => true,
    }
}

/// `r` reports the imports of the parsed `source`, or its parse error.
pub open spec fn imports_reported(source: Seq<char>, r: Result<Vec<ImportInfo>, AstError>) -> bool {
    match python_statements_of(source) {
        Ok(b) => r matches Ok(v) && v@.len() == module_imports(b, b.len() as int).len()
            && forall|k: int| 0 <= k < v@.len() ==> import_is(#[trigger] v@[k], module_imports(b, b.len() as int)[k]),
        Err(e) => r matches Err(AstError::Parse { message }) && message@ == python_parse_message(e),
    }
}

/// `r` reports the functions of the parsed `source`, or its parse error.
pub open spec fn functions_reported(source: Seq<char>, r: Result<Vec<PythonFunction>, AstError>) -> bool {
    match python_statements_of(source) {
        Ok(b) => r matches Ok(v) && v@.len() == body_functions(b, 0, b.len() as int).len()
            && forall|k: int| 0 <= k < v@.len() ==> function_is(#[trigger] v@[k], body_functions(b, 0, b.len() as int)[k]),
        Err(e) => r matches Err(AstError::Parse { message }) && message@ == python_parse_message(e),
    }
}

/// `r` reports the variables of the parsed `source`, or its parse error.
pub open spec fn variables_reported(source: Seq<char>, r: Result<Vec<PythonVariable>, AstError>) -> bool {
    match python_statements_of(source) {
        Ok(b) => r matches Ok(v) && v@.len() == body_variables(b, 0, b.len() as int).len()
            && forall|k: int| 0 <= k < v@.len() ==> variable_is(#[trigger] v@[k], body_variables(b, 0, b.len() as int)[k]),
        Err(e) => r matches Err(AstError::Parse { message }) && message@ == python_parse_message(e),
    }
}

/// The imports of a Python source file, one for each `import` name and one
/// for each `from ... import`, numbered by top-level statement.
pub fn parse_python_imports_ast(source: &str) -> (r: Result<Vec<ImportInfo>, AstError>)
    requires
        python_numbers_fit(source@),
    ensures
        imports_reported(source@, r),
{
    let module = parse_python_module(source)?;
    Ok(module_import_infos(&module))
}

/// The function definitions of a Python source file, nested ones included.
pub fn extract_python_functions(source: &str) -> (r: Result<Vec<PythonFunction>, AstError>)
    requires
        python_numbers_fit(source@),
    ensures
        functions_reported(source@, r),
{
    let module = parse_python_module(source)?;
    Ok(module_functions(&module))
}

/// The variable assignments of a Python source file.
pub fn extract_python_variables(source: &str) -> (r: Result<Vec<PythonVariable>, AstError>)
    requires
        python_numbers_fit(source@),
    ensures
        variables_reported(source@, r),
{
    let module = parse_python_module(source)?;
    Ok(module_variables(&module))
}

/// The imports, functions and variables of a Python source file, each
/// computed from its own parse, or `None` when the parsed module is too
/// large for the statement counters.
pub fn python_source_outline(source: &str)
    -> (r: Option<(Result<Vec<ImportInfo>, AstError>, Result<Vec<PythonFunction>, AstError>, Result<Vec<PythonVariable>, AstError>)>)
    ensures
        r is Some <==> python_numbers_fit(source@),
        r matches Some((a, b, c)) ==> imports_reported(source@, a) && functions_reported(source@, b)
            && variables_reported(source@, c),
{
    match parse_python_statements(source) {
        Ok(module) => {
            if module.len() as u64 > 4294967295u64 || !body_fits_exec(&module, 0) {
                return None;
            }
        },
        Err(_) => {},
    }
    Some((parse_python_imports_ast(source), extract_python_functions(source), extract_python_variables(source)))
}

} // verus!
