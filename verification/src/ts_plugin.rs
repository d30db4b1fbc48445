//! The refactorings of the TypeScript and JavaScript plugin: extracting a
//! constant, a variable or a function, and inlining a variable, each checked
//! first against swc's parser.

use vstd::prelude::*;
use crate::edit::{
    CodeRange, EditPlan, range_on_line, EditType, TextEdit, ValidationType, ValidationRule, ArgValue,
    EditPlanMetadata, now_timestamp, location_of, to_location,
};
use crate::rust_lang::{local_edit, indentation, indentation_of};
use crate::errors::PluginError;
use crate::extract_constant::{
    ExtractConstantAnalysis, analysis_result, analysis_matches, plan_matches, analyze_constant,
    plan_constant, PlanFailure,
};
use crate::literals::{LiteralSyntax, valid_literal_location, is_valid_literal_location_in,
    literal_occurrences, find_literal_occurrences_in};
use crate::naming::is_screaming_snake;
use crate::numeric::{float_syntax, is_float_syntax};
use crate::python_refactor::{ExtractVariableAnalysis, InlineVariableAnalysis, texts};
use crate::swc_parse::{ts_module_error, parse_ts_module, ts_decorated_module_error, parse_decorated_ts_module};
use crate::text::{
    str_chars, chars_to_string, append_str, has_suffix, ends_with_str, lines_of, has_prefix, contains_char,
    contains_seq, trim, trim_chars, starts_with_str, contains_str, contains_ch, chars_eq_str,
    join_with, join_chars, append_chars, split_lines, is_ws, char_is_ws,
};
use crate::python_lang::ExtractableFunction;
use crate::ts_refactor::{cuts_fit, range_text, extract_range_text, strings_chars, ts_return_line, ts_call_text,
    generate_function_call};

verus! {

fn owned(t: &str) -> (s: String)
    ensures
        s@ == t@,
{
    chars_to_string(&str_chars(t))
}

fn prefixed(prefix: &str, rest: &str) -> (s: String)
    ensures
        s@ == prefix@ + rest@,
{
    let mut v = str_chars(prefix);
    append_str(&mut v, rest);
    chars_to_string(&v)
}

/// Whether a path names a TSX file.
pub open spec fn is_tsx(file_path: Seq<char>) -> bool {
    has_suffix(file_path, ".tsx"@)
}

fn tsx_path(file_path: &str) -> (r: bool)
    ensures
        r == is_tsx(file_path@),
{
    ends_with_str(&str_chars(file_path), ".tsx")
}

/// Whether a literal at `pos` of `line` lies outside strings and comments:
/// an even number of each quote character precedes it and it does not
/// follow `//`.
pub fn is_valid_literal_location(line: &str, pos: usize, _len: usize) -> (r: bool)
    requires
        pos <= line@.len(),
    ensures
        r == valid_literal_location(LiteralSyntax::TypeScript, line@, pos as int),
{
    is_valid_literal_location_in(LiteralSyntax::TypeScript, &str_chars(line), pos)
}

/// Every occurrence of a non-empty literal in the source, line by line and
/// left to right, leaving out those inside strings or comments.
pub fn find_literal_occurrences(source: &str, literal_value: &str) -> (r: Vec<CodeRange>)
    requires
        literal_value@.len() > 0,
    ensures
        r@ == literal_occurrences(LiteralSyntax::TypeScript, source@, literal_value@),
{
    find_literal_occurrences_in(LiteralSyntax::TypeScript, source, literal_value)
}

/// The message of a parse failure of the whole file.
pub open spec fn file_parse_message(error: Seq<char>) -> Seq<char> {
    "Failed to parse file: "@ + error
}

/// Analyses the literal under the cursor for extraction into a constant,
/// once swc has accepted the file. A line past the end, like a cursor on no
/// literal, finds nothing.
pub fn analyze_extract_constant(source: &str, line: u32, character: u32, file_path: &str)
    -> (r: Result<ExtractConstantAnalysis, PluginError>)
    requires
        lines_of(source@).len() <= u32::MAX,
        line < lines_of(source@).len() ==> character <= lines_of(source@)[line as int].len(),
    ensures
        match ts_module_error(source@, file_path@, is_tsx(file_path@)) {
            Some(e) => r matches Err(PluginError::Parse(m)) && m@ == file_parse_message(e),
            None => match analysis_result(LiteralSyntax::TypeScript, source@, line as int, character as int) {
                Ok((lit, occ, ins)) => r matches Ok(a) && analysis_matches(a, lit, occ, ins),
                Err(_) => r matches Err(PluginError::Internal(m)) && m@ == "No literal found at the specified location"@,
            },
        },
{
    let tsx = tsx_path(file_path);
    match parse_ts_module(source, file_path, tsx) {
        Some(e) => {
            return Err(PluginError::Parse(prefixed("Failed to parse file: ", e.as_str())));
        },
        None => {},
    }
    match analyze_constant(LiteralSyntax::TypeScript, source, line, character) {
        Ok(a) => Ok(a),
        Err(_) => Err(PluginError::Internal(owned("No literal found at the specified location"))),
    }
}

/// The message refusing a constant name.
pub open spec fn constant_name_message(name: Seq<char>) -> Seq<char> {
    "Constant name '"@ + name + "' must be in SCREAMING_SNAKE_CASE format (e.g., TAX_RATE, MAX_VALUE)"@
}

/// Plans extracting the literal under the cursor into `const NAME = value;`
/// at the top of the file, every occurrence outside strings and comments
/// replaced by the name.
pub fn plan_extract_constant(source: &str, line: u32, character: u32, name: &str, file_path: &str)
    -> (r: Result<EditPlan, PluginError>)
    requires
        lines_of(source@).len() <= u32::MAX,
        line < lines_of(source@).len() ==> character <= lines_of(source@)[line as int].len(),
    ensures
        match ts_module_error(source@, file_path@, is_tsx(file_path@)) {
            Some(e) => r matches Err(PluginError::Parse(m)) && m@ == file_parse_message(e),
            None => match analysis_result(LiteralSyntax::TypeScript, source@, line as int, character as int) {
                Err(_) => r matches Err(PluginError::Internal(m)) && m@ == "No literal found at the specified location"@,
                Ok((lit, occ, ins)) => if lit.len() == 0 {
                    r matches Err(PluginError::Internal(m))
                        && m@ == "Cannot extract constant: Could not extract literal at cursor position"@
                } else if !is_screaming_snake(name@) {
                    r matches Err(PluginError::InvalidInput(m)) && m@ == constant_name_message(name@)
                } else {
                    r matches Ok(plan) && plan_matches(plan, LiteralSyntax::TypeScript, name@, lit, occ, ins, file_path@)
                },
            },
        },
{
    let tsx = tsx_path(file_path);
    match parse_ts_module(source, file_path, tsx) {
        Some(e) => {
            return Err(PluginError::Parse(prefixed("Failed to parse file: ", e.as_str())));
        },
        None => {},
    }
    match plan_constant(LiteralSyntax::TypeScript, source, line, character, name, file_path) {
        Ok(p) => Ok(p),
        Err(PlanFailure::Analysis(_)) => Err(PluginError::Internal(owned("No literal found at the specified location"))),
        Err(PlanFailure::InvalidLiteral) => Err(PluginError::Internal(
            owned("Cannot extract constant: Could not extract literal at cursor position"),
        )),
        Err(PlanFailure::InvalidName) => {
            let mut v = str_chars("Constant name '");
            append_str(&mut v, name);
            append_str(&mut v, "' must be in SCREAMING_SNAKE_CASE format (e.g., TAX_RATE, MAX_VALUE)");
            Err(PluginError::InvalidInput(chars_to_string(&v)))
        },
    }
}


/// Why an expression cannot be extracted into a variable, in this order: it
/// declares a function or class; it declares a variable; it holds a `;`
/// without starting with `(`.
pub open spec fn extract_blockers(e: Seq<char>) -> Seq<Seq<char>> {
    let a = if has_prefix(e, "function "@) || has_prefix(e, "class "@) {
        seq!["Cannot extract function or class declarations"@]
    } else {
        Seq::empty()
    };
    let b = if has_prefix(e, "const "@) || has_prefix(e, "let "@) || has_prefix(e, "var "@) {
        seq!["Cannot extract variable declarations"@]
    } else {
        Seq::empty()
    };
    let c = if contains_char(e, ';') && !has_prefix(e, "("@) {
        seq!["Selection contains multiple statements"@]
    } else {
        Seq::empty()
    };
    a + b + c
}

fn push_text(v: &mut Vec<String>, t: &str)
    ensures
        texts(final(v)@) == texts(old(v)@).push(t@),
{
    let ghost o = texts(v@);
    v.push(owned(t));
    assert(texts(v@) =~= o.push(t@));
}

/// Whether an expression can be extracted, and the reasons why not.
pub fn check_extractability(expression: &str) -> (r: (bool, Vec<String>))
    ensures
        texts(r.1@) == extract_blockers(expression@),
        r.0 == (extract_blockers(expression@).len() == 0),
{
    let e = str_chars(expression);
    let mut reasons: Vec<String> = Vec::new();
    let mut can_extract = true;
    if starts_with_str(&e, "function ") || starts_with_str(&e, "class ") {
        can_extract = false;
        push_text(&mut reasons, "Cannot extract function or class declarations");
    }
    if starts_with_str(&e, "const ") || starts_with_str(&e, "let ") || starts_with_str(&e, "var ") {
        can_extract = false;
        push_text(&mut reasons, "Cannot extract variable declarations");
    }
    if contains_ch(&e, ';') && !starts_with_str(&e, "(") {
        can_extract = false;
        push_text(&mut reasons, "Selection contains multiple statements");
    }
    assert(texts(reasons@) =~= extract_blockers(expression@));
    (can_extract, reasons)
}

/// The name suggested for a variable holding the (trimmed) expression.
pub open spec fn ts_suggested_name(expression: Seq<char>) -> Seq<char> {
    let e = trim(expression);
    if contains_seq(e, "getElementById"@) {
        "element"@
    } else if contains_seq(e, ".length"@) {
        "length"@
    } else if has_prefix(e, "\""@) || has_prefix(e, "'"@) || has_prefix(e, "`"@) {
        "text"@
    } else if float_syntax(e) {
        "value"@
    } else if e == "true"@ || e == "false"@ {
        "flag"@
    } else if contains_char(e, '+') || contains_char(e, '-') || contains_char(e, '*') || contains_char(e, '/') {
        "result"@
    } else if has_prefix(e, "["@) {
        "items"@
    } else if has_prefix(e, "{"@) {
        "obj"@
    } else {
        "extracted"@
    }
}

/// Suggests a name for a variable holding the expression.
pub fn suggest_variable_name(expression: &str) -> (r: String)
    ensures
        r@ == ts_suggested_name(expression@),
{
    let e = trim_chars(&str_chars(expression));
    if contains_str(&e, "getElementById") {
        owned("element")
    } else if contains_str(&e, ".length") {
        owned("length")
    } else if starts_with_str(&e, "\"") || starts_with_str(&e, "'") || starts_with_str(&e, "`") {
        owned("text")
    } else if is_float_syntax(&e) {
        owned("value")
    } else if chars_eq_str(&e, "true") || chars_eq_str(&e, "false") {
        owned("flag")
    } else if contains_ch(&e, '+') || contains_ch(&e, '-') || contains_ch(&e, '*') || contains_ch(&e, '/') {
        owned("result")
    } else if starts_with_str(&e, "[") {
        owned("items")
    } else if starts_with_str(&e, "{") {
        owned("obj")
    } else {
        owned("extracted")
    }
}

/// Analyses the selection for extraction into a variable, once swc (with
/// decorators on) has accepted the file.
pub fn analyze_extract_variable(
    source: &str,
    start_line: u32,
    start_col: u32,
    end_line: u32,
    end_col: u32,
    file_path: &str,
) -> (r: Result<ExtractVariableAnalysis, PluginError>)
    requires
        cuts_fit(lines_of(source@), CodeRange { start_line, start_col, end_line, end_col }),
    ensures
        match ts_decorated_module_error(source@, file_path@, is_tsx(file_path@)) {
            Some(e) => r matches Err(PluginError::Parse(m)) && m@ == file_parse_message(e),
            None => match range_text(lines_of(source@), CodeRange { start_line, start_col, end_line, end_col }) {
                None => r matches Err(PluginError::Internal(m)) && m@ == "Invalid line number"@,
                Some(expr) => r matches Ok(a) && {
                    &&& a.expression@ == expr
                    &&& a.expression_range == (CodeRange { start_line, start_col, end_line, end_col })
                    &&& texts(a.blocking_reasons@) == extract_blockers(expr)
                    &&& a.can_extract == (extract_blockers(expr).len() == 0)
                    &&& a.suggested_name@ == ts_suggested_name(expr)
                    &&& a.insertion_point == range_on_line(start_line as int, 0, 0)
                    &&& a.scope_type@ == "function"@
                },
            },
        },
{
    let tsx = tsx_path(file_path);
    match parse_decorated_ts_module(source, file_path, tsx) {
        Some(e) => {
            return Err(PluginError::Parse(prefixed("Failed to parse file: ", e.as_str())));
        },
        None => {},
    }
    let expression_range = CodeRange { start_line, start_col, end_line, end_col };
    let expression = match extract_range_text(source, expression_range) {
        Ok(t) => t,
        Err(_) => {
            return Err(PluginError::Internal(owned("Invalid line number")));
        },
    };
    let (can_extract, blocking_reasons) = check_extractability(expression.as_str());
    let suggested_name = suggest_variable_name(expression.as_str());
    Ok(ExtractVariableAnalysis {
        expression,
        expression_range,
        can_extract,
        suggested_name,
        insertion_point: CodeRange { start_line, start_col: 0, end_line: start_line, end_col: 0 },
        blocking_reasons,
        scope_type: owned("function"),
    })
}


/// Plans extracting the analysed expression into a variable: the declaration
/// `const name = expression;` inserted at the insertion point, followed by the
/// indentation of that line, and the expression replaced by the name (the one
/// given, or the suggested one).
pub fn extract_variable_plan(
    source: &str,
    analysis: &ExtractVariableAnalysis,
    variable_name: Option<String>,
    file_path: &str,
) -> (r: Result<EditPlan, PluginError>)
    ensures
        !analysis.can_extract ==> (r matches Err(PluginError::Internal(m))
            && m@ == "Cannot extract expression: "@ + join_with(texts(analysis.blocking_reasons@), ", "@)),
        analysis.can_extract ==> (r matches Ok(plan) && {
            let var = match variable_name {
                Some(v) => v@,
                None => analysis.suggested_name@,
            };
            let expr = analysis.expression@;
            &&& plan.source_file@ == file_path@
            &&& plan.edits@.len() == 2
            &&& local_edit(plan.edits@[0], EditType::Insert, location_of(analysis.insertion_point), Seq::empty(),
                "const "@ + var + " = "@ + expr + ";\n"@
                    + indentation(lines_of(source@), analysis.insertion_point.start_line as int),
                100, "Extract '"@ + expr + "' into variable '"@ + var + "'"@)
            &&& local_edit(plan.edits@[1], EditType::Replace, location_of(analysis.expression_range), expr, var, 90,
                "Replace expression with '"@ + var + "'"@)
            &&& plan.validations@.len() == 1
            &&& plan.validations@[0].rule_type == ValidationType::SyntaxCheck
            &&& plan.validations@[0].description@ == "Verify syntax is valid after extraction"@
            &&& plan.metadata.intent_name@ == "extract_variable"@
            &&& plan.metadata.intent_arguments@.len() == 2
            &&& plan.metadata.intent_arguments@[0].0@ == "expression"@
            &&& plan.metadata.intent_arguments@[0].1 matches ArgValue::Text(t) && t@ == expr
            &&& plan.metadata.intent_arguments@[1].0@ == "variableName"@
            &&& plan.metadata.intent_arguments@[1].1 matches ArgValue::Text(t) && t@ == var
            &&& plan.metadata.complexity == 2
            &&& plan.metadata.impact_areas@.len() == 1
            &&& plan.metadata.impact_areas@[0]@ == "variable_extraction"@
        }),
{
    if !analysis.can_extract {
        let rs = strings_chars(&analysis.blocking_reasons);
        let joined = join_chars(&rs, ", ");
        let mut m = str_chars("Cannot extract expression: ");
        append_chars(&mut m, &joined);
        return Err(PluginError::Internal(chars_to_string(&m)));
    }
    let var: String = match variable_name {
        Some(v) => v,
        None => chars_to_string(&str_chars(analysis.suggested_name.as_str())),
    };
    let expr = analysis.expression.as_str();
    let src = str_chars(source);
    let lines = split_lines(&src);
    let indent = indentation_of(&lines, analysis.insertion_point.start_line as usize);
    let mut decl = str_chars("const ");
    append_str(&mut decl, var.as_str());
    append_str(&mut decl, " = ");
    append_str(&mut decl, expr);
    append_str(&mut decl, ";\n");
    append_chars(&mut decl, &indent);
    let mut d0 = str_chars("Extract '");
    append_str(&mut d0, expr);
    append_str(&mut d0, "' into variable '");
    append_str(&mut d0, var.as_str());
    append_str(&mut d0, "'");
    let mut d1 = str_chars("Replace expression with '");
    append_str(&mut d1, var.as_str());
    append_str(&mut d1, "'");
    let mut edits: Vec<TextEdit> = Vec::new();
    edits.push(TextEdit {
        file_path: None,
        edit_type: EditType::Insert,
        location: to_location(analysis.insertion_point),
        original_text: String::new(),
        new_text: chars_to_string(&decl),
        priority: 100,
        description: chars_to_string(&d0),
    });
    edits.push(TextEdit {
        file_path: None,
        edit_type: EditType::Replace,
        location: to_location(analysis.expression_range),
        original_text: owned(expr),
        new_text: owned(var.as_str()),
        priority: 90,
        description: chars_to_string(&d1),
    });
    let mut validations: Vec<ValidationRule> = Vec::new();
    validations.push(ValidationRule {
        rule_type: ValidationType::SyntaxCheck,
        description: owned("Verify syntax is valid after extraction"),
    });
    let mut args: Vec<(String, ArgValue)> = Vec::new();
    args.push((owned("expression"), ArgValue::Text(owned(expr))));
    args.push((owned("variableName"), ArgValue::Text(owned(var.as_str()))));
    let mut areas: Vec<String> = Vec::new();
    areas.push(owned("variable_extraction"));
    Ok(EditPlan {
        source_file: owned(file_path),
        edits,
        validations,
        metadata: EditPlanMetadata {
            intent_name: owned("extract_variable"),
            intent_arguments: args,
            created_at: now_timestamp(),
            complexity: 2,
            impact_areas: areas,
        },
    })
}

/// Plans extracting the selection into a variable: the analysis, then the
/// plan built from it.
pub fn plan_extract_variable(
    source: &str,
    start_line: u32,
    start_col: u32,
    end_line: u32,
    end_col: u32,
    variable_name: Option<String>,
    file_path: &str,
) -> (r: Result<EditPlan, PluginError>)
    requires
        cuts_fit(lines_of(source@), CodeRange { start_line, start_col, end_line, end_col }),
    ensures
        match ts_decorated_module_error(source@, file_path@, is_tsx(file_path@)) {
            Some(e) => r matches Err(PluginError::Parse(m)) && m@ == file_parse_message(e),
            None => match range_text(lines_of(source@), CodeRange { start_line, start_col, end_line, end_col }) {
                None => r matches Err(PluginError::Internal(m)) && m@ == "Invalid line number"@,
                Some(expr) => if extract_blockers(expr).len() > 0 {
                    r matches Err(PluginError::Internal(m))
                        && m@ == "Cannot extract expression: "@ + join_with(extract_blockers(expr), ", "@)
                } else {
                    r matches Ok(plan) && {
                        let var = match variable_name {
                            Some(v) => v@,
                            None => ts_suggested_name(expr),
                        };
                        &&& plan.source_file@ == file_path@
                        &&& plan.edits@.len() == 2
                        &&& local_edit(plan.edits@[0], EditType::Insert, location_of(range_on_line(start_line as int, 0, 0)),
                            Seq::empty(), "const "@ + var + " = "@ + expr + ";\n"@
                                + indentation(lines_of(source@), start_line as int),
                            100, "Extract '"@ + expr + "' into variable '"@ + var + "'"@)
                        &&& local_edit(plan.edits@[1], EditType::Replace,
                            location_of(CodeRange { start_line, start_col, end_line, end_col }), expr, var, 90,
                            "Replace expression with '"@ + var + "'"@)
                        &&& plan.metadata.intent_name@ == "extract_variable"@
                    }
                },
            },
        },
{
    let analysis = analyze_extract_variable(source, start_line, start_col, end_line, end_col, file_path)?;
    extract_variable_plan(source, &analysis, variable_name, file_path)
}


/// The message of a parse failure of a module.
pub open spec fn module_parse_message(error: Seq<char>) -> Seq<char> {
    "Failed to parse module: "@ + error
}

/// The line just above `line` (the first line stays).
pub open spec fn line_above(line: u32) -> int {
    if line > 0 { line - 1 } else { 0 }
}

/// Analyses a selection for extraction into a function, once swc has
/// accepted the file: no parameters or results are resolved, the suggested
/// name is `extracted_function` and the function goes at the start of the
/// line above the selection.
pub fn analyze_extract_function(source: &str, range: &CodeRange, file_path: &str)
    -> (r: Result<ExtractableFunction, PluginError>)
    ensures
        match ts_module_error(source@, file_path@, is_tsx(file_path@)) {
            Some(e) => r matches Err(PluginError::Parse(m)) && m@ == module_parse_message(e),
            None => r matches Ok(a) && {
                &&& a.selected_range == *range
                &&& a.required_parameters@.len() == 0
                &&& a.return_variables@.len() == 0
                &&& a.suggested_name@ == "extracted_function"@
                &&& a.insertion_point == range_on_line(line_above(range.start_line), 0, 0)
                &&& !a.contains_return_statements
                &&& a.complexity_score == 1
            },
        },
{
    let tsx = tsx_path(file_path);
    match parse_ts_module(source, file_path, tsx) {
        Some(e) => {
            return Err(PluginError::Parse(prefixed("Failed to parse module: ", e.as_str())));
        },
        None => {},
    }
    let above: u32 = if range.start_line > 0 { range.start_line - 1 } else { 0 };
    Ok(ExtractableFunction {
        selected_range: *range,
        required_parameters: Vec::new(),
        return_variables: Vec::new(),
        suggested_name: owned("extracted_function"),
        insertion_point: CodeRange { start_line: above, start_col: 0, end_line: above, end_col: 0 },
        contains_return_statements: false,
        complexity_score: 1,
    })
}

/// The extracted function: a header with the parameters, the selected code
/// indented by two spaces, and the `return` line.
pub open spec fn plugin_function_text(name: Seq<char>, params: Seq<Seq<char>>, outputs: Seq<Seq<char>>, code: Seq<char>) -> Seq<char> {
    "function "@ + name + "("@ + join_with(params, ", "@) + ") {\n  "@ + code + "\n"@ + ts_return_line(outputs) + "\n}"@
}

/// Writes the extracted function around the selected code.
pub fn generate_extracted_function(source: &str, analysis: &ExtractableFunction, function_name: &str)
    -> (r: Result<String, PluginError>)
    requires
        cuts_fit(lines_of(source@), analysis.selected_range),
    ensures
        match range_text(lines_of(source@), analysis.selected_range) {
            None => r matches Err(PluginError::Internal(m)) && m@ == "Invalid line number"@,
            Some(code) => r matches Ok(s) && s@ == plugin_function_text(function_name@,
                texts(analysis.required_parameters@), texts(analysis.return_variables@), code),
        },
{
    let code = match extract_range_text(source, analysis.selected_range) {
        Ok(t) => t,
        Err(_) => {
            return Err(PluginError::Internal(owned("Invalid line number")));
        },
    };
    let params = strings_chars(&analysis.required_parameters);
    let outs = strings_chars(&analysis.return_variables);
    let mut out = str_chars("function ");
    append_str(&mut out, function_name);
    append_str(&mut out, "(");
    let jp = join_chars(&params, ", ");
    append_chars(&mut out, &jp);
    append_str(&mut out, ") {\n  ");
    append_str(&mut out, code.as_str());
    append_str(&mut out, "\n");
    if outs.len() == 1 {
        append_str(&mut out, "  return ");
        append_chars(&mut out, &outs[0]);
        append_str(&mut out, ";");
    } else if outs.len() > 1 {
        append_str(&mut out, "  return { ");
        let jo = join_chars(&outs, ", ");
        append_chars(&mut out, &jo);
        append_str(&mut out, " };");
    }
    append_str(&mut out, "\n}");
    Ok(chars_to_string(&out))
}

/// The selection of `plan_extract_function`: whole lines from `start_line`
/// to the end of `end_line` (column 0 when that line does not exist).
pub open spec fn whole_lines(source: Seq<char>, start_line: u32, end_line: u32) -> CodeRange {
    let lines = lines_of(source);
    CodeRange {
        start_line,
        start_col: 0,
        end_line,
        end_col: if end_line < lines.len() { lines[end_line as int].len() as u32 } else { 0 },
    }
}

/// Plans extracting lines `start_line..=end_line` into a function: the
/// function inserted above the selection, the selection replaced by its call.
pub fn plan_extract_function(source: &str, start_line: u32, end_line: u32, new_function_name: &str, file_path: &str)
    -> (r: Result<EditPlan, PluginError>)
    requires
        end_line < lines_of(source@).len() ==> lines_of(source@)[end_line as int].len() <= u32::MAX,
    ensures
        match ts_module_error(source@, file_path@, is_tsx(file_path@)) {
            Some(e) => r matches Err(PluginError::Parse(m)) && m@ == module_parse_message(e),
            None => match range_text(lines_of(source@), whole_lines(source@, start_line, end_line)) {
                None => r matches Err(PluginError::Internal(m)) && m@ == "Invalid line number"@,
                Some(code) => r matches Ok(plan) && {
                    let sel = whole_lines(source@, start_line, end_line);
                    let empty = Seq::<Seq<char>>::empty();
                    &&& plan.source_file@ == file_path@
                    &&& plan.edits@.len() == 2
                    &&& local_edit(plan.edits@[0], EditType::Insert,
                        location_of(range_on_line(line_above(start_line), 0, 0)), Seq::empty(),
                        "\n"@ + plugin_function_text(new_function_name@, empty, empty, code) + "\n"@, 100,
                        "Create extracted function '"@ + new_function_name@ + "'"@)
                    &&& local_edit(plan.edits@[1], EditType::Replace, location_of(sel), code,
                        ts_call_text(new_function_name@, empty, empty), 90,
                        "Replace selected code with call to '"@ + new_function_name@ + "'"@)
                    &&& plan.validations@.len() == 2
                    &&& plan.validations@[0].rule_type == ValidationType::SyntaxCheck
                    &&& plan.validations@[0].description@ == "Verify syntax is valid after extraction"@
                    &&& plan.validations@[1].rule_type == ValidationType::TypeCheck
                    &&& plan.validations@[1].description@ == "Verify types are consistent"@
                    &&& plan.metadata.intent_name@ == "extract_function"@
                    &&& plan.metadata.complexity == 1
                    &&& plan.metadata.impact_areas@.len() == 1
                    &&& plan.metadata.impact_areas@[0]@ == "function_extraction"@
                },
            },
        },
{
    let src = str_chars(source);
    let lines = split_lines(&src);
    let end_col: u32 = if (end_line as usize) < lines.len() {
        assert(lines@[end_line as int]@ == lines_of(source@)[end_line as int]);
        lines[end_line as usize].len() as u32
    } else {
        0
    };
    let range = CodeRange { start_line, start_col: 0, end_line, end_col };
    assert(range == whole_lines(source@, start_line, end_line));
    let analysis = analyze_extract_function(source, &range, file_path)?;
    let code = generate_extracted_function(source, &analysis, new_function_name)?;
    let call = match generate_function_call(&analysis, new_function_name) {
        Ok(c) => c,
        Err(_) => {
            return Err(PluginError::Internal(owned("Invalid line number")));
        },
    };
    let selected = match extract_range_text(source, analysis.selected_range) {
        Ok(t) => t,
        Err(_) => {
            return Err(PluginError::Internal(owned("Invalid line number")));
        },
    };
    assert(texts(analysis.required_parameters@) =~= Seq::<Seq<char>>::empty());
    assert(texts(analysis.return_variables@) =~= Seq::<Seq<char>>::empty());
    let mut new_text = str_chars("\n");
    append_str(&mut new_text, code.as_str());
    append_str(&mut new_text, "\n");
    let mut d0 = str_chars("Create extracted function '");
    append_str(&mut d0, new_function_name);
    append_str(&mut d0, "'");
    let mut d1 = str_chars("Replace selected code with call to '");
    append_str(&mut d1, new_function_name);
    append_str(&mut d1, "'");
    let mut edits: Vec<TextEdit> = Vec::new();
    edits.push(TextEdit {
        file_path: None,
        edit_type: EditType::Insert,
        location: to_location(analysis.insertion_point),
        original_text: String::new(),
        new_text: chars_to_string(&new_text),
        priority: 100,
        description: chars_to_string(&d0),
    });
    edits.push(TextEdit {
        file_path: None,
        edit_type: EditType::Replace,
        location: to_location(analysis.selected_range),
        original_text: selected,
        new_text: call,
        priority: 90,
        description: chars_to_string(&d1),
    });
    let mut validations: Vec<ValidationRule> = Vec::new();
    validations.push(ValidationRule { rule_type: ValidationType::SyntaxCheck, description: owned("Verify syntax is valid after extraction") });
    validations.push(ValidationRule { rule_type: ValidationType::TypeCheck, description: owned("Verify types are consistent") });
    let mut args: Vec<(String, ArgValue)> = Vec::new();
    args.push((owned("start_line"), ArgValue::Number(range.start_line as u64)));
    args.push((owned("start_col"), ArgValue::Number(range.start_col as u64)));
    args.push((owned("end_line"), ArgValue::Number(range.end_line as u64)));
    args.push((owned("end_col"), ArgValue::Number(range.end_col as u64)));
    args.push((owned("function_name"), ArgValue::Text(owned(new_function_name))));
    let mut areas: Vec<String> = Vec::new();
    areas.push(owned("function_extraction"));
    Ok(EditPlan {
        source_file: owned(file_path),
        edits,
        validations,
        metadata: EditPlanMetadata {
            intent_name: owned("extract_function"),
            intent_arguments: args,
            created_at: now_timestamp(),
            complexity: 1,
            impact_areas: areas,
        },
    })
}


/// Looks for the variable declared at `variable_line`, once swc has accepted
/// the file. No declaration is resolved, so past the parse this always
/// reports that none was found.
pub fn analyze_inline_variable(source: &str, _variable_line: u32, _variable_col: u32, file_path: &str)
    -> (r: Result<InlineVariableAnalysis, PluginError>)
    ensures
        match ts_module_error(source@, file_path@, is_tsx(file_path@)) {
            Some(e) => r matches Err(PluginError::Parse(m)) && m@ == module_parse_message(e),
            None => r matches Err(PluginError::Internal(m))
                && m@ == "Could not find variable declaration at specified location"@,
        },
{
    let tsx = tsx_path(file_path);
    match parse_ts_module(source, file_path, tsx) {
        Some(e) => Err(PluginError::Parse(prefixed("Failed to parse module: ", e.as_str()))),
        None => Err(PluginError::Internal(owned("Could not find variable declaration at specified location"))),
    }
}

/// An initializer that needs parentheses where it replaces a use: one with
/// whitespace or an arithmetic operator in it.
pub open spec fn needs_parens(init: Seq<char>) -> bool {
    exists|i: int| 0 <= i < init.len() && (is_ws(#[trigger] init[i]) || init[i] == '+' || init[i] == '-'
        || init[i] == '*' || init[i] == '/' || init[i] == '%')
}

/// The text replacing each use of the inlined variable.
pub open spec fn inline_replacement(init: Seq<char>) -> Seq<char> {
    if needs_parens(init) { "("@ + init + ")"@ } else { init }
}

fn has_operator_or_space(init: &Vec<char>) -> (r: bool)
    ensures
        r == needs_parens(init@),
{
    let mut i: usize = 0;
    while i < init.len()
        invariant
            i <= init@.len(),
            forall|j: int| 0 <= j < i ==> !(is_ws(#[trigger] init@[j]) || init@[j] == '+' || init@[j] == '-'
                || init@[j] == '*' || init@[j] == '/' || init@[j] == '%'),
        decreases init@.len() - i,
    {
        let c = init[i];
        if char_is_ws(c) || c == '+' || c == '-' || c == '*' || c == '/' || c == '%' {
            return true;
        }
        i = i + 1;
    }
    false
}

/// Plans inlining an analysed variable: each use (priorities counting down
/// from 100) becomes the initializer, parenthesised when it holds whitespace
/// or an operator, and the declaration is deleted.
pub fn inline_variable_plan(source: &str, analysis: &InlineVariableAnalysis) -> (r: Result<EditPlan, PluginError>)
    requires
        analysis.usage_locations@.len() <= 100,
        cuts_fit(lines_of(source@), analysis.declaration_range),
    ensures
        !analysis.is_safe_to_inline ==> (r matches Err(PluginError::Internal(m)) && m@ == "Cannot safely inline variable '"@
            + analysis.variable_name@ + "': "@ + join_with(texts(analysis.blocking_reasons@), ", "@)),
        analysis.is_safe_to_inline && range_text(lines_of(source@), analysis.declaration_range) is None ==>
            (r matches Err(PluginError::Internal(m)) && m@ == "Invalid line number"@),
        analysis.is_safe_to_inline && range_text(lines_of(source@), analysis.declaration_range) is Some ==> (r matches Ok(plan) && {
            let n = analysis.usage_locations@.len();
            let name = analysis.variable_name@;
            &&& plan.source_file@ == "inline_variable"@
            &&& plan.edits@.len() == n + 1
            &&& forall|k: int| 0 <= k < n ==> local_edit(#[trigger] plan.edits@[k], EditType::Replace,
                location_of(analysis.usage_locations@[k]), name, inline_replacement(analysis.initializer_expression@),
                (100 - k) as u32, "Replace '"@ + name + "' with its value"@)
            &&& local_edit(plan.edits@[n as int], EditType::Delete, location_of(analysis.declaration_range),
                range_text(lines_of(source@), analysis.declaration_range)->0, Seq::empty(), 50,
                "Remove declaration of '"@ + name + "'"@)
            &&& plan.validations@.len() == 1
            &&& plan.validations@[0].rule_type == ValidationType::SyntaxCheck
            &&& plan.validations@[0].description@ == "Verify syntax is valid after inlining"@
            &&& plan.metadata.intent_name@ == "inline_variable"@
            &&& plan.metadata.complexity as int == if n < 10 { n as int } else { 10 }
            &&& plan.metadata.impact_areas@.len() == 1
            &&& plan.metadata.impact_areas@[0]@ == "variable_inlining"@
        }),
{
    if !analysis.is_safe_to_inline {
        let rs = strings_chars(&analysis.blocking_reasons);
        let joined = join_chars(&rs, ", ");
        let mut m = str_chars("Cannot safely inline variable '");
        append_str(&mut m, analysis.variable_name.as_str());
        append_str(&mut m, "': ");
        append_chars(&mut m, &joined);
        return Err(PluginError::Internal(chars_to_string(&m)));
    }
    let init = str_chars(analysis.initializer_expression.as_str());
    let replacement: Vec<char> = if has_operator_or_space(&init) {
        let mut p = str_chars("(");
        append_chars(&mut p, &init);
        append_str(&mut p, ")");
        p
    } else {
        init
    };
    let mut d = str_chars("Replace '");
    append_str(&mut d, analysis.variable_name.as_str());
    append_str(&mut d, "' with its value");
    let n = analysis.usage_locations.len();
    let mut edits: Vec<TextEdit> = Vec::new();
    let mut priority: u32 = 100;
    let mut k: usize = 0;
    while k < n
        invariant
            k <= n == analysis.usage_locations@.len() <= 100,
            priority == 100 - k,
            replacement@ == inline_replacement(analysis.initializer_expression@),
            d@ == "Replace '"@ + analysis.variable_name@ + "' with its value"@,
            edits@.len() == k,
            forall|j: int| 0 <= j < k ==> local_edit(#[trigger] edits@[j], EditType::Replace,
                location_of(analysis.usage_locations@[j]), analysis.variable_name@,
                inline_replacement(analysis.initializer_expression@), (100 - j) as u32,
                "Replace '"@ + analysis.variable_name@ + "' with its value"@),
        decreases n - k,
    {
        edits.push(TextEdit {
            file_path: None,
            edit_type: EditType::Replace,
            location: to_location(analysis.usage_locations[k]),
            original_text: owned(analysis.variable_name.as_str()),
            new_text: chars_to_string(&replacement),
            priority,
            description: chars_to_string(&d),
        });
        priority = priority - 1;
        k = k + 1;
    }
    let declaration = match extract_range_text(source, analysis.declaration_range) {
        Ok(t) => t,
        Err(_) => {
            return Err(PluginError::Internal(owned("Invalid line number")));
        },
    };
    let mut dd = str_chars("Remove declaration of '");
    append_str(&mut dd, analysis.variable_name.as_str());
    append_str(&mut dd, "'");
    let ghost before = edits@;
    edits.push(TextEdit {
        file_path: None,
        edit_type: EditType::Delete,
        location: to_location(analysis.declaration_range),
        original_text: declaration,
        new_text: String::new(),
        priority: 50,
        description: chars_to_string(&dd),
    });
    assert forall|j: int| 0 <= j < n implies local_edit(#[trigger] edits@[j], EditType::Replace,
        location_of(analysis.usage_locations@[j]), analysis.variable_name@,
        inline_replacement(analysis.initializer_expression@), (100 - j) as u32,
        "Replace '"@ + analysis.variable_name@ + "' with its value"@) by {
        assert(edits@[j] == before[j]);
    }
    let mut validations: Vec<ValidationRule> = Vec::new();
    validations.push(ValidationRule { rule_type: ValidationType::SyntaxCheck, description: owned("Verify syntax is valid after inlining") });
    let mut args: Vec<(String, ArgValue)> = Vec::new();
    args.push((owned("variable"), ArgValue::Text(owned(analysis.variable_name.as_str()))));
    let mut areas: Vec<String> = Vec::new();
    areas.push(owned("variable_inlining"));
    let complexity: u8 = if n < 10 { n as u8 } else { 10 };
    Ok(EditPlan {
        source_file: owned("inline_variable"),
        edits,
        validations,
        metadata: EditPlanMetadata {
            intent_name: owned("inline_variable"),
            intent_arguments: args,
            created_at: now_timestamp(),
            complexity,
            impact_areas: areas,
        },
    })
}

/// Plans inlining the variable declared at `variable_line`: the analysis
/// finds no declaration, so this reports the analysis's error.
pub fn plan_inline_variable(source: &str, variable_line: u32, variable_col: u32, file_path: &str)
    -> (r: Result<EditPlan, PluginError>)
    ensures
        match ts_module_error(source@, file_path@, is_tsx(file_path@)) {
            Some(e) => r matches Err(PluginError::Parse(m)) && m@ == module_parse_message(e),
            None => r matches Err(PluginError::Internal(m))
                && m@ == "Could not find variable declaration at specified location"@,
        },
{
    match analyze_inline_variable(source, variable_line, variable_col, file_path) {
        Ok(_) => Err(PluginError::Internal(owned("Could not find variable declaration at specified location"))),
        Err(e) => Err(e),
    }
}

} // verus!
