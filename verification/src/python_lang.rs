//! Python plugin: extract-constant refactoring, variable naming and helper
//! analyses on Python source text.

use vstd::prelude::*;
use crate::edit::{CodeRange, range_on_line, make_range, EditPlan};
use crate::errors::RefactoringError;
use crate::extract_constant::{
    ExtractConstantAnalysis, AnalysisFailure, PlanFailure, analysis_result, analysis_matches,
    analyze_constant, plan_constant, plan_matches, insertion_line, find_insertion_line, literal_at,
    find_literal_at, keyword_at_cursor,
};
use crate::literals::{
    LiteralSyntax, literal_occurrences, find_literal_occurrences_in, valid_literal_location,
    is_valid_literal_location_in, number_literal_at, find_number_literal, string_literal_at,
    find_string_literal_span, keyword_literal_at, find_keyword_literal,
};
use crate::naming::is_screaming_snake;
use crate::numeric::{float_syntax, is_float_syntax};
use crate::text::{
    str_chars, chars_to_string, split_lines, vv, lines_of, trim, trim_chars, has_prefix, contains_seq,
    contains_char, starts_with_str, contains_str, contains_ch, chars_eq_str, append_str, append_chars,
    slice_chars, join_with, join_chars,
};

verus! {

/// The variable name suggested for an extracted expression, judged on the
/// trimmed expression: calls of `len(`, `.split(`, `.join(`, string literals,
/// numbers, booleans, lists, dicts and arithmetic each have their own name.
pub open spec fn suggested_name(expression: Seq<char>) -> Seq<char> {
    let e = trim(expression);
    if contains_seq(e, "len("@) {
        "length"@
    } else if contains_seq(e, ".split("@) {
        "parts"@
    } else if contains_seq(e, ".join("@) {
        "joined"@
    } else if has_prefix(e, "\""@) || has_prefix(e, "'"@) {
        "text"@
    } else if float_syntax(e) {
        "value"@
    } else if e == "True"@ || e == "False"@ {
        "flag"@
    } else if has_prefix(e, "["@) {
        "items"@
    } else if has_prefix(e, "{"@) {
        "data"@
    } else if contains_char(e, '+') || contains_char(e, '-') || contains_char(e, '*') || contains_char(e, '/') {
        "result"@
    } else {
        "extracted"@
    }
}

fn owned(t: &str) -> (s: String)
    ensures
        s@ == t@,
{
    let v = str_chars(t);
    chars_to_string(&v)
}

/// Suggests a Python variable name for an extracted expression.
pub fn suggest_variable_name(expression: &str) -> (r: String)
    ensures
        r@ == suggested_name(expression@),
{
    let raw = str_chars(expression);
    let e = trim_chars(&raw);
    if contains_str(&e, "len(") {
        return owned("length");
    }
    if contains_str(&e, ".split(") {
        return owned("parts");
    }
    if contains_str(&e, ".join(") {
        return owned("joined");
    }
    if starts_with_str(&e, "\"") || starts_with_str(&e, "'") {
        return owned("text");
    }
    if is_float_syntax(&e) {
        return owned("value");
    }
    if chars_eq_str(&e, "True") || chars_eq_str(&e, "False") {
        return owned("flag");
    }
    if starts_with_str(&e, "[") {
        return owned("items");
    }
    if starts_with_str(&e, "{") {
        return owned("data");
    }
    if contains_ch(&e, '+') || contains_ch(&e, '-') || contains_ch(&e, '*') || contains_ch(&e, '/') {
        return owned("result");
    }
    owned("extracted")
}

/// Finds the Python literal under the cursor: a number, then a string, then
/// `True`, `False` or `None`; the range is on line 0.
pub fn find_python_literal_at_position(line_text: &str, col: usize) -> (r: Option<(String, CodeRange)>)
    ensures
        match r {
            Some((t, rg)) => literal_at(LiteralSyntax::Python, line_text@, col as int) == Some((t@, rg)),
            None => literal_at(LiteralSyntax::Python, line_text@, col as int) is None,
        },
{
    let l = str_chars(line_text);
    find_literal_at(LiteralSyntax::Python, &l, col)
}

/// Finds the number (digits, `.`, a leading `-`) under the cursor.
pub fn find_python_numeric_literal(line_text: &str, col: usize) -> (r: Option<(String, CodeRange)>)
    ensures
        match r {
            Some((t, rg)) => number_literal_at(line_text@, col as int) == Some((t@, rg)),
            None => number_literal_at(line_text@, col as int) is None,
        },
{
    let l = str_chars(line_text);
    find_number_literal(&l, col)
}

/// Finds the string literal (quoted with `'`, `"`, `'''` or `"""`) under the cursor.
pub fn find_python_string_literal(line_text: &str, col: usize) -> (r: Option<(String, CodeRange)>)
    ensures
        match r {
            Some((t, rg)) => string_literal_at(line_text@, col as int) matches Some((i, e))
                && t@ == line_text@.subrange(i, e) && rg == range_on_line(0, i, e),
            None => string_literal_at(line_text@, col as int) is None,
        },
{
    let l = str_chars(line_text);
    match find_string_literal_span(&l, col) {
        Some((i, e)) => {
            let t = slice_chars(&l, i, e);
            Some((chars_to_string(&t), make_range(0, i, e)))
        },
        None => None,
    }
}

/// Finds `True`, `False` or `None` under the cursor, in that order.
pub fn find_python_keyword_literal(line_text: &str, col: usize) -> (r: Option<(String, CodeRange)>)
    ensures
        match r {
            Some((t, rg)) => keyword_at_cursor(line_text@, seq!["True"@, "False"@, "None"@], col as int)
                == Some((t@, rg)),
            None => keyword_at_cursor(line_text@, seq!["True"@, "False"@, "None"@], col as int) is None,
        },
{
    let l = str_chars(line_text);
    let ghost s = line_text@;
    let ghost c = col as int;
    assert(seq!["True"@, "False"@, "None"@].drop_first() =~= seq!["False"@, "None"@]);
    assert(seq!["False"@, "None"@].drop_first() =~= seq!["None"@]);
    assert(seq!["None"@].drop_first() =~= Seq::<Seq<char>>::empty());
    assert(keyword_at_cursor(s, Seq::<Seq<char>>::empty(), c) is None);
    assert(keyword_at_cursor(s, seq!["True"@, "False"@, "None"@], c) == match keyword_literal_at(s, "True"@, c) {
        Some(st) => Some(("True"@, range_on_line(0, st, st + "True"@.len()))),
        None => keyword_at_cursor(s, seq!["False"@, "None"@], c),
    });
    assert(keyword_at_cursor(s, seq!["False"@, "None"@], c) == match keyword_literal_at(s, "False"@, c) {
        Some(st) => Some(("False"@, range_on_line(0, st, st + "False"@.len()))),
        None => keyword_at_cursor(s, seq!["None"@], c),
    });
    assert(keyword_at_cursor(s, seq!["None"@], c) == match keyword_literal_at(s, "None"@, c) {
        Some(st) => Some(("None"@, range_on_line(0, st, st + "None"@.len()))),
        None => None,
    });
    match find_keyword_literal(&l, "True", col) {
        Some(x) => {
            return Some(x);
        },
        None => {},
    }
    match find_keyword_literal(&l, "False", col) {
        Some(x) => {
            return Some(x);
        },
        None => {},
    }
    find_keyword_literal(&l, "None", col)
}

/// Every occurrence of a non-empty literal in Python source, outside strings
/// and `#` comments.
pub fn find_python_literal_occurrences(source: &str, literal_value: &str) -> (r: Vec<CodeRange>)
    requires
        literal_value@.len() > 0,
    ensures
        r@ == literal_occurrences(LiteralSyntax::Python, source@, literal_value@),
{
    find_literal_occurrences_in(LiteralSyntax::Python, source, literal_value)
}

/// Whether `pos` lies outside Python strings (an even number of each quote
/// before it) and before any `#` comment.
pub fn is_valid_python_literal_location(line: &str, pos: usize, _len: usize) -> (r: bool)
    requires
        pos <= line@.len(),
    ensures
        r == valid_literal_location(LiteralSyntax::Python, line@, pos as int),
{
    let l = str_chars(line);
    is_valid_literal_location_in(LiteralSyntax::Python, &l, pos)
}

/// Where a module-level constant goes: after the imports and the module
/// docstring, before the first `def` or `class`.
pub fn find_python_insertion_point_for_constant(source: &str) -> (r: Result<CodeRange, RefactoringError>)
    requires
        lines_of(source@).len() <= u32::MAX,
    ensures
        r matches Ok(rg) && rg == range_on_line(insertion_line(LiteralSyntax::Python, lines_of(source@)), 0, 0),
{
    let src = str_chars(source);
    let lines = split_lines(&src);
    let ins = find_insertion_line(LiteralSyntax::Python, &lines);
    Ok(make_range(ins as usize, 0, 0))
}

/// Message of a failed Python analysis.
pub open spec fn python_analysis_message(f: AnalysisFailure) -> Seq<char> {
    match f {
        AnalysisFailure::InvalidLine => "Invalid line number"@,
        AnalysisFailure::NoLiteral => "No literal found at the specified location"@,
    }
}

fn python_analysis_error(f: AnalysisFailure) -> (e: RefactoringError)
    ensures
        e matches RefactoringError::Analysis(m) && m@ == python_analysis_message(f),
{
    match f {
        AnalysisFailure::InvalidLine => RefactoringError::Analysis(owned("Invalid line number")),
        AnalysisFailure::NoLiteral => RefactoringError::Analysis(owned("No literal found at the specified location")),
    }
}

/// Analyses the Python literal under the cursor for extraction into a constant.
pub fn analyze_extract_constant(source: &str, line: u32, character: u32, _file_path: &str)
    -> (r: Result<ExtractConstantAnalysis, RefactoringError>)
    requires
        lines_of(source@).len() <= u32::MAX,
    ensures
        match analysis_result(LiteralSyntax::Python, source@, line as int, character as int) {
            Ok((lit, occ, ins)) => r matches Ok(a) && analysis_matches(a, lit, occ, ins),
            Err(f) => r matches Err(RefactoringError::Analysis(m)) && m@ == python_analysis_message(f),
        },
{
    match analyze_constant(LiteralSyntax::Python, source, line, character) {
        Ok(a) => Ok(a),
        Err(f) => Err(python_analysis_error(f)),
    }
}

/// Message for a constant name that is not SCREAMING_SNAKE_CASE (Python).
pub open spec fn python_name_message(name: Seq<char>) -> Seq<char> {
    "Constant name '"@ + name
        + "' must be in SCREAMING_SNAKE_CASE format. Valid examples: TAX_RATE, MAX_VALUE, API_KEY, DB_TIMEOUT_MS. Requirements: only uppercase letters (A-Z), digits (0-9), and underscores; must contain at least one uppercase letter; cannot start or end with underscore."@
}

/// Extracts the Python literal under the cursor into `NAME = value` at module
/// level and replaces every occurrence of it outside strings and comments.
pub fn plan_extract_constant(source: &str, line: u32, character: u32, name: &str, file_path: &str)
    -> (r: Result<EditPlan, RefactoringError>)
    requires
        lines_of(source@).len() <= u32::MAX,
    ensures
        match analysis_result(LiteralSyntax::Python, source@, line as int, character as int) {
            Err(f) => r matches Err(RefactoringError::Analysis(m)) && m@ == python_analysis_message(f),
            Ok((lit, occ, ins)) => if lit.len() == 0 {
                r matches Err(RefactoringError::Analysis(m))
                    && m@ == "Cannot extract constant: Could not extract literal at cursor position"@
            } else if !is_screaming_snake(name@) {
                r matches Err(RefactoringError::Analysis(m)) && m@ == python_name_message(name@)
            } else {
                r matches Ok(plan) && plan_matches(plan, LiteralSyntax::Python, name@, lit, occ, ins, file_path@)
            },
        },
{
    match plan_constant(LiteralSyntax::Python, source, line, character, name, file_path) {
        Ok(p) => Ok(p),
        Err(PlanFailure::Analysis(f)) => Err(python_analysis_error(f)),
        Err(PlanFailure::InvalidLiteral) => Err(RefactoringError::Analysis(
            owned("Cannot extract constant: Could not extract literal at cursor position"),
        )),
        Err(PlanFailure::InvalidName) => {
            let mut v: Vec<char> = Vec::new();
            append_str(&mut v, "Constant name '");
            append_str(&mut v, name);
            append_str(&mut v, "' must be in SCREAMING_SNAKE_CASE format. Valid examples: TAX_RATE, MAX_VALUE, API_KEY, DB_TIMEOUT_MS. Requirements: only uppercase letters (A-Z), digits (0-9), and underscores; must contain at least one uppercase letter; cannot start or end with underscore.");
            Err(RefactoringError::Analysis(chars_to_string(&v)))
        },
    }
}

/// A trimmed line that starts a function or class definition.
pub open spec fn def_or_class(t: Seq<char>) -> bool {
    has_prefix(t, "def "@) || has_prefix(t, "class "@)
}

/// The last of the first `n` lines that starts a definition, or 0.
pub open spec fn last_definition_before(lines: Seq<Seq<char>>, n: int) -> int
    decreases n,
{
    if n <= 0 {
        0
    } else if def_or_class(trim(lines[n - 1])) {
        n - 1
    } else {
        last_definition_before(lines, n - 1)
    }
}

/// Where a new function goes: at the last `def` or `class` line before
/// `start_line`, or at the top.
pub fn find_insertion_point(source: &str, start_line: u32) -> (r: Result<CodeRange, RefactoringError>)
    ensures
        ({
            let lines = lines_of(source@);
            let n = if start_line < lines.len() { start_line as int } else { lines.len() as int };
            r matches Ok(rg) && rg == range_on_line(last_definition_before(lines, n), 0, 0)
        }),
{
    let src = str_chars(source);
    let lines = split_lines(&src);
    let ghost ls = vv(&lines);
    let n: usize = if (start_line as usize) < lines.len() { start_line as usize } else { lines.len() };
    let mut found: usize = 0;
    let mut i: usize = 0;
    while i < n
        invariant
            i <= n <= lines@.len(),
            n <= start_line,
            ls == vv(&lines),
            found as int == last_definition_before(ls, i as int),
            found <= i,
        decreases n - i,
    {
        assert(lines@[i as int]@ == ls[i as int]);
        let t = trim_chars(&lines[i]);
        if starts_with_str(&t, "def ") || starts_with_str(&t, "class ") {
            found = i;
        }
        i = i + 1;
    }
    Ok(make_range(found, 0, 0))
}

/// What the analysis of a selection says the extracted function needs.
#[derive(Debug, Clone)]
pub struct ExtractableFunction {
    /// The selected code.
    pub selected_range: CodeRange,
    /// Variables the new function takes as parameters.
    pub required_parameters: Vec<String>,
    /// Variables the new function hands back.
    pub return_variables: Vec<String>,
    /// The name proposed for the new function.
    pub suggested_name: String,
    /// Where the new function goes.
    pub insertion_point: CodeRange,
    /// The selection holds a `return` statement.
    pub contains_return_statements: bool,
    /// A rough measure of the work the extraction takes.
    pub complexity_score: u32,
}

/// The views of a vector of strings.
pub open spec fn strings_view(v: Seq<String>) -> Seq<Seq<char>> {
    v.map_values(|s: String| s@)
}

/// The call that replaces the extracted code: `f(a, b)`, or `x, y = f(a, b)`
/// when the function hands values back.
pub open spec fn function_call_text(params: Seq<Seq<char>>, outputs: Seq<Seq<char>>, name: Seq<char>) -> Seq<char> {
    let call = name + "("@ + join_with(params, ", "@) + ")"@;
    if outputs.len() == 0 {
        call
    } else {
        join_with(outputs, ", "@) + " = "@ + call
    }
}

fn string_vec_chars(v: &Vec<String>) -> (r: Vec<Vec<char>>)
    ensures
        vv(&r) == strings_view(v@),
{
    let mut out: Vec<Vec<char>> = Vec::new();
    let mut i: usize = 0;
    while i < v.len()
        invariant
            i <= v@.len(),
            vv(&out) == strings_view(v@).subrange(0, i as int),
        decreases v@.len() - i,
    {
        let ghost o = vv(&out);
        out.push(str_chars(v[i].as_str()));
        assert(vv(&out) =~= o.push(v@[i as int]@));
        assert(strings_view(v@).subrange(0, i + 1) =~= strings_view(v@).subrange(0, i as int).push(v@[i as int]@));
        i = i + 1;
    }
    assert(strings_view(v@).subrange(0, v@.len() as int) =~= strings_view(v@));
    out
}

/// Builds the call of the extracted function.
pub fn generate_function_call(analysis: &ExtractableFunction, function_name: &str) -> (r: Result<String, RefactoringError>)
    ensures
        r matches Ok(s) && s@ == function_call_text(
            strings_view(analysis.required_parameters@),
            strings_view(analysis.return_variables@),
            function_name@,
        ),
{
    let params = string_vec_chars(&analysis.required_parameters);
    let args = join_chars(&params, ", ");
    let mut call: Vec<char> = Vec::new();
    append_str(&mut call, function_name);
    append_str(&mut call, "(");
    append_chars(&mut call, &args);
    append_str(&mut call, ")");
    if analysis.return_variables.len() == 0 {
        return Ok(chars_to_string(&call));
    }
    let rets = string_vec_chars(&analysis.return_variables);
    let mut out = join_chars(&rets, ", ");
    append_str(&mut out, " = ");
    append_chars(&mut out, &call);
    Ok(chars_to_string(&out))
}

} // verus!
