//! Rust plugin: extract-function, extract-variable and extract-constant
//! refactorings on Rust source text.

use vstd::prelude::*;
use crate::edit::{
    CodeRange, range_on_line, make_range, EditLocation, EditType, TextEdit, ValidationType,
    ValidationRule, ArgValue, EditPlanMetadata, EditPlan, now_timestamp,
};
use crate::extract_constant::{
    ExtractConstantAnalysis, AnalysisFailure, PlanFailure, analysis_result, analysis_matches,
    analyze_constant, plan_constant, plan_matches, insertion_line, find_insertion_line, literal_at,
    find_literal_at, keyword_at_cursor,
};
use crate::literals::{
    LiteralSyntax, literal_occurrences, find_literal_occurrences_in, valid_literal_location,
    is_valid_literal_location_in, number_literal_at, find_number_literal, keyword_literal_at,
    find_keyword_literal,
};
use crate::naming::is_screaming_snake;
use crate::python_lang::python_name_message;
use crate::text::{
    str_chars, chars_to_string, split_lines, vv, lines_of, trim, trim_chars, is_ws, char_is_ws, lead_ws,
    lemma_lead_ws_char, append_str, append_chars, slice_chars, join_with, join_chars, has_prefix,
    starts_with_str,
};
use crate::numeric::{decimal, u64_to_decimal};
use crate::regex_support::{
    regex_group_texts, regex_capture_groups, regex_match_contexts, regex_captures_in_context, regex_escape,
    regex_escape_of,
};

verus! {

fn owned(t: &str) -> (s: String)
    ensures
        s@ == t@,
{
    let v = str_chars(t);
    chars_to_string(&v)
}

/// Finds the Rust literal under the cursor: a number, then `true` or `false`.
pub fn find_rust_literal_at_position(line_text: &str, col: usize) -> (r: Option<(String, CodeRange)>)
    ensures
        match r {
            Some((t, rg)) => literal_at(LiteralSyntax::Rust, line_text@, col as int) == Some((t@, rg)),
            None => literal_at(LiteralSyntax::Rust, line_text@, col as int) is None,
        },
{
    let l = str_chars(line_text);
    find_literal_at(LiteralSyntax::Rust, &l, col)
}

/// Finds the number (digits, `.`, `_`, a leading `-`) under the cursor.
pub fn find_rust_numeric_literal(line_text: &str, col: usize) -> (r: Option<(String, CodeRange)>)
    ensures
        match r {
            Some((t, rg)) => number_literal_at(line_text@, col as int) == Some((t@, rg)),
            None => number_literal_at(line_text@, col as int) is None,
        },
{
    let l = str_chars(line_text);
    find_number_literal(&l, col)
}

/// Finds `true` or `false` under the cursor, in that order.
pub fn find_rust_keyword_literal(line_text: &str, col: usize) -> (r: Option<(String, CodeRange)>)
    ensures
        match r {
            Some((t, rg)) => keyword_at_cursor(line_text@, seq!["true"@, "false"@], col as int) == Some((t@, rg)),
            None => keyword_at_cursor(line_text@, seq!["true"@, "false"@], col as int) is None,
        },
{
    let l = str_chars(line_text);
    let ghost s = line_text@;
    let ghost c = col as int;
    assert(seq!["true"@, "false"@].drop_first() =~= seq!["false"@]);
    assert(seq!["false"@].drop_first() =~= Seq::<Seq<char>>::empty());
    assert(keyword_at_cursor(s, Seq::<Seq<char>>::empty(), c) is None);
    assert(keyword_at_cursor(s, seq!["true"@, "false"@], c) == match keyword_literal_at(s, "true"@, c) {
        Some(st) => Some(("true"@, range_on_line(0, st, st + "true"@.len()))),
        None => keyword_at_cursor(s, seq!["false"@], c),
    });
    assert(keyword_at_cursor(s, seq!["false"@], c) == match keyword_literal_at(s, "false"@, c) {
        Some(st) => Some(("false"@, range_on_line(0, st, st + "false"@.len()))),
        None => None,
    });
    match find_keyword_literal(&l, "true", col) {
        Some(x) => {
            return Some(x);
        },
        None => {},
    }
    find_keyword_literal(&l, "false", col)
}

/// Whether `pos` lies outside Rust strings (an even number of `"` before it)
/// and before any `//` comment.
pub fn is_valid_literal_location(line: &str, pos: usize, _len: usize) -> (r: bool)
    requires
        pos <= line@.len(),
    ensures
        r == valid_literal_location(LiteralSyntax::Rust, line@, pos as int),
{
    let l = str_chars(line);
    is_valid_literal_location_in(LiteralSyntax::Rust, &l, pos)
}

/// Every occurrence of a non-empty literal in Rust source, outside strings and
/// `//` comments.
pub fn find_rust_literal_occurrences(source: &str, literal_value: &str) -> (r: Vec<CodeRange>)
    requires
        literal_value@.len() > 0,
    ensures
        r@ == literal_occurrences(LiteralSyntax::Rust, source@, literal_value@),
{
    find_literal_occurrences_in(LiteralSyntax::Rust, source, literal_value)
}

/// Where a `const` goes: after the last `use` line that precedes the first
/// item definition.
pub fn find_rust_insertion_point_for_constant(source: &str) -> (r: Result<CodeRange, String>)
    requires
        lines_of(source@).len() <= u32::MAX,
    ensures
        r matches Ok(rg) && rg == range_on_line(insertion_line(LiteralSyntax::Rust, lines_of(source@)), 0, 0),
{
    let src = str_chars(source);
    let lines = split_lines(&src);
    let ins = find_insertion_line(LiteralSyntax::Rust, &lines);
    Ok(make_range(ins as usize, 0, 0))
}

/// Message of a failed Rust analysis.
pub open spec fn rust_analysis_message(f: AnalysisFailure) -> Seq<char> {
    match f {
        AnalysisFailure::InvalidLine => "Invalid line number"@,
        AnalysisFailure::NoLiteral => "No literal found at the specified location"@,
    }
}

fn rust_analysis_error(f: AnalysisFailure) -> (e: String)
    ensures
        e@ == rust_analysis_message(f),
{
    match f {
        AnalysisFailure::InvalidLine => owned("Invalid line number"),
        AnalysisFailure::NoLiteral => owned("No literal found at the specified location"),
    }
}

/// Analyses the Rust literal under the cursor for extraction into a constant.
pub fn analyze_extract_constant(source: &str, line: u32, character: u32, _file_path: &str)
    -> (r: Result<ExtractConstantAnalysis, String>)
    requires
        lines_of(source@).len() <= u32::MAX,
    ensures
        match analysis_result(LiteralSyntax::Rust, source@, line as int, character as int) {
            Ok((lit, occ, ins)) => r matches Ok(a) && analysis_matches(a, lit, occ, ins),
            Err(f) => r matches Err(m) && m@ == rust_analysis_message(f),
        },
{
    match analyze_constant(LiteralSyntax::Rust, source, line, character) {
        Ok(a) => Ok(a),
        Err(f) => Err(rust_analysis_error(f)),
    }
}

/// Extracts the Rust literal under the cursor into `const NAME: _ = value;`
/// and replaces every occurrence of it outside strings and comments.
pub fn plan_extract_constant(source: &str, line: u32, character: u32, name: &str, file_path: &str)
    -> (r: Result<EditPlan, String>)
    requires
        lines_of(source@).len() <= u32::MAX,
    ensures
        match analysis_result(LiteralSyntax::Rust, source@, line as int, character as int) {
            Err(f) => r matches Err(m) && m@ == rust_analysis_message(f),
            Ok((lit, occ, ins)) => if lit.len() == 0 {
                r matches Err(m) && m@ == "Cannot extract constant: Could not extract literal at cursor position"@
            } else if !is_screaming_snake(name@) {
                r matches Err(m) && m@ == python_name_message(name@)
            } else {
                r matches Ok(plan) && plan_matches(plan, LiteralSyntax::Rust, name@, lit, occ, ins, file_path@)
            },
        },
{
    match plan_constant(LiteralSyntax::Rust, source, line, character, name, file_path) {
        Ok(p) => Ok(p),
        Err(PlanFailure::Analysis(f)) => Err(rust_analysis_error(f)),
        Err(PlanFailure::InvalidLiteral) => Err(owned("Cannot extract constant: Could not extract literal at cursor position")),
        Err(PlanFailure::InvalidName) => {
            let mut v: Vec<char> = Vec::new();
            append_str(&mut v, "Constant name '");
            append_str(&mut v, name);
            append_str(&mut v, "' must be in SCREAMING_SNAKE_CASE format. Valid examples: TAX_RATE, MAX_VALUE, API_KEY, DB_TIMEOUT_MS. Requirements: only uppercase letters (A-Z), digits (0-9), and underscores; must contain at least one uppercase letter; cannot start or end with underscore.");
            Err(chars_to_string(&v))
        },
    }
}

/// The leading white space of line `i`, or nothing when there is no such line.
pub open spec fn indentation(lines: Seq<Seq<char>>, i: int) -> Seq<char> {
    if 0 <= i < lines.len() {
        lines[i].subrange(0, lead_ws(lines[i]) as int)
    } else {
        Seq::empty()
    }
}

pub(crate) fn indentation_of(lines: &Vec<Vec<char>>, i: usize) -> (r: Vec<char>)
    ensures
        r@ == indentation(vv(lines), i as int),
{
    if i >= lines.len() {
        return Vec::new();
    }
    let line = &lines[i];
    assert(line@ == vv(lines)[i as int]);
    let n = line.len();
    let mut a: usize = 0;
    while a < n && char_is_ws(line[a])
        invariant
            n == line@.len(),
            a <= n,
            forall|j: int| 0 <= j < a ==> is_ws(#[trigger] line@[j]),
        decreases n - a,
    {
        a = a + 1;
    }
    proof {
        lemma_lead_ws_char(line@, a as int);
    }
    slice_chars(line, 0, a)
}

/// `e` is an edit with no file path and the given fields.
pub open spec fn local_edit(
    e: TextEdit,
    kind: EditType,
    loc: EditLocation,
    original: Seq<char>,
    new_text: Seq<char>,
    priority: u32,
    description: Seq<char>,
) -> bool {
    &&& e.file_path is None
    &&& e.edit_type == kind
    &&& e.location == loc
    &&& e.original_text@ == original
    &&& e.new_text@ == new_text
    &&& e.priority == priority
    &&& e.description@ == description
}

/// The location `l1:c1 .. l2:c2`.
pub open spec fn span(l1: int, c1: int, l2: int, c2: int) -> EditLocation {
    EditLocation {
        start_line: l1 as u32,
        start_column: c1 as u32,
        end_line: l2 as u32,
        end_column: c2 as u32,
    }
}

/// Moves lines `start_line..=end_line` into a new function `fn name()`
/// inserted above them and replaces them by a call.
pub fn plan_extract_function(source: &str, start_line: u32, end_line: u32, function_name: &str, file_path: &str)
    -> (r: Result<EditPlan, String>)
    requires
        start_line < lines_of(source@).len() && end_line < lines_of(source@).len() ==> start_line <= end_line,
    ensures
        ({
            let lines = lines_of(source@);
            if start_line >= lines.len() || end_line >= lines.len() {
                r matches Err(m) && m@ == "Line range out of bounds"@
            } else {
                r matches Ok(plan) && {
                    let indent = indentation(lines, start_line as int);
                    let code = join_with(lines.subrange(start_line as int, end_line + 1), "\n"@);
                    &&& plan.source_file@ == file_path@
                    &&& plan.edits@.len() == 2
                    &&& local_edit(plan.edits@[0], EditType::Replace,
                        span(start_line as int, 0, end_line as int, lines[end_line as int].len() as int),
                        code, indent + function_name@ + "();"@, 100,
                        "Replace code with call to '"@ + function_name@ + "'"@)
                    &&& local_edit(plan.edits@[1], EditType::Insert,
                        span(start_line as int, 0, start_line as int, 0), Seq::empty(),
                        "\n"@ + indent + "fn "@ + function_name@ + "() {\n"@ + code + "\n"@ + indent + "}\n"@, 90,
                        "Create extracted function '"@ + function_name@ + "'"@)
                    &&& plan.validations@.len() == 1
                    &&& plan.validations@[0].rule_type == ValidationType::SyntaxCheck
                    &&& plan.validations@[0].description@ == "Verify Rust syntax is valid after extraction"@
                    &&& plan.metadata.intent_name@ == "extract_function"@
                    &&& plan.metadata.intent_arguments@.len() == 2
                    &&& plan.metadata.intent_arguments@[0].0@ == "function_name"@
                    &&& plan.metadata.intent_arguments@[0].1 matches ArgValue::Text(t) && t@ == function_name@
                    &&& plan.metadata.intent_arguments@[1].0@ == "line_count"@
                    &&& plan.metadata.intent_arguments@[1].1 == ArgValue::Number((end_line - start_line + 1) as u64)
                    &&& plan.metadata.complexity == 5
                    &&& plan.metadata.impact_areas@.len() == 1
                    &&& plan.metadata.impact_areas@[0]@ == "function_extraction"@
                }
            }
        }),
{
    let src = str_chars(source);
    let lines = split_lines(&src);
    let ghost ls = vv(&lines);
    if start_line as usize >= lines.len() || end_line as usize >= lines.len() {
        return Err(owned("Line range out of bounds"));
    }
    let s = start_line as usize;
    let e = end_line as usize;
    let mut selected: Vec<Vec<char>> = Vec::new();
    let nl = lines.len();
    let mut i: usize = s;
    while i <= e
        invariant
            s <= i <= e + 1,
            e < nl,
            nl == lines@.len(),
            ls == vv(&lines),
            vv(&selected) == ls.subrange(s as int, i as int),
        decreases e + 1 - i,
    {
        let ghost o = vv(&selected);
        selected.push(slice_chars(&lines[i], 0, lines[i].len()));
        assert(lines@[i as int]@.subrange(0, lines@[i as int]@.len() as int) =~= ls[i as int]);
        assert(vv(&selected) =~= o.push(ls[i as int]));
        assert(ls.subrange(s as int, i + 1) =~= ls.subrange(s as int, i as int).push(ls[i as int]));
        i = i + 1;
    }
    let code = join_chars(&selected, "\n");
    let indent = indentation_of(&lines, s);
    let mut f: Vec<char> = Vec::new();
    append_str(&mut f, "\n");
    append_chars(&mut f, &indent);
    append_str(&mut f, "fn ");
    append_str(&mut f, function_name);
    append_str(&mut f, "() {\n");
    append_chars(&mut f, &code);
    append_str(&mut f, "\n");
    append_chars(&mut f, &indent);
    append_str(&mut f, "}\n");
    let mut call: Vec<char> = Vec::new();
    append_chars(&mut call, &indent);
    append_str(&mut call, function_name);
    append_str(&mut call, "();");
    let mut d1: Vec<char> = Vec::new();
    append_str(&mut d1, "Replace code with call to '");
    append_str(&mut d1, function_name);
    append_str(&mut d1, "'");
    let mut d2: Vec<char> = Vec::new();
    append_str(&mut d2, "Create extracted function '");
    append_str(&mut d2, function_name);
    append_str(&mut d2, "'");
    assert(lines@[e as int]@ == ls[e as int]);
    let mut edits: Vec<TextEdit> = Vec::new();
    edits.push(TextEdit {
        file_path: None,
        edit_type: EditType::Replace,
        location: EditLocation {
            start_line,
            start_column: 0,
            end_line,
            end_column: lines[e].len() as u32,
        },
        original_text: chars_to_string(&code),
        new_text: chars_to_string(&call),
        priority: 100,
        description: chars_to_string(&d1),
    });
    edits.push(TextEdit {
        file_path: None,
        edit_type: EditType::Insert,
        location: EditLocation {
            start_line,
            start_column: 0,
            end_line: start_line,
            end_column: 0,
        },
        original_text: String::new(),
        new_text: chars_to_string(&f),
        priority: 90,
        description: chars_to_string(&d2),
    });
    let mut validations: Vec<ValidationRule> = Vec::new();
    validations.push(ValidationRule {
        rule_type: ValidationType::SyntaxCheck,
        description: owned("Verify Rust syntax is valid after extraction"),
    });
    let mut args: Vec<(String, ArgValue)> = Vec::new();
    args.push((owned("function_name"), ArgValue::Text(owned(function_name))));
    args.push((owned("line_count"), ArgValue::Number(end_line as u64 - start_line as u64 + 1)));
    let mut areas: Vec<String> = Vec::new();
    areas.push(owned("function_extraction"));
    Ok(EditPlan {
        source_file: owned(file_path),
        edits,
        validations,
        metadata: EditPlanMetadata {
            intent_name: owned("extract_function"),
            intent_arguments: args,
            created_at: now_timestamp(),
            complexity: 5,
            impact_areas: areas,
        },
    })
}

/// The piece of line `idx` that belongs to a selection spanning several lines.
pub open spec fn selection_piece(line: Seq<char>, idx: int, sl: int, sc: int, el: int, ec: int) -> Option<Seq<char>> {
    if idx == sl {
        Some(line.subrange(sc, line.len() as int))
    } else if idx == el {
        Some(line.subrange(0, ec))
    } else if sl < idx < el {
        Some(line)
    } else {
        None
    }
}

/// The pieces of the first `n` lines that belong to a multi-line selection, in line order.
pub open spec fn selection_pieces(lines: Seq<Seq<char>>, sl: int, sc: int, el: int, ec: int, n: int) -> Seq<Seq<char>>
    decreases n,
{
    if n <= 0 {
        Seq::empty()
    } else {
        let pre = selection_pieces(lines, sl, sc, el, ec, n - 1);
        match selection_piece(lines[n - 1], n - 1, sl, sc, el, ec) {
            Some(p) => pre.push(p),
            None => pre,
        }
    }
}

/// The selected text: a slice of one line, or the pieces of several lines joined by newlines.
pub open spec fn selected_expression(lines: Seq<Seq<char>>, sl: int, sc: int, el: int, ec: int) -> Seq<char> {
    if sl == el {
        lines[sl].subrange(sc, ec)
    } else {
        join_with(selection_pieces(lines, sl, sc, el, ec, lines.len() as int), "\n"@)
    }
}

/// The selection can be sliced out of its lines.
pub open spec fn selection_fits(lines: Seq<Seq<char>>, sl: int, sc: int, el: int, ec: int) -> bool {
    if sl == el {
        sc <= ec <= lines[sl].len()
    } else {
        sc <= lines[sl].len() && ec <= lines[el].len()
    }
}

/// Puts the selected expression into `let name = expression;` above the
/// selection and replaces the selection by the name (`extracted` by default).
pub fn plan_extract_variable(
    source: &str,
    start_line: u32,
    start_col: u32,
    end_line: u32,
    end_col: u32,
    variable_name: Option<String>,
    file_path: &str,
) -> (r: Result<EditPlan, String>)
    requires
        start_line < lines_of(source@).len() && end_line < lines_of(source@).len() ==> selection_fits(
            lines_of(source@),
            start_line as int,
            start_col as int,
            end_line as int,
            end_col as int,
        ),
    ensures
        ({
            let lines = lines_of(source@);
            let var = match variable_name {
                Some(v) => v@,
                None => "extracted"@,
            };
            if start_line >= lines.len() || end_line >= lines.len() {
                r matches Err(m) && m@ == "Line range out of bounds"@
            } else {
                r matches Ok(plan) && {
                    let expr = selected_expression(lines, start_line as int, start_col as int, end_line as int, end_col as int);
                    &&& plan.source_file@ == file_path@
                    &&& plan.edits@.len() == 2
                    &&& local_edit(plan.edits@[0], EditType::Insert, span(start_line as int, 0, start_line as int, 0),
                        Seq::empty(), indentation(lines, start_line as int) + "let "@ + var + " = "@ + trim(expr) + ";\n"@,
                        100, "Declare variable '"@ + var + "'"@)
                    &&& local_edit(plan.edits@[1], EditType::Replace,
                        span(start_line as int, start_col as int, end_line as int, end_col as int),
                        expr, var, 90, "Replace expression with '"@ + var + "'"@)
                    &&& plan.validations@.len() == 1
                    &&& plan.validations@[0].rule_type == ValidationType::SyntaxCheck
                    &&& plan.validations@[0].description@ == "Verify Rust syntax is valid after extraction"@
                    &&& plan.metadata.intent_name@ == "extract_variable"@
                    &&& plan.metadata.intent_arguments@.len() == 2
                    &&& plan.metadata.intent_arguments@[0].0@ == "variable_name"@
                    &&& plan.metadata.intent_arguments@[0].1 matches ArgValue::Text(t) && t@ == var
                    &&& plan.metadata.intent_arguments@[1].0@ == "expression"@
                    &&& plan.metadata.intent_arguments@[1].1 matches ArgValue::Text(t) && t@ == expr
                    &&& plan.metadata.complexity == 3
                    &&& plan.metadata.impact_areas@.len() == 1
                    &&& plan.metadata.impact_areas@[0]@ == "variable_extraction"@
                }
            }
        }),
{
    let src = str_chars(source);
    let lines = split_lines(&src);
    let ghost ls = vv(&lines);
    let sl = start_line as usize;
    let el = end_line as usize;
    if sl >= lines.len() || el >= lines.len() {
        return Err(owned("Line range out of bounds"));
    }
    let sc = start_col as usize;
    let ec = end_col as usize;
    let expression: Vec<char> = if sl == el {
        assert(lines@[sl as int]@ == ls[sl as int]);
        slice_chars(&lines[sl], sc, ec)
    } else {
        assert(lines@[sl as int]@ == ls[sl as int]);
        assert(lines@[el as int]@ == ls[el as int]);
        let mut pieces: Vec<Vec<char>> = Vec::new();
        let mut idx: usize = 0;
        while idx < lines.len()
            invariant
                idx <= lines@.len(),
                ls == vv(&lines),
                sl < lines@.len(),
                el < lines@.len(),
                sl != el,
                sc <= ls[sl as int].len(),
                ec <= ls[el as int].len(),
                vv(&pieces) == selection_pieces(ls, sl as int, sc as int, el as int, ec as int, idx as int),
            decreases lines@.len() - idx,
        {
            let ghost o = vv(&pieces);
            let line = &lines[idx];
            assert(line@ == ls[idx as int]);
            if idx == sl {
                pieces.push(slice_chars(line, sc, line.len()));
                assert(vv(&pieces) =~= o.push(line@.subrange(sc as int, line@.len() as int)));
            } else if idx == el {
                pieces.push(slice_chars(line, 0, ec));
                assert(vv(&pieces) =~= o.push(line@.subrange(0, ec as int)));
            } else if sl < idx && idx < el {
                pieces.push(slice_chars(line, 0, line.len()));
                assert(line@.subrange(0, line@.len() as int) =~= line@);
                assert(vv(&pieces) =~= o.push(line@));
            }
            idx = idx + 1;
        }
        join_chars(&pieces, "\n")
    };
    let var: String = match variable_name {
        Some(v) => v,
        None => owned("extracted"),
    };
    let indent = indentation_of(&lines, sl);
    let trimmed = trim_chars(&expression);
    let mut decl: Vec<char> = Vec::new();
    append_chars(&mut decl, &indent);
    append_str(&mut decl, "let ");
    append_str(&mut decl, var.as_str());
    append_str(&mut decl, " = ");
    append_chars(&mut decl, &trimmed);
    append_str(&mut decl, ";\n");
    let mut d1: Vec<char> = Vec::new();
    append_str(&mut d1, "Declare variable '");
    append_str(&mut d1, var.as_str());
    append_str(&mut d1, "'");
    let mut d2: Vec<char> = Vec::new();
    append_str(&mut d2, "Replace expression with '");
    append_str(&mut d2, var.as_str());
    append_str(&mut d2, "'");
    let mut edits: Vec<TextEdit> = Vec::new();
    edits.push(TextEdit {
        file_path: None,
        edit_type: EditType::Insert,
        location: EditLocation {
            start_line,
            start_column: 0,
            end_line: start_line,
            end_column: 0,
        },
        original_text: String::new(),
        new_text: chars_to_string(&decl),
        priority: 100,
        description: chars_to_string(&d1),
    });
    edits.push(TextEdit {
        file_path: None,
        edit_type: EditType::Replace,
        location: EditLocation {
            start_line,
            start_column: start_col,
            end_line,
            end_column: end_col,
        },
        original_text: chars_to_string(&expression),
        new_text: owned(var.as_str()),
        priority: 90,
        description: chars_to_string(&d2),
    });
    let mut validations: Vec<ValidationRule> = Vec::new();
    validations.push(ValidationRule {
        rule_type: ValidationType::SyntaxCheck,
        description: owned("Verify Rust syntax is valid after extraction"),
    });
    let mut args: Vec<(String, ArgValue)> = Vec::new();
    args.push((owned("variable_name"), ArgValue::Text(owned(var.as_str()))));
    args.push((owned("expression"), ArgValue::Text(chars_to_string(&expression))));
    let mut areas: Vec<String> = Vec::new();
    areas.push(owned("variable_extraction"));
    Ok(EditPlan {
        source_file: owned(file_path),
        edits,
        validations,
        metadata: EditPlanMetadata {
            intent_name: owned("extract_variable"),
            intent_arguments: args,
            created_at: now_timestamp(),
            complexity: 3,
            impact_areas: areas,
        },
    })
}


/// Pattern of a `let`, `let mut` or `const` binding with an initialiser;
/// group 1 is the name, group 2 the initialiser.
pub const VARIABLE_DECL_PATTERN: &'static str = "(?:let\\s+(?:mut\\s+)?|const\\s+)(\\w+)\\s*(?::[^=]+)?=\\s*([^;]+)";

/// The name and trimmed initialiser of the first binding on `line`.
pub open spec fn rust_decl_of(line: Seq<char>) -> Option<(Seq<char>, Seq<char>)> {
    match (
        regex_group_texts(VARIABLE_DECL_PATTERN@, line, 1),
        regex_group_texts(VARIABLE_DECL_PATTERN@, line, 2),
    ) {
        (Some(names), Some(values)) => if names.len() > 0 && values.len() > 0 {
            Some((names[0], trim(values[0])))
        } else {
            None
        },
        _ => None,
    }
}

fn rust_decl(line: &str) -> (r: Option<(String, Vec<char>)>)
    ensures
        match r {
            Some((n, v)) => rust_decl_of(line@) == Some((n@, v@)),
            None => rust_decl_of(line@) is None,
        },
{
    let names = regex_capture_groups(VARIABLE_DECL_PATTERN, line, 1);
    let values = regex_capture_groups(VARIABLE_DECL_PATTERN, line, 2);
    match (names, values) {
        (Some(ns), Some(vs)) => {
            if ns.len() > 0 && vs.len() > 0 {
                let ghost a = ns@.map_values(|s: String| s@);
                let ghost b = vs@.map_values(|s: String| s@);
                assert(a[0] == ns@[0]@);
                assert(b[0] == vs@[0]@);
                let v = str_chars(vs[0].as_str());
                Some((ns[0].clone(), trim_chars(&v)))
            } else {
                None
            }
        },
        _ => None,
    }
}

/// The pattern that matches `name` as a whole word.
pub open spec fn word_pattern(name: Seq<char>) -> Seq<char> {
    "\\b"@ + regex_escape_of(name) + "\\b"@
}

/// A line that starts, after its indentation, a `let` or `const` binding.
pub open spec fn binding_line(line: Seq<char>) -> bool {
    has_prefix(trim(line), "let "@) || has_prefix(trim(line), "const "@)
}

/// (line, start column, end column) of each match on line `i`.
pub open spec fn spans_on_line(i: int, ms: Seq<(Seq<char>, Seq<char>, Seq<char>)>) -> Seq<(int, int, int)> {
    Seq::new(ms.len(), |k: int| (i, ms[k].0.len() as int, (ms[k].0.len() + ms[k].1.len()) as int))
}

/// The matches of `pat` on the first `n` lines but line `vl`, line by line;
/// `None` when the pattern does not compile.
pub open spec fn usage_spans(lines: Seq<Seq<char>>, vl: int, pat: Seq<char>, n: int) -> Option<Seq<(int, int, int)>>
    decreases n,
{
    if n <= 0 {
        Some(Seq::empty())
    } else {
        match usage_spans(lines, vl, pat, n - 1) {
            None => None,
            Some(prev) => if n - 1 == vl {
                Some(prev)
            } else {
                match regex_match_contexts(pat, lines[n - 1]) {
                    None => None,
                    Some(ms) => Some(prev + spans_on_line(n - 1, ms)),
                }
            },
        }
    }
}

/// Once a line fails, the scan of more lines fails too.
proof fn lemma_usage_spans_stay_none(lines: Seq<Seq<char>>, vl: int, pat: Seq<char>, a: int, b: int)
    requires
        0 <= a <= b,
        usage_spans(lines, vl, pat, a) is None,
    ensures
        usage_spans(lines, vl, pat, b) is None,
    decreases b - a,
{
    if a < b {
        lemma_usage_spans_stay_none(lines, vl, pat, a, b - 1);
    }
}

/// `e` replaces the use of `name` at `s` by `value`.
pub open spec fn usage_edit(e: TextEdit, s: (int, int, int), name: Seq<char>, value: Seq<char>) -> bool {
    local_edit(e, EditType::Replace, span(s.0, s.1, s.0, s.2), name, value, 100, "Inline variable '"@ + name + "'"@)
}

/// What inlining the binding on line `vl` gives.
pub open spec fn rust_inline_outcome(source: Seq<char>, vl: int, col: int, file_path: Seq<char>, r: Result<EditPlan, String>) -> bool {
    let lines = lines_of(source);
    if vl >= lines.len() {
        r matches Err(m) && m@ == "Line number out of bounds"@
    } else if !binding_line(lines[vl]) {
        r matches Err(m) && m@ == "Not a `let` binding or `const` declaration at line "@ + decimal((vl + 1) as nat)
            + ". Only variables and constants can be inlined with this function."@
    } else {
        match rust_decl_of(lines[vl]) {
            None => r matches Err(m) && m@ == "Could not find variable declaration at "@ + decimal(vl as nat) + ":"@
                + decimal(col as nat),
            Some((name, value)) => match usage_spans(lines, vl, word_pattern(name), lines.len() as int) {
                None => r matches Err(m) && m@ == "Invalid pattern for variable '"@ + name + "'"@,
                Some(spans) => r matches Ok(plan) && {
                    &&& plan.source_file@ == file_path
                    &&& plan.edits@.len() == spans.len() + 1
                    &&& forall|k: int| 0 <= k < spans.len() ==> usage_edit(#[trigger] plan.edits@[k], spans[k], name, value)
                    &&& local_edit(plan.edits@[spans.len() as int], EditType::Delete, span(vl, 0, vl, lines[vl].len() as int),
                        lines[vl], Seq::empty(), 50, "Remove variable declaration for '"@ + name + "'"@)
                    &&& plan.validations@.len() == 1
                    &&& plan.validations@[0].rule_type == ValidationType::SyntaxCheck
                    &&& plan.validations@[0].description@ == "Verify Rust syntax is valid after inlining"@
                    &&& plan.metadata.intent_name@ == "inline_variable"@
                    &&& plan.metadata.intent_arguments@.len() == 2
                    &&& plan.metadata.intent_arguments@[0].0@ == "variable_name"@
                    &&& plan.metadata.intent_arguments@[0].1 matches ArgValue::Text(t) && t@ == name
                    &&& plan.metadata.intent_arguments@[1].0@ == "value"@
                    &&& plan.metadata.intent_arguments@[1].1 matches ArgValue::Text(t) && t@ == value
                    &&& plan.metadata.complexity == 3
                    &&& plan.metadata.impact_areas@.len() == 1
                    &&& plan.metadata.impact_areas@[0]@ == "variable_inlining"@
                },
            },
        }
    }
}

/// Inlines the `let` or `const` binding on line `variable_line`: every
/// whole-word use of its name on the other lines becomes the initialiser, and
/// the declaration line is deleted.
pub fn plan_inline_variable(source: &str, variable_line: u32, variable_col: u32, file_path: &str)
    -> (r: Result<EditPlan, String>)
    ensures
        rust_inline_outcome(source@, variable_line as int, variable_col as int, file_path@, r),
{
    let src = str_chars(source);
    let lines = split_lines(&src);
    let ghost ls = vv(&lines);
    let vl = variable_line as usize;
    if vl >= lines.len() {
        return Err(owned("Line number out of bounds"));
    }
    let line = &lines[vl];
    assert(line@ == ls[vl as int]);
    let trimmed = trim_chars(line);
    if !(starts_with_str(&trimmed, "let ") || starts_with_str(&trimmed, "const ")) {
        let mut m: Vec<char> = Vec::new();
        append_str(&mut m, "Not a `let` binding or `const` declaration at line ");
        let num = u64_to_decimal(variable_line as u64 + 1);
        append_chars(&mut m, &num);
        append_str(&mut m, ". Only variables and constants can be inlined with this function.");
        return Err(chars_to_string(&m));
    }
    let line_text = chars_to_string(line);
    let (name, value) = match rust_decl(line_text.as_str()) {
        Some(d) => d,
        None => {
            let mut m: Vec<char> = Vec::new();
            append_str(&mut m, "Could not find variable declaration at ");
            let a = u64_to_decimal(variable_line as u64);
            append_chars(&mut m, &a);
            append_str(&mut m, ":");
            let b = u64_to_decimal(variable_col as u64);
            append_chars(&mut m, &b);
            return Err(chars_to_string(&m));
        },
    };
    let esc = regex_escape(name.as_str());
    let mut pat: Vec<char> = Vec::new();
    append_str(&mut pat, "\\b");
    append_str(&mut pat, esc.as_str());
    append_str(&mut pat, "\\b");
    let pattern = chars_to_string(&pat);
    let value_text = chars_to_string(&value);
    let mut descr: Vec<char> = Vec::new();
    append_str(&mut descr, "Inline variable '");
    append_str(&mut descr, name.as_str());
    append_str(&mut descr, "'");
    let ghost wp = word_pattern(name@);
    assert(pattern@ == wp);
    assert(ls.len() == lines@.len());
    let mut edits: Vec<TextEdit> = Vec::new();
    let ghost mut spans: Seq<(int, int, int)> = Seq::empty();
    let nl = lines.len();
    let mut i: usize = 0;
    while i < nl
        invariant
            i <= nl,
            nl == lines@.len(),
            ls == vv(&lines),
            vl < nl,
            ls == lines_of(source@),
            ls.len() == nl,
            vl == variable_line as int,
            wp == word_pattern(name@),
            binding_line(ls[vl as int]),
            rust_decl_of(ls[vl as int]) == Some((name@, value@)),
            pattern@ == wp,
            value_text@ == value@,
            descr@ == "Inline variable '"@ + name@ + "'"@,
            usage_spans(ls, vl as int, wp, i as int) == Some(spans),
            edits@.len() == spans.len(),
            forall|k: int| 0 <= k < spans.len() ==> usage_edit(#[trigger] edits@[k], spans[k], name@, value@),
        decreases nl - i,
    {
        if i != vl {
            let l = &lines[i];
            assert(l@ == ls[i as int]);
            let lstr = chars_to_string(l);
            let ms = match regex_captures_in_context(pattern.as_str(), lstr.as_str()) {
                Some(ms) => ms,
                None => {
                    let mut m: Vec<char> = Vec::new();
                    append_str(&mut m, "Invalid pattern for variable '");
                    append_str(&mut m, name.as_str());
                    append_str(&mut m, "'");
                    assert(usage_spans(ls, vl as int, wp, (i + 1) as int) is None);
                    proof {
                        lemma_usage_spans_stay_none(ls, vl as int, wp, (i + 1) as int, nl as int);
                    }
                    return Err(chars_to_string(&m));
                },
            };
            let ghost msv = ms@.map_values(|t: (String, String, String)| (t.0@, t.1@, t.2@));
            let ghost prev = spans;
            let mut j: usize = 0;
            while j < ms.len()
                invariant
                    j <= ms@.len(),
                    i < nl,
                    i != vl,
                    l@ == ls[i as int],
                    lstr@ == l@,
                    lstr@.len() == l.len(),
                    msv == ms@.map_values(|t: (String, String, String)| (t.0@, t.1@, t.2@)),
                    forall|k: int| 0 <= k < ms@.len() ==> {
                        let t = #[trigger] ms@[k];
                        &&& t.0@.len() + t.1@.len() <= lstr@.len()
                    },
                    value_text@ == value@,
                    descr@ == "Inline variable '"@ + name@ + "'"@,
                    edits@.len() == prev.len() + j,
                    forall|k: int| 0 <= k < prev.len() ==> usage_edit(#[trigger] edits@[k], prev[k], name@, value@),
                    forall|k: int| 0 <= k < j ==> usage_edit(#[trigger] edits@[prev.len() + k],
                        spans_on_line(i as int, msv)[k], name@, value@),
                decreases ms@.len() - j,
            {
                let t = &ms[j];
                assert(msv[j as int] == (t.0@, t.1@, t.2@));
                assert(t.0@.len() + t.1@.len() <= lstr@.len());
                let pc = str_chars(t.0.as_str());
                let mc = str_chars(t.1.as_str());
                let s = pc.len();
                let e = s + mc.len();
                edits.push(TextEdit {
                    file_path: None,
                    edit_type: EditType::Replace,
                    location: EditLocation {
                        start_line: i as u32,
                        start_column: s as u32,
                        end_line: i as u32,
                        end_column: e as u32,
                    },
                    original_text: name.clone(),
                    new_text: value_text.clone(),
                    priority: 100,
                    description: chars_to_string(&descr),
                });
                j = j + 1;
            }
            proof {
                let sl = spans_on_line(i as int, msv);
                assert(usage_spans(ls, vl as int, wp, (i + 1) as int) == Some(prev + sl));
                assert forall|k: int| 0 <= k < (prev + sl).len() implies usage_edit(#[trigger] edits@[k], (prev + sl)[k], name@, value@) by {
                    if k >= prev.len() {
                        assert(edits@[prev.len() + (k - prev.len())] == edits@[k]);
                    }
                }
                spans = prev + sl;
            }
        } else {
            assert(usage_spans(ls, vl as int, wp, (i + 1) as int) == Some(spans));
        }
        i = i + 1;
    }
    let mut dd: Vec<char> = Vec::new();
    append_str(&mut dd, "Remove variable declaration for '");
    append_str(&mut dd, name.as_str());
    append_str(&mut dd, "'");
    let ghost before = edits@;
    edits.push(TextEdit {
        file_path: None,
        edit_type: EditType::Delete,
        location: EditLocation {
            start_line: variable_line,
            start_column: 0,
            end_line: variable_line,
            end_column: line.len() as u32,
        },
        original_text: chars_to_string(line),
        new_text: String::new(),
        priority: 50,
        description: chars_to_string(&dd),
    });
    assert forall|k: int| 0 <= k < spans.len() implies usage_edit(#[trigger] edits@[k], spans[k], name@, value@) by {
        assert(edits@[k] == before[k]);
    }
    let mut validations: Vec<ValidationRule> = Vec::new();
    validations.push(ValidationRule {
        rule_type: ValidationType::SyntaxCheck,
        description: owned("Verify Rust syntax is valid after inlining"),
    });
    let mut args: Vec<(String, ArgValue)> = Vec::new();
    args.push((owned("variable_name"), ArgValue::Text(name.clone())));
    args.push((owned("value"), ArgValue::Text(value_text)));
    let mut areas: Vec<String> = Vec::new();
    areas.push(owned("variable_inlining"));
    Ok(EditPlan {
        source_file: owned(file_path),
        edits,
        validations,
        metadata: EditPlanMetadata {
            intent_name: owned("inline_variable"),
            intent_arguments: args,
            created_at: now_timestamp(),
            complexity: 3,
            impact_areas: areas,
        },
    })
}

} // verus!
