//! C plugin: refactorings on C source text and Makefile workspaces.

use vstd::prelude::*;
use crate::edit::{
    CodeRange, range_on_line, make_range, EditLocation, location_of, to_location, EditType, TextEdit,
    ValidationRule, ArgValue, EditPlanMetadata, EditPlan, now_timestamp,
};
use crate::errors::PluginError;
use crate::extract_constant::{
    ExtractConstantAnalysis, AnalysisFailure, PlanFailure, analysis_result, analysis_matches,
    analyze_constant, plan_constant, plan_matches, insertion_line, find_insertion_line,
};
use crate::literals::{
    LiteralSyntax, c_number_literal_at, c_number_syntax, find_c_number_literal, literal_occurrences,
    find_literal_occurrences_in, valid_literal_location, is_valid_literal_location_in,
};
use crate::naming::is_screaming_snake;
use crate::regex_support::{regex_group_texts, regex_capture_groups};
use crate::text::{
    str_chars, chars_to_string, split_lines, vv, lines_of, trim, trim_chars, contains_seq, contains_str,
    append_str, append_chars, join_with, join_chars, slice_chars, replace_all, replace_all_chars,
    words, split_whitespace, chars_eq_str,
};

verus! {

/// Finds the C number literal (decimal, hexadecimal, octal or float) under the
/// cursor at `col`; the range is on line 0.
pub fn find_c_numeric_literal_at_position(line_text: &str, col: usize) -> (r: Option<(String, CodeRange)>)
    ensures
        match r {
            Some((t, rg)) => c_number_literal_at(line_text@, col as int) == Some((t@, rg)),
            None => c_number_literal_at(line_text@, col as int) is None,
        },
{
    let line = str_chars(line_text);
    find_c_number_literal(&line, col)
}

/// Checks whether `text` is a valid C number literal.
pub fn is_valid_c_number(text: &str) -> (r: bool)
    ensures
        r == c_number_syntax(text@),
{
    let t = str_chars(text);
    crate::literals::is_valid_c_number(&t)
}

/// All occurrences of a non-empty literal in C source, outside strings and comments.
pub fn find_c_literal_occurrences(source: &str, literal_value: &str) -> (r: Vec<CodeRange>)
    requires
        literal_value@.len() > 0,
    ensures
        r@ == literal_occurrences(LiteralSyntax::C, source@, literal_value@),
{
    find_literal_occurrences_in(LiteralSyntax::C, source, literal_value)
}

/// Whether a literal at `pos` lies outside C strings and comments.
pub fn is_valid_c_literal_location(line: &str, pos: usize, _len: usize) -> (r: bool)
    requires
        pos <= line@.len(),
    ensures
        r == valid_literal_location(LiteralSyntax::C, line@, pos as int),
{
    let l = str_chars(line);
    is_valid_literal_location_in(LiteralSyntax::C, &l, pos)
}

/// Where a `#define` goes: after the last `#include` that precedes the first
/// function definition.
pub fn find_c_insertion_point_for_constant(source: &str) -> (r: Result<CodeRange, PluginError>)
    requires
        lines_of(source@).len() <= u32::MAX,
    ensures
        r matches Ok(rg) && rg == range_on_line(insertion_line(LiteralSyntax::C, lines_of(source@)), 0, 0),
{
    let src = str_chars(source);
    let lines = split_lines(&src);
    let ins = find_insertion_line(LiteralSyntax::C, &lines);
    Ok(make_range(ins as usize, 0, 0))
}

/// Message for a failed C analysis.
pub open spec fn c_analysis_message(f: AnalysisFailure) -> Seq<char> {
    match f {
        AnalysisFailure::InvalidLine => "Invalid line number"@,
        AnalysisFailure::NoLiteral => "No numeric literal found at the specified location"@,
    }
}

fn c_analysis_error(f: AnalysisFailure) -> (e: PluginError)
    ensures
        e matches PluginError::NotSupported(m) && m@ == c_analysis_message(f),
{
    let mut v: Vec<char> = Vec::new();
    match f {
        AnalysisFailure::InvalidLine => append_str(&mut v, "Invalid line number"),
        AnalysisFailure::NoLiteral => append_str(&mut v, "No numeric literal found at the specified location"),
    }
    PluginError::NotSupported(chars_to_string(&v))
}

/// Analyses the C number under the cursor for extraction into a constant.
pub fn analyze_extract_constant(source: &str, line: u32, character: u32, _file_path: &str)
    -> (r: Result<ExtractConstantAnalysis, PluginError>)
    requires
        lines_of(source@).len() <= u32::MAX,
    ensures
        match analysis_result(LiteralSyntax::C, source@, line as int, character as int) {
            Ok((lit, occ, ins)) => r matches Ok(a) && analysis_matches(a, lit, occ, ins),
            Err(f) => r matches Err(PluginError::NotSupported(m)) && m@ == c_analysis_message(f),
        },
{
    match analyze_constant(LiteralSyntax::C, source, line, character) {
        Ok(a) => Ok(a),
        Err(f) => Err(c_analysis_error(f)),
    }
}

/// Message for a constant name that is not SCREAMING_SNAKE_CASE (C).
pub open spec fn c_name_message(name: Seq<char>) -> Seq<char> {
    "Constant name '"@ + name
        + "' must be in SCREAMING_SNAKE_CASE format. Valid examples: MAX_SIZE, TAX_RATE, BUFFER_LEN. Requirements: only uppercase letters (A-Z), digits (0-9), and underscores; must contain at least one uppercase letter; cannot start or end with underscore."@
}

/// Message when the literal cannot be extracted.
pub open spec fn invalid_literal_message() -> Seq<char> {
    "Cannot extract constant: Could not extract literal at cursor position"@
}

/// Extracts the C number under the cursor into `#define name value`, replacing
/// every occurrence of the number outside strings and comments.
pub fn plan_extract_constant(source: &str, line: u32, character: u32, name: &str, file_path: &str)
    -> (r: Result<EditPlan, PluginError>)
    requires
        lines_of(source@).len() <= u32::MAX,
    ensures
        match analysis_result(LiteralSyntax::C, source@, line as int, character as int) {
            Err(f) => r matches Err(PluginError::NotSupported(m)) && m@ == c_analysis_message(f),
            Ok((lit, occ, ins)) => if lit.len() == 0 {
                r matches Err(PluginError::NotSupported(m)) && m@ == invalid_literal_message()
            } else if !is_screaming_snake(name@) {
                r matches Err(PluginError::NotSupported(m)) && m@ == c_name_message(name@)
            } else {
                r matches Ok(plan) && plan_matches(plan, LiteralSyntax::C, name@, lit, occ, ins, file_path@)
            },
        },
{
    match plan_constant(LiteralSyntax::C, source, line, character, name, file_path) {
        Ok(p) => Ok(p),
        Err(PlanFailure::Analysis(f)) => Err(c_analysis_error(f)),
        Err(PlanFailure::InvalidLiteral) => {
            let mut v: Vec<char> = Vec::new();
            append_str(&mut v, "Cannot extract constant: Could not extract literal at cursor position");
            Err(PluginError::NotSupported(chars_to_string(&v)))
        },
        Err(PlanFailure::InvalidName) => {
            let mut v: Vec<char> = Vec::new();
            append_str(&mut v, "Constant name '");
            append_str(&mut v, name);
            append_str(&mut v, "' must be in SCREAMING_SNAKE_CASE format. Valid examples: MAX_SIZE, TAX_RATE, BUFFER_LEN. Requirements: only uppercase letters (A-Z), digits (0-9), and underscores; must contain at least one uppercase letter; cannot start or end with underscore.");
            Err(PluginError::NotSupported(chars_to_string(&v)))
        },
    }
}

/// The first line containing `pat`, or 0 when none does.
pub open spec fn first_line_containing(lines: Seq<Seq<char>>, pat: Seq<char>, i: int) -> int
    decreases lines.len() - i,
{
    if i < 0 || i >= lines.len() {
        0
    } else if contains_seq(lines[i], pat) {
        i
    } else {
        first_line_containing(lines, pat, i + 1)
    }
}

/// The selected lines, each trimmed and indented by four spaces, joined by newlines.
pub open spec fn indented_body(lines: Seq<Seq<char>>, start: int, end: int) -> Seq<char> {
    join_with(
        lines.subrange(start, end + 1).map_values(|l: Seq<char>| "    "@ + trim(l)),
        "\n"@,
    )
}

/// The C function wrapping the selected lines.
pub open spec fn c_function_text(name: Seq<char>, body: Seq<char>) -> Seq<char> {
    "void "@ + name + "() {\n"@ + body + "\n}\n\n"@
}

/// `e` is an edit of `file` with the given fields.
pub open spec fn edit_is(
    e: TextEdit,
    file: Seq<char>,
    kind: EditType,
    loc: EditLocation,
    original: Seq<char>,
    new_text: Seq<char>,
    priority: u32,
    description: Seq<char>,
) -> bool {
    &&& e.file_path matches Some(f) && f@ == file
    &&& e.edit_type == kind
    &&& e.location == loc
    &&& e.original_text@ == original
    &&& e.new_text@ == new_text
    &&& e.priority == priority
    &&& e.description@ == description
}

/// The location `l1:c1 .. l2:c2`.
pub open spec fn loc(l1: int, c1: int, l2: int, c2: int) -> EditLocation {
    EditLocation {
        start_line: l1 as u32,
        start_column: c1 as u32,
        end_line: l2 as u32,
        end_column: c2 as u32,
    }
}

fn text(t: &str) -> (s: String)
    ensures
        s@ == t@,
{
    let v = str_chars(t);
    chars_to_string(&v)
}

/// Moves lines `start_line..=end_line` into a new `void` function inserted
/// before `int main()` (or at the top) and replaces them by a call.
pub fn plan_extract_function(source: &str, start_line: u32, end_line: u32, function_name: &str, file_path: &str)
    -> (r: Result<EditPlan, PluginError>)
    requires
        start_line <= end_line < lines_of(source@).len() ==> start_line > 0,
    ensures
        ({
            let lines = lines_of(source@);
            if start_line > end_line || end_line >= lines.len() {
                r matches Err(PluginError::NotSupported(m)) && m@ == "Invalid line range"@
            } else {
                r matches Ok(plan) && {
                    let main_line = first_line_containing(lines, "int main()"@, 0);
                    let body = indented_body(lines, start_line as int, end_line as int);
                    &&& plan.source_file@ == file_path@
                    &&& plan.edits@.len() == 2
                    &&& edit_is(plan.edits@[0], file_path@, EditType::Insert, loc(main_line, 0, main_line, 0),
                        Seq::empty(), c_function_text(function_name@, body), 1,
                        "Create new function '"@ + function_name@ + "'"@)
                    &&& edit_is(plan.edits@[1], file_path@, EditType::Replace,
                        loc(start_line - 1, 0, end_line - 1, lines[end_line as int].len() as int),
                        join_with(lines.subrange(start_line as int, end_line + 1), "\n"@),
                        "    "@ + function_name@ + "();"@, 0,
                        "Call new function '"@ + function_name@ + "'"@)
                    &&& plan.validations@.len() == 0
                    &&& plan.metadata.intent_name@ == "extract_function"@
                    &&& plan.metadata.complexity == 2
                    &&& plan.metadata.impact_areas@.len() == 1
                    &&& plan.metadata.impact_areas@[0]@ == "refactoring"@
                }
            }
        }),
{
    let src = str_chars(source);
    let lines = split_lines(&src);
    let ghost ls = vv(&lines);
    if start_line > end_line || end_line as usize >= lines.len() {
        return Err(PluginError::NotSupported(text("Invalid line range")));
    }
    let s = start_line as usize;
    let e = end_line as usize;
    // the selected lines, trimmed and indented, and as they stand
    let mut indented: Vec<Vec<char>> = Vec::new();
    let mut raw: Vec<Vec<char>> = Vec::new();
    let nl = lines.len();
    let mut i: usize = s;
    while i <= e
        invariant
            s <= i <= e + 1,
            e < nl,
            nl == lines@.len(),
            ls == vv(&lines),
            vv(&indented) == ls.subrange(s as int, i as int).map_values(|l: Seq<char>| "    "@ + trim(l)),
            vv(&raw) == ls.subrange(s as int, i as int),
        decreases e + 1 - i,
    {
        assert(lines@[i as int]@ == ls[i as int]);
        let mut v: Vec<char> = Vec::new();
        append_str(&mut v, "    ");
        let t = trim_chars(&lines[i]);
        append_chars(&mut v, &t);
        assert(v@ == "    "@ + trim(ls[i as int]));
        let ghost oi = vv(&indented);
        let ghost orw = vv(&raw);
        indented.push(v);
        raw.push(slice_chars(&lines[i], 0, lines[i].len()));
        assert(lines@[i as int]@.subrange(0, lines@[i as int]@.len() as int) =~= ls[i as int]);
        assert(vv(&indented) =~= oi.push(v@));
        assert(ls.subrange(s as int, i + 1).map_values(|l: Seq<char>| "    "@ + trim(l)) =~= ls.subrange(s as int, i as int).map_values(|l: Seq<char>| "    "@ + trim(l)).push("    "@ + trim(ls[i as int])));
        assert(vv(&raw) =~= ls.subrange(s as int, i + 1));
        i = i + 1;
    }
    let body = join_chars(&indented, "\n");
    let mut f: Vec<char> = Vec::new();
    append_str(&mut f, "void ");
    append_str(&mut f, function_name);
    append_str(&mut f, "() {\n");
    append_chars(&mut f, &body);
    append_str(&mut f, "\n}\n\n");
    // the line holding `int main()`, else the first line
    let main_pat = str_chars("int main()");
    let mut m: usize = 0;
    while m < lines.len() && !crate::text::contains(&lines[m], &main_pat)
        invariant
            m <= lines@.len(),
            ls == vv(&lines),
            main_pat@ == "int main()"@,
            first_line_containing(ls, "int main()"@, 0) == first_line_containing(ls, "int main()"@, m as int),
        decreases lines@.len() - m,
    {
        assert(lines@[m as int]@ == ls[m as int]);
        m = m + 1;
    }
    if m < lines.len() {
        assert(lines@[m as int]@ == ls[m as int]);
    }
    let main_line: usize = if m < lines.len() { m } else { 0 };
    let mut d1: Vec<char> = Vec::new();
    append_str(&mut d1, "Create new function '");
    append_str(&mut d1, function_name);
    append_str(&mut d1, "'");
    let insert_edit = TextEdit {
        file_path: Some(text(file_path)),
        edit_type: EditType::Insert,
        location: EditLocation {
            start_line: main_line as u32,
            start_column: 0,
            end_line: main_line as u32,
            end_column: 0,
        },
        original_text: String::new(),
        new_text: chars_to_string(&f),
        priority: 1,
        description: chars_to_string(&d1),
    };
    let original = join_chars(&raw, "\n");
    let mut call: Vec<char> = Vec::new();
    append_str(&mut call, "    ");
    append_str(&mut call, function_name);
    append_str(&mut call, "();");
    let mut d2: Vec<char> = Vec::new();
    append_str(&mut d2, "Call new function '");
    append_str(&mut d2, function_name);
    append_str(&mut d2, "'");
    assert(lines@[e as int]@ == ls[e as int]);
    let call_edit = TextEdit {
        file_path: Some(text(file_path)),
        edit_type: EditType::Replace,
        location: EditLocation {
            start_line: start_line - 1,
            start_column: 0,
            end_line: end_line - 1,
            end_column: lines[e].len() as u32,
        },
        original_text: chars_to_string(&original),
        new_text: chars_to_string(&call),
        priority: 0,
        description: chars_to_string(&d2),
    };
    let mut edits: Vec<TextEdit> = Vec::new();
    edits.push(insert_edit);
    edits.push(call_edit);
    let mut args: Vec<(String, ArgValue)> = Vec::new();
    args.push((text("start_line"), ArgValue::Number(start_line as u64)));
    args.push((text("end_line"), ArgValue::Number(end_line as u64)));
    args.push((text("function_name"), ArgValue::Text(text(function_name))));
    args.push((text("file_path"), ArgValue::Text(text(file_path))));
    let mut areas: Vec<String> = Vec::new();
    areas.push(text("refactoring"));
    Ok(EditPlan {
        source_file: text(file_path),
        edits,
        validations: Vec::new(),
        metadata: EditPlanMetadata {
            intent_name: text("extract_function"),
            intent_arguments: args,
            created_at: now_timestamp(),
            complexity: 2,
            impact_areas: areas,
        },
    })
}

/// The text `line[start_col..end_col]`, or empty when that range is not inside the line.
pub open spec fn selected_text(line: Seq<char>, start_col: int, end_col: int) -> Seq<char> {
    if start_col <= end_col && end_col <= line.len() {
        line.subrange(start_col, end_col)
    } else {
        Seq::empty()
    }
}

/// Declares a new `int` variable holding the selected expression and puts the
/// variable in its place; only single-line selections are supported.
pub fn plan_extract_variable(
    source: &str,
    start_line: u32,
    start_col: u32,
    end_line: u32,
    end_col: u32,
    variable_name: Option<String>,
    file_path: &str,
) -> (r: Result<EditPlan, PluginError>)
    requires
        ({
            let lines = lines_of(source@);
            start_line < lines.len() && end_line < lines.len() && start_line == end_line ==> start_line > 0
                && start_col <= lines[start_line as int].len()
        }),
    ensures
        ({
            let lines = lines_of(source@);
            let var = match variable_name {
                Some(v) => v@,
                None => "new_var"@,
            };
            if start_line >= lines.len() || end_line >= lines.len() {
                r matches Err(PluginError::NotSupported(m)) && m@ == "Invalid line number"@
            } else if start_line != end_line {
                r matches Err(PluginError::NotSupported(m)) && m@ == "Multi-line variable extraction is not supported."@
            } else {
                r matches Ok(plan) && {
                    let line = lines[start_line as int];
                    let expr = selected_text(line, start_col as int, end_col as int);
                    &&& plan.source_file@ == file_path@
                    &&& plan.edits@.len() == 2
                    &&& edit_is(plan.edits@[0], file_path@, EditType::Insert,
                        loc(start_line - 1, 4, start_line - 1, 4), Seq::empty(),
                        "int "@ + var + " = "@ + expr + ";"@ + "\n    "@, 1,
                        "Declare new variable '"@ + var + "'"@)
                    &&& edit_is(plan.edits@[1], file_path@, EditType::Replace,
                        loc(start_line - 1, 0, end_line - 1, line.len() as int), line,
                        line.subrange(0, start_col as int) + var + ";"@, 0,
                        "Replace expression with new variable '"@ + var + "'"@)
                    &&& plan.validations@.len() == 0
                    &&& plan.metadata.intent_name@ == "extract_variable"@
                    &&& plan.metadata.complexity == 2
                }
            }
        }),
{
    let var: String = match variable_name {
        Some(v) => v,
        None => text("new_var"),
    };
    let src = str_chars(source);
    let lines = split_lines(&src);
    let ghost ls = vv(&lines);
    let sl = start_line as usize;
    let el = end_line as usize;
    if sl >= lines.len() || el >= lines.len() {
        return Err(PluginError::NotSupported(text("Invalid line number")));
    }
    if sl != el {
        return Err(PluginError::NotSupported(text("Multi-line variable extraction is not supported.")));
    }
    let line = &lines[sl];
    assert(line@ == ls[sl as int]);
    let sc = start_col as usize;
    let ec = end_col as usize;
    let expr: Vec<char> = if sc <= ec && ec <= line.len() {
        slice_chars(line, sc, ec)
    } else {
        Vec::new()
    };
    let mut decl: Vec<char> = Vec::new();
    append_str(&mut decl, "int ");
    append_str(&mut decl, var.as_str());
    append_str(&mut decl, " = ");
    append_chars(&mut decl, &expr);
    append_str(&mut decl, ";");
    append_str(&mut decl, "\n    ");
    let mut d1: Vec<char> = Vec::new();
    append_str(&mut d1, "Declare new variable '");
    append_str(&mut d1, var.as_str());
    append_str(&mut d1, "'");
    let insert_edit = TextEdit {
        file_path: Some(text(file_path)),
        edit_type: EditType::Insert,
        location: EditLocation {
            start_line: start_line - 1,
            start_column: 4,
            end_line: start_line - 1,
            end_column: 4,
        },
        original_text: String::new(),
        new_text: chars_to_string(&decl),
        priority: 1,
        description: chars_to_string(&d1),
    };
    let mut new_line = slice_chars(line, 0, sc);
    append_str(&mut new_line, var.as_str());
    append_str(&mut new_line, ";");
    let mut d2: Vec<char> = Vec::new();
    append_str(&mut d2, "Replace expression with new variable '");
    append_str(&mut d2, var.as_str());
    append_str(&mut d2, "'");
    let replace_edit = TextEdit {
        file_path: Some(text(file_path)),
        edit_type: EditType::Replace,
        location: EditLocation {
            start_line: start_line - 1,
            start_column: 0,
            end_line: end_line - 1,
            end_column: line.len() as u32,
        },
        original_text: chars_to_string(line),
        new_text: chars_to_string(&new_line),
        priority: 0,
        description: chars_to_string(&d2),
    };
    let mut edits: Vec<TextEdit> = Vec::new();
    edits.push(insert_edit);
    edits.push(replace_edit);
    let mut args: Vec<(String, ArgValue)> = Vec::new();
    args.push((text("start_line"), ArgValue::Number(start_line as u64)));
    args.push((text("start_col"), ArgValue::Number(start_col as u64)));
    args.push((text("end_line"), ArgValue::Number(end_line as u64)));
    args.push((text("end_col"), ArgValue::Number(end_col as u64)));
    args.push((text("variable_name"), ArgValue::Text(var)));
    args.push((text("file_path"), ArgValue::Text(text(file_path))));
    let mut areas: Vec<String> = Vec::new();
    areas.push(text("refactoring"));
    Ok(EditPlan {
        source_file: text(file_path),
        edits,
        validations: Vec::new(),
        metadata: EditPlanMetadata {
            intent_name: text("extract_variable"),
            intent_arguments: args,
            created_at: now_timestamp(),
            complexity: 2,
            impact_areas: areas,
        },
    })
}

/// Pattern of the `SUBDIRS = ...` line of a Makefile; group 1 is the list.
pub const SUBDIRS_PATTERN: &'static str = "SUBDIRS\\s*=\\s*(.*)";

/// The subdirectory list of the first `SUBDIRS` line, if any.
pub open spec fn subdirs_of(content: Seq<char>) -> Option<Seq<char>> {
    match regex_group_texts(SUBDIRS_PATTERN@, content, 1) {
        Some(gs) => if gs.len() > 0 {
            Some(gs[0])
        } else {
            None
        },
        None => None,
    }
}

/// `ws` without the pieces equal to `m`.
pub open spec fn without(ws: Seq<Seq<char>>, m: Seq<char>) -> Seq<Seq<char>>
    decreases ws.len(),
{
    if ws.len() == 0 {
        ws
    } else if ws.last() == m {
        without(ws.drop_last(), m)
    } else {
        without(ws.drop_last(), m).push(ws.last())
    }
}

/// Workspace support for C projects whose parent Makefile lists the
/// subprojects in a `SUBDIRS` variable.
#[derive(Debug, Clone, Copy, Default)]
pub struct CWorkspaceSupport;

fn subdirs(content: &str) -> (r: Option<String>)
    ensures
        match r {
            Some(s) => subdirs_of(content@) == Some(s@),
            None => subdirs_of(content@) is None,
        },
{
    match regex_capture_groups(SUBDIRS_PATTERN, content, 1) {
        Some(gs) => {
            if gs.len() > 0 {
                let ghost v = gs@.map_values(|s: String| s@);
                assert(v[0] == gs@[0]@);
                Some(gs[0].clone())
            } else {
                None
            }
        },
        None => None,
    }
}

impl CWorkspaceSupport {
    /// Adds `member_path` to the end of the `SUBDIRS` list, or appends a
    /// `SUBDIRS` line when there is none.
    pub fn add_workspace_member(&self, manifest_content: &str, member_path: &str) -> (r: String)
        ensures
            r@ == match subdirs_of(manifest_content@) {
                Some(existing) => replace_all(manifest_content@, existing, existing + " "@ + member_path@),
                None => manifest_content@ + "\nSUBDIRS = "@ + member_path@,
            },
    {
        let content = str_chars(manifest_content);
        match subdirs(manifest_content) {
            Some(existing) => {
                let ex = str_chars(existing.as_str());
                let mut nw = str_chars(existing.as_str());
                append_str(&mut nw, " ");
                append_str(&mut nw, member_path);
                chars_to_string(&replace_all_chars(&content, &ex, &nw))
            },
            None => {
                let mut out = content;
                append_str(&mut out, "\nSUBDIRS = ");
                append_str(&mut out, member_path);
                chars_to_string(&out)
            },
        }
    }

    /// Removes `member_path` from the `SUBDIRS` list (which is rewritten with
    /// single spaces); the content is unchanged when there is no list.
    pub fn remove_workspace_member(&self, manifest_content: &str, member_path: &str) -> (r: String)
        ensures
            r@ == match subdirs_of(manifest_content@) {
                Some(existing) => replace_all(
                    manifest_content@,
                    existing,
                    join_with(without(words(existing), member_path@), " "@),
                ),
                None => manifest_content@,
            },
    {
        let content = str_chars(manifest_content);
        match subdirs(manifest_content) {
            Some(existing) => {
                let ex = str_chars(existing.as_str());
                let ws = split_whitespace(&ex);
                let member = str_chars(member_path);
                let mut kept: Vec<Vec<char>> = Vec::new();
                let mut i: usize = 0;
                while i < ws.len()
                    invariant
                        i <= ws@.len(),
                        member@ == member_path@,
                        vv(&kept) == without(vv(&ws).subrange(0, i as int), member_path@),
                    decreases ws@.len() - i,
                {
                    let ghost pre = vv(&ws).subrange(0, i as int);
                    assert(vv(&ws).subrange(0, i + 1).drop_last() =~= pre);
                    assert(vv(&ws).subrange(0, i + 1).last() == ws@[i as int]@);
                    if !crate::text::chars_eq(&ws[i], &member) {
                        let ghost ok = vv(&kept);
                        kept.push(slice_chars(&ws[i], 0, ws[i].len()));
                        assert(ws@[i as int]@.subrange(0, ws@[i as int]@.len() as int) =~= ws@[i as int]@);
                        assert(vv(&kept) =~= ok.push(ws@[i as int]@));
                    }
                    i = i + 1;
                }
                assert(vv(&ws).subrange(0, ws@.len() as int) =~= vv(&ws));
                let joined = join_chars(&kept, " ");
                chars_to_string(&replace_all_chars(&content, &ex, &joined))
            },
            None => chars_to_string(&content),
        }
    }

    /// The entries of the `SUBDIRS` list.
    pub fn list_workspace_members(&self, manifest_content: &str) -> (r: Vec<String>)
        ensures
            r@.map_values(|s: String| s@) == match subdirs_of(manifest_content@) {
                Some(existing) => words(existing),
                None => Seq::empty(),
            },
    {
        match subdirs(manifest_content) {
            Some(existing) => {
                let ex = str_chars(existing.as_str());
                let ws = split_whitespace(&ex);
                let mut out: Vec<String> = Vec::new();
                let mut i: usize = 0;
                while i < ws.len()
                    invariant
                        i <= ws@.len(),
                        out@.map_values(|s: String| s@) == vv(&ws).subrange(0, i as int),
                    decreases ws@.len() - i,
                {
                    let ghost o = out@.map_values(|s: String| s@);
                    out.push(chars_to_string(&ws[i]));
                    assert(out@.map_values(|s: String| s@) =~= o.push(ws@[i as int]@));
                    assert(vv(&ws).subrange(0, i + 1) =~= vv(&ws).subrange(0, i as int).push(ws@[i as int]@));
                    i = i + 1;
                }
                assert(vv(&ws).subrange(0, ws@.len() as int) =~= vv(&ws));
                out
            },
            None => {
                let out: Vec<String> = Vec::new();
                assert(out@.map_values(|s: String| s@) =~= Seq::<Seq<char>>::empty());
                out
            },
        }
    }

    /// A Makefile is a workspace manifest when it mentions `SUBDIRS`.
    pub fn is_workspace_manifest(&self, content: &str) -> (r: bool)
        ensures
            r == contains_seq(content@, "SUBDIRS"@),
    {
        let c = str_chars(content);
        contains_str(&c, "SUBDIRS")
    }

    /// Makefiles carry no package name: the content is returned unchanged.
    pub fn update_package_name(&self, content: &str, _new_name: &str) -> (r: String)
        ensures
            r@ == content@,
    {
        text(content)
    }
}


/// Pattern of a simple `int name = value;` declaration; group 1 is the name,
/// group 2 the initialiser.
pub const INT_VAR_DECL_PATTERN: &'static str = "int\\s+(\\w+)\\s*=\\s*([^;]+);";

/// The name and trimmed initialiser of the first `int` declaration on `line`.
pub open spec fn int_decl_of(line: Seq<char>) -> Option<(Seq<char>, Seq<char>)> {
    match (regex_group_texts(INT_VAR_DECL_PATTERN@, line, 1), regex_group_texts(INT_VAR_DECL_PATTERN@, line, 2)) {
        (Some(names), Some(values)) => if names.len() > 0 && values.len() > 0 {
            Some((names[0], trim(values[0])))
        } else {
            None
        },
        _ => None,
    }
}

/// The lines after `vl`, among the first `n`, that mention `name`.
pub open spec fn usage_lines(lines: Seq<Seq<char>>, vl: int, name: Seq<char>, n: int) -> Seq<int>
    decreases n,
{
    if n <= 0 {
        Seq::empty()
    } else if n - 1 > vl && contains_seq(lines[n - 1], name) {
        usage_lines(lines, vl, name, n - 1).push(n - 1)
    } else {
        usage_lines(lines, vl, name, n - 1)
    }
}

fn int_decl(line: &Vec<char>) -> (r: Option<(String, Vec<char>)>)
    ensures
        match r {
            Some((n, v)) => int_decl_of(line@) == Some((n@, v@)),
            None => int_decl_of(line@) is None,
        },
{
    let l = chars_to_string(line);
    let names = regex_capture_groups(INT_VAR_DECL_PATTERN, l.as_str(), 1);
    let values = regex_capture_groups(INT_VAR_DECL_PATTERN, l.as_str(), 2);
    match (names, values) {
        (Some(ns), Some(vs)) => {
            if ns.len() > 0 && vs.len() > 0 {
                let ghost a = ns@.map_values(|s: String| s@);
                let ghost b = vs@.map_values(|s: String| s@);
                assert(a[0] == ns@[0]@);
                assert(b[0] == vs@[0]@);
                let v = str_chars(vs[0].as_str());
                Some((ns[0].clone(), trim_chars(&v)))
            } else {
                None
            }
        },
        _ => None,
    }
}

/// What inlining the variable declared on line `vl` gives.
pub open spec fn inline_variable_outcome(source: Seq<char>, variable_line: int, file_path: Seq<char>, r: Result<EditPlan, PluginError>) -> bool {
    let lines = lines_of(source);
    if variable_line >= lines.len() {
        r matches Err(PluginError::NotSupported(m)) && m@ == "Invalid line number"@
    } else {
        let line = lines[variable_line];
        match int_decl_of(line) {
            None => r matches Err(PluginError::NotSupported(m))
                && m@ == "Could not find a simple integer variable declaration to inline."@,
            Some((name, value)) => r matches Ok(plan) && {
                let uses = usage_lines(lines, variable_line, name, lines.len() as int);
                &&& plan.source_file@ == file_path
                &&& plan.edits@.len() == uses.len() + 1
                &&& edit_is(plan.edits@[0], file_path, EditType::Delete,
                    loc(variable_line - 1, 0, variable_line - 1, line.len() as int), line, Seq::empty(), 1,
                    "Remove declaration of variable '"@ + name + "'"@)
                &&& forall|k: int| 0 <= k < uses.len() ==> edit_is(#[trigger] plan.edits@[k + 1], file_path,
                    EditType::Replace, loc(uses[k], 0, uses[k], lines[uses[k]].len() as int), lines[uses[k]],
                    replace_all(lines[uses[k]], name, value), 0, "Inline variable '"@ + name + "'"@)
                &&& plan.validations@.len() == 0
                &&& plan.metadata.intent_name@ == "inline_variable"@
                &&& plan.metadata.complexity == 2
                &&& plan.metadata.impact_areas@.len() == 1
                &&& plan.metadata.impact_areas@[0]@ == "refactoring"@
            },
        }
    }
}

/// Inlines the `int` variable declared on line `variable_line`: the
/// declaration (one line up in the edit, as the plugin numbers it) is deleted
/// and every later line that mentions the name has the name replaced by the
/// initialiser.
pub fn plan_inline_variable(source: &str, variable_line: u32, variable_col: u32, file_path: &str)
    -> (r: Result<EditPlan, PluginError>)
    requires
        variable_line < lines_of(source@).len() && int_decl_of(lines_of(source@)[variable_line as int]) is Some
            ==> variable_line > 0,
    ensures
        inline_variable_outcome(source@, variable_line as int, file_path@, r),
{
    let src = str_chars(source);
    let lines = split_lines(&src);
    let ghost ls = vv(&lines);
    let vl = variable_line as usize;
    if vl >= lines.len() {
        return Err(PluginError::NotSupported(text("Invalid line number")));
    }
    let line = &lines[vl];
    assert(line@ == ls[vl as int]);
    let (name, value) = match int_decl(line) {
        Some(d) => d,
        None => {
            return Err(PluginError::NotSupported(text("Could not find a simple integer variable declaration to inline.")));
        },
    };
    let name_chars = str_chars(name.as_str());
    let mut d0: Vec<char> = Vec::new();
    append_str(&mut d0, "Remove declaration of variable '");
    append_str(&mut d0, name.as_str());
    append_str(&mut d0, "'");
    let mut edits: Vec<TextEdit> = Vec::new();
    edits.push(TextEdit {
        file_path: Some(text(file_path)),
        edit_type: EditType::Delete,
        location: EditLocation {
            start_line: variable_line - 1,
            start_column: 0,
            end_line: variable_line - 1,
            end_column: line.len() as u32,
        },
        original_text: chars_to_string(line),
        new_text: String::new(),
        priority: 1,
        description: chars_to_string(&d0),
    });
    let ghost e0 = edits@[0];
    let nl = lines.len();
    let mut i: usize = 0;
    while i < nl
        invariant
            i <= nl,
            nl == lines@.len(),
            ls == vv(&lines),
            name_chars@ == name@,
            edits@.len() == usage_lines(ls, vl as int, name@, i as int).len() + 1,
            edits@[0] == e0,
            forall|k: int| 0 <= k < usage_lines(ls, vl as int, name@, i as int).len() ==> {
                let u = usage_lines(ls, vl as int, name@, i as int)[k];
                edit_is(#[trigger] edits@[k + 1], file_path@, EditType::Replace, loc(u, 0, u, ls[u].len() as int),
                    ls[u], replace_all(ls[u], name@, value@), 0, "Inline variable '"@ + name@ + "'"@)
            },
        decreases nl - i,
    {
        let l = &lines[i];
        assert(l@ == ls[i as int]);
        let ghost before = usage_lines(ls, vl as int, name@, i as int);
        if i > vl && crate::text::contains(l, &name_chars) {
            let new_line = replace_all_chars(l, &name_chars, &value);
            let mut d: Vec<char> = Vec::new();
            append_str(&mut d, "Inline variable '");
            append_str(&mut d, name.as_str());
            append_str(&mut d, "'");
            edits.push(TextEdit {
                file_path: Some(text(file_path)),
                edit_type: EditType::Replace,
                location: EditLocation {
                    start_line: i as u32,
                    start_column: 0,
                    end_line: i as u32,
                    end_column: l.len() as u32,
                },
                original_text: chars_to_string(l),
                new_text: chars_to_string(&new_line),
                priority: 0,
                description: chars_to_string(&d),
            });
            assert(usage_lines(ls, vl as int, name@, i + 1) == before.push(i as int));
        } else {
            assert(usage_lines(ls, vl as int, name@, i + 1) == before);
        }
        i = i + 1;
    }
    let mut args: Vec<(String, ArgValue)> = Vec::new();
    args.push((text("variable_line"), ArgValue::Number(variable_line as u64)));
    args.push((text("variable_col"), ArgValue::Number(variable_col as u64)));
    args.push((text("file_path"), ArgValue::Text(text(file_path))));
    let mut areas: Vec<String> = Vec::new();
    areas.push(text("refactoring"));
    Ok(EditPlan {
        source_file: text(file_path),
        edits,
        validations: Vec::new(),
        metadata: EditPlanMetadata {
            intent_name: text("inline_variable"),
            intent_arguments: args,
            created_at: now_timestamp(),
            complexity: 2,
            impact_areas: areas,
        },
    })
}

/// `plan_inline_variable` for any input: `None` where the plugin cannot number
/// the edit, a declaration found on line 0.
pub fn plan_inline_variable_checked(source: &str, variable_line: u32, variable_col: u32, file_path: &str)
    -> (r: Option<Result<EditPlan, PluginError>>)
    ensures
        ({
            let lines = lines_of(source@);
            r is None <==> (variable_line == 0 && variable_line < lines.len()
                && int_decl_of(lines[variable_line as int]) is Some)
        }),
        r matches Some(p) ==> inline_variable_outcome(source@, variable_line as int, file_path@, p),
{
    if variable_line == 0 {
        let src = str_chars(source);
        let lines = split_lines(&src);
        if lines.len() > 0 {
            assert(lines@[0]@ == vv(&lines)[0]);
            match int_decl(&lines[0]) {
                Some(_) => {
                    return None;
                },
                None => {},
            }
        }
    }
    Some(plan_inline_variable(source, variable_line, variable_col, file_path))
}

} // verus!
