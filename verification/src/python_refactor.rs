//! Python plugin: extract-variable, inline-variable and extract-function
//! analyses and edit plans, computed from what the Python parser reports
//! (the selected text, the variables and functions of the file, the uses of
//! a variable).

use vstd::prelude::*;
use crate::edit::{
    CodeRange, range_on_line, make_range, EditLocation, EditType, TextEdit, ValidationType, ValidationRule,
    ArgValue, EditPlanMetadata, EditPlan, now_timestamp, location_of, to_location,
};
use crate::errors::RefactoringError;
use crate::python_lang::{
    suggested_name, suggest_variable_name, ExtractableFunction, find_insertion_point, last_definition_before,
    generate_function_call, function_call_text, strings_view,
};
use crate::python_ast::PythonVariable;
use crate::regex_support::{regex_group_texts, regex_capture_groups, regex_escape, regex_escape_of};
use crate::rust_lang::{indentation, indentation_of, local_edit};
use crate::text::{
    str_chars, chars_to_string, split_lines, vv, lines_of, trim, trim_chars, has_prefix, contains_seq,
    contains_char, starts_with_str, contains_str, contains_ch, append_str, append_chars, join_with, join_chars,
};

verus! {

fn owned(t: &str) -> (s: String)
    ensures
        s@ == t@,
{
    chars_to_string(&str_chars(t))
}

/// What the analysis of a selected expression says.
#[derive(Debug, Clone)]
pub struct ExtractVariableAnalysis {
    pub expression: String,
    pub expression_range: CodeRange,
    pub can_extract: bool,
    pub suggested_name: String,
    pub insertion_point: CodeRange,
    pub blocking_reasons: Vec<String>,
    pub scope_type: String,
}

/// Why an expression cannot be extracted, in this order: it is a function or
/// class definition; it is an assignment (an `=` that is not part of `==` or
/// `!=` anywhere in it); it runs over several lines without parentheses.
pub open spec fn extraction_blockers(e: Seq<char>) -> Seq<Seq<char>> {
    let t = trim(e);
    let a = if has_prefix(t, "def "@) || has_prefix(t, "class "@) {
        seq!["Cannot extract function or class definitions"@]
    } else {
        Seq::empty()
    };
    let b = if contains_char(e, '=') && !contains_seq(e, "=="@) && !contains_seq(e, "!="@) {
        seq!["Cannot extract assignment statements"@]
    } else {
        Seq::empty()
    };
    let c = if lines_of(e).len() > 1 && !has_prefix(t, "("@) {
        seq!["Multi-line expressions must be parenthesized"@]
    } else {
        Seq::empty()
    };
    a + b + c
}

/// The views of a vector of strings.
pub open spec fn texts(v: Seq<String>) -> Seq<Seq<char>> {
    v.map_values(|s: String| s@)
}

fn push_text(v: &mut Vec<String>, t: &str)
    ensures
        texts(final(v)@) == texts(old(v)@).push(t@),
{
    let ghost o = texts(v@);
    v.push(owned(t));
    assert(texts(v@) =~= o.push(t@));
}

/// Analyses `expression`, the text of the selection
/// `start_line:start_col .. end_line:end_col` as the parser reads it.
pub fn analyze_extract_variable(expression: &str, start_line: u32, start_col: u32, end_line: u32, end_col: u32)
    -> (r: ExtractVariableAnalysis)
    ensures
        r.expression@ == expression@,
        r.expression_range == (CodeRange { start_line, start_col, end_line, end_col }),
        texts(r.blocking_reasons@) == extraction_blockers(expression@),
        r.can_extract == (extraction_blockers(expression@).len() == 0),
        r.suggested_name@ == suggested_name(expression@),
        r.insertion_point == range_on_line(start_line as int, 0, 0),
        r.scope_type@ == "function"@,
{
    let e = str_chars(expression);
    let t = trim_chars(&e);
    let mut reasons: Vec<String> = Vec::new();
    let mut can_extract = true;
    if starts_with_str(&t, "def ") || starts_with_str(&t, "class ") {
        can_extract = false;
        push_text(&mut reasons, "Cannot extract function or class definitions");
    }
    if contains_ch(&e, '=') && !contains_str(&e, "==") && !contains_str(&e, "!=") {
        can_extract = false;
        push_text(&mut reasons, "Cannot extract assignment statements");
    }
    let ls = split_lines(&e);
    if ls.len() > 1 && !starts_with_str(&t, "(") {
        can_extract = false;
        push_text(&mut reasons, "Multi-line expressions must be parenthesized");
    }
    assert(texts(reasons@) =~= extraction_blockers(expression@));
    ExtractVariableAnalysis {
        expression: owned(expression),
        expression_range: CodeRange { start_line, start_col, end_line, end_col },
        can_extract,
        suggested_name: suggest_variable_name(expression),
        insertion_point: CodeRange { start_line, start_col: 0, end_line: start_line, end_col: 0 },
        blocking_reasons: reasons,
        scope_type: owned("function"),
    }
}

/// Plans the extraction of the selected expression into a variable: a
/// declaration `indent name = expression` above the selection's line (the
/// name given, or the suggested one) and the selection replaced by the name.
pub fn plan_extract_variable(
    source: &str,
    expression: &str,
    start_line: u32,
    start_col: u32,
    end_line: u32,
    end_col: u32,
    variable_name: Option<String>,
    file_path: &str,
) -> (r: Result<EditPlan, RefactoringError>)
    ensures
        extraction_blockers(expression@).len() > 0 ==> (r matches Err(RefactoringError::Analysis(m))
            && m@ == "Cannot extract expression: "@ + join_with(extraction_blockers(expression@), ", "@)),
        extraction_blockers(expression@).len() == 0 ==> (r matches Ok(plan) && {
            let var = match variable_name {
                Some(v) => v@,
                None => suggested_name(expression@),
            };
            &&& plan.source_file@ == file_path@
            &&& plan.edits@.len() == 2
            &&& local_edit(plan.edits@[0], EditType::Insert, location_of(range_on_line(start_line as int, 0, 0)),
                Seq::empty(), indentation(lines_of(source@), start_line as int) + var + " = "@ + expression@ + "\n"@,
                100, "Extract '"@ + expression@ + "' into variable '"@ + var + "'"@)
            &&& local_edit(plan.edits@[1], EditType::Replace,
                location_of(CodeRange { start_line, start_col, end_line, end_col }), expression@, var, 90,
                "Replace expression with '"@ + var + "'"@)
            &&& plan.validations@.len() == 1
            &&& plan.validations@[0].rule_type == ValidationType::SyntaxCheck
            &&& plan.validations@[0].description@ == "Verify Python syntax is valid after extraction"@
            &&& plan.metadata.intent_name@ == "extract_variable"@
            &&& plan.metadata.complexity == 2
            &&& plan.metadata.impact_areas@.len() == 1
            &&& plan.metadata.impact_areas@[0]@ == "variable_extraction"@
        }),
{
    let analysis = analyze_extract_variable(expression, start_line, start_col, end_line, end_col);
    if !analysis.can_extract {
        let mut rs: Vec<Vec<char>> = Vec::new();
        let mut i: usize = 0;
        while i < analysis.blocking_reasons.len()
            invariant
                i <= analysis.blocking_reasons@.len(),
                vv(&rs) == texts(analysis.blocking_reasons@).subrange(0, i as int),
            decreases analysis.blocking_reasons@.len() - i,
        {
            let ghost o = vv(&rs);
            rs.push(str_chars(analysis.blocking_reasons[i].as_str()));
            assert(vv(&rs) =~= o.push(analysis.blocking_reasons@[i as int]@));
            assert(texts(analysis.blocking_reasons@).subrange(0, i + 1) =~= texts(analysis.blocking_reasons@).subrange(0, i as int).push(analysis.blocking_reasons@[i as int]@));
            i = i + 1;
        }
        assert(texts(analysis.blocking_reasons@).subrange(0, analysis.blocking_reasons@.len() as int) =~= texts(analysis.blocking_reasons@));
        let joined = join_chars(&rs, ", ");
        let mut m = str_chars("Cannot extract expression: ");
        append_chars(&mut m, &joined);
        return Err(RefactoringError::Analysis(chars_to_string(&m)));
    }
    let var: String = match variable_name {
        Some(v) => v,
        None => analysis.suggested_name,
    };
    let src = str_chars(source);
    let lines = split_lines(&src);
    let indent = indentation_of(&lines, start_line as usize);
    let mut decl = indent;
    append_str(&mut decl, var.as_str());
    append_str(&mut decl, " = ");
    append_str(&mut decl, expression);
    append_str(&mut decl, "\n");
    let mut d0 = str_chars("Extract '");
    append_str(&mut d0, expression);
    append_str(&mut d0, "' into variable '");
    append_str(&mut d0, var.as_str());
    append_str(&mut d0, "'");
    let mut d1 = str_chars("Replace expression with '");
    append_str(&mut d1, var.as_str());
    append_str(&mut d1, "'");
    let mut edits: Vec<TextEdit> = Vec::new();
    edits.push(TextEdit {
        file_path: None,
        edit_type: EditType::Insert,
        location: to_location(analysis.insertion_point),
        original_text: String::new(),
        new_text: chars_to_string(&decl),
        priority: 100,
        description: chars_to_string(&d0),
    });
    edits.push(TextEdit {
        file_path: None,
        edit_type: EditType::Replace,
        location: to_location(analysis.expression_range),
        original_text: owned(expression),
        new_text: chars_to_string(&str_chars(var.as_str())),
        priority: 90,
        description: chars_to_string(&d1),
    });
    let mut validations: Vec<ValidationRule> = Vec::new();
    validations.push(ValidationRule {
        rule_type: ValidationType::SyntaxCheck,
        description: owned("Verify Python syntax is valid after extraction"),
    });
    let mut args: Vec<(String, ArgValue)> = Vec::new();
    args.push((owned("expression"), ArgValue::Text(owned(expression))));
    args.push((owned("variableName"), ArgValue::Text(chars_to_string(&str_chars(var.as_str())))));
    args.push((owned("startLine"), ArgValue::Number(start_line as u64)));
    args.push((owned("startCol"), ArgValue::Number(start_col as u64)));
    args.push((owned("endLine"), ArgValue::Number(end_line as u64)));
    args.push((owned("endCol"), ArgValue::Number(end_col as u64)));
    let mut areas: Vec<String> = Vec::new();
    areas.push(owned("variable_extraction"));
    Ok(EditPlan {
        source_file: owned(file_path),
        edits,
        validations,
        metadata: EditPlanMetadata {
            intent_name: owned("extract_variable"),
            intent_arguments: args,
            created_at: now_timestamp(),
            complexity: 2,
            impact_areas: areas,
        },
    })
}


/// What the analysis of a variable to inline says.
#[derive(Debug, Clone)]
pub struct InlineVariableAnalysis {
    pub variable_name: String,
    pub declaration_range: CodeRange,
    pub initializer_expression: String,
    pub usage_locations: Vec<CodeRange>,
    pub is_safe_to_inline: bool,
    pub blocking_reasons: Vec<String>,
}

/// Pattern of the assignment to `name` at the start of a line; group 1 is
/// the assigned expression.
pub open spec fn assignment_pattern(name: Seq<char>) -> Seq<char> {
    "^\\s*"@ + regex_escape_of(name) + "\\s*=\\s*(.+)"@
}

/// The trimmed expression assigned to `name` on `line`, if the line assigns it.
pub open spec fn assigned_value(name: Seq<char>, line: Seq<char>) -> Option<Seq<char>> {
    match regex_group_texts(assignment_pattern(name), line, 1) {
        Some(g) => if g.len() > 0 { Some(trim(g[0])) } else { None },
        None => None,
    }
}

/// The ranges of the uses reported as (line, start column, end column).
pub open spec fn usage_ranges(usages: Seq<(u32, u32, u32)>) -> Seq<CodeRange> {
    usages.map_values(|u: (u32, u32, u32)| CodeRange { start_line: u.0, start_col: u.1, end_line: u.0, end_col: u.2 })
}

/// Analyses the variable the parser found at the cursor (`None` when there
/// is none), with the uses of it that the parser reports after its line.
pub fn analyze_inline_variable(source: &str, variable: Option<PythonVariable>, usages: &Vec<(u32, u32, u32)>)
    -> (r: Result<InlineVariableAnalysis, RefactoringError>)
    ensures
        match variable {
            None => r matches Err(RefactoringError::Analysis(m)) && m@ == "Could not find variable at specified position"@,
            Some(v) => {
                let lines = lines_of(source@);
                if v.line >= lines.len() {
                    r matches Err(RefactoringError::Analysis(m)) && m@ == "Invalid line number"@
                } else {
                    match assigned_value(v.name@, lines[v.line as int]) {
                        None => r matches Err(RefactoringError::Analysis(m)) && m@ == "Could not find variable assignment"@,
                        Some(init) => r matches Ok(a) && {
                            &&& a.variable_name@ == v.name@
                            &&& a.declaration_range == range_on_line(v.line as int, 0, lines[v.line as int].len() as int)
                            &&& a.initializer_expression@ == init
                            &&& a.usage_locations@ == usage_ranges(usages@)
                            &&& a.is_safe_to_inline
                            &&& a.blocking_reasons@.len() == 0
                        },
                    }
                }
            },
        },
{
    let v = match variable {
        Some(v) => v,
        None => {
            return Err(RefactoringError::Analysis(owned("Could not find variable at specified position")));
        },
    };
    let src = str_chars(source);
    let lines = split_lines(&src);
    let ghost ls = vv(&lines);
    let li = v.line as usize;
    if li >= lines.len() {
        return Err(RefactoringError::Analysis(owned("Invalid line number")));
    }
    let line = &lines[li];
    assert(line@ == ls[li as int]);
    let line_text = chars_to_string(line);
    let esc = regex_escape(v.name.as_str());
    let mut p = str_chars("^\\s*");
    append_str(&mut p, esc.as_str());
    append_str(&mut p, "\\s*=\\s*(.+)");
    let pattern = chars_to_string(&p);
    assert(pattern@ == assignment_pattern(v.name@));
    let init: Vec<char> = match regex_capture_groups(pattern.as_str(), line_text.as_str(), 1) {
        Some(g) => {
            if g.len() > 0 {
                let ghost gv = g@.map_values(|s: String| s@);
                assert(gv[0] == g@[0]@);
                trim_chars(&str_chars(g[0].as_str()))
            } else {
                return Err(RefactoringError::Analysis(owned("Could not find variable assignment")));
            }
        },
        None => {
            return Err(RefactoringError::Analysis(owned("Could not find variable assignment")));
        },
    };
    let mut locations: Vec<CodeRange> = Vec::new();
    let mut i: usize = 0;
    while i < usages.len()
        invariant
            i <= usages@.len(),
            locations@ == usage_ranges(usages@).subrange(0, i as int),
        decreases usages@.len() - i,
    {
        let (l, s, e) = usages[i];
        locations.push(CodeRange { start_line: l, start_col: s, end_line: l, end_col: e });
        assert(usage_ranges(usages@).subrange(0, i + 1) =~= usage_ranges(usages@).subrange(0, i as int).push(
            CodeRange { start_line: l, start_col: s, end_line: l, end_col: e }));
        i = i + 1;
    }
    assert(usage_ranges(usages@).subrange(0, usages@.len() as int) =~= usage_ranges(usages@));
    Ok(InlineVariableAnalysis {
        variable_name: chars_to_string(&str_chars(v.name.as_str())),
        declaration_range: make_range(li, 0, line.len()),
        initializer_expression: chars_to_string(&init),
        usage_locations: locations,
        is_safe_to_inline: true,
        blocking_reasons: Vec::new(),
    })
}

/// An initializer with a space and an arithmetic operator is put in
/// parentheses where it replaces a use.
pub open spec fn inlined_text(init: Seq<char>) -> Seq<char> {
    if contains_char(init, ' ') && (contains_char(init, '+') || contains_char(init, '-') || contains_char(init, '*')
        || contains_char(init, '/') || contains_char(init, '%')) {
        "("@ + init + ")"@
    } else {
        init
    }
}

/// Plans inlining the analysed variable: each use (in order, priorities
/// counting down from 100) is replaced by the initializer, and the
/// declaration, whose text is `declaration_text`, is deleted.
pub fn plan_inline_variable(
    analysis: &InlineVariableAnalysis,
    declaration_text: &str,
    variable_line: u32,
    variable_col: u32,
    file_path: &str,
) -> (r: Result<EditPlan, RefactoringError>)
    requires
        analysis.usage_locations@.len() <= 100,
    ensures
        !analysis.is_safe_to_inline ==> (r matches Err(RefactoringError::Analysis(m)) && m@ == "Cannot safely inline variable '"@
            + analysis.variable_name@ + "': "@ + join_with(texts(analysis.blocking_reasons@), ", "@)),
        analysis.is_safe_to_inline ==> (r matches Ok(plan) && {
            let n = analysis.usage_locations@.len();
            let name = analysis.variable_name@;
            &&& plan.source_file@ == file_path@
            &&& plan.edits@.len() == n + 1
            &&& forall|k: int| 0 <= k < n ==> local_edit(#[trigger] plan.edits@[k], EditType::Replace,
                location_of(analysis.usage_locations@[k]), name, inlined_text(analysis.initializer_expression@),
                (100 - k) as u32, "Replace '"@ + name + "' with its value"@)
            &&& local_edit(plan.edits@[n as int], EditType::Delete, location_of(analysis.declaration_range),
                declaration_text@, Seq::empty(), 50, "Remove declaration of '"@ + name + "'"@)
            &&& plan.validations@.len() == 1
            &&& plan.validations@[0].rule_type == ValidationType::SyntaxCheck
            &&& plan.validations@[0].description@ == "Verify Python syntax is valid after inlining"@
            &&& plan.metadata.intent_name@ == "inline_variable"@
            &&& plan.metadata.complexity as int == if n < 10 { n as int } else { 10 }
            &&& plan.metadata.impact_areas@.len() == 1
            &&& plan.metadata.impact_areas@[0]@ == "variable_inlining"@
        }),
{
    if !analysis.is_safe_to_inline {
        let mut rs: Vec<Vec<char>> = Vec::new();
        let mut i: usize = 0;
        while i < analysis.blocking_reasons.len()
            invariant
                i <= analysis.blocking_reasons@.len(),
                vv(&rs) == texts(analysis.blocking_reasons@).subrange(0, i as int),
            decreases analysis.blocking_reasons@.len() - i,
        {
            let ghost o = vv(&rs);
            rs.push(str_chars(analysis.blocking_reasons[i].as_str()));
            assert(vv(&rs) =~= o.push(analysis.blocking_reasons@[i as int]@));
            assert(texts(analysis.blocking_reasons@).subrange(0, i + 1) =~= texts(analysis.blocking_reasons@).subrange(0, i as int).push(analysis.blocking_reasons@[i as int]@));
            i = i + 1;
        }
        assert(texts(analysis.blocking_reasons@).subrange(0, analysis.blocking_reasons@.len() as int) =~= texts(analysis.blocking_reasons@));
        let joined = join_chars(&rs, ", ");
        let mut m = str_chars("Cannot safely inline variable '");
        append_str(&mut m, analysis.variable_name.as_str());
        append_str(&mut m, "': ");
        append_chars(&mut m, &joined);
        return Err(RefactoringError::Analysis(chars_to_string(&m)));
    }
    let init = str_chars(analysis.initializer_expression.as_str());
    let wrap = contains_ch(&init, ' ') && (contains_ch(&init, '+') || contains_ch(&init, '-') || contains_ch(&init, '*')
        || contains_ch(&init, '/') || contains_ch(&init, '%'));
    let replacement: Vec<char> = if wrap {
        let mut t = str_chars("(");
        append_chars(&mut t, &init);
        append_str(&mut t, ")");
        t
    } else {
        init
    };
    let mut d = str_chars("Replace '");
    append_str(&mut d, analysis.variable_name.as_str());
    append_str(&mut d, "' with its value");
    let n = analysis.usage_locations.len();
    let mut edits: Vec<TextEdit> = Vec::new();
    let mut priority: u32 = 100;
    let mut k: usize = 0;
    while k < n
        invariant
            k <= n == analysis.usage_locations@.len() <= 100,
            priority == 100 - k,
            replacement@ == inlined_text(analysis.initializer_expression@),
            d@ == "Replace '"@ + analysis.variable_name@ + "' with its value"@,
            edits@.len() == k,
            forall|j: int| 0 <= j < k ==> local_edit(#[trigger] edits@[j], EditType::Replace,
                location_of(analysis.usage_locations@[j]), analysis.variable_name@,
                inlined_text(analysis.initializer_expression@), (100 - j) as u32,
                "Replace '"@ + analysis.variable_name@ + "' with its value"@),
        decreases n - k,
    {
        edits.push(TextEdit {
            file_path: None,
            edit_type: EditType::Replace,
            location: to_location(analysis.usage_locations[k]),
            original_text: chars_to_string(&str_chars(analysis.variable_name.as_str())),
            new_text: chars_to_string(&replacement),
            priority,
            description: chars_to_string(&d),
        });
        priority = priority - 1;
        k = k + 1;
    }
    let mut dd = str_chars("Remove declaration of '");
    append_str(&mut dd, analysis.variable_name.as_str());
    append_str(&mut dd, "'");
    let ghost before = edits@;
    edits.push(TextEdit {
        file_path: None,
        edit_type: EditType::Delete,
        location: to_location(analysis.declaration_range),
        original_text: owned(declaration_text),
        new_text: String::new(),
        priority: 50,
        description: chars_to_string(&dd),
    });
    assert forall|j: int| 0 <= j < n implies local_edit(#[trigger] edits@[j], EditType::Replace,
        location_of(analysis.usage_locations@[j]), analysis.variable_name@,
        inlined_text(analysis.initializer_expression@), (100 - j) as u32,
        "Replace '"@ + analysis.variable_name@ + "' with its value"@) by {
        assert(edits@[j] == before[j]);
    }
    let mut validations: Vec<ValidationRule> = Vec::new();
    validations.push(ValidationRule {
        rule_type: ValidationType::SyntaxCheck,
        description: owned("Verify Python syntax is valid after inlining"),
    });
    let mut args: Vec<(String, ArgValue)> = Vec::new();
    args.push((owned("variable"), ArgValue::Text(chars_to_string(&str_chars(analysis.variable_name.as_str())))));
    args.push((owned("line"), ArgValue::Number(variable_line as u64)));
    args.push((owned("column"), ArgValue::Number(variable_col as u64)));
    let mut areas: Vec<String> = Vec::new();
    areas.push(owned("variable_inlining"));
    let complexity: u8 = if n < 10 { n as u8 } else { 10 };
    Ok(EditPlan {
        source_file: owned(file_path),
        edits,
        validations,
        metadata: EditPlanMetadata {
            intent_name: owned("inline_variable"),
            intent_arguments: args,
            created_at: now_timestamp(),
            complexity,
            impact_areas: areas,
        },
    })
}


/// The part of line `l` inside the selection.
pub open spec fn selected_part(line: Seq<char>, l: int, range: CodeRange) -> Seq<char> {
    if l == range.start_line && l == range.end_line {
        line.subrange(range.start_col as int, range.end_col as int)
    } else if l == range.start_line {
        line.subrange(range.start_col as int, line.len() as int)
    } else if l == range.end_line {
        line.subrange(0, range.end_col as int)
    } else {
        line
    }
}

/// The selection's columns lie within their lines (where the lines exist).
pub open spec fn columns_fit(lines: Seq<Seq<char>>, range: CodeRange) -> bool {
    &&& (range.start_line < lines.len() && range.start_line == range.end_line) ==>
        range.start_col <= range.end_col <= lines[range.start_line as int].len()
    &&& (range.start_line < lines.len() && range.start_line != range.end_line) ==>
        range.start_col <= lines[range.start_line as int].len()
    &&& (range.end_line < lines.len() && range.start_line != range.end_line) ==>
        range.end_col <= lines[range.end_line as int].len()
}

/// The parameters found after looking at the first `k` variables for `text`:
/// each variable assigned before the selection whose name occurs in the text,
/// once, in the order first found.
pub open spec fn params_from_vars(acc: Seq<Seq<char>>, text: Seq<char>, vars: Seq<(Seq<char>, u32)>, start_line: u32, k: int)
    -> Seq<Seq<char>>
    decreases k,
{
    if k <= 0 {
        acc
    } else {
        let prev = params_from_vars(acc, text, vars, start_line, k - 1);
        let (name, line) = vars[k - 1];
        if line < start_line && contains_seq(text, name) && !prev.contains(name) {
            prev.push(name)
        } else {
            prev
        }
    }
}

/// The parameters found on the selected lines before line `l`.
pub open spec fn params_through(lines: Seq<Seq<char>>, range: CodeRange, vars: Seq<(Seq<char>, u32)>, l: int) -> Seq<Seq<char>>
    decreases l - range.start_line,
{
    if l <= range.start_line {
        Seq::empty()
    } else {
        let prev = params_through(lines, range, vars, l - 1);
        params_from_vars(prev, selected_part(lines[l - 1], l - 1, range), vars, range.start_line, vars.len() as int)
    }
}

/// The variables as (name, line).
pub open spec fn variable_view(vars: Seq<PythonVariable>) -> Seq<(Seq<char>, u32)> {
    vars.map_values(|v: PythonVariable| (v.name@, v.line))
}

/// The last selected line that exists, plus one.
pub open spec fn scan_end(lines: Seq<Seq<char>>, range: CodeRange) -> int {
    if range.end_line < lines.len() { range.end_line + 1 } else { lines.len() as int }
}

fn part_of(line: &Vec<char>, l: usize, range: CodeRange) -> (r: Vec<char>)
    requires
        l == range.start_line && l == range.end_line ==> range.start_col <= range.end_col <= line@.len(),
        l == range.start_line && l != range.end_line ==> range.start_col <= line@.len(),
        l != range.start_line && l == range.end_line ==> range.end_col <= line@.len(),
    ensures
        r@ == selected_part(line@, l as int, range),
{
    let sl = range.start_line as usize;
    let el = range.end_line as usize;
    if l == sl && l == el {
        crate::text::slice_chars(line, range.start_col as usize, range.end_col as usize)
    } else if l == sl {
        crate::text::slice_chars(line, range.start_col as usize, line.len())
    } else if l == el {
        crate::text::slice_chars(line, 0, range.end_col as usize)
    } else {
        let r = crate::text::slice_chars(line, 0, line.len());
        assert(line@.subrange(0, line@.len() as int) =~= line@);
        r
    }
}

/// Analyses a selection for extraction into a function, given the variables
/// the parser found in the file and the selected text: the parameters are
/// the variables assigned before the selection that its lines mention.
pub fn analyze_extract_function(source: &str, range: CodeRange, variables: &Vec<PythonVariable>, selected_text: &str)
    -> (r: Result<ExtractableFunction, RefactoringError>)
    requires
        columns_fit(lines_of(source@), range),
    ensures
        r matches Ok(f) && {
            let lines = lines_of(source@);
            let n = if range.start_line < lines.len() { range.start_line as int } else { lines.len() as int };
            &&& f.selected_range == range
            &&& texts(f.required_parameters@) == params_through(lines, range, variable_view(variables@),
                scan_end(lines, range))
            &&& f.return_variables@.len() == 0
            &&& f.suggested_name@ == "extracted_function"@
            &&& f.insertion_point == range_on_line(last_definition_before(lines, n), 0, 0)
            &&& f.contains_return_statements == contains_seq(selected_text@, "return "@)
            &&& f.complexity_score == 2
        },
{
    let src = str_chars(source);
    let lines = split_lines(&src);
    let ghost ls = vv(&lines);
    let ghost vars = variable_view(variables@);
    let end: usize = if (range.end_line as usize) < lines.len() { range.end_line as usize + 1 } else { lines.len() };
    let mut params: Vec<String> = Vec::new();
    let mut l: usize = range.start_line as usize;
    if l < end {
        while l < end
            invariant
                range.start_line <= l <= end <= lines@.len(),
                end == scan_end(ls, range),
                ls == vv(&lines),
                ls == lines_of(source@),
                columns_fit(ls, range),
                vars == variable_view(variables@),
                texts(params@) == params_through(ls, range, vars, l as int),
            decreases end - l,
        {
            let line = &lines[l];
            assert(line@ == ls[l as int]);
            let text = part_of(line, l, range);
            let mut k: usize = 0;
            let ghost prev = texts(params@);
            while k < variables.len()
                invariant
                    k <= variables@.len(),
                    vars == variable_view(variables@),
                    texts(params@) == params_from_vars(prev, text@, vars, range.start_line, k as int),
                decreases variables@.len() - k,
            {
                let v = &variables[k];
                assert(vars[k as int] == (v.name@, v.line));
                let name = str_chars(v.name.as_str());
                if v.line < range.start_line && crate::text::contains(&text, &name) && !contains_text(&params, v.name.as_str()) {
                    let ghost o = texts(params@);
                    params.push(chars_to_string(&name));
                    assert(texts(params@) =~= o.push(v.name@));
                }
                k = k + 1;
            }
            assert(vars.len() == variables@.len());
            l = l + 1;
        }
    } else {
        assert(params_through(ls, range, vars, end as int) == Seq::<Seq<char>>::empty());
        assert(texts(params@) =~= Seq::<Seq<char>>::empty());
    }
    let sel = str_chars(selected_text);
    let contains_return = contains_str(&sel, "return ");
    let insertion_point = find_insertion_point(source, range.start_line)?;
    Ok(ExtractableFunction {
        selected_range: range,
        required_parameters: params,
        return_variables: Vec::new(),
        suggested_name: owned("extracted_function"),
        insertion_point,
        contains_return_statements: contains_return,
        complexity_score: 2,
    })
}

fn contains_text(v: &Vec<String>, t: &str) -> (r: bool)
    ensures
        r == texts(v@).contains(t@),
{
    let tc = str_chars(t);
    let mut i: usize = 0;
    while i < v.len()
        invariant
            i <= v@.len(),
            tc@ == t@,
            forall|k: int| 0 <= k < i ==> texts(v@)[k] != t@,
        decreases v@.len() - i,
    {
        let c = str_chars(v[i].as_str());
        assert(texts(v@)[i as int] == v@[i as int]@);
        if crate::text::chars_eq(&c, &tc) {
            return true;
        }
        i = i + 1;
    }
    proof {
        if texts(v@).contains(t@) {
            let k = choose|k: int| 0 <= k < texts(v@).len() && texts(v@)[k] == t@;
            assert(texts(v@)[k] != t@);
        }
    }
    false
}


/// A line of the extracted body: indented by four spaces unless blank.
pub open spec fn body_line(line: Seq<char>) -> Seq<char> {
    if trim(line).len() == 0 { line } else { "    "@ + line }
}

/// The text of the new function: its header with the parameters, the
/// selected code indented one level, and a `return` of the variables it
/// hands back (an empty last line when there are none).
pub open spec fn function_text(name: Seq<char>, params: Seq<Seq<char>>, code: Seq<char>, outputs: Seq<Seq<char>>) -> Seq<char> {
    let body = join_with(lines_of(code).map_values(|l: Seq<char>| body_line(l)), "\n"@);
    let ret = if outputs.len() == 0 { Seq::empty() } else { "    return "@ + join_with(outputs, ", "@) };
    "def "@ + name + "("@ + join_with(params, ", "@) + "):\n"@ + body + "\n"@ + ret
}

fn strings_chars(v: &Vec<String>) -> (r: Vec<Vec<char>>)
    ensures
        vv(&r) == texts(v@),
{
    let mut out: Vec<Vec<char>> = Vec::new();
    let mut i: usize = 0;
    while i < v.len()
        invariant
            i <= v@.len(),
            vv(&out) == texts(v@).subrange(0, i as int),
        decreases v@.len() - i,
    {
        let ghost o = vv(&out);
        out.push(str_chars(v[i].as_str()));
        assert(vv(&out) =~= o.push(v@[i as int]@));
        assert(texts(v@).subrange(0, i + 1) =~= texts(v@).subrange(0, i as int).push(v@[i as int]@));
        i = i + 1;
    }
    assert(texts(v@).subrange(0, v@.len() as int) =~= texts(v@));
    out
}

/// Writes the new function for the analysed selection, whose text is
/// `selected_text`.
pub fn generate_extracted_function(analysis: &ExtractableFunction, selected_text: &str, function_name: &str)
    -> (r: Result<String, RefactoringError>)
    ensures
        r matches Ok(s) && s@ == function_text(function_name@, texts(analysis.required_parameters@), selected_text@,
            texts(analysis.return_variables@)),
{
    let params = strings_chars(&analysis.required_parameters);
    let joined_params = join_chars(&params, ", ");
    let code = str_chars(selected_text);
    let code_lines = split_lines(&code);
    let ghost cl = vv(&code_lines);
    let mut body_lines: Vec<Vec<char>> = Vec::new();
    let mut i: usize = 0;
    while i < code_lines.len()
        invariant
            i <= code_lines@.len(),
            cl == vv(&code_lines),
            vv(&body_lines) == cl.subrange(0, i as int).map_values(|l: Seq<char>| body_line(l)),
        decreases code_lines@.len() - i,
    {
        let line = &code_lines[i];
        assert(line@ == cl[i as int]);
        let t = trim_chars(line);
        let b: Vec<char> = if t.len() == 0 {
            let c = crate::text::slice_chars(line, 0, line.len());
            assert(line@.subrange(0, line@.len() as int) =~= line@);
            c
        } else {
            let mut c = str_chars("    ");
            append_chars(&mut c, line);
            c
        };
        let ghost o = vv(&body_lines);
        body_lines.push(b);
        assert(vv(&body_lines) =~= o.push(body_line(cl[i as int])));
        assert(cl.subrange(0, i + 1).map_values(|l: Seq<char>| body_line(l)) =~= cl.subrange(0, i as int).map_values(|l: Seq<char>| body_line(l)).push(body_line(cl[i as int])));
        i = i + 1;
    }
    assert(cl.subrange(0, cl.len() as int) =~= cl);
    let body = join_chars(&body_lines, "\n");
    let mut out = str_chars("def ");
    append_str(&mut out, function_name);
    append_str(&mut out, "(");
    append_chars(&mut out, &joined_params);
    append_str(&mut out, "):\n");
    append_chars(&mut out, &body);
    append_str(&mut out, "\n");
    if analysis.return_variables.len() > 0 {
        let rets = strings_chars(&analysis.return_variables);
        let joined = join_chars(&rets, ", ");
        append_str(&mut out, "    return ");
        append_chars(&mut out, &joined);
    }
    Ok(chars_to_string(&out))
}

/// Plans the extraction of the selection into a function: the new function
/// inserted at the analysed insertion point and the selection, whose text is
/// `selected_text`, replaced by a call.
pub fn plan_extract_function(
    source: &str,
    range: CodeRange,
    variables: &Vec<PythonVariable>,
    selected_text: &str,
    new_function_name: &str,
    file_path: &str,
) -> (r: Result<EditPlan, RefactoringError>)
    requires
        columns_fit(lines_of(source@), range),
    ensures
        r matches Ok(plan) && {
            let lines = lines_of(source@);
            let n = if range.start_line < lines.len() { range.start_line as int } else { lines.len() as int };
            let params = params_through(lines, range, variable_view(variables@), scan_end(lines, range));
            &&& plan.source_file@ == file_path@
            &&& plan.edits@.len() == 2
            &&& local_edit(plan.edits@[0], EditType::Insert, location_of(range_on_line(last_definition_before(lines, n), 0, 0)),
                Seq::empty(), function_text(new_function_name@, params, selected_text@, Seq::empty()) + "\n\n"@, 100,
                "Create extracted function '"@ + new_function_name@ + "'"@)
            &&& local_edit(plan.edits@[1], EditType::Replace, location_of(range), selected_text@,
                function_call_text(params, Seq::empty(), new_function_name@), 90,
                "Replace selected code with call to '"@ + new_function_name@ + "'"@)
            &&& plan.validations@.len() == 1
            &&& plan.validations@[0].rule_type == ValidationType::SyntaxCheck
            &&& plan.validations@[0].description@ == "Verify Python syntax is valid after extraction"@
            &&& plan.metadata.intent_name@ == "extract_function"@
            &&& plan.metadata.complexity == 2
            &&& plan.metadata.impact_areas@.len() == 1
            &&& plan.metadata.impact_areas@[0]@ == "function_extraction"@
        },
{
    let analysis = analyze_extract_function(source, range, variables, selected_text)?;
    let code = generate_extracted_function(&analysis, selected_text, new_function_name)?;
    let call = generate_function_call(&analysis, new_function_name)?;
    assert(strings_view(analysis.required_parameters@) == texts(analysis.required_parameters@));
    assert(texts(analysis.return_variables@) =~= Seq::<Seq<char>>::empty());
    assert(strings_view(analysis.return_variables@) =~= Seq::<Seq<char>>::empty());
    let mut new_text = str_chars(code.as_str());
    append_str(&mut new_text, "\n\n");
    let mut d0 = str_chars("Create extracted function '");
    append_str(&mut d0, new_function_name);
    append_str(&mut d0, "'");
    let mut d1 = str_chars("Replace selected code with call to '");
    append_str(&mut d1, new_function_name);
    append_str(&mut d1, "'");
    let mut edits: Vec<TextEdit> = Vec::new();
    edits.push(TextEdit {
        file_path: None,
        edit_type: EditType::Insert,
        location: to_location(analysis.insertion_point),
        original_text: String::new(),
        new_text: chars_to_string(&new_text),
        priority: 100,
        description: chars_to_string(&d0),
    });
    edits.push(TextEdit {
        file_path: None,
        edit_type: EditType::Replace,
        location: to_location(analysis.selected_range),
        original_text: owned(selected_text),
        new_text: call,
        priority: 90,
        description: chars_to_string(&d1),
    });
    let mut validations: Vec<ValidationRule> = Vec::new();
    validations.push(ValidationRule {
        rule_type: ValidationType::SyntaxCheck,
        description: owned("Verify Python syntax is valid after extraction"),
    });
    let mut args: Vec<(String, ArgValue)> = Vec::new();
    args.push((owned("start_line"), ArgValue::Number(range.start_line as u64)));
    args.push((owned("start_col"), ArgValue::Number(range.start_col as u64)));
    args.push((owned("end_line"), ArgValue::Number(range.end_line as u64)));
    args.push((owned("end_col"), ArgValue::Number(range.end_col as u64)));
    args.push((owned("function_name"), ArgValue::Text(owned(new_function_name))));
    let mut areas: Vec<String> = Vec::new();
    areas.push(owned("function_extraction"));
    Ok(EditPlan {
        source_file: owned(file_path),
        edits,
        validations,
        metadata: EditPlanMetadata {
            intent_name: owned("extract_function"),
            intent_arguments: args,
            created_at: now_timestamp(),
            complexity: 2,
            impact_areas: areas,
        },
    })
}

} // verus!
