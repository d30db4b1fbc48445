//! TypeScript and JavaScript refactorings: the text of a selection, the
//! extracted function and its call, and the edit plans built from an
//! analysis of the selection.

use vstd::prelude::*;
use crate::edit::{
    CodeRange, EditType, TextEdit, ValidationType, ValidationRule, ArgValue, EditPlanMetadata, EditPlan,
    now_timestamp, location_of, to_location, range_on_line,
};
use crate::package_extractor::AstError;
use crate::python_lang::ExtractableFunction;
use crate::python_refactor::{InlineVariableAnalysis, texts};
use crate::rust_lang::local_edit;
use crate::swc_parse::{ts_module_error, parse_ts_module};
use crate::text::{chars_eq, has_suffix, ends_with_str, str_chars, chars_to_string, split_lines, vv, lines_of, append_str, append_chars, join_with, join_chars, slice_chars};

verus! {

fn owned(t: &str) -> (s: String)
    ensures
        s@ == t@,
{
    chars_to_string(&str_chars(t))
}

/// The middle lines of a multi-line selection, those that exist, each with
/// its line break: lines `from..to` among the first `n`.
pub open spec fn middle_lines(lines: Seq<Seq<char>>, from: int, to: int, n: int) -> Seq<char>
    decreases n - from,
{
    if n <= from {
        Seq::empty()
    } else if n - 1 < to && n - 1 < lines.len() {
        middle_lines(lines, from, to, n - 1) + lines[n - 1] + "\n"@
    } else {
        middle_lines(lines, from, to, n - 1)
    }
}

/// The selection's columns lie within the lines they cut.
pub open spec fn cuts_fit(lines: Seq<Seq<char>>, r: CodeRange) -> bool {
    if r.start_line == r.end_line {
        r.start_line < lines.len() ==> r.start_col <= r.end_col <= lines[r.start_line as int].len()
    } else {
        &&& r.start_line < lines.len() ==> r.start_col <= lines[r.start_line as int].len()
        &&& r.end_line < lines.len() ==> r.end_col <= lines[r.end_line as int].len()
    }
}

/// The selected text: on one line the cut between the columns; over several
/// lines the rest of the first line, the middle lines and the start of the
/// last one, each line that exists ending with a line break but the last.
pub open spec fn range_text(lines: Seq<Seq<char>>, r: CodeRange) -> Option<Seq<char>> {
    let sl = r.start_line as int;
    let el = r.end_line as int;
    if sl == el {
        if sl < lines.len() { Some(lines[sl].subrange(r.start_col as int, r.end_col as int)) } else { None }
    } else {
        let first = if sl < lines.len() { lines[sl].subrange(r.start_col as int, lines[sl].len() as int) + "\n"@ } else { Seq::empty() };
        let last = if el < lines.len() { lines[el].subrange(0, r.end_col as int) } else { Seq::empty() };
        Some(first + middle_lines(lines, sl + 1, el, if el < sl + 1 { sl + 1 } else { el }) + last)
    }
}

/// The text of the selection `range` of `source`.
pub fn extract_range_text(source: &str, range: CodeRange) -> (r: Result<String, AstError>)
    requires
        cuts_fit(lines_of(source@), range),
    ensures
        match range_text(lines_of(source@), range) {
            Some(t) => r matches Ok(s) && s@ == t,
            None => r matches Err(AstError::Analysis { message }) && message@ == "Invalid line number"@,
        },
{
    proof {
        reveal_strlit("\n");
    }
    let src = str_chars(source);
    let lines = split_lines(&src);
    let ghost ls = vv(&lines);
    let sl = range.start_line as usize;
    let el = range.end_line as usize;
    if sl == el {
        if sl >= lines.len() {
            return Err(AstError::Analysis { message: owned("Invalid line number") });
        }
        assert(lines@[sl as int]@ == ls[sl as int]);
        let cut = slice_chars(&lines[sl], range.start_col as usize, range.end_col as usize);
        return Ok(chars_to_string(&cut));
    }
    let mut out: Vec<char> = Vec::new();
    if sl < lines.len() {
        assert(lines@[sl as int]@ == ls[sl as int]);
        let first = slice_chars(&lines[sl], range.start_col as usize, lines[sl].len());
        append_chars(&mut out, &first);
        out.push('\n');
        assert(out@ =~= ls[sl as int].subrange(range.start_col as int, ls[sl as int].len() as int) + "\n"@);
    }
    let ghost first_part = out@;
    if sl < usize::MAX {
        let stop: usize = if el < sl + 1 { sl + 1 } else { el };
        let mut k: usize = sl + 1;
        while k < stop
            invariant
                sl + 1 <= k <= stop,
                stop == (if el < sl + 1 { sl + 1 } else { el as int }),
                ls == vv(&lines),
                out@ == first_part + middle_lines(ls, sl + 1, el as int, k as int),
            decreases stop - k,
        {
            let ghost before = out@;
            proof {
                reveal_strlit("\n");
            }
            if k < lines.len() {
                assert(lines@[k as int]@ == ls[k as int]);
                append_chars(&mut out, &lines[k]);
                out.push('\n');
                assert(out@ =~= before + ls[k as int] + "\n"@);
                assert(out@ =~= first_part + (middle_lines(ls, sl + 1, el as int, k as int) + ls[k as int] + "\n"@));
            }
            k = k + 1;
        }
    }
    if el < lines.len() {
        assert(lines@[el as int]@ == ls[el as int]);
        let last = slice_chars(&lines[el], 0, range.end_col as usize);
        append_chars(&mut out, &last);
    }
    proof {
        let stop = if el < sl + 1 { sl + 1 } else { el as int };
        if sl == usize::MAX {
            assert(middle_lines(ls, sl + 1, el as int, stop) == Seq::<char>::empty());
        }
    }
    Ok(chars_to_string(&out))
}


/// The `return` line of an extracted function: none, `return v;`, or
/// `return { a, b };`.
pub open spec fn ts_return_line(outputs: Seq<Seq<char>>) -> Seq<char> {
    if outputs.len() == 0 {
        Seq::empty()
    } else if outputs.len() == 1 {
        "  return "@ + outputs[0] + ";"@
    } else {
        "  return { "@ + join_with(outputs, ", "@) + " };"@
    }
}

/// The text of the extracted function: a header with the parameters, a
/// placeholder comment for the moved code, and the `return` line.
pub open spec fn ts_function_text(name: Seq<char>, params: Seq<Seq<char>>, outputs: Seq<Seq<char>>) -> Seq<char> {
    "function "@ + name + "("@ + join_with(params, ", "@) + ") {\n  // TODO: Extracted code\n"@
        + ts_return_line(outputs) + "\n}"@
}

/// The call replacing the selection: `f(a, b);`, `const v = f(a, b);` or
/// `const { v, w } = f(a, b);`.
pub open spec fn ts_call_text(name: Seq<char>, params: Seq<Seq<char>>, outputs: Seq<Seq<char>>) -> Seq<char> {
    let call = name + "("@ + join_with(params, ", "@) + ");"@;
    if outputs.len() == 0 {
        call
    } else if outputs.len() == 1 {
        "const "@ + outputs[0] + " = "@ + call
    } else {
        "const { "@ + join_with(outputs, ", "@) + " } = "@ + call
    }
}

pub(crate) fn strings_chars(v: &Vec<String>) -> (r: Vec<Vec<char>>)
    ensures
        vv(&r) == texts(v@),
{
    let mut out: Vec<Vec<char>> = Vec::new();
    let mut i: usize = 0;
    while i < v.len()
        invariant
            i <= v@.len(),
            vv(&out) == texts(v@).subrange(0, i as int),
        decreases v@.len() - i,
    {
        let ghost o = vv(&out);
        out.push(str_chars(v[i].as_str()));
        assert(vv(&out) =~= o.push(v@[i as int]@));
        assert(texts(v@).subrange(0, i + 1) =~= texts(v@).subrange(0, i as int).push(v@[i as int]@));
        i = i + 1;
    }
    assert(texts(v@).subrange(0, v@.len() as int) =~= texts(v@));
    out
}

/// Writes the extracted function for an analysis.
pub fn generate_extracted_function(analysis: &ExtractableFunction, function_name: &str) -> (r: Result<String, AstError>)
    ensures
        r matches Ok(s) && s@ == ts_function_text(function_name@, texts(analysis.required_parameters@),
            texts(analysis.return_variables@)),
{
    let params = strings_chars(&analysis.required_parameters);
    let outs = strings_chars(&analysis.return_variables);
    let mut out = str_chars("function ");
    append_str(&mut out, function_name);
    append_str(&mut out, "(");
    let jp = join_chars(&params, ", ");
    append_chars(&mut out, &jp);
    append_str(&mut out, ") {\n  // TODO: Extracted code\n");
    if outs.len() == 1 {
        append_str(&mut out, "  return ");
        append_chars(&mut out, &outs[0]);
        append_str(&mut out, ";");
    } else if outs.len() > 1 {
        append_str(&mut out, "  return { ");
        let jo = join_chars(&outs, ", ");
        append_chars(&mut out, &jo);
        append_str(&mut out, " };");
    }
    append_str(&mut out, "\n}");
    Ok(chars_to_string(&out))
}

/// Writes the call of the extracted function.
pub fn generate_function_call(analysis: &ExtractableFunction, function_name: &str) -> (r: Result<String, AstError>)
    ensures
        r matches Ok(s) && s@ == ts_call_text(function_name@, texts(analysis.required_parameters@),
            texts(analysis.return_variables@)),
{
    let params = strings_chars(&analysis.required_parameters);
    let outs = strings_chars(&analysis.return_variables);
    let mut call = str_chars(function_name);
    append_str(&mut call, "(");
    let jp = join_chars(&params, ", ");
    append_chars(&mut call, &jp);
    append_str(&mut call, ");");
    if outs.len() == 0 {
        return Ok(chars_to_string(&call));
    }
    let mut out: Vec<char> = Vec::new();
    if outs.len() == 1 {
        append_str(&mut out, "const ");
        append_chars(&mut out, &outs[0]);
        append_str(&mut out, " = ");
    } else {
        append_str(&mut out, "const { ");
        let jo = join_chars(&outs, ", ");
        append_chars(&mut out, &jo);
        append_str(&mut out, " } = ");
    }
    append_chars(&mut out, &call);
    Ok(chars_to_string(&out))
}

/// Plans extracting the analysed selection into a function: the function
/// inserted at the insertion point, the selection replaced by its call.
pub fn extract_function_plan(source: &str, analysis: &ExtractableFunction, new_function_name: &str, file_path: &str)
    -> (r: Result<EditPlan, AstError>)
    requires
        cuts_fit(lines_of(source@), analysis.selected_range),
    ensures
        match range_text(lines_of(source@), analysis.selected_range) {
            None => r matches Err(AstError::Analysis { message }) && message@ == "Invalid line number"@,
            Some(selected) => r matches Ok(plan) && {
                let params = texts(analysis.required_parameters@);
                let outs = texts(analysis.return_variables@);
                &&& plan.source_file@ == file_path@
                &&& plan.edits@.len() == 2
                &&& local_edit(plan.edits@[0], EditType::Insert, location_of(analysis.insertion_point), Seq::empty(),
                    "\n"@ + ts_function_text(new_function_name@, params, outs) + "\n"@, 100,
                    "Create extracted function '"@ + new_function_name@ + "'"@)
                &&& local_edit(plan.edits@[1], EditType::Replace, location_of(analysis.selected_range), selected,
                    ts_call_text(new_function_name@, params, outs), 90,
                    "Replace selected code with call to '"@ + new_function_name@ + "'"@)
                &&& plan.validations@.len() == 2
                &&& plan.validations@[0].rule_type == ValidationType::SyntaxCheck
                &&& plan.validations@[0].description@ == "Verify syntax is valid after extraction"@
                &&& plan.validations@[1].rule_type == ValidationType::TypeCheck
                &&& plan.validations@[1].description@ == "Verify types are consistent"@
                &&& plan.metadata.intent_name@ == "extract_function"@
                &&& plan.metadata.complexity as int == if analysis.complexity_score < 10 { analysis.complexity_score as int } else { 10 }
                &&& plan.metadata.impact_areas@.len() == 1
                &&& plan.metadata.impact_areas@[0]@ == "function_extraction"@
            },
        },
{
    let code = generate_extracted_function(analysis, new_function_name)?;
    let call = generate_function_call(analysis, new_function_name)?;
    let selected = extract_range_text(source, analysis.selected_range)?;
    let mut new_text = str_chars("\n");
    append_str(&mut new_text, code.as_str());
    append_str(&mut new_text, "\n");
    let mut d0 = str_chars("Create extracted function '");
    append_str(&mut d0, new_function_name);
    append_str(&mut d0, "'");
    let mut d1 = str_chars("Replace selected code with call to '");
    append_str(&mut d1, new_function_name);
    append_str(&mut d1, "'");
    let mut edits: Vec<TextEdit> = Vec::new();
    edits.push(TextEdit {
        file_path: None,
        edit_type: EditType::Insert,
        location: to_location(analysis.insertion_point),
        original_text: String::new(),
        new_text: chars_to_string(&new_text),
        priority: 100,
        description: chars_to_string(&d0),
    });
    edits.push(TextEdit {
        file_path: None,
        edit_type: EditType::Replace,
        location: to_location(analysis.selected_range),
        original_text: selected,
        new_text: call,
        priority: 90,
        description: chars_to_string(&d1),
    });
    let mut validations: Vec<ValidationRule> = Vec::new();
    validations.push(ValidationRule { rule_type: ValidationType::SyntaxCheck, description: owned("Verify syntax is valid after extraction") });
    validations.push(ValidationRule { rule_type: ValidationType::TypeCheck, description: owned("Verify types are consistent") });
    let r = analysis.selected_range;
    let mut args: Vec<(String, ArgValue)> = Vec::new();
    args.push((owned("start_line"), ArgValue::Number(r.start_line as u64)));
    args.push((owned("start_col"), ArgValue::Number(r.start_col as u64)));
    args.push((owned("end_line"), ArgValue::Number(r.end_line as u64)));
    args.push((owned("end_col"), ArgValue::Number(r.end_col as u64)));
    args.push((owned("function_name"), ArgValue::Text(owned(new_function_name))));
    let mut areas: Vec<String> = Vec::new();
    areas.push(owned("function_extraction"));
    let complexity: u8 = if analysis.complexity_score < 10 { analysis.complexity_score as u8 } else { 10 };
    Ok(EditPlan {
        source_file: owned(file_path),
        edits,
        validations,
        metadata: EditPlanMetadata {
            intent_name: owned("extract_function"),
            intent_arguments: args,
            created_at: now_timestamp(),
            complexity,
            impact_areas: areas,
        },
    })
}

/// Plans inlining the analysed variable: each use (priorities counting down
/// from 100) becomes the parenthesised initializer, and the declaration is
/// deleted.
pub fn inline_variable_plan(
    source: &str,
    analysis: &InlineVariableAnalysis,
    variable_line: u32,
    variable_col: u32,
    file_path: &str,
) -> (r: Result<EditPlan, AstError>)
    requires
        analysis.usage_locations@.len() <= 100,
        cuts_fit(lines_of(source@), analysis.declaration_range),
    ensures
        !analysis.is_safe_to_inline ==> (r matches Err(AstError::Analysis { message }) && message@ == "Cannot safely inline variable '"@
            + analysis.variable_name@ + "': "@ + join_with(texts(analysis.blocking_reasons@), ", "@)),
        analysis.is_safe_to_inline && range_text(lines_of(source@), analysis.declaration_range) is None ==>
            (r matches Err(AstError::Analysis { message }) && message@ == "Invalid line number"@),
        analysis.is_safe_to_inline && range_text(lines_of(source@), analysis.declaration_range) is Some ==> (r matches Ok(plan) && {
            let n = analysis.usage_locations@.len();
            let name = analysis.variable_name@;
            &&& plan.source_file@ == file_path@
            &&& plan.edits@.len() == n + 1
            &&& forall|k: int| 0 <= k < n ==> local_edit(#[trigger] plan.edits@[k], EditType::Replace,
                location_of(analysis.usage_locations@[k]), name, "("@ + analysis.initializer_expression@ + ")"@,
                (100 - k) as u32, "Replace '"@ + name + "' with its value"@)
            &&& local_edit(plan.edits@[n as int], EditType::Delete, location_of(analysis.declaration_range),
                range_text(lines_of(source@), analysis.declaration_range)->0, Seq::empty(), 50,
                "Remove declaration of '"@ + name + "'"@)
            &&& plan.validations@.len() == 1
            &&& plan.validations@[0].rule_type == ValidationType::SyntaxCheck
            &&& plan.validations@[0].description@ == "Verify syntax is valid after inlining"@
            &&& plan.metadata.intent_name@ == "inline_variable"@
            &&& plan.metadata.complexity as int == if n < 10 { n as int } else { 10 }
            &&& plan.metadata.impact_areas@.len() == 1
            &&& plan.metadata.impact_areas@[0]@ == "variable_inlining"@
        }),
{
    if !analysis.is_safe_to_inline {
        let rs = strings_chars(&analysis.blocking_reasons);
        let joined = join_chars(&rs, ", ");
        let mut m = str_chars("Cannot safely inline variable '");
        append_str(&mut m, analysis.variable_name.as_str());
        append_str(&mut m, "': ");
        append_chars(&mut m, &joined);
        return Err(AstError::Analysis { message: chars_to_string(&m) });
    }
    let mut replacement = str_chars("(");
    append_str(&mut replacement, analysis.initializer_expression.as_str());
    append_str(&mut replacement, ")");
    let mut d = str_chars("Replace '");
    append_str(&mut d, analysis.variable_name.as_str());
    append_str(&mut d, "' with its value");
    let n = analysis.usage_locations.len();
    let mut edits: Vec<TextEdit> = Vec::new();
    let mut priority: u32 = 100;
    let mut k: usize = 0;
    while k < n
        invariant
            k <= n == analysis.usage_locations@.len() <= 100,
            priority == 100 - k,
            replacement@ == "("@ + analysis.initializer_expression@ + ")"@,
            d@ == "Replace '"@ + analysis.variable_name@ + "' with its value"@,
            edits@.len() == k,
            forall|j: int| 0 <= j < k ==> local_edit(#[trigger] edits@[j], EditType::Replace,
                location_of(analysis.usage_locations@[j]), analysis.variable_name@,
                "("@ + analysis.initializer_expression@ + ")"@, (100 - j) as u32,
                "Replace '"@ + analysis.variable_name@ + "' with its value"@),
        decreases n - k,
    {
        edits.push(TextEdit {
            file_path: None,
            edit_type: EditType::Replace,
            location: to_location(analysis.usage_locations[k]),
            original_text: chars_to_string(&str_chars(analysis.variable_name.as_str())),
            new_text: chars_to_string(&replacement),
            priority,
            description: chars_to_string(&d),
        });
        priority = priority - 1;
        k = k + 1;
    }
    let declaration = extract_range_text(source, analysis.declaration_range)?;
    let mut dd = str_chars("Remove declaration of '");
    append_str(&mut dd, analysis.variable_name.as_str());
    append_str(&mut dd, "'");
    let ghost before = edits@;
    edits.push(TextEdit {
        file_path: None,
        edit_type: EditType::Delete,
        location: to_location(analysis.declaration_range),
        original_text: declaration,
        new_text: String::new(),
        priority: 50,
        description: chars_to_string(&dd),
    });
    assert forall|j: int| 0 <= j < n implies local_edit(#[trigger] edits@[j], EditType::Replace,
        location_of(analysis.usage_locations@[j]), analysis.variable_name@,
        "("@ + analysis.initializer_expression@ + ")"@, (100 - j) as u32,
        "Replace '"@ + analysis.variable_name@ + "' with its value"@) by {
        assert(edits@[j] == before[j]);
    }
    let mut validations: Vec<ValidationRule> = Vec::new();
    validations.push(ValidationRule { rule_type: ValidationType::SyntaxCheck, description: owned("Verify syntax is valid after inlining") });
    let mut args: Vec<(String, ArgValue)> = Vec::new();
    args.push((owned("variable"), ArgValue::Text(chars_to_string(&str_chars(analysis.variable_name.as_str())))));
    args.push((owned("line"), ArgValue::Number(variable_line as u64)));
    args.push((owned("column"), ArgValue::Number(variable_col as u64)));
    let mut areas: Vec<String> = Vec::new();
    areas.push(owned("variable_inlining"));
    let complexity: u8 = if n < 10 { n as u8 } else { 10 };
    Ok(EditPlan {
        source_file: owned(file_path),
        edits,
        validations,
        metadata: EditPlanMetadata {
            intent_name: owned("inline_variable"),
            intent_arguments: args,
            created_at: now_timestamp(),
            complexity,
            impact_areas: areas,
        },
    })
}


/// The message of a parse failure of a module.
pub open spec fn module_parse_message(error: Seq<char>) -> Seq<char> {
    "Failed to parse module: "@ + error
}

/// Parses `source` with swc, as `file_path` says (TSX for `.tsx`).
fn check_parses(source: &str, file_path: &str) -> (r: Result<(), AstError>)
    ensures
        match ts_module_error(source@, file_path@, has_suffix(file_path@, ".tsx"@)) {
            Some(e) => r matches Err(AstError::Parse { message }) && message@ == module_parse_message(e),
            None => r is Ok,
        },
{
    let tsx = ends_with_str(&str_chars(file_path), ".tsx");
    match parse_ts_module(source, file_path, tsx) {
        Some(e) => {
            let mut m = str_chars("Failed to parse module: ");
            append_str(&mut m, e.as_str());
            Err(AstError::Parse { message: chars_to_string(&m) })
        },
        None => Ok(()),
    }
}

/// Analyses a selection for extraction into a function, once swc has
/// accepted the file: no parameters or results are resolved, the suggested
/// name is `extractedFunction` and the function goes at the start of the line
/// above the selection.
pub fn analyze_extract_function(source: &str, range: &CodeRange, file_path: &str)
    -> (r: Result<ExtractableFunction, AstError>)
    ensures
        match ts_module_error(source@, file_path@, has_suffix(file_path@, ".tsx"@)) {
            Some(e) => r matches Err(AstError::Parse { message }) && message@ == module_parse_message(e),
            None => r matches Ok(a) && {
                &&& a.selected_range == *range
                &&& a.required_parameters@.len() == 0
                &&& a.return_variables@.len() == 0
                &&& a.suggested_name@ == "extractedFunction"@
                &&& a.insertion_point == range_on_line(if range.start_line > 0 { range.start_line - 1 } else { 0 }, 0, 0)
                &&& !a.contains_return_statements
                &&& a.complexity_score == 1
            },
        },
{
    check_parses(source, file_path)?;
    let above: u32 = if range.start_line > 0 { range.start_line - 1 } else { 0 };
    Ok(ExtractableFunction {
        selected_range: *range,
        required_parameters: Vec::new(),
        return_variables: Vec::new(),
        suggested_name: owned("extractedFunction"),
        insertion_point: CodeRange { start_line: above, start_col: 0, end_line: above, end_col: 0 },
        contains_return_statements: false,
        complexity_score: 1,
    })
}

/// The plan extracting `range` (whose text is `selected`) into a function
/// `name` with no parameters or results.
pub open spec fn extracted_function_plan(plan: EditPlan, range: CodeRange, name: Seq<char>, file_path: Seq<char>, selected: Seq<char>) -> bool {
    let empty = Seq::<Seq<char>>::empty();
    &&& plan.source_file@ == file_path
    &&& plan.edits@.len() == 2
    &&& local_edit(plan.edits@[0], EditType::Insert,
        location_of(range_on_line(if range.start_line > 0 { range.start_line - 1 } else { 0 }, 0, 0)),
        Seq::empty(), "\n"@ + ts_function_text(name, empty, empty) + "\n"@, 100,
        "Create extracted function '"@ + name + "'"@)
    &&& local_edit(plan.edits@[1], EditType::Replace, location_of(range), selected,
        ts_call_text(name, empty, empty), 90, "Replace selected code with call to '"@ + name + "'"@)
    &&& plan.validations@.len() == 2
    &&& plan.metadata.intent_name@ == "extract_function"@
    &&& plan.metadata.complexity == 1
    &&& plan.metadata.impact_areas@.len() == 1
    &&& plan.metadata.impact_areas@[0]@ == "function_extraction"@
}

/// The plan inlining variable `t`, declared by the whole line `line0`, at the
/// uses `us`.
pub open spec fn inlined_variable_plan(plan: EditPlan, line0: Seq<char>, file_path: Seq<char>, t: Seq<char>, us: Seq<CodeRange>) -> bool {
    &&& plan.source_file@ == file_path
    &&& plan.edits@.len() == us.len() + 1
    &&& forall|k: int| 0 <= k < us.len() ==> local_edit(#[trigger] plan.edits@[k], EditType::Replace,
        location_of(us[k]), t, "(/* expression */)"@, (100 - k) as u32, "Replace '"@ + t + "' with its value"@)
    &&& local_edit(plan.edits@[us.len() as int], EditType::Delete,
        location_of(range_on_line(0, 0, line0.len() as int)), line0, Seq::empty(), 50,
        "Remove declaration of '"@ + t + "'"@)
    &&& plan.validations@.len() == 1
    &&& plan.metadata.intent_name@ == "inline_variable"@
    &&& plan.metadata.complexity as int == if us.len() < 10 { us.len() as int } else { 10 }
    &&& plan.metadata.impact_areas@.len() == 1
    &&& plan.metadata.impact_areas@[0]@ == "variable_inlining"@
}

/// Plans extracting a selection into a function: the analysis, then the plan
/// built from it.
pub fn plan_extract_function(source: &str, range: &CodeRange, new_function_name: &str, file_path: &str)
    -> (r: Result<EditPlan, AstError>)
    requires
        cuts_fit(lines_of(source@), *range),
    ensures
        match ts_module_error(source@, file_path@, has_suffix(file_path@, ".tsx"@)) {
            Some(e) => r matches Err(AstError::Parse { message }) && message@ == module_parse_message(e),
            None => match range_text(lines_of(source@), *range) {
                None => r matches Err(AstError::Analysis { message }) && message@ == "Invalid line number"@,
                Some(selected) => r matches Ok(plan)
                    && extracted_function_plan(plan, *range, new_function_name@, file_path@, selected),
            },
        },
{
    let analysis = analyze_extract_function(source, range, file_path)?;
    assert(texts(analysis.required_parameters@) =~= Seq::<Seq<char>>::empty());
    assert(texts(analysis.return_variables@) =~= Seq::<Seq<char>>::empty());
    extract_function_plan(source, &analysis, new_function_name, file_path)
}

/// One declarator of a `var`, `let` or `const` declaration, as the parser
/// saw it: the bound name when the pattern is a plain identifier, and whether
/// it has an initializer.
#[derive(Debug, Clone)]
pub struct TsDeclarator {
    pub name: Option<String>,
    pub has_init: bool,
}

/// What a walk over a parsed module meets, in walking order: a variable
/// declaration (before its children), or an identifier.
#[derive(Debug, Clone)]
pub enum TsVisitEvent {
    VarDecl(Vec<TsDeclarator>),
    Ident(String),
}

/// The variable being inlined and the uses found so far.
pub type InlineTarget = Option<(Seq<char>, Seq<CodeRange>)>;

/// After a declaration: its last declarator binding a name with an
/// initializer becomes the target, with no uses yet.
pub open spec fn declared_target(decls: Seq<TsDeclarator>, current: InlineTarget) -> InlineTarget
    decreases decls.len(),
{
    if decls.len() == 0 {
        current
    } else {
        let before = declared_target(decls.drop_last(), current);
        let d = decls.last();
        if d.name is Some && d.has_init { Some((d.name->0@, Seq::empty())) } else { before }
    }
}

/// The target after the events, with the cursor on `line`: declarations
/// count only on line 0 (every declaration is taken to stand there), and
/// each identifier named like the target adds a use on line 0.
pub open spec fn inline_target(events: Seq<TsVisitEvent>, line: u32) -> InlineTarget
    decreases events.len(),
{
    if events.len() == 0 {
        None
    } else {
        let prev = inline_target(events.drop_last(), line);
        match events.last() {
            TsVisitEvent::VarDecl(ds) => if line == 0 { declared_target(ds@, prev) } else { prev },
            TsVisitEvent::Ident(n) => match prev {
                Some((t, us)) => if n@ == t {
                    Some((t, us.push(CodeRange { start_line: 0, start_col: 0, end_line: 0, end_col: t.len() as u32 })))
                } else {
                    prev
                },
                None => None,
            },
        }
    }
}

/// A declarator binding a name with an initializer.
pub open spec fn named_declarator(d: TsDeclarator) -> bool {
    d.name is Some && d.has_init
}

/// An event that declares a named, initialized variable.
pub open spec fn declares_named(e: TsVisitEvent) -> bool {
    match e {
        TsVisitEvent::VarDecl(ds) => exists|j: int| 0 <= j < ds@.len() && named_declarator(#[trigger] ds@[j]),
        TsVisitEvent::Ident(_) => false,
    }
}

/// A declaration with a named, initialized declarator occurs among the events.
pub open spec fn has_named_declaration(events: Seq<TsVisitEvent>) -> bool {
    exists|i: int| 0 <= i < events.len() && declares_named(#[trigger] events[i])
}

proof fn lemma_declared_target(decls: Seq<TsDeclarator>, current: InlineTarget)
    ensures
        declared_target(decls, current) is Some ==> current is Some
            || exists|j: int| 0 <= j < decls.len() && named_declarator(#[trigger] decls[j]),
    decreases decls.len(),
{
    if decls.len() > 0 {
        lemma_declared_target(decls.drop_last(), current);
        if declared_target(decls.drop_last(), current) is Some && current is None {
            let j = choose|j: int| 0 <= j < decls.drop_last().len() && named_declarator(#[trigger] decls.drop_last()[j]);
            assert(decls[j] == decls.drop_last()[j]);
        }
        if named_declarator(decls.last()) {
            assert(named_declarator(decls[decls.len() - 1]));
        }
    }
}

proof fn lemma_target_declared(events: Seq<TsVisitEvent>, line: u32)
    ensures
        inline_target(events, line) is Some ==> line == 0 && has_named_declaration(events),
    decreases events.len(),
{
    if events.len() > 0 {
        let prev = inline_target(events.drop_last(), line);
        lemma_target_declared(events.drop_last(), line);
        if prev is Some {
            let i = choose|i: int| 0 <= i < events.drop_last().len() && declares_named(#[trigger] events.drop_last()[i]);
            assert(events[i] == events.drop_last()[i]);
        }
        match events.last() {
            TsVisitEvent::VarDecl(ds) => {
                lemma_declared_target(ds@, prev);
                if line == 0 && declared_target(ds@, prev) is Some && prev is None {
                    assert(declares_named(events[events.len() - 1]));
                }
            },
            TsVisitEvent::Ident(_) => {},
        }
    }
}

/// The view of the target state kept while walking the events.
pub open spec fn target_state(found: bool, name: Seq<char>, uses: Seq<CodeRange>) -> InlineTarget {
    if found { Some((name, uses)) } else { None }
}

/// Analyses the variable declared on the cursor's line for inlining, once swc
/// has accepted the file, from the declarations and identifiers met walking
/// its module. Only line 0 finds a declaration; its range is that whole
/// line, its initializer is shown as a placeholder, and every identifier
/// named like the variable after it counts as a use.
pub fn analyze_inline_variable(
    source: &str,
    variable_line: u32,
    _variable_col: u32,
    file_path: &str,
    events: &Vec<TsVisitEvent>,
) -> (r: Result<InlineVariableAnalysis, AstError>)
    requires
        variable_line == 0 && has_named_declaration(events@) ==> lines_of(source@).len() > 0,
    ensures
        match ts_module_error(source@, file_path@, has_suffix(file_path@, ".tsx"@)) {
            Some(e) => r matches Err(AstError::Parse { message }) && message@ == module_parse_message(e),
            None => match inline_target(events@, variable_line) {
                None => r matches Err(AstError::Analysis { message })
                    && message@ == "Could not find variable declaration at specified location"@,
                Some((t, us)) => r matches Ok(a) && {
                    &&& a.variable_name@ == t
                    &&& a.declaration_range == (CodeRange { start_line: 0, start_col: 0, end_line: 0,
                        end_col: lines_of(source@)[0].len() as u32 })
                    &&& a.initializer_expression@ == "/* expression */"@
                    &&& a.usage_locations@ == us
                    &&& a.is_safe_to_inline
                    &&& a.blocking_reasons@.len() == 0
                },
            },
        },
{
    check_parses(source, file_path)?;
    let mut found = false;
    let mut tname: Vec<char> = Vec::new();
    let mut uses: Vec<CodeRange> = Vec::new();
    let mut i: usize = 0;
    while i < events.len()
        invariant
            i <= events@.len(),
            target_state(found, tname@, uses@) == inline_target(events@.take(i as int), variable_line),
        decreases events@.len() - i,
    {
        let ghost prev = target_state(found, tname@, uses@);
        assert(events@.take(i + 1).drop_last() =~= events@.take(i as int));
        assert(events@.take(i + 1).last() == events@[i as int]);
        match &events[i] {
            TsVisitEvent::VarDecl(ds) => {
                if variable_line == 0 {
                    let mut j: usize = 0;
                    while j < ds.len()
                        invariant
                            j <= ds@.len(),
                            target_state(found, tname@, uses@) == declared_target(ds@.take(j as int), prev),
                        decreases ds@.len() - j,
                    {
                        assert(ds@.take(j + 1).drop_last() =~= ds@.take(j as int));
                        assert(ds@.take(j + 1).last() == ds@[j as int]);
                        match &ds[j].name {
                            Some(n) => {
                                if ds[j].has_init {
                                    found = true;
                                    tname = str_chars(n.as_str());
                                    uses = Vec::new();
                                    assert(uses@ =~= Seq::<CodeRange>::empty());
                                }
                            },
                            None => {},
                        }
                        j = j + 1;
                    }
                    assert(ds@.take(ds@.len() as int) =~= ds@);
                }
            },
            TsVisitEvent::Ident(n) => {
                if found {
                    let nc = str_chars(n.as_str());
                    if chars_eq(&nc, &tname) {
                        let len = tname.len() as u32;
                        uses.push(CodeRange { start_line: 0, start_col: 0, end_line: 0, end_col: len });
                    }
                }
            },
        }
        i = i + 1;
    }
    assert(events@.take(events@.len() as int) =~= events@);
    if !found {
        return Err(AstError::Analysis { message: owned("Could not find variable declaration at specified location") });
    }
    proof {
        lemma_target_declared(events@, variable_line);
    }
    let src = str_chars(source);
    let lines = split_lines(&src);
    assert(lines@[0]@ == lines_of(source@)[0]);
    let end_col = lines[0].len() as u32;
    Ok(InlineVariableAnalysis {
        variable_name: chars_to_string(&tname),
        declaration_range: CodeRange { start_line: 0, start_col: 0, end_line: 0, end_col },
        initializer_expression: owned("/* expression */"),
        usage_locations: uses,
        is_safe_to_inline: true,
        blocking_reasons: Vec::new(),
    })
}


/// Plans inlining the variable declared on the cursor's line, from the events
/// of the module walk: the analysis, then the plan built from it.
pub fn plan_inline_variable(
    source: &str,
    variable_line: u32,
    variable_col: u32,
    file_path: &str,
    events: &Vec<TsVisitEvent>,
) -> (r: Result<EditPlan, AstError>)
    requires
        variable_line == 0 && has_named_declaration(events@) ==> lines_of(source@).len() > 0,
        lines_of(source@).len() > 0 ==> lines_of(source@)[0].len() <= u32::MAX,
        match inline_target(events@, variable_line) {
            Some((_, us)) => us.len() <= 100,
            None => true,
        },
    ensures
        match ts_module_error(source@, file_path@, has_suffix(file_path@, ".tsx"@)) {
            Some(e) => r matches Err(AstError::Parse { message }) && message@ == module_parse_message(e),
            None => match inline_target(events@, variable_line) {
                None => r matches Err(AstError::Analysis { message })
                    && message@ == "Could not find variable declaration at specified location"@,
                Some((t, us)) => r matches Ok(plan)
                    && inlined_variable_plan(plan, lines_of(source@)[0], file_path@, t, us),
            },
        },
{
    let analysis = match analyze_inline_variable(source, variable_line, variable_col, file_path, events) {
        Ok(a) => a,
        Err(e) => {
            return Err(e);
        },
    };
    proof {
        lemma_target_declared(events@, variable_line);
        reveal_strlit("(");
        reveal_strlit(")");
        reveal_strlit("/* expression */");
        reveal_strlit("(/* expression */)");
    }
    let ghost line0 = lines_of(source@)[0];
    assert(line0.subrange(0, line0.len() as int) =~= line0);
    assert(range_text(lines_of(source@), analysis.declaration_range) == Some(line0));
    assert("("@ + analysis.initializer_expression@ + ")"@ =~= "(/* expression */)"@);
    assert(analysis.declaration_range == range_on_line(0, 0, line0.len() as int));
    inline_variable_plan(source, &analysis, variable_line, variable_col, file_path)
}

} // verus!
