//! Decisions of the refactoring tools: the request is checked against the
//! source, the edit plan is built, and either its summary is previewed or the
//! plan is handed on to be applied.

use vstd::prelude::*;
use crate::edit::{CodeRange, EditPlan, EditType, EditLocation, TextEdit};
use crate::package_extractor::AstError;
use crate::python_refactor::texts;
use crate::server_checks::{range_problem, validate_code_range, position_problem, validate_position};
use crate::swc_parse::ts_module_error;
use crate::text::{has_suffix, lines_of, utf8_len};
use crate::ts_refactor::{
    cuts_fit, range_text, module_parse_message, plan_extract_function, plan_inline_variable,
    extracted_function_plan, inlined_variable_plan, TsVisitEvent, inline_target, has_named_declaration,
};

verus! {

/// What is reported of a plan: how many edits and checks it holds, its
/// complexity and the areas it touches.
#[derive(Debug, Clone)]
pub struct PlanSummary {
    pub edits_count: usize,
    pub complexity: u8,
    pub impact_areas: Vec<String>,
    pub validations_count: usize,
}

/// `s` reports `plan`.
pub open spec fn summarizes(s: PlanSummary, plan: EditPlan) -> bool {
    &&& s.edits_count == plan.edits@.len()
    &&& s.complexity == plan.metadata.complexity
    &&& texts(s.impact_areas@) == texts(plan.metadata.impact_areas@)
    &&& s.validations_count == plan.validations@.len()
}

/// Summarizes a plan.
pub fn summarize_plan(plan: &EditPlan) -> (r: PlanSummary)
    ensures
        summarizes(r, *plan),
{
    let mut areas: Vec<String> = Vec::new();
    let mut i: usize = 0;
    while i < plan.metadata.impact_areas.len()
        invariant
            i <= plan.metadata.impact_areas@.len(),
            texts(areas@) == texts(plan.metadata.impact_areas@).subrange(0, i as int),
        decreases plan.metadata.impact_areas@.len() - i,
    {
        let ghost before = texts(areas@);
        areas.push(plan.metadata.impact_areas[i].clone());
        assert(texts(areas@) =~= before.push(plan.metadata.impact_areas@[i as int]@));
        assert(texts(plan.metadata.impact_areas@).subrange(0, i + 1)
            =~= texts(plan.metadata.impact_areas@).subrange(0, i as int).push(plan.metadata.impact_areas@[i as int]@));
        i = i + 1;
    }
    assert(texts(plan.metadata.impact_areas@).subrange(0, plan.metadata.impact_areas@.len() as int)
        =~= texts(plan.metadata.impact_areas@));
    PlanSummary {
        edits_count: plan.edits.len(),
        complexity: plan.metadata.complexity,
        impact_areas: areas,
        validations_count: plan.validations.len(),
    }
}

/// Why a refactoring request was not carried out.
#[derive(Debug, Clone)]
pub enum RefactorFailure {
    /// The request does not fit the source.
    InvalidRequest(String),
    /// The plan could not be built.
    Planning(AstError),
}

/// What to do with a planned refactoring.
#[derive(Debug, Clone)]
pub enum RefactorStep {
    /// Report the summary only.
    Preview(PlanSummary),
    /// Apply the plan (and report its summary).
    Apply(EditPlan, PlanSummary),
}

/// The step holds a plan meeting `p`, summarized, previewed exactly when asked.
pub open spec fn step_for(step: RefactorStep, preview: Option<bool>, p: spec_fn(EditPlan) -> bool) -> bool {
    match step {
        RefactorStep::Preview(s) => preview == Some(true) && exists|plan: EditPlan| p(plan) && summarizes(s, plan),
        RefactorStep::Apply(plan, s) => preview != Some(true) && p(plan) && summarizes(s, plan),
    }
}

fn step_of(plan: EditPlan, preview: Option<bool>) -> (r: RefactorStep)
    ensures
        r matches RefactorStep::Preview(s) ==> preview == Some(true) && summarizes(s, plan),
        r matches RefactorStep::Apply(p, s) ==> preview != Some(true) && p == plan && summarizes(s, plan),
        r is Preview <==> preview == Some(true),
{
    let summary = summarize_plan(&plan);
    let quiet = match preview {
        Some(b) => b,
        None => false,
    };
    if quiet {
        RefactorStep::Preview(summary)
    } else {
        RefactorStep::Apply(plan, summary)
    }
}

/// The extract-function request: the range is checked, the function planned,
/// and the plan previewed or handed on.
pub fn prepare_extract_function(
    source: &str,
    range: &CodeRange,
    new_function_name: &str,
    file_path: &str,
    preview: Option<bool>,
) -> (r: Result<RefactorStep, RefactorFailure>)
    requires
        range_problem(source@, *range) is None ==> cuts_fit(lines_of(source@), *range),
    ensures
        match range_problem(source@, *range) {
            Some(m) => r matches Err(RefactorFailure::InvalidRequest(e)) && e@ == m,
            None => match ts_module_error(source@, file_path@, has_suffix(file_path@, ".tsx"@)) {
                Some(e) => r matches Err(RefactorFailure::Planning(AstError::Parse { message }))
                    && message@ == module_parse_message(e),
                None => r matches Ok(step) && step_for(step, preview, |plan: EditPlan|
                    extracted_function_plan(plan, *range, new_function_name@, file_path@,
                        range_text(lines_of(source@), *range)->0)),
            },
        },
{
    match validate_code_range(source, range) {
        Ok(()) => {},
        Err(m) => {
            return Err(RefactorFailure::InvalidRequest(m));
        },
    }
    proof {
        assert(range_text(lines_of(source@), *range) is Some);
    }
    match plan_extract_function(source, range, new_function_name, file_path) {
        Ok(plan) => {
            let ghost p = |pl: EditPlan| extracted_function_plan(pl, *range, new_function_name@, file_path@,
                range_text(lines_of(source@), *range)->0);
            let ghost planned = plan;
            let step = step_of(plan, preview);
            assert(p(planned));
            Ok(step)
        },
        Err(e) => Err(RefactorFailure::Planning(e)),
    }
}

/// The inline-variable request: the position is checked, the inlining
/// planned from the walk of the module, and the plan previewed or handed on.
pub fn prepare_inline_variable(
    source: &str,
    line: u32,
    col: u32,
    file_path: &str,
    events: &Vec<TsVisitEvent>,
    preview: Option<bool>,
) -> (r: Result<RefactorStep, RefactorFailure>)
    requires
        lines_of(source@).len() > 0 ==> lines_of(source@)[0].len() <= u32::MAX,
        line < lines_of(source@).len() ==> utf8_len(lines_of(source@)[line as int]) <= usize::MAX,
        match inline_target(events@, line) {
            Some((_, us)) => us.len() <= 100,
            None => true,
        },
    ensures
        match position_problem(source@, line, col) {
            Some(m) => r matches Err(RefactorFailure::InvalidRequest(e)) && e@ == m,
            None => match ts_module_error(source@, file_path@, has_suffix(file_path@, ".tsx"@)) {
                Some(e) => r matches Err(RefactorFailure::Planning(AstError::Parse { message }))
                    && message@ == module_parse_message(e),
                None => match inline_target(events@, line) {
                    None => r matches Err(RefactorFailure::Planning(AstError::Analysis { message }))
                        && message@ == "Could not find variable declaration at specified location"@,
                    Some((t, us)) => r matches Ok(step) && step_for(step, preview, |plan: EditPlan|
                        inlined_variable_plan(plan, lines_of(source@)[0], file_path@, t, us)),
                },
            },
        },
{
    match validate_position(source, line, col) {
        Ok(()) => {},
        Err(m) => {
            return Err(RefactorFailure::InvalidRequest(m));
        },
    }
    match plan_inline_variable(source, line, col, file_path, events) {
        Ok(plan) => {
            let ghost planned = plan;
            let step = step_of(plan, preview);
            proof {
                let (t, us) = inline_target(events@, line)->0;
                let p = |pl: EditPlan| inlined_variable_plan(pl, lines_of(source@)[0], file_path@, t, us);
                assert(p(planned));
            }
            Ok(step)
        },
        Err(e) => Err(RefactorFailure::Planning(e)),
    }
}


/// What a preview shows of one planned edit.
#[derive(Debug, Clone)]
pub struct PreviewEdit {
    pub edit_type: EditType,
    pub location: EditLocation,
    pub description: String,
    pub priority: u32,
}

/// `p` shows `e`.
pub open spec fn shows(p: PreviewEdit, e: TextEdit) -> bool {
    &&& p.edit_type == e.edit_type
    &&& p.location == e.location
    &&& p.description@ == e.description@
    &&& p.priority == e.priority
}

/// `s` and `es` preview `plan`: its summary, and each of its edits in order.
pub open spec fn previewed(s: PlanSummary, es: Vec<PreviewEdit>, plan: EditPlan) -> bool {
    &&& summarizes(s, plan)
    &&& es@.len() == plan.edits@.len()
    &&& forall|k: int| 0 <= k < es@.len() ==> shows(#[trigger] es@[k], plan.edits@[k])
}

/// The preview of each edit of a plan, in order.
pub fn preview_edits(plan: &EditPlan) -> (r: Vec<PreviewEdit>)
    ensures
        r@.len() == plan.edits@.len(),
        forall|k: int| 0 <= k < r@.len() ==> shows(#[trigger] r@[k], plan.edits@[k]),
{
    let mut out: Vec<PreviewEdit> = Vec::new();
    let mut i: usize = 0;
    while i < plan.edits.len()
        invariant
            i <= plan.edits@.len(),
            out@.len() == i,
            forall|k: int| 0 <= k < i ==> shows(#[trigger] out@[k], plan.edits@[k]),
        decreases plan.edits@.len() - i,
    {
        let e = &plan.edits[i];
        out.push(PreviewEdit {
            edit_type: e.edit_type,
            location: e.location,
            description: e.description.clone(),
            priority: e.priority,
        });
        i = i + 1;
    }
    out
}

/// The preview of extracting `range` into a function: the plan's summary and
/// its edits as a preview shows them.
pub fn preview_extract_function(source: &str, range: &CodeRange, function_name: &str, file_path: &str)
    -> (r: Result<(PlanSummary, Vec<PreviewEdit>), AstError>)
    requires
        cuts_fit(lines_of(source@), *range),
    ensures
        match ts_module_error(source@, file_path@, has_suffix(file_path@, ".tsx"@)) {
            Some(e) => r matches Err(AstError::Parse { message }) && message@ == module_parse_message(e),
            None => match range_text(lines_of(source@), *range) {
                None => r matches Err(AstError::Analysis { message }) && message@ == "Invalid line number"@,
                Some(selected) => r matches Ok((s, es)) && exists|plan: EditPlan|
                    extracted_function_plan(plan, *range, function_name@, file_path@, selected)
                    && #[trigger] previewed(s, es, plan),
            },
        },
{
    let plan = match plan_extract_function(source, range, function_name, file_path) {
        Ok(p) => p,
        Err(e) => {
            return Err(e);
        },
    };
    let s = summarize_plan(&plan);
    let es = preview_edits(&plan);
    let ghost planned = plan;
    let res: Result<(PlanSummary, Vec<PreviewEdit>), AstError> = Ok((s, es));
    proof {
        let selected = range_text(lines_of(source@), *range)->0;
        assert(extracted_function_plan(planned, *range, function_name@, file_path@, selected)
            && previewed(res.unwrap().0, res.unwrap().1, planned));
    }
    res
}

/// The preview of inlining the variable on `line`, from the walk of the
/// module: the plan's summary and its edits as a preview shows them.
pub fn preview_inline_variable(
    source: &str,
    line: u32,
    col: u32,
    file_path: &str,
    events: &Vec<TsVisitEvent>,
) -> (r: Result<(PlanSummary, Vec<PreviewEdit>), AstError>)
    requires
        line == 0 && has_named_declaration(events@) ==> lines_of(source@).len() > 0,
        lines_of(source@).len() > 0 ==> lines_of(source@)[0].len() <= u32::MAX,
        match inline_target(events@, line) {
            Some((_, us)) => us.len() <= 100,
            None => true,
        },
    ensures
        match ts_module_error(source@, file_path@, has_suffix(file_path@, ".tsx"@)) {
            Some(e) => r matches Err(AstError::Parse { message }) && message@ == module_parse_message(e),
            None => match inline_target(events@, line) {
                None => r matches Err(AstError::Analysis { message })
                    && message@ == "Could not find variable declaration at specified location"@,
                Some((t, us)) => r matches Ok((s, es)) && exists|plan: EditPlan|
                    inlined_variable_plan(plan, lines_of(source@)[0], file_path@, t, us)
                    && #[trigger] previewed(s, es, plan),
            },
        },
{
    let plan = match plan_inline_variable(source, line, col, file_path, events) {
        Ok(p) => p,
        Err(e) => {
            return Err(e);
        },
    };
    let s = summarize_plan(&plan);
    let es = preview_edits(&plan);
    let ghost planned = plan;
    let res: Result<(PlanSummary, Vec<PreviewEdit>), AstError> = Ok((s, es));
    proof {
        let (t, us) = inline_target(events@, line)->0;
        assert(inlined_variable_plan(planned, lines_of(source@)[0], file_path@, t, us)
            && previewed(res.unwrap().0, res.unwrap().1, planned));
    }
    res
}

} // verus!
