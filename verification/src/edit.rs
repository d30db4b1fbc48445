//! Edit plans: the text edits a refactoring proposes, with their locations.

use vstd::prelude::*;

verus! {

/// A range of text: zero-based lines and character columns, end exclusive.
#[derive(Debug, Clone, Copy, PartialEq, Eq, Structural)]
pub struct CodeRange {
    pub start_line: u32,
    pub start_col: u32,
    pub end_line: u32,
    pub end_col: u32,
}

/// The range `line:start_col .. line:end_col` (positions are truncated to `u32`).
pub open spec fn range_on_line(line: int, start_col: int, end_col: int) -> CodeRange {
    CodeRange {
        start_line: line as u32,
        start_col: start_col as u32,
        end_line: line as u32,
        end_col: end_col as u32,
    }
}

/// Builds the range `line:start_col .. line:end_col`, truncating each position to `u32`.
pub fn make_range(line: usize, start_col: usize, end_col: usize) -> (r: CodeRange)
    ensures
        r == range_on_line(line as int, start_col as int, end_col as int),
{
    CodeRange {
        start_line: line as u32,
        start_col: start_col as u32,
        end_line: line as u32,
        end_col: end_col as u32,
    }
}

/// A text location inside an edit.
#[derive(Debug, Clone, Copy, PartialEq, Eq, Structural)]
pub struct EditLocation {
    pub start_line: u32,
    pub start_column: u32,
    pub end_line: u32,
    pub end_column: u32,
}

impl From<CodeRange> for EditLocation {
    fn from(range: CodeRange) -> (r: Self) {
        EditLocation {
            start_line: range.start_line,
            start_column: range.start_col,
            end_line: range.end_line,
            end_column: range.end_col,
        }
    }
}

impl vstd::std_specs::convert::FromSpecImpl<CodeRange> for EditLocation {
    open spec fn obeys_from_spec() -> bool {
        true
    }

    open spec fn from_spec(range: CodeRange) -> Self {
        location_of(range)
    }
}

/// The location covering `range`.
pub open spec fn location_of(range: CodeRange) -> EditLocation {
    EditLocation {
        start_line: range.start_line,
        start_column: range.start_col,
        end_line: range.end_line,
        end_column: range.end_col,
    }
}

/// Converts a range to an edit location.
pub fn to_location(range: CodeRange) -> (r: EditLocation)
    ensures
        r == location_of(range),
{
    EditLocation {
        start_line: range.start_line,
        start_column: range.start_col,
        end_line: range.end_line,
        end_column: range.end_col,
    }
}

/// What an edit does at its location.
#[derive(Debug, Clone, Copy, PartialEq, Eq, Structural)]
pub enum EditType {
    Insert,
    Replace,
    Delete,
}

/// One text edit of a plan.
#[derive(Debug, Clone)]
pub struct TextEdit {
    pub file_path: Option<String>,
    pub edit_type: EditType,
    pub location: EditLocation,
    pub original_text: String,
    pub new_text: String,
    pub priority: u32,
    pub description: String,
}

/// Kind of check to run after applying a plan.
#[derive(Debug, Clone, Copy, PartialEq, Eq, Structural)]
pub enum ValidationType {
    SyntaxCheck,
    TypeCheck,
}

/// A check to run after applying a plan.
#[derive(Debug, Clone)]
pub struct ValidationRule {
    pub rule_type: ValidationType,
    pub description: String,
}

/// A value among the arguments recorded with a plan.
#[derive(Debug, Clone)]
pub enum ArgValue {
    Text(String),
    Number(u64),
    TextList(Vec<String>),
}

/// What a plan is for, recorded alongside its edits.
#[derive(Debug, Clone)]
pub struct EditPlanMetadata {
    pub intent_name: String,
    pub intent_arguments: Vec<(String, ArgValue)>,
    /// Creation time, seconds since the Unix epoch.
    pub created_at: i64,
    pub complexity: u8,
    pub impact_areas: Vec<String>,
}

/// A refactoring as a list of edits to one file.
#[derive(Debug, Clone)]
pub struct EditPlan {
    pub source_file: String,
    pub edits: Vec<TextEdit>,
    pub validations: Vec<ValidationRule>,
    pub metadata: EditPlanMetadata,
}

/// The current time in seconds since the Unix epoch, from `chrono::Utc::now`.
/// Nothing is stated of the value: it is whatever the clock reads.
#[verifier::external_body]
pub(crate) fn now_timestamp() -> (t: i64) {
    chrono::Utc::now().timestamp()
}

} // verus!
