//! The extract-constant refactoring shared by the C, Python and Rust plugins:
//! find the literal under the cursor, every place it occurs, where to declare
//! the constant, and the edit plan that does the extraction.

use vstd::prelude::*;
use crate::edit::{
    CodeRange, range_on_line, make_range, EditLocation, location_of, to_location, EditType,
    TextEdit, ValidationType, ValidationRule, ArgValue, EditPlanMetadata, EditPlan, now_timestamp,
};
use crate::literals::{last_quote_before, next_char_from, triple_search, triple_string_end, dq3, sq3, 
    LiteralSyntax, literal_occurrences, find_literal_occurrences_in, number_literal_at,
    find_number_literal, c_number_literal_at, find_c_number_literal, string_literal_at,
    find_string_literal_span, keyword_literal_at, find_keyword_literal,
};
use crate::naming::{is_screaming_snake, is_screaming_snake_case};
use crate::ts_literals::{ts_literal_at, find_ts_literal, lemma_ts_literal_nonempty};
use crate::numeric::{decimal, usize_to_decimal};
use crate::text::{first_occurrence_from, lemma_first_occurrence_some, 
    str_chars, chars_to_string, split_lines, vv, lines_of, trim, trim_chars, has_prefix,
    starts_with_str, contains_char, contains_ch, slice_chars, append_str, append_chars,
};

verus! {

/// Result of analysing a literal for extraction into a constant.
#[derive(Debug, Clone)]
pub struct ExtractConstantAnalysis {
    /// The literal value to extract.
    pub literal_value: String,
    /// All locations where this same literal value appears.
    pub occurrence_ranges: Vec<CodeRange>,
    /// Whether this is a valid literal to extract.
    pub is_valid_literal: bool,
    /// Blocking reasons if extraction is not valid.
    pub blocking_reasons: Vec<String>,
    /// Where to insert the constant declaration.
    pub insertion_point: CodeRange,
}

/// The literal under the cursor, by the rules of each language: C numbers;
/// Python numbers, strings and `True`/`False`/`None`; Rust numbers and
/// `true`/`false`.
pub open spec fn literal_at(syntax: LiteralSyntax, s: Seq<char>, col: int) -> Option<(Seq<char>, CodeRange)> {
    match syntax {
        LiteralSyntax::C => c_number_literal_at(s, col),
        LiteralSyntax::Python => match number_literal_at(s, col) {
            Some(x) => Some(x),
            None => match string_literal_at(s, col) {
                Some((i, e)) => Some((s.subrange(i, e), range_on_line(0, i, e))),
                None => keyword_at_cursor(s, seq!["True"@, "False"@, "None"@], col),
            },
        },
        LiteralSyntax::Rust => match number_literal_at(s, col) {
            Some(x) => Some(x),
            None => keyword_at_cursor(s, seq!["true"@, "false"@], col),
        },
        LiteralSyntax::TypeScript => ts_literal_at(s, col),
    }
}

/// The first of `kws` found under the cursor.
pub open spec fn keyword_at_cursor(s: Seq<char>, kws: Seq<Seq<char>>, col: int) -> Option<(Seq<char>, CodeRange)>
    decreases kws.len(),
{
    if kws.len() == 0 {
        None
    } else {
        match keyword_literal_at(s, kws[0], col) {
            Some(st) => Some((kws[0], range_on_line(0, st, st + kws[0].len()))),
            None => keyword_at_cursor(s, kws.drop_first(), col),
        }
    }
}

/// A line (trimmed) that declares something the constant must follow:
/// `#include` in C, `use ` in Rust.
pub open spec fn preamble_line(syntax: LiteralSyntax, t: Seq<char>) -> bool {
    match syntax {
        LiteralSyntax::C => has_prefix(t, "#include"@),
        LiteralSyntax::Rust => has_prefix(t, "use "@),
        LiteralSyntax::Python => has_prefix(t, "import "@) || has_prefix(t, "from "@),
        LiteralSyntax::TypeScript => false,
    }
}

/// A line (trimmed) that starts the code the constant must precede: a C line
/// with `(` and `{`, or a Rust item.
pub open spec fn body_line(syntax: LiteralSyntax, t: Seq<char>) -> bool {
    match syntax {
        LiteralSyntax::C => contains_char(t, '(') && contains_char(t, '{'),
        LiteralSyntax::Rust => {
            ||| has_prefix(t, "fn "@)
            ||| has_prefix(t, "pub fn "@)
            ||| has_prefix(t, "struct "@)
            ||| has_prefix(t, "pub struct "@)
            ||| has_prefix(t, "impl "@)
            ||| has_prefix(t, "trait "@)
            ||| has_prefix(t, "pub trait "@)
            ||| has_prefix(t, "const "@)
            ||| has_prefix(t, "pub const "@)
            ||| has_prefix(t, "static "@)
            ||| has_prefix(t, "pub static "@)
        },
        LiteralSyntax::Python => has_prefix(t, "def "@) || has_prefix(t, "class "@),
        LiteralSyntax::TypeScript => false,
    }
}

/// The first line at or after `i` that starts the code body (and is not a preamble line).
pub open spec fn first_body_line(syntax: LiteralSyntax, lines: Seq<Seq<char>>, i: int) -> int
    decreases lines.len() - i,
{
    if i < 0 || i >= lines.len() {
        lines.len() as int
    } else if !preamble_line(syntax, trim(lines[i])) && body_line(syntax, trim(lines[i])) {
        i
    } else {
        first_body_line(syntax, lines, i + 1)
    }
}

/// One past the last preamble line among the first `n` lines, or 0.
pub open spec fn after_last_preamble(syntax: LiteralSyntax, lines: Seq<Seq<char>>, n: int) -> int
    decreases n,
{
    if n <= 0 {
        0
    } else if preamble_line(syntax, trim(lines[n - 1])) {
        n
    } else {
        after_last_preamble(syntax, lines, n - 1)
    }
}

/// Python's scan state after the first `k` lines: insertion line, inside a
/// docstring, the docstring's quote (`true` for `"""`), and whether a
/// definition stopped the scan.
pub open spec fn python_scan(lines: Seq<Seq<char>>, k: int) -> (int, bool, bool, bool)
    decreases k,
{
    if k <= 0 {
        (0, false, true, false)
    } else {
        let (ins, in_doc, dq, stopped) = python_scan(lines, k - 1);
        if stopped {
            (ins, in_doc, dq, stopped)
        } else {
            let t = trim(lines[k - 1]);
            let starts_dq = has_prefix(t, "\"\"\""@);
            if starts_dq || has_prefix(t, "'''"@) {
                if in_doc && dq == starts_dq {
                    (k, false, dq, false)
                } else if !in_doc {
                    (ins, true, starts_dq, false)
                } else {
                    (ins, in_doc, dq, false)
                }
            } else if in_doc {
                (ins, in_doc, dq, false)
            } else if preamble_line(LiteralSyntax::Python, t) {
                (k, in_doc, dq, false)
            } else if body_line(LiteralSyntax::Python, t) {
                (ins, in_doc, dq, true)
            } else {
                (ins, in_doc, dq, false)
            }
        }
    }
}

/// The line where the constant is declared: after the preamble (includes,
/// `use` items, imports and the module docstring) and before the first
/// definition.
pub open spec fn insertion_line(syntax: LiteralSyntax, lines: Seq<Seq<char>>) -> int {
    match syntax {
        LiteralSyntax::Python => python_scan(lines, lines.len() as int).0,
        _ => after_last_preamble(syntax, lines, first_body_line(syntax, lines, 0)),
    }
}

/// Why an analysis found nothing to extract.
#[derive(Debug, Clone, Copy, PartialEq, Eq, Structural)]
pub enum AnalysisFailure {
    /// The cursor line is past the end of the source.
    InvalidLine,
    /// No literal under the cursor.
    NoLiteral,
}

/// The analysis of `source` with the cursor at `line`:`character`.
pub open spec fn analysis_result(syntax: LiteralSyntax, source: Seq<char>, line: int, character: int)
    -> Result<(Seq<char>, Seq<CodeRange>, int), AnalysisFailure>
{
    let lines = lines_of(source);
    if line >= lines.len() {
        Err(AnalysisFailure::InvalidLine)
    } else {
        match literal_at(syntax, lines[line], character) {
            None => Err(AnalysisFailure::NoLiteral),
            Some((lit, _)) => Ok((lit, literal_occurrences(syntax, source, lit), insertion_line(syntax, lines))),
        }
    }
}

/// The analysis as a value, for the successful case.
pub open spec fn analysis_matches(a: ExtractConstantAnalysis, lit: Seq<char>, occ: Seq<CodeRange>, ins: int) -> bool {
    &&& a.literal_value@ == lit
    &&& a.occurrence_ranges@ == occ
    &&& a.is_valid_literal == (lit.len() > 0)
    &&& a.is_valid_literal ==> a.blocking_reasons@.len() == 0
    &&& !a.is_valid_literal ==> a.blocking_reasons@.len() == 1
        && a.blocking_reasons@[0]@ == "Could not extract literal at cursor position"@
    &&& a.insertion_point == range_on_line(ins, 0, 0)
}

/// Finds the literal under the cursor in a line, by the rules of `syntax`.
pub fn find_literal_at(syntax: LiteralSyntax, line: &Vec<char>, col: usize) -> (r: Option<(String, CodeRange)>)
    requires
        syntax == LiteralSyntax::TypeScript ==> col <= line@.len(),
    ensures
        match r {
            Some((t, rg)) => literal_at(syntax, line@, col as int) == Some((t@, rg)),
            None => literal_at(syntax, line@, col as int) is None,
        },
{
    match syntax {
        LiteralSyntax::C => find_c_number_literal(line, col),
        LiteralSyntax::Python => {
            match find_number_literal(line, col) {
                Some(x) => {
                    return Some(x);
                },
                None => {},
            }
            match find_string_literal_span(line, col) {
                Some((i, e)) => {
                    let t = slice_chars(line, i, e);
                    return Some((chars_to_string(&t), make_range(0, i, e)));
                },
                None => {},
            }
            let ghost kws = seq!["True"@, "False"@, "None"@];
            assert(kws.drop_first() =~= seq!["False"@, "None"@]);
            assert(kws.drop_first().drop_first() =~= seq!["None"@]);
            assert(kws.drop_first().drop_first().drop_first().len() == 0);
            assert(keyword_at_cursor(line@, kws, col as int) == match keyword_literal_at(line@, "True"@, col as int) {
                Some(st) => Some(("True"@, range_on_line(0, st, st + "True"@.len()))),
                None => keyword_at_cursor(line@, seq!["False"@, "None"@], col as int),
            });
            assert(keyword_at_cursor(line@, seq!["False"@, "None"@], col as int) == match keyword_literal_at(line@, "False"@, col as int) {
                Some(st) => Some(("False"@, range_on_line(0, st, st + "False"@.len()))),
                None => keyword_at_cursor(line@, seq!["None"@], col as int),
            });
            assert(keyword_at_cursor(line@, seq!["None"@], col as int) == match keyword_literal_at(line@, "None"@, col as int) {
                Some(st) => Some(("None"@, range_on_line(0, st, st + "None"@.len()))),
                None => None,
            }) by {
                assert(seq!["None"@].drop_first() =~= Seq::<Seq<char>>::empty());
                assert(keyword_at_cursor(line@, Seq::<Seq<char>>::empty(), col as int) is None);
            }
            match find_keyword_literal(line, "True", col) {
                Some(x) => {
                    return Some(x);
                },
                None => {},
            }
            match find_keyword_literal(line, "False", col) {
                Some(x) => {
                    return Some(x);
                },
                None => {},
            }
            find_keyword_literal(line, "None", col)
        },
        LiteralSyntax::Rust => {
            match find_number_literal(line, col) {
                Some(x) => {
                    return Some(x);
                },
                None => {},
            }
            let ghost kws = seq!["true"@, "false"@];
            assert(kws.drop_first() =~= seq!["false"@]);
            assert(keyword_at_cursor(line@, kws, col as int) == match keyword_literal_at(line@, "true"@, col as int) {
                Some(st) => Some(("true"@, range_on_line(0, st, st + "true"@.len()))),
                None => keyword_at_cursor(line@, seq!["false"@], col as int),
            });
            assert(keyword_at_cursor(line@, seq!["false"@], col as int) == match keyword_literal_at(line@, "false"@, col as int) {
                Some(st) => Some(("false"@, range_on_line(0, st, st + "false"@.len()))),
                None => None,
            }) by {
                assert(seq!["false"@].drop_first() =~= Seq::<Seq<char>>::empty());
                assert(keyword_at_cursor(line@, Seq::<Seq<char>>::empty(), col as int) is None);
            }
            match find_keyword_literal(line, "true", col) {
                Some(x) => {
                    return Some(x);
                },
                None => {},
            }
            find_keyword_literal(line, "false", col)
        },
        LiteralSyntax::TypeScript => find_ts_literal(line, col),
    }
}

fn is_preamble_line(syntax: LiteralSyntax, t: &Vec<char>) -> (r: bool)
    ensures
        r == preamble_line(syntax, t@),
{
    match syntax {
        LiteralSyntax::C => starts_with_str(t, "#include"),
        LiteralSyntax::Rust => starts_with_str(t, "use "),
        LiteralSyntax::Python => starts_with_str(t, "import ") || starts_with_str(t, "from "),
        LiteralSyntax::TypeScript => false,
    }
}

fn is_body_line(syntax: LiteralSyntax, t: &Vec<char>) -> (r: bool)
    ensures
        r == body_line(syntax, t@),
{
    match syntax {
        LiteralSyntax::C => contains_ch(t, '(') && contains_ch(t, '{'),
        LiteralSyntax::Rust => {
            starts_with_str(t, "fn ") || starts_with_str(t, "pub fn ") || starts_with_str(t, "struct ")
                || starts_with_str(t, "pub struct ") || starts_with_str(t, "impl ")
                || starts_with_str(t, "trait ") || starts_with_str(t, "pub trait ")
                || starts_with_str(t, "const ") || starts_with_str(t, "pub const ")
                || starts_with_str(t, "static ") || starts_with_str(t, "pub static ")
        },
        LiteralSyntax::Python => starts_with_str(t, "def ") || starts_with_str(t, "class "),
        LiteralSyntax::TypeScript => false,
    }
}

proof fn lemma_first_body_line_from(syntax: LiteralSyntax, lines: Seq<Seq<char>>, k: int)
    requires
        0 <= k <= lines.len(),
        forall|j: int| 0 <= j < k ==> !(!preamble_line(syntax, trim(#[trigger] lines[j])) && body_line(syntax, trim(lines[j]))),
    ensures
        first_body_line(syntax, lines, 0) == first_body_line(syntax, lines, k),
    decreases k,
{
    if k > 0 {
        lemma_first_body_line_from(syntax, lines, k - 1);
        assert(lines[k - 1] == lines[k - 1]);
    }
}

/// Finds the line where a constant declaration goes.
pub fn find_insertion_line(syntax: LiteralSyntax, lines: &Vec<Vec<char>>) -> (r: u32)
    requires
        lines@.len() <= u32::MAX,
    ensures
        r == insertion_line(syntax, vv(lines)),
{
    let ghost ls = vv(lines);
    let mut ins: u32 = 0;
    let mut k: usize = 0;
    match syntax {
        LiteralSyntax::Python => {
            let mut in_doc = false;
            let mut dq = true;
            while k < lines.len()
                invariant
                    k <= lines@.len() <= u32::MAX,
                    ls == vv(lines),
                    python_scan(ls, k as int) == (ins as int, in_doc, dq, false),
                    syntax == LiteralSyntax::Python,
                decreases lines@.len() - k,
            {
                assert(lines@[k as int]@ == ls[k as int]);
                let t = trim_chars(&lines[k]);
                let starts_dq = starts_with_str(&t, "\"\"\"");
                if starts_dq || starts_with_str(&t, "'''") {
                    if in_doc && dq == starts_dq {
                        in_doc = false;
                        ins = (k + 1) as u32;
                    } else if !in_doc {
                        in_doc = true;
                        dq = starts_dq;
                    }
                } else if in_doc {
                } else if is_preamble_line(LiteralSyntax::Python, &t) {
                    ins = (k + 1) as u32;
                } else if is_body_line(LiteralSyntax::Python, &t) {
                    proof {
                        assert(python_scan(ls, k as int + 1) == (ins as int, in_doc, dq, true));
                        lemma_python_scan_stopped(ls, k as int + 1, ls.len() as int);
                    }
                    return ins;
                }
                k = k + 1;
            }
            ins
        },
        _ => {
            while k < lines.len()
                invariant
                    k <= lines@.len() <= u32::MAX,
                    ls == vv(lines),
                    syntax != LiteralSyntax::Python,
                    forall|j: int| 0 <= j < k ==> !(!preamble_line(syntax, trim(#[trigger] ls[j])) && body_line(syntax, trim(ls[j]))),
                    ins as int == after_last_preamble(syntax, ls, k as int),
                decreases lines@.len() - k,
            {
                assert(lines@[k as int]@ == ls[k as int]);
                let t = trim_chars(&lines[k]);
                if is_preamble_line(syntax, &t) {
                    ins = (k + 1) as u32;
                } else if is_body_line(syntax, &t) {
                    proof {
                        lemma_first_body_line_from(syntax, ls, k as int);
                    }
                    return ins;
                }
                k = k + 1;
            }
            proof {
                lemma_first_body_line_from(syntax, ls, k as int);
            }
            ins
        },
    }
}

proof fn lemma_python_scan_stopped(lines: Seq<Seq<char>>, k: int, n: int)
    requires
        0 < k <= n,
        python_scan(lines, k).3,
    ensures
        python_scan(lines, n) == python_scan(lines, k),
    decreases n - k,
{
    if n > k {
        lemma_python_scan_stopped(lines, k, n - 1);
    }
}

/// The TypeScript scanner reads the cursor's line up to the cursor, so there
/// the cursor lies within its line when the line exists.
pub open spec fn cursor_within_line(syntax: LiteralSyntax, source: Seq<char>, line: int, character: int) -> bool {
    syntax == LiteralSyntax::TypeScript && line < lines_of(source).len() ==> character <= lines_of(source)[line].len()
}

/// Analyses the literal under the cursor for extraction into a constant.
pub fn analyze_constant(syntax: LiteralSyntax, source: &str, line: u32, character: u32)
    -> (r: Result<ExtractConstantAnalysis, AnalysisFailure>)
    requires
        lines_of(source@).len() <= u32::MAX,
        cursor_within_line(syntax, source@, line as int, character as int),
    ensures
        match analysis_result(syntax, source@, line as int, character as int) {
            Ok((lit, occ, ins)) => r matches Ok(a) && analysis_matches(a, lit, occ, ins),
            Err(f) => r == Err::<ExtractConstantAnalysis, AnalysisFailure>(f),
        },
{
    let src = str_chars(source);
    let lines = split_lines(&src);
    let ghost ls = vv(&lines);
    if line as usize >= lines.len() {
        return Err(AnalysisFailure::InvalidLine);
    }
    assert(lines@[line as int]@ == ls[line as int]);
    let found = find_literal_at(syntax, &lines[line as usize], character as usize);
    let (literal_value, _range) = match found {
        Some(x) => x,
        None => {
            return Err(AnalysisFailure::NoLiteral);
        },
    };
    let lit_chars = str_chars(literal_value.as_str());
    let is_valid_literal = lit_chars.len() > 0;
    let mut blocking_reasons: Vec<String> = Vec::new();
    let occurrence_ranges = if is_valid_literal {
        find_literal_occurrences_in(syntax, source, literal_value.as_str())
    } else {
        let mut reason: Vec<char> = Vec::new();
        append_str(&mut reason, "Could not extract literal at cursor position");
        blocking_reasons.push(chars_to_string(&reason));
        proof {
            lemma_literal_nonempty(syntax, ls[line as int], character as int);
        }
        Vec::new()
    };
    let ins = find_insertion_line(syntax, &lines);
    Ok(ExtractConstantAnalysis {
        literal_value,
        occurrence_ranges,
        is_valid_literal,
        blocking_reasons,
        insertion_point: make_range(ins as usize, 0, 0),
    })
}

proof fn lemma_last_quote_before(s: Seq<char>, col: int)
    ensures
        last_quote_before(s, col) matches Some(i) ==> 0 <= i < col,
    decreases col,
{
    if col > 0 {
        lemma_last_quote_before(s, col - 1);
    }
}

proof fn lemma_next_char_from(s: Seq<char>, c: char, from: int)
    ensures
        next_char_from(s, c, from) matches Some(j) ==> from <= j < s.len(),
    decreases s.len() - from,
{
    if 0 <= from < s.len() && s[from] != c {
        lemma_next_char_from(s, c, from + 1);
    }
}

proof fn lemma_triple_search(s: Seq<char>, q: Seq<char>, col: int, i: int)
    requires
        q.len() > 0,
    ensures
        triple_search(s, q, col, i) matches Some((a, e)) ==> 0 <= a < e <= s.len(),
    decreases i + 1,
{
    if i >= 0 {
        match triple_string_end(s, q, col, i) {
            Some(e) => {
                let c = first_occurrence_from(s, q, i + q.len())->0;
                lemma_first_occurrence_some(s, q, i + q.len(), c);
            },
            None => {
                lemma_triple_search(s, q, col, i - 1);
            },
        }
    }
}

/// The literal found under a cursor is never empty.
pub proof fn lemma_literal_nonempty(syntax: LiteralSyntax, s: Seq<char>, col: int)
    ensures
        literal_at(syntax, s, col) matches Some((lit, _)) ==> lit.len() > 0,
{
    reveal_strlit("True");
    reveal_strlit("False");
    reveal_strlit("None");
    reveal_strlit("true");
    reveal_strlit("false");
    lemma_string_literal_ordered(s, col);
    let kp = seq!["True"@, "False"@, "None"@];
    let kr = seq!["true"@, "false"@];
    assert(kp.drop_first() =~= seq!["False"@, "None"@]);
    assert(kp.drop_first().drop_first() =~= seq!["None"@]);
    assert(kr.drop_first() =~= seq!["false"@]);
    lemma_keywords_nonempty(s, kp, col);
    lemma_keywords_nonempty(s, kr, col);
    lemma_ts_literal_nonempty(s, col);
}

proof fn lemma_keywords_nonempty(s: Seq<char>, kws: Seq<Seq<char>>, col: int)
    requires
        forall|i: int| 0 <= i < kws.len() ==> (#[trigger] kws[i]).len() > 0,
    ensures
        keyword_at_cursor(s, kws, col) matches Some((lit, _)) ==> lit.len() > 0,
    decreases kws.len(),
{
    if kws.len() > 0 {
        assert forall|i: int| 0 <= i < kws.drop_first().len() implies (#[trigger] kws.drop_first()[i]).len() > 0 by {
            assert(kws.drop_first()[i] == kws[i + 1]);
        }
        lemma_keywords_nonempty(s, kws.drop_first(), col);
    }
}

proof fn lemma_string_literal_ordered(s: Seq<char>, col: int)
    ensures
        string_literal_at(s, col) matches Some((i, e)) ==> 0 <= i < e <= s.len(),
{
    if 0 <= col < s.len() {
        if col >= 3 {
            lemma_triple_search(s, dq3(), col, col - 3);
            lemma_triple_search(s, sq3(), col, col - 3);
        }
        lemma_last_quote_before(s, col);
        match last_quote_before(s, col) {
            Some(i) => {
                lemma_next_char_from(s, s[i], col);
            },
            None => {},
        }
    }
}

/// Why no plan was produced.
#[derive(Debug, Clone, Copy, PartialEq, Eq, Structural)]
pub enum PlanFailure {
    /// The analysis failed.
    Analysis(AnalysisFailure),
    /// The literal under the cursor cannot be extracted.
    InvalidLiteral,
    /// The constant name is not SCREAMING_SNAKE_CASE.
    InvalidName,
}

/// The declaration of constant `name` with value `lit`.
pub open spec fn declaration_text(syntax: LiteralSyntax, name: Seq<char>, lit: Seq<char>) -> Seq<char> {
    match syntax {
        LiteralSyntax::C => "#define "@ + name + " "@ + lit + "\n"@,
        LiteralSyntax::Python => name + " = "@ + lit + "\n"@,
        LiteralSyntax::Rust => "const "@ + name + ": _ = "@ + lit + ";\n"@,
        LiteralSyntax::TypeScript => "const "@ + name + " = "@ + lit + ";\n"@,
    }
}

/// Description of the declaration edit.
pub open spec fn extract_description(lit: Seq<char>, name: Seq<char>) -> Seq<char> {
    "Extract '"@ + lit + "' into constant '"@ + name + "'"@
}

/// Description of the edit that replaces occurrence number `idx` (from zero).
pub open spec fn replace_description(idx: nat, name: Seq<char>) -> Seq<char> {
    "Replace occurrence "@ + decimal(idx + 1) + " of literal with constant '"@ + name + "'"@
}

/// Description of the syntax check after the extraction.
pub open spec fn validation_description(syntax: LiteralSyntax) -> Seq<char> {
    match syntax {
        LiteralSyntax::C => "Verify C syntax is valid after constant extraction"@,
        LiteralSyntax::Python => "Verify Python syntax is valid after constant extraction"@,
        LiteralSyntax::Rust => "Verify Rust syntax is valid after constant extraction"@,
        LiteralSyntax::TypeScript => "Verify syntax is valid after constant extraction"@,
    }
}

/// Priority of the edit replacing occurrence `idx`: `90 - idx`, down to 0.
pub open spec fn replace_priority(idx: int) -> u32 {
    let i = idx as u32;
    if i < 90 {
        (90 - i) as u32
    } else {
        0
    }
}

/// Edit `e` replaces occurrence `idx` at `at` with `name`.
pub open spec fn is_replacement(e: TextEdit, idx: int, at: CodeRange, lit: Seq<char>, name: Seq<char>) -> bool {
    &&& e.file_path is None
    &&& e.edit_type == EditType::Replace
    &&& e.location == location_of(at)
    &&& e.original_text@ == lit
    &&& e.new_text@ == name
    &&& e.priority == replace_priority(idx)
    &&& e.description@ == replace_description(idx as nat, name)
}

/// `plan` declares constant `name = lit` at line `ins` and replaces every occurrence in `occ`.
pub open spec fn plan_matches(
    plan: EditPlan,
    syntax: LiteralSyntax,
    name: Seq<char>,
    lit: Seq<char>,
    occ: Seq<CodeRange>,
    ins: int,
    file_path: Seq<char>,
) -> bool {
    let decl = plan.edits@[0];
    &&& plan.source_file@ == file_path
    &&& plan.edits@.len() == occ.len() + 1
    &&& decl.file_path is None
    &&& decl.edit_type == EditType::Insert
    &&& decl.location == location_of(range_on_line(ins, 0, 0))
    &&& decl.original_text@.len() == 0
    &&& decl.new_text@ == declaration_text(syntax, name, lit)
    &&& decl.priority == 100
    &&& decl.description@ == extract_description(lit, name)
    &&& forall|i: int| 0 <= i < occ.len() ==> is_replacement(#[trigger] plan.edits@[i + 1], i, occ[i], lit, name)
    &&& plan.validations@.len() == 1
    &&& plan.validations@[0].rule_type == ValidationType::SyntaxCheck
    &&& plan.validations@[0].description@ == validation_description(syntax)
    &&& plan.metadata.intent_name@ == "extract_constant"@
    &&& plan.metadata.intent_arguments@.len() == 3
    &&& plan.metadata.intent_arguments@[0].0@ == "literal"@
    &&& plan.metadata.intent_arguments@[0].1 matches ArgValue::Text(t) && t@ == lit
    &&& plan.metadata.intent_arguments@[1].0@ == "constantName"@
    &&& plan.metadata.intent_arguments@[1].1 matches ArgValue::Text(t) && t@ == name
    &&& plan.metadata.intent_arguments@[2].0@ == "occurrences"@
    &&& plan.metadata.intent_arguments@[2].1 == ArgValue::Number(occ.len() as u64)
    &&& plan.metadata.complexity == (if occ.len() < 10 { occ.len() } else { 10 }) as u8
    &&& plan.metadata.impact_areas@.len() == 1
    &&& plan.metadata.impact_areas@[0]@ == "constant_extraction"@
}

fn string_of(parts: &Vec<char>) -> (s: String)
    ensures
        s@ == parts@,
{
    chars_to_string(parts)
}

fn str_to_string(t: &str) -> (s: String)
    ensures
        s@ == t@,
{
    let v = str_chars(t);
    chars_to_string(&v)
}

fn build_declaration(syntax: LiteralSyntax, name: &str, lit: &str) -> (s: String)
    ensures
        s@ == declaration_text(syntax, name@, lit@),
{
    let mut v: Vec<char> = Vec::new();
    match syntax {
        LiteralSyntax::C => {
            append_str(&mut v, "#define ");
            append_str(&mut v, name);
            append_str(&mut v, " ");
            append_str(&mut v, lit);
            append_str(&mut v, "\n");
        },
        LiteralSyntax::Python => {
            append_str(&mut v, name);
            append_str(&mut v, " = ");
            append_str(&mut v, lit);
            append_str(&mut v, "\n");
        },
        LiteralSyntax::Rust => {
            append_str(&mut v, "const ");
            append_str(&mut v, name);
            append_str(&mut v, ": _ = ");
            append_str(&mut v, lit);
            append_str(&mut v, ";\n");
        },
        LiteralSyntax::TypeScript => {
            append_str(&mut v, "const ");
            append_str(&mut v, name);
            append_str(&mut v, " = ");
            append_str(&mut v, lit);
            append_str(&mut v, ";\n");
        },
    }
    string_of(&v)
}

fn build_validation_description(syntax: LiteralSyntax) -> (s: String)
    ensures
        s@ == validation_description(syntax),
{
    match syntax {
        LiteralSyntax::C => str_to_string("Verify C syntax is valid after constant extraction"),
        LiteralSyntax::Python => str_to_string("Verify Python syntax is valid after constant extraction"),
        LiteralSyntax::Rust => str_to_string("Verify Rust syntax is valid after constant extraction"),
        LiteralSyntax::TypeScript => str_to_string("Verify syntax is valid after constant extraction"),
    }
}

/// Plans the extraction of the literal under the cursor into constant `name`.
pub fn plan_constant(
    syntax: LiteralSyntax,
    source: &str,
    line: u32,
    character: u32,
    name: &str,
    file_path: &str,
) -> (r: Result<EditPlan, PlanFailure>)
    requires
        lines_of(source@).len() <= u32::MAX,
        cursor_within_line(syntax, source@, line as int, character as int),
    ensures
        match analysis_result(syntax, source@, line as int, character as int) {
            Err(f) => r == Err::<EditPlan, PlanFailure>(PlanFailure::Analysis(f)),
            Ok((lit, occ, ins)) => if lit.len() == 0 {
                r == Err::<EditPlan, PlanFailure>(PlanFailure::InvalidLiteral)
            } else if !is_screaming_snake(name@) {
                r == Err::<EditPlan, PlanFailure>(PlanFailure::InvalidName)
            } else {
                r matches Ok(plan) && plan_matches(plan, syntax, name@, lit, occ, ins, file_path@)
            },
        },
{
    let analysis = match analyze_constant(syntax, source, line, character) {
        Ok(a) => a,
        Err(f) => {
            return Err(PlanFailure::Analysis(f));
        },
    };
    if !analysis.is_valid_literal {
        return Err(PlanFailure::InvalidLiteral);
    }
    if !is_screaming_snake_case(name) {
        return Err(PlanFailure::InvalidName);
    }
    let lit = analysis.literal_value.as_str();
    let name_string = str_to_string(name);
    let mut edits: Vec<TextEdit> = Vec::new();
    let mut d: Vec<char> = Vec::new();
    append_str(&mut d, "Extract '");
    append_str(&mut d, lit);
    append_str(&mut d, "' into constant '");
    append_str(&mut d, name);
    append_str(&mut d, "'");
    edits.push(TextEdit {
        file_path: None,
        edit_type: EditType::Insert,
        location: to_location(analysis.insertion_point),
        original_text: String::new(),
        new_text: build_declaration(syntax, name, lit),
        priority: 100,
        description: string_of(&d),
    });
    let occ = &analysis.occurrence_ranges;
    let mut idx: usize = 0;
    while idx < occ.len()
        invariant
            idx <= occ@.len(),
            edits@.len() == idx + 1,
            edits@[0].file_path is None,
            edits@[0].edit_type == EditType::Insert,
            edits@[0].location == location_of(analysis.insertion_point),
            edits@[0].original_text@.len() == 0,
            edits@[0].new_text@ == declaration_text(syntax, name@, lit@),
            edits@[0].priority == 100,
            edits@[0].description@ == extract_description(lit@, name@),
            lit@ == analysis.literal_value@,
            forall|i: int| 0 <= i < idx ==> is_replacement(#[trigger] edits@[i + 1], i, occ@[i], lit@, name@),
        decreases occ@.len() - idx,
    {
        let mut d: Vec<char> = Vec::new();
        append_str(&mut d, "Replace occurrence ");
        let num = usize_to_decimal(idx + 1);
        append_chars(&mut d, &num);
        append_str(&mut d, " of literal with constant '");
        append_str(&mut d, name);
        append_str(&mut d, "'");
        let priority = 90u32.saturating_sub(idx as u32);
        let e = TextEdit {
            file_path: None,
            edit_type: EditType::Replace,
            location: to_location(occ[idx]),
            original_text: str_to_string(lit),
            new_text: str_to_string(name),
            priority,
            description: string_of(&d),
        };
        edits.push(e);
        idx = idx + 1;
    }
    let mut validations: Vec<ValidationRule> = Vec::new();
    validations.push(ValidationRule {
        rule_type: ValidationType::SyntaxCheck,
        description: build_validation_description(syntax),
    });
    let count = occ.len();
    let mut args: Vec<(String, ArgValue)> = Vec::new();
    args.push((str_to_string("literal"), ArgValue::Text(str_to_string(lit))));
    args.push((str_to_string("constantName"), ArgValue::Text(name_string)));
    args.push((str_to_string("occurrences"), ArgValue::Number(count as u64)));
    let mut areas: Vec<String> = Vec::new();
    areas.push(str_to_string("constant_extraction"));
    let complexity: u8 = if count < 10 { count as u8 } else { 10 };
    Ok(EditPlan {
        source_file: str_to_string(file_path),
        edits,
        validations,
        metadata: EditPlanMetadata {
            intent_name: str_to_string("extract_constant"),
            intent_arguments: args,
            created_at: now_timestamp(),
            complexity,
            impact_areas: areas,
        },
    })
}

} // verus!
