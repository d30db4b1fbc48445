//! Checks the server's tool handlers make before acting: positions and ranges
//! inside the source, a light syntax check, and the dead-code analysis rules.

use vstd::prelude::*;
use crate::edit::CodeRange;
use crate::numeric::{decimal, u64_to_decimal};
use crate::paths::{path_extension_of, path_extension};
use crate::text::{
    str_chars, chars_to_string, split_lines, vv, lines_of, trim, trim_chars, has_prefix, append_str,
    append_chars, slice_chars, starts_with_str, chars_eq_str, utf8_len, utf8_byte_len,
};

verus! {

fn owned(t: &str) -> (s: String)
    ensures
        s@ == t@,
{
    chars_to_string(&str_chars(t))
}

fn push_number(v: &mut Vec<char>, n: u64)
    ensures
        final(v)@ == old(v)@ + decimal(n as nat),
{
    let d = u64_to_decimal(n);
    append_chars(v, &d);
}

/// Why a position is not inside the source, or `None` when it is. The column
/// is held against the line's length in UTF-8 bytes.
pub open spec fn position_problem(source: Seq<char>, line: u32, col: u32) -> Option<Seq<char>> {
    let lines = lines_of(source);
    let count = lines.len() as u32;
    if line >= count {
        Some("Line "@ + decimal(line as nat) + " is beyond source length "@ + decimal(count as nat))
    } else if col > utf8_len(lines[line as int]) as u32 {
        Some("Column "@ + decimal(col as nat) + " is beyond line length "@ + decimal(utf8_len(lines[line as int])))
    } else {
        None
    }
}

/// Checks that `line`:`col` lies inside `source` (the line count taken as a `u32`).
pub fn validate_position(source: &str, line: u32, col: u32) -> (r: Result<(), String>)
    requires
        line < lines_of(source@).len() ==> utf8_len(lines_of(source@)[line as int]) <= usize::MAX,
    ensures
        match position_problem(source@, line, col) {
            None => r is Ok,
            Some(m) => r matches Err(e) && e@ == m,
        },
{
    let src = str_chars(source);
    let lines = split_lines(&src);
    let count = lines.len() as u32;
    if line >= count {
        let mut v: Vec<char> = Vec::new();
        append_str(&mut v, "Line ");
        push_number(&mut v, line as u64);
        append_str(&mut v, " is beyond source length ");
        push_number(&mut v, count as u64);
        return Err(chars_to_string(&v));
    }
    let lt = &lines[line as usize];
    assert(lt@ == vv(&lines)[line as int]);
    let bytes = utf8_byte_len(lt);
    if col > bytes as u32 {
        let mut v: Vec<char> = Vec::new();
        append_str(&mut v, "Column ");
        push_number(&mut v, col as u64);
        append_str(&mut v, " is beyond line length ");
        push_number(&mut v, bytes as u64);
        return Err(chars_to_string(&v));
    }
    Ok(())
}

/// Why a range is not a forward range inside the source, or `None`.
pub open spec fn range_problem(source: Seq<char>, range: CodeRange) -> Option<Seq<char>> {
    let lines = lines_of(source);
    let count = lines.len() as u32;
    if range.start_line >= count {
        Some("Start line "@ + decimal(range.start_line as nat) + " is beyond source length "@ + decimal(count as nat))
    } else if range.end_line >= count {
        Some("End line "@ + decimal(range.end_line as nat) + " is beyond source length "@ + decimal(count as nat))
    } else if range.start_line == range.end_line && (range.start_col > lines[range.start_line as int].len() as u32
        || range.end_col > lines[range.start_line as int].len() as u32) {
        Some("Column position beyond line length"@)
    } else if range.start_line > range.end_line || (range.start_line == range.end_line && range.start_col > range.end_col) {
        Some("Invalid range: start position after end position"@)
    } else {
        None
    }
}

/// Checks that a range lies inside the source and does not run backwards.
pub fn validate_code_range(source: &str, range: &CodeRange) -> (r: Result<(), String>)
    ensures
        match range_problem(source@, *range) {
            None => r is Ok,
            Some(m) => r matches Err(e) && e@ == m,
        },
{
    let src = str_chars(source);
    let lines = split_lines(&src);
    let count = lines.len() as u32;
    if range.start_line >= count {
        let mut v: Vec<char> = Vec::new();
        append_str(&mut v, "Start line ");
        push_number(&mut v, range.start_line as u64);
        append_str(&mut v, " is beyond source length ");
        push_number(&mut v, count as u64);
        return Err(chars_to_string(&v));
    }
    if range.end_line >= count {
        let mut v: Vec<char> = Vec::new();
        append_str(&mut v, "End line ");
        push_number(&mut v, range.end_line as u64);
        append_str(&mut v, " is beyond source length ");
        push_number(&mut v, count as u64);
        return Err(chars_to_string(&v));
    }
    if range.start_line == range.end_line {
        let lt = &lines[range.start_line as usize];
        assert(lt@ == vv(&lines)[range.start_line as int]);
        if range.start_col > lt.len() as u32 || range.end_col > lt.len() as u32 {
            return Err(owned("Column position beyond line length"));
        }
    }
    if range.start_line > range.end_line || (range.start_line == range.end_line && range.start_col > range.end_col) {
        return Err(owned("Invalid range: start position after end position"));
    }
    Ok(())
}

/// The problem the light syntax check reports, or `None`, given the error the
/// JavaScript/TypeScript parser reported for script files.
pub open spec fn syntax_verdict(source: Seq<char>, file_path: Seq<char>, script_error: Option<Seq<char>>) -> Option<Seq<char>> {
    let ext = match path_extension_of(file_path) { Some(e) => e, None => ""@ };
    if ext == "ts"@ || ext == "tsx"@ || ext == "js"@ || ext == "jsx"@ {
        match script_error {
            None => None,
            Some(e) => Some("Syntax validation failed: "@ + e),
        }
    } else if ext == "rs"@ {
        if trim(source).len() == 0 { Some("Empty source file"@) } else { None }
    } else {
        None
    }
}

/// A light syntax check: script files by the parser's report, Rust files
/// must not be blank, other files pass.
pub fn verify_syntax(source: &str, file_path: &str, script_error: Option<String>) -> (r: Result<(), String>)
    ensures
        match syntax_verdict(source@, file_path@, match script_error { Some(e) => Some(e@), None => None }) {
            None => r is Ok,
            Some(m) => r matches Err(e) && e@ == m,
        },
{
    let ext: Vec<char> = match path_extension(file_path) {
        Some(e) => str_chars(e.as_str()),
        None => Vec::new(),
    };
    proof {
        reveal_strlit("");
    }
    let ghost sext = match path_extension_of(file_path@) { Some(e) => e, None => ""@ };
    assert(ext@ == sext);
    if chars_eq_str(&ext, "ts") || chars_eq_str(&ext, "tsx") || chars_eq_str(&ext, "js") || chars_eq_str(&ext, "jsx") {
        match script_error {
            None => Ok(()),
            Some(e) => {
                let mut v: Vec<char> = Vec::new();
                append_str(&mut v, "Syntax validation failed: ");
                append_str(&mut v, e.as_str());
                Err(chars_to_string(&v))
            },
        }
    } else if chars_eq_str(&ext, "rs") {
        let t = trim_chars(&str_chars(source));
        if t.len() == 0 {
            Err(owned("Empty source file"))
        } else {
            Ok(())
        }
    } else {
        Ok(())
    }
}

/// Settings of the dead-code analysis.
#[derive(Debug, Clone)]
pub struct AnalysisConfig {
    /// Largest number of reference checks run at once.
    pub max_concurrent_checks: usize,
    /// Symbol kinds analysed (LSP `SymbolKind` numbers).
    pub analyzed_kinds: Vec<u64>,
}

impl Default for AnalysisConfig {
    fn default() -> (r: Self)
        ensures
            r.max_concurrent_checks == 20,
            r.analyzed_kinds@ == seq![5u64, 6, 11, 12],
    {
        let mut kinds: Vec<u64> = Vec::new();
        kinds.push(5);
        kinds.push(6);
        kinds.push(11);
        kinds.push(12);
        AnalysisConfig { max_concurrent_checks: 20, analyzed_kinds: kinds }
    }
}

/// A symbol found to have no references beyond its declaration.
#[derive(Debug, Clone)]
pub struct DeadSymbol {
    pub name: String,
    pub kind: String,
    pub file_path: String,
    pub line: u32,
    pub column: u32,
    pub reference_count: usize,
}

/// The readable name of an LSP symbol kind.
pub open spec fn kind_name(kind: u64) -> Seq<char> {
    if kind == 5 {
        "class"@
    } else if kind == 6 {
        "method"@
    } else if kind == 11 {
        "interface"@
    } else if kind == 12 {
        "function"@
    } else {
        "symbol"@
    }
}

/// Names an LSP symbol kind.
pub fn lsp_kind_to_string(kind: u64) -> (r: String)
    ensures
        r@ == kind_name(kind),
{
    if kind == 5 {
        owned("class")
    } else if kind == 6 {
        owned("method")
    } else if kind == 11 {
        owned("interface")
    } else if kind == 12 {
        owned("function")
    } else {
        owned("symbol")
    }
}

/// Whether a symbol of this kind (absent when the symbol carries none) is analysed.
pub fn should_analyze_kind(kind: Option<u64>, config: &AnalysisConfig) -> (r: bool)
    ensures
        r == match kind {
            Some(k) => config.analyzed_kinds@.contains(k),
            None => false,
        },
{
    match kind {
        Some(k) => {
            let mut i: usize = 0;
            while i < config.analyzed_kinds.len()
                invariant
                    kind == Some(k),
                    i <= config.analyzed_kinds@.len(),
                    forall|j: int| 0 <= j < i ==> config.analyzed_kinds@[j] != k,
                decreases config.analyzed_kinds@.len() - i,
            {
                if config.analyzed_kinds[i] == k {
                    assert(config.analyzed_kinds@[i as int] == k);
                    assert(config.analyzed_kinds@.contains(k));
                    return true;
                }
                i = i + 1;
            }
            false
        },
        None => false,
    }
}

/// The file path of a `file://` URI (other URIs are kept as they are).
pub open spec fn uri_file_path(uri: Seq<char>) -> Seq<char> {
    if uri.len() >= 7 && has_prefix(uri, "file://"@) { uri.subrange(7, uri.len() as int) } else { uri }
}

/// The dead symbol reported for a symbol with `reference_count` references
/// (the declaration included): one at most makes it dead.
pub fn dead_symbol_if_unreferenced(
    name: String,
    kind: u64,
    uri: &str,
    line: u32,
    character: u32,
    reference_count: usize,
) -> (r: Option<DeadSymbol>)
    ensures
        reference_count <= 1 ==> (r matches Some(d) && d.name == name && d.kind@ == kind_name(kind)
            && d.file_path@ == uri_file_path(uri@) && d.line == line && d.column == character
            && d.reference_count == reference_count),
        reference_count > 1 ==> r is None,
{
    if reference_count > 1 {
        return None;
    }
    let u = str_chars(uri);
    let path: Vec<char> = if u.len() >= 7 && starts_with_str(&u, "file://") { slice_chars(&u, 7, u.len()) } else { u };
    Some(DeadSymbol {
        name,
        kind: lsp_kind_to_string(kind),
        file_path: chars_to_string(&path),
        line,
        column: character,
        reference_count,
    })
}

} // verus!
