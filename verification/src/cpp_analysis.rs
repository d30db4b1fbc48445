//! C++ plugin: `#include` references and the import graph of a file.

use vstd::prelude::*;
use crate::edit::now_timestamp;
use crate::errors::PluginError;
use crate::imports::{ImportType, ImportInfo, SourceLocation, ImportGraph, ImportGraphMetadata};
use crate::regex_support::{regex_match_contexts, regex_captures_in_context, regex_escape, regex_escape_of};
use crate::text::{str_chars, chars_to_string, split_lines, vv, lines_of, append_str};

verus! {

/// Pattern of an `#include` line; group 1 is the included path.
pub const INCLUDE_PATTERN: &'static str = "#include\\s*[<\"]([^>\"]+)[>\"]";

/// Pattern of an `#include` of `module`, with or without a file extension;
/// group 1 is the included path.
pub open spec fn module_include_pattern(module: Seq<char>) -> Seq<char> {
    "#include\\s*[<\"]("@ + regex_escape_of(module) + "(?:\\.[A-Za-z]+)?)[>\"]"@
}

/// How a file refers to a module.
#[derive(Debug, Clone, Copy, PartialEq, Eq, Structural)]
pub enum ReferenceKind {
    /// The module is named where it is brought in.
    Declaration,
}

/// One place where a file refers to a module.
#[derive(Debug, Clone)]
pub struct ModuleReference {
    pub line: usize,
    pub column: usize,
    pub length: usize,
    pub text: String,
    pub kind: ReferenceKind,
}

/// The width of the first `n` lines, each counted with its terminator
/// (only as many lines as there are).
pub open spec fn width_of_first(lines: Seq<Seq<char>>, n: int) -> int
    decreases n,
{
    if n <= 0 {
        0
    } else if n > lines.len() {
        width_of_first(lines, lines.len() as int)
    } else {
        width_of_first(lines, n - 1) + lines[n - 1].len() + 1
    }
}

proof fn lemma_width_grows(lines: Seq<Seq<char>>, a: int, b: int)
    requires
        0 <= a <= b <= lines.len(),
    ensures
        width_of_first(lines, a) <= width_of_first(lines, b),
    decreases b - a,
{
    if a < b {
        lemma_width_grows(lines, a, b - 1);
    }
}

/// The reference reported for a match, given as (text before it, match,
/// group 1): the line is the number of lines before the match, and the column
/// its distance from the start of that many lines minus one of the file.
pub open spec fn reference_is(r: ModuleReference, content: Seq<char>, m: (Seq<char>, Seq<char>, Seq<char>)) -> bool {
    let line = lines_of(m.0).len() as int;
    let offset = if line == 0 { 0 } else { width_of_first(lines_of(content), line - 1) };
    &&& r.line == line
    &&& r.column == (if m.0.len() >= offset { m.0.len() - offset } else { 0 })
    &&& r.length == m.1.len()
    &&& r.text@ == m.2
    &&& r.kind == ReferenceKind::Declaration
}

/// The column of a match starting `start` characters into the text whose
/// lines are `lines`, `line - 1` of them counted before it.
fn offset_column(lines: &Vec<Vec<char>>, line: usize, start: usize) -> (c: usize)
    ensures
        ({
            let offset = if line == 0 { 0 } else { width_of_first(vv(lines), line - 1) };
            c == (if start >= offset { start - offset } else { 0 })
        }),
{
    if line == 0 {
        return start;
    }
    let ghost ls = vv(lines);
    let n = if line - 1 < lines.len() { line - 1 } else { lines.len() };
    assert(width_of_first(ls, line - 1) == width_of_first(ls, n as int));
    let mut acc: usize = 0;
    let mut k: usize = 0;
    while k < n
        invariant
            k <= n <= lines@.len(),
            ls == vv(lines),
            n == line - 1 || (n == lines@.len() && line - 1 > lines@.len()),
            line > 0,
            acc == width_of_first(ls, k as int),
            acc <= start,
        decreases n - k,
    {
        let w = lines[k].len();
        assert(lines@[k as int]@ == ls[k as int]);
        if w >= start - acc {
            proof {
                assert(width_of_first(ls, (k + 1) as int) == acc + w + 1);
                lemma_width_grows(ls, (k + 1) as int, n as int);
                assert(width_of_first(ls, line - 1) == width_of_first(ls, n as int));
            }
            return 0;
        }
        acc = acc + w + 1;
        k = k + 1;
    }
    start - acc
}

/// Scanner of `#include` references to a module, and import graphs of C++
/// files.
#[derive(Debug, Clone, Copy, Default)]
pub struct CppAnalysisProvider;

impl CppAnalysisProvider {
    /// Every `#include` of `module_name` in `content`, in order, with its
    /// line, column, length and included path.
    pub fn scan_references(&self, content: &str, module_name: &str) -> (r: Result<Vec<ModuleReference>, PluginError>)
        ensures
            match regex_match_contexts(module_include_pattern(module_name@), content@) {
                None => r matches Err(PluginError::Internal(m)) && m@ == "Invalid include pattern"@,
                Some(ms) => r matches Ok(v) && v@.len() == ms.len() && forall|k: int|
                    0 <= k < ms.len() ==> reference_is(#[trigger] v@[k], content@, ms[k]),
            },
    {
        let esc = regex_escape(module_name);
        let mut p: Vec<char> = Vec::new();
        append_str(&mut p, "#include\\s*[<\"](");
        append_str(&mut p, esc.as_str());
        append_str(&mut p, "(?:\\.[A-Za-z]+)?)[>\"]");
        let pattern = chars_to_string(&p);
        assert(pattern@ == module_include_pattern(module_name@));
        let ms = match regex_captures_in_context(pattern.as_str(), content) {
            Some(ms) => ms,
            None => {
                return Err(PluginError::Internal(chars_to_string(&str_chars("Invalid include pattern"))));
            },
        };
        let ghost msv = ms@.map_values(|t: (String, String, String)| (t.0@, t.1@, t.2@));
        let src = str_chars(content);
        let lines = split_lines(&src);
        let mut out: Vec<ModuleReference> = Vec::new();
        let mut j: usize = 0;
        while j < ms.len()
            invariant
                j <= ms@.len(),
                msv == ms@.map_values(|t: (String, String, String)| (t.0@, t.1@, t.2@)),
                vv(&lines) == lines_of(content@),
                out@.len() == j,
                forall|k: int| 0 <= k < j ==> reference_is(#[trigger] out@[k], content@, msv[k]),
            decreases ms@.len() - j,
        {
            let t = &ms[j];
            assert(msv[j as int] == (t.0@, t.1@, t.2@));
            let before = str_chars(t.0.as_str());
            let before_lines = split_lines(&before);
            let line = before_lines.len();
            let column = offset_column(&lines, line, before.len());
            let length = str_chars(t.1.as_str()).len();
            out.push(ModuleReference {
                line,
                column,
                length,
                text: t.2.clone(),
                kind: ReferenceKind::Declaration,
            });
            j = j + 1;
        }
        Ok(out)
    }
}


/// Where a match starting `start` characters into a file falls, as the line
/// walk of the plugin finds it: (line number, where that line starts). The
/// walk stops at the first line that reaches `start`; past the last line it
/// reports line 0 and the width of all lines.
pub open spec fn locate(lines: Seq<Seq<char>>, start: int, i: int, last: int) -> (int, int)
    decreases lines.len() - i,
{
    if i >= lines.len() {
        (0, last)
    } else if last + lines[i].len() >= start {
        (i, last)
    } else {
        locate(lines, start, i + 1, last + lines[i].len() + 1)
    }
}

/// The import reported for an `#include` match given as (text before it,
/// match, group 1).
pub open spec fn include_reported(imp: ImportInfo, content: Seq<char>, m: (Seq<char>, Seq<char>, Seq<char>)) -> bool {
    let (line, last) = locate(lines_of(content), m.0.len() as int, 0, 0);
    let col = m.0.len() - last;
    &&& imp.module@ == m.2
    &&& imp.import_type == ImportType::CInclude
    &&& imp.named_imports@.len() == 0
    &&& imp.default_import is None
    &&& imp.namespace_import is None
    &&& !imp.type_only
    &&& imp.location == SourceLocation {
        start_line: line as u32,
        start_column: col as u32,
        end_line: line as u32,
        end_column: (col + m.1.len()) as u32,
    }
}

proof fn lemma_locate_bounds(lines: Seq<Seq<char>>, start: int, i: int, last: int)
    requires
        0 <= i,
        0 <= last <= start,
    ensures
        0 <= locate(lines, start, i, last).1 <= start,
    decreases lines.len() - i,
{
    if i < lines.len() && last + lines[i].len() < start {
        lemma_locate_bounds(lines, start, i + 1, last + lines[i].len() + 1);
    }
}

/// Line and line start of a match `start` characters into the file.
fn locate_match(lines: &Vec<Vec<char>>, start: usize) -> (r: (usize, usize))
    ensures
        locate(vv(lines), start as int, 0, 0) == (r.0 as int, r.1 as int),
        r.1 <= start,
{
    let ghost ls = vv(lines);
    let mut last: usize = 0;
    let mut i: usize = 0;
    while i < lines.len()
        invariant
            i <= lines@.len(),
            ls == vv(lines),
            last <= start,
            locate(ls, start as int, 0, 0) == locate(ls, start as int, i as int, last as int),
        decreases lines@.len() - i,
    {
        let w = lines[i].len();
        assert(lines@[i as int]@ == ls[i as int]);
        if w >= start - last {
            return (i, last);
        }
        last = last + w + 1;
        i = i + 1;
    }
    (0, last)
}

impl CppAnalysisProvider {
    /// The import graph of a C++ file with the given content: one `#include`
    /// import per include line, in order.
    pub fn build_import_graph_from(&self, file_path: &str, content: &str) -> (r: Result<ImportGraph, PluginError>)
        ensures
            match regex_match_contexts(INCLUDE_PATTERN@, content@) {
                None => r matches Err(PluginError::Internal(m)) && m@ == "Invalid include pattern"@,
                Some(ms) => r matches Ok(g) && {
                    &&& g.source_file@ == file_path@
                    &&& g.imports@.len() == ms.len()
                    &&& forall|k: int| 0 <= k < ms.len() ==> include_reported(#[trigger] g.imports@[k], content@, ms[k])
                    &&& g.importers@.len() == 0
                    &&& g.metadata.language@ == "C++"@
                    &&& g.metadata.parser_version@ == "0.1.0"@
                    &&& g.metadata.circular_dependencies@.len() == 0
                    &&& g.metadata.external_dependencies@.len() == 0
                },
            },
    {
        let ms = match regex_captures_in_context(INCLUDE_PATTERN, content) {
            Some(ms) => ms,
            None => {
                return Err(PluginError::Internal(chars_to_string(&str_chars("Invalid include pattern"))));
            },
        };
        let ghost msv = ms@.map_values(|t: (String, String, String)| (t.0@, t.1@, t.2@));
        let src = str_chars(content);
        let lines = split_lines(&src);
        let mut imports: Vec<ImportInfo> = Vec::new();
        let mut j: usize = 0;
        while j < ms.len()
            invariant
                j <= ms@.len(),
                msv == ms@.map_values(|t: (String, String, String)| (t.0@, t.1@, t.2@)),
                forall|k: int| 0 <= k < ms@.len() ==> {
                    let t = #[trigger] ms@[k];
                    &&& t.0@.len() + t.1@.len() <= content@.len()
                },
                src@ == content@,
                src@.len() == src.len(),
                vv(&lines) == lines_of(content@),
                imports@.len() == j,
                forall|k: int| 0 <= k < j ==> include_reported(#[trigger] imports@[k], content@, msv[k]),
            decreases ms@.len() - j,
        {
            let t = &ms[j];
            assert(msv[j as int] == (t.0@, t.1@, t.2@));
            assert(t.0@.len() + t.1@.len() <= content@.len());
            let start = str_chars(t.0.as_str()).len();
            let len = str_chars(t.1.as_str()).len();
            let (line, last) = locate_match(&lines, start);
            let col = start - last;
            assert(col + len <= src@.len());
            assert(src@.len() == src.len());
            imports.push(ImportInfo {
                module: t.2.clone(),
                import_type: ImportType::CInclude,
                named_imports: Vec::new(),
                default_import: None,
                namespace_import: None,
                type_only: false,
                location: SourceLocation {
                    start_line: line as u32,
                    start_column: col as u32,
                    end_line: line as u32,
                    end_column: (col + len) as u32,
                },
            });
            j = j + 1;
        }
        Ok(ImportGraph {
            source_file: chars_to_string(&str_chars(file_path)),
            imports,
            importers: Vec::new(),
            metadata: ImportGraphMetadata {
                language: chars_to_string(&str_chars("C++")),
                parsed_at: now_timestamp(),
                parser_version: chars_to_string(&str_chars("0.1.0")),
                circular_dependencies: Vec::new(),
                external_dependencies: Vec::new(),
            },
        })
    }
}

} // verus!
