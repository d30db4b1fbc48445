//! Decisions of the code-analysis tools: the statistics of an import graph,
//! which files and symbols the dead-code search looks at, and what it reports
//! of a symbol from the number of its references.

use vstd::prelude::*;
use crate::imports::ImportInfo;
use crate::paths::{path_extension_of, path_extension};
use crate::text::{str_chars, chars_eq, chars_eq_str, vv};

verus! {

/// Counts of an import graph's imports.
#[derive(Debug, Clone, Copy, PartialEq, Eq, Structural)]
pub struct ImportStats {
    pub total_imports: usize,
    pub unique_modules: usize,
    pub type_only_imports: usize,
    pub namespace_imports: usize,
    pub default_imports: usize,
}

/// The module paths of the imports, in order.
pub open spec fn import_modules(imports: Seq<ImportInfo>) -> Seq<Seq<char>> {
    imports.map_values(|i: ImportInfo| i.module@)
}

/// How many of the imports satisfy `p`.
pub open spec fn count_imports(imports: Seq<ImportInfo>, p: spec_fn(ImportInfo) -> bool) -> nat
    decreases imports.len(),
{
    if imports.len() == 0 {
        0
    } else {
        count_imports(imports.drop_last(), p) + if p(imports.last()) { 1nat } else { 0nat }
    }
}

/// An import that brings in types only.
pub open spec fn is_type_only(i: ImportInfo) -> bool {
    i.type_only
}

/// An import that names a namespace.
pub open spec fn has_namespace(i: ImportInfo) -> bool {
    i.namespace_import is Some
}

/// An import that names a default binding.
pub open spec fn has_default(i: ImportInfo) -> bool {
    i.default_import is Some
}

proof fn lemma_count_bound(imports: Seq<ImportInfo>, p: spec_fn(ImportInfo) -> bool)
    ensures
        count_imports(imports, p) <= imports.len(),
    decreases imports.len(),
{
    if imports.len() > 0 {
        lemma_count_bound(imports.drop_last(), p);
    }
}

proof fn lemma_set_push(s: Seq<Seq<char>>, x: Seq<char>)
    ensures
        s.push(x).to_set() == s.to_set().insert(x),
{
    assert forall|y: Seq<char>| #[trigger] s.push(x).to_set().contains(y) <==> s.to_set().insert(x).contains(y) by {
        if s.push(x).contains(y) && y != x {
            let k = choose|k: int| 0 <= k < s.push(x).len() && s.push(x)[k] == y;
            assert(s[k] == y);
        }
        if s.contains(y) {
            let k = choose|k: int| 0 <= k < s.len() && s[k] == y;
            assert(s.push(x)[k] == y);
        }
        if y == x {
            assert(s.push(x)[s.len() as int] == y);
        }
    }
    assert(s.push(x).to_set() =~= s.to_set().insert(x));
}

/// The statistics of a list of imports: how many there are, how many distinct
/// module paths they name, and how many are type-only, namespace and default
/// imports.
pub fn import_stats(imports: &Vec<ImportInfo>) -> (r: ImportStats)
    ensures
        r.total_imports == imports@.len(),
        r.unique_modules == import_modules(imports@).to_set().len(),
        r.type_only_imports == count_imports(imports@, |i: ImportInfo| is_type_only(i)),
        r.namespace_imports == count_imports(imports@, |i: ImportInfo| has_namespace(i)),
        r.default_imports == count_imports(imports@, |i: ImportInfo| has_default(i)),
{
    let ghost s = imports@;
    let mut seen: Vec<Vec<char>> = Vec::new();
    let mut type_only: usize = 0;
    let mut namespace: usize = 0;
    let mut default: usize = 0;
    let mut i: usize = 0;
    while i < imports.len()
        invariant
            s == imports@,
            i <= s.len(),
            vv(&seen).no_duplicates(),
            vv(&seen).to_set() == import_modules(s.take(i as int)).to_set(),
            vv(&seen).len() <= i,
            type_only == count_imports(s.take(i as int), |x: ImportInfo| is_type_only(x)),
            namespace == count_imports(s.take(i as int), |x: ImportInfo| has_namespace(x)),
            default == count_imports(s.take(i as int), |x: ImportInfo| has_default(x)),
            type_only <= i,
            namespace <= i,
            default <= i,
        decreases s.len() - i,
    {
        let ghost before = s.take(i as int);
        let ghost after = s.take(i + 1);
        assert(after.drop_last() =~= before);
        assert(after.last() == s[i as int]);
        assert(import_modules(after) =~= import_modules(before).push(s[i as int].module@));
        proof {
            lemma_set_push(import_modules(before), s[i as int].module@);
        }
        let imp = &imports[i];
        let m = str_chars(imp.module.as_str());
        let mut found = false;
        let mut k: usize = 0;
        while k < seen.len()
            invariant
                k <= seen@.len(),
                m@ == imp.module@,
                !found ==> forall|j: int| 0 <= j < k ==> vv(&seen)[j] != m@,
                found ==> vv(&seen).contains(m@),
            decreases seen@.len() - k,
        {
            if chars_eq(&seen[k], &m) {
                assert(vv(&seen)[k as int] == m@);
                found = true;
            }
            k = k + 1;
        }
        if !found {
            let ghost old_seen = vv(&seen);
            assert(!old_seen.contains(m@));
            seen.push(m);
            assert(vv(&seen) =~= old_seen.push(m@));
            proof {
                lemma_set_push(old_seen, m@);
            }
        } else {
            assert(vv(&seen).to_set().insert(m@) =~= vv(&seen).to_set());
        }
        assert(after.drop_last() =~= before);
        assert(after.last() == s[i as int]);
        assert(count_imports(after, |x: ImportInfo| is_type_only(x)) == count_imports(before, |x: ImportInfo| is_type_only(x)) + if s[i as int].type_only { 1nat } else { 0nat });
        assert(count_imports(after, |x: ImportInfo| has_namespace(x)) == count_imports(before, |x: ImportInfo| has_namespace(x)) + if s[i as int].namespace_import is Some { 1nat } else { 0nat });
        assert(count_imports(after, |x: ImportInfo| has_default(x)) == count_imports(before, |x: ImportInfo| has_default(x)) + if s[i as int].default_import is Some { 1nat } else { 0nat });
        if imp.type_only {
            type_only = type_only + 1;
        }
        if imp.namespace_import.is_some() {
            namespace = namespace + 1;
        }
        if imp.default_import.is_some() {
            default = default + 1;
        }
        i = i + 1;
    }
    assert(s.take(s.len() as int) =~= s);
    proof {
        vv(&seen).unique_seq_to_set();
    }
    ImportStats {
        total_imports: imports.len(),
        unique_modules: seen.len(),
        type_only_imports: type_only,
        namespace_imports: namespace,
        default_imports: default,
    }
}


/// The name of an LSP `SymbolKind` number, as the dead-code report gives it.
pub open spec fn symbol_kind_label(kind: u64) -> Seq<char> {
    if kind == 1 { "File"@ }
    else if kind == 2 { "Module"@ }
    else if kind == 3 { "Namespace"@ }
    else if kind == 4 { "Package"@ }
    else if kind == 5 { "Class"@ }
    else if kind == 6 { "Method"@ }
    else if kind == 7 { "Property"@ }
    else if kind == 8 { "Field"@ }
    else if kind == 9 { "Constructor"@ }
    else if kind == 10 { "Enum"@ }
    else if kind == 11 { "Interface"@ }
    else if kind == 12 { "Function"@ }
    else if kind == 13 { "Variable"@ }
    else if kind == 14 { "Constant"@ }
    else if kind == 15 { "String"@ }
    else if kind == 16 { "Number"@ }
    else if kind == 17 { "Boolean"@ }
    else if kind == 18 { "Array"@ }
    else { "Unknown"@ }
}

/// Names an LSP `SymbolKind` number; numbers outside 1 to 18 are "Unknown".
pub fn symbol_kind_name(kind: u64) -> (r: &'static str)
    ensures
        r@ == symbol_kind_label(kind),
{
    proof {
        reveal_strlit("File");
        reveal_strlit("Module");
        reveal_strlit("Namespace");
        reveal_strlit("Package");
        reveal_strlit("Class");
        reveal_strlit("Method");
        reveal_strlit("Property");
        reveal_strlit("Field");
        reveal_strlit("Constructor");
        reveal_strlit("Enum");
        reveal_strlit("Interface");
        reveal_strlit("Function");
        reveal_strlit("Variable");
        reveal_strlit("Constant");
        reveal_strlit("String");
        reveal_strlit("Number");
        reveal_strlit("Boolean");
        reveal_strlit("Array");
        reveal_strlit("Unknown");
    }
    if kind == 1 { "File" }
    else if kind == 2 { "Module" }
    else if kind == 3 { "Namespace" }
    else if kind == 4 { "Package" }
    else if kind == 5 { "Class" }
    else if kind == 6 { "Method" }
    else if kind == 7 { "Property" }
    else if kind == 8 { "Field" }
    else if kind == 9 { "Constructor" }
    else if kind == 10 { "Enum" }
    else if kind == 11 { "Interface" }
    else if kind == 12 { "Function" }
    else if kind == 13 { "Variable" }
    else if kind == 14 { "Constant" }
    else if kind == 15 { "String" }
    else if kind == 16 { "Number" }
    else if kind == 17 { "Boolean" }
    else if kind == 18 { "Array" }
    else { "Unknown" }
}

/// Classes, methods, interfaces and functions: the kinds the dead-code search
/// looks up references for.
pub open spec fn is_checked_kind(kind: u64) -> bool {
    kind == 5 || kind == 6 || kind == 11 || kind == 12
}

/// Whether references are looked up for a symbol of this kind.
pub fn checks_references(kind: u64) -> (r: bool)
    ensures
        r == is_checked_kind(kind),
{
    kind == 5 || kind == 6 || kind == 11 || kind == 12
}

/// Why a symbol with this many references (its declaration included) counts
/// as dead: none at all, or only the declaration. More than one: not dead.
pub open spec fn dead_reason(reference_count: nat) -> Option<Seq<char>> {
    if reference_count == 0 {
        Some("No references found"@)
    } else if reference_count == 1 {
        Some("Only declaration found, no usage"@)
    } else {
        None
    }
}

/// A symbol reported as possibly dead.
#[derive(Debug, Clone)]
pub struct DeadSymbol {
    pub symbol_name: String,
    pub symbol_kind: String,
    pub file_path: String,
    pub line: u32,
    pub column: u32,
    pub reference_count: usize,
    pub reason: String,
}

/// The report for a symbol of LSP kind `kind` found with `reference_count`
/// references; `None` when it has more than one.
pub fn dead_symbol_report(
    symbol_name: &str,
    kind: u64,
    file_path: &str,
    line: u32,
    column: u32,
    reference_count: usize,
) -> (r: Option<DeadSymbol>)
    ensures
        match dead_reason(reference_count as nat) {
            Some(reason) => r matches Some(d) && d.symbol_name@ == symbol_name@
                && d.symbol_kind@ == symbol_kind_label(kind) && d.file_path@ == file_path@
                && d.line == line && d.column == column && d.reference_count == reference_count
                && d.reason@ == reason,
            None => r is None,
        },
{
    proof {
        reveal_strlit("No references found");
        reveal_strlit("Only declaration found, no usage");
    }
    if reference_count > 1 {
        return None;
    }
    let reason = if reference_count == 0 { "No references found" } else { "Only declaration found, no usage" };
    Some(DeadSymbol {
        symbol_name: symbol_name.to_string(),
        symbol_kind: symbol_kind_name(kind).to_string(),
        file_path: file_path.to_string(),
        line,
        column,
        reference_count,
        reason: reason.to_string(),
    })
}


/// The file extensions of the source files the dead-code search reads.
pub open spec fn is_source_extension(e: Seq<char>) -> bool {
    e == "ts"@ || e == "tsx"@ || e == "js"@ || e == "jsx"@ || e == "py"@ || e == "rs"@
}

/// A path whose extension is one of the source extensions.
pub open spec fn is_source_path(p: Seq<char>) -> bool {
    match path_extension_of(p) {
        Some(e) => is_source_extension(e),
        None => false,
    }
}

/// The source paths among `paths`, in order.
pub open spec fn source_paths(paths: Seq<Seq<char>>) -> Seq<Seq<char>>
    decreases paths.len(),
{
    if paths.len() == 0 {
        Seq::empty()
    } else if is_source_path(paths.last()) {
        source_paths(paths.drop_last()).push(paths.last())
    } else {
        source_paths(paths.drop_last())
    }
}

/// How many files the dead-code search reads at most.
pub const MAX_ANALYZED_FILES: usize = 10;

/// The files the dead-code search reads: the first ten source paths.
pub open spec fn analyzed_files(paths: Seq<Seq<char>>) -> Seq<Seq<char>> {
    let f = source_paths(paths);
    if f.len() <= MAX_ANALYZED_FILES { f } else { f.take(MAX_ANALYZED_FILES as int) }
}

proof fn lemma_source_paths_prefix(paths: Seq<Seq<char>>, j: int, k: int)
    requires
        0 <= j <= k <= paths.len(),
    ensures
        source_paths(paths.take(k)).len() >= source_paths(paths.take(j)).len(),
        source_paths(paths.take(k)).take(source_paths(paths.take(j)).len() as int) == source_paths(paths.take(j)),
    decreases k - j,
{
    if j < k {
        lemma_source_paths_prefix(paths, j, k - 1);
        let a = source_paths(paths.take(j));
        let b = source_paths(paths.take(k - 1));
        assert(paths.take(k).drop_last() =~= paths.take(k - 1));
        let c = source_paths(paths.take(k));
        assert(c.take(a.len() as int) =~= a) by {
            assert(b.take(a.len() as int) =~= a);
            if c != b {
                assert(c == b.push(paths.take(k).last()));
            }
        }
    } else {
        assert(source_paths(paths.take(k)).take(source_paths(paths.take(j)).len() as int) =~= source_paths(paths.take(j)));
    }
}

/// Whether a path names a source file the dead-code search reads.
pub fn is_source_file(path: &str) -> (r: bool)
    ensures
        r == is_source_path(path@),
{
    match path_extension(path) {
        Some(e) => {
            let c = str_chars(e.as_str());
            chars_eq_str(&c, "ts") || chars_eq_str(&c, "tsx") || chars_eq_str(&c, "js")
                || chars_eq_str(&c, "jsx") || chars_eq_str(&c, "py") || chars_eq_str(&c, "rs")
        },
        None => false,
    }
}

/// The files the dead-code search reads, out of the files found under the
/// workspace in walking order: the first ten whose extension is a source
/// extension.
pub fn select_analyzed_files(paths: &Vec<String>) -> (r: Vec<String>)
    ensures
        r@.map_values(|s: String| s@) == analyzed_files(paths@.map_values(|s: String| s@)),
{
    let ghost ps = paths@.map_values(|s: String| s@);
    let mut out: Vec<String> = Vec::new();
    let mut i: usize = 0;
    while i < paths.len() && out.len() < MAX_ANALYZED_FILES
        invariant
            ps == paths@.map_values(|s: String| s@),
            i <= paths@.len(),
            out@.len() <= MAX_ANALYZED_FILES,
            out@.map_values(|s: String| s@) == source_paths(ps.take(i as int)),
        decreases paths@.len() - i,
    {
        let ghost before = ps.take(i as int);
        assert(ps.take(i + 1).drop_last() =~= before);
        assert(ps.take(i + 1).last() == paths@[i as int]@);
        if is_source_file(paths[i].as_str()) {
            let ghost old_out = out@.map_values(|s: String| s@);
            out.push(paths[i].clone());
            assert(out@.map_values(|s: String| s@) =~= old_out.push(paths@[i as int]@));
        }
        i = i + 1;
    }
    proof {
        let f = source_paths(ps);
        assert(ps.take(ps.len() as int) =~= ps);
        lemma_source_paths_prefix(ps, i as int, ps.len() as int);
        if i < ps.len() {
            assert(out@.len() == MAX_ANALYZED_FILES);
        }
        if f.len() <= MAX_ANALYZED_FILES {
            assert(source_paths(ps.take(i as int)) =~= f);
        }
    }
    out
}


/// No count of the import statistics exceeds the number of imports.
pub proof fn law_import_stats_bounded(imports: Seq<ImportInfo>)
    ensures
        import_modules(imports).to_set().len() <= imports.len(),
        count_imports(imports, |x: ImportInfo| is_type_only(x)) <= imports.len(),
        count_imports(imports, |x: ImportInfo| has_namespace(x)) <= imports.len(),
        count_imports(imports, |x: ImportInfo| has_default(x)) <= imports.len(),
{
    import_modules(imports).lemma_cardinality_of_set();
    lemma_count_bound(imports, |x: ImportInfo| is_type_only(x));
    lemma_count_bound(imports, |x: ImportInfo| has_namespace(x));
    lemma_count_bound(imports, |x: ImportInfo| has_default(x));
}

/// The id of the references request for the `symbol_index`-th symbol seen
/// while reading the `file_index`-th file.
pub fn references_request_id(file_index: usize, symbol_index: usize) -> (r: i64)
    requires
        file_index * 1000 + symbol_index <= i64::MAX,
    ensures
        r == file_index * 1000 + symbol_index,
{
    (file_index as i64) * 1000 + (symbol_index as i64)
}

} // verus!
