//! Java plugin: import statements and the external packages they pull in.

use vstd::prelude::*;
use crate::imports::{ImportType, NamedImport, SourceLocation, ImportInfo, ImportGraph, ImportGraphMetadata, line_start};
use crate::edit::now_timestamp;
use crate::errors::PluginError;
use crate::text::{
    str_chars, chars_to_string, split_lines, vv, lines_of, trim, trim_chars, has_prefix, has_suffix,
    starts_with_str, ends_with_str, slice_chars, split_by, split_on, lemma_split_by_nonempty,
    last_index_of, rfind_char, chars_eq, append_chars,
};

verus! {

/// The package declared by a trimmed line `package name;`.
pub open spec fn package_of_line(t: Seq<char>) -> Option<Seq<char>> {
    if t.len() >= 8 && has_prefix(t, "package "@) {
        let p = t.subrange(8, t.len() as int);
        if p.len() >= 1 && p.last() == ';' {
            Some(trim(p.drop_last()))
        } else {
            None
        }
    } else {
        None
    }
}

/// The first package declaration among lines `i..`, or the empty name.
pub open spec fn package_from(lines: Seq<Seq<char>>, i: int) -> Seq<char>
    decreases lines.len() - i,
{
    if i < 0 || i >= lines.len() {
        Seq::empty()
    } else {
        match package_of_line(trim(lines[i])) {
            Some(p) => p,
            None => package_from(lines, i + 1),
        }
    }
}

/// The package a Java file declares, or the empty name.
pub open spec fn package_name(content: Seq<char>) -> Seq<char> {
    package_from(lines_of(content), 0)
}

fn package_of_trimmed(t: &Vec<char>) -> (r: Option<Vec<char>>)
    ensures
        match r {
            Some(p) => package_of_line(t@) == Some(p@),
            None => package_of_line(t@) is None,
        },
{
    if t.len() >= 8 && starts_with_str(t, "package ") {
        let p = slice_chars(t, 8, t.len());
        if p.len() >= 1 && p[p.len() - 1] == ';' {
            let body = slice_chars(&p, 0, p.len() - 1);
            assert(body@ =~= p@.drop_last());
            return Some(trim_chars(&body));
        }
    }
    None
}

/// Finds the package a Java file declares (`package a.b;`), or the empty name.
pub fn extract_package_name(content: &str) -> (r: String)
    ensures
        r@ == package_name(content@),
{
    let src = str_chars(content);
    let lines = split_lines(&src);
    let ghost ls = vv(&lines);
    let mut i: usize = 0;
    while i < lines.len()
        invariant
            i <= lines@.len(),
            ls == vv(&lines),
            ls == lines_of(content@),
            package_from(ls, 0) == package_from(ls, i as int),
        decreases lines@.len() - i,
    {
        assert(lines@[i as int]@ == ls[i as int]);
        let t = trim_chars(&lines[i]);
        match package_of_trimmed(&t) {
            Some(p) => {
                return chars_to_string(&p);
            },
            None => {},
        }
        i = i + 1;
    }
    String::new()
}

/// The import path lies in `package` or one of its subpackages: it starts
/// with the package's name, followed by a `.` or by nothing.
pub open spec fn in_package(import_path: Seq<char>, package: Seq<char>) -> bool {
    &&& package.len() > 0
    &&& has_prefix(import_path, package)
    &&& (import_path.len() == package.len() || import_path[package.len() as int] == '.')
}

/// Standard-library imports and imports from the file's own package (or its
/// subpackages) are not external; everything else is.
pub open spec fn external_import(import_path: Seq<char>, current_package: Seq<char>) -> bool {
    !(has_prefix(import_path, "java."@) || has_prefix(import_path, "javax."@))
        && !in_package(import_path, current_package)
}

/// Decides whether an import pulls in an external dependency.
pub fn is_external_import(import_path: &str, current_package: &str) -> (r: bool)
    ensures
        r == external_import(import_path@, current_package@),
{
    let p = str_chars(import_path);
    if starts_with_str(&p, "java.") || starts_with_str(&p, "javax.") {
        return false;
    }
    let c = str_chars(current_package);
    if c.len() > 0 && crate::text::starts_with(&p, &c) && (p.len() == c.len() || p[c.len()] == '.') {
        return false;
    }
    true
}

/// The first two dot-separated parts of an import path, joined by a dot.
pub open spec fn top_level_package(import_path: Seq<char>) -> Option<Seq<char>> {
    let parts = split_by(import_path, '.');
    if parts.len() >= 2 {
        Some(parts[0] + "."@ + parts[1])
    } else {
        None
    }
}

/// The top-level package of an import path (`org.junit` for
/// `org.junit.jupiter.api.Test`), if it has two parts.
pub fn extract_top_level_package(import_path: &str) -> (r: Option<String>)
    ensures
        match r {
            Some(s) => top_level_package(import_path@) == Some(s@),
            None => top_level_package(import_path@) is None,
        },
{
    let p = str_chars(import_path);
    let parts = split_on(&p, '.');
    if parts.len() >= 2 {
        assert(parts@[0]@ == vv(&parts)[0]);
        assert(parts@[1]@ == vv(&parts)[1]);
        let mut out = slice_chars(&parts[0], 0, parts[0].len());
        out.push('.');
        append_chars(&mut out, &parts[1]);
        proof {
            reveal_strlit(".");
        }
        assert(out@ =~= parts@[0]@ + "."@ + parts@[1]@);
        Some(chars_to_string(&out))
    } else {
        None
    }
}

/// What one import statement declares.
pub struct JavaImport {
    /// The imported path without a trailing `.*`.
    pub path: Seq<char>,
    /// The part after the last dot, if there is a dot.
    pub class_name: Option<Seq<char>>,
    /// The import ends in `.*`.
    pub wildcard: bool,
}

/// `import [static] path;` parsed from a line, if it is one.
pub open spec fn java_import_of(line: Seq<char>) -> Option<JavaImport> {
    let t = trim(line);
    if !(t.len() >= 7 && has_prefix(t, "import "@)) {
        None
    } else {
        let a = trim(t.subrange(7, t.len() as int));
        let b = if a.len() >= 7 && has_prefix(a, "static "@) { trim(a.subrange(7, a.len() as int)) } else { trim(a) };
        if !(b.len() >= 1 && b.last() == ';') {
            None
        } else {
            let path = trim(b.drop_last());
            let wildcard = path.len() >= 2 && has_suffix(path, ".*"@);
            let clean = if wildcard { path.subrange(0, path.len() - 2) } else { path };
            Some(JavaImport {
                path: clean,
                class_name: match last_index_of(clean, '.') {
                    Some(d) => Some(clean.subrange(d + 1, clean.len() as int)),
                    None => None,
                },
                wildcard,
            })
        }
    }
}

/// `info` reports import `m` found on line `line`.
pub open spec fn import_reported(info: ImportInfo, m: JavaImport, line: int) -> bool {
    &&& info.module@ == m.path
    &&& info.import_type == ImportType::Namespace
    &&& (if m.wildcard || m.class_name is None {
        info.named_imports@.len() == 0
    } else {
        &&& info.named_imports@.len() == 1
        &&& info.named_imports@[0].name@ == m.class_name.unwrap()
        &&& info.named_imports@[0].alias is None
        &&& !info.named_imports@[0].type_only
    })
    &&& info.default_import is None
    &&& (if m.wildcard { info.namespace_import matches Some(n) && n@ == m.path } else { info.namespace_import is None })
    &&& !info.type_only
    &&& info.location == line_start(line)
}

fn str_of(t: &Vec<char>) -> (s: String)
    ensures
        s@ == t@,
{
    chars_to_string(t)
}

/// Parses one `import` statement; the flag tells whether it is external.
pub fn parse_import_statement(line: &str, line_number: u32, current_package: &str) -> (r: Option<(ImportInfo, bool)>)
    ensures
        match java_import_of(line@) {
            None => r is None,
            Some(m) => r matches Some((info, ext)) && import_reported(info, m, line_number as int)
                && ext == external_import(m.path, current_package@),
        },
{
    let raw = str_chars(line);
    let t = trim_chars(&raw);
    if !(t.len() >= 7 && starts_with_str(&t, "import ")) {
        return None;
    }
    let a0 = slice_chars(&t, 7, t.len());
    let a = trim_chars(&a0);
    let b: Vec<char> = if a.len() >= 7 && starts_with_str(&a, "static ") {
        let s = slice_chars(&a, 7, a.len());
        trim_chars(&s)
    } else {
        trim_chars(&a)
    };
    if !(b.len() >= 1 && b[b.len() - 1] == ';') {
        return None;
    }
    let b0 = slice_chars(&b, 0, b.len() - 1);
    assert(b0@ =~= b@.drop_last());
    let path = trim_chars(&b0);
    let wildcard = path.len() >= 2 && ends_with_str(&path, ".*");
    let clean: Vec<char> = if wildcard { slice_chars(&path, 0, path.len() - 2) } else { slice_chars(&path, 0, path.len()) };
    assert(!wildcard ==> clean@ =~= path@);
    let class_name: Option<Vec<char>> = match rfind_char(&clean, '.') {
        Some(d) => Some(slice_chars(&clean, d + 1, clean.len())),
        None => None,
    };
    let clean_str = str_of(&clean);
    let is_external = is_external_import(clean_str.as_str(), current_package);
    let mut named: Vec<NamedImport> = Vec::new();
    if !wildcard {
        match class_name {
            Some(c) => {
                named.push(NamedImport { name: str_of(&c), alias: None, type_only: false });
            },
            None => {},
        }
    }
    let namespace_import: Option<String> = if wildcard { Some(str_of(&clean)) } else { None };
    Some((
        ImportInfo {
            module: clean_str,
            import_type: ImportType::Namespace,
            named_imports: named,
            default_import: None,
            namespace_import,
            type_only: false,
            location: SourceLocation { start_line: line_number, start_column: 0, end_line: line_number, end_column: 0 },
        },
        is_external,
    ))
}

/// A trimmed line that the import scan looks at: not a comment, starts with `import `.
pub open spec fn import_candidate(t: Seq<char>) -> bool {
    !has_prefix(t, "//"@) && !has_prefix(t, "/*"@) && has_prefix(t, "import "@)
}

/// The imports and external packages found in the first `n` lines.
pub open spec fn scan_imports(lines: Seq<Seq<char>>, pkg: Seq<char>, n: int) -> (Seq<(JavaImport, int)>, Seq<Seq<char>>)
    decreases n,
{
    if n <= 0 {
        (Seq::empty(), Seq::empty())
    } else {
        let (imps, deps) = scan_imports(lines, pkg, n - 1);
        let t = trim(lines[n - 1]);
        if !import_candidate(t) {
            (imps, deps)
        } else {
            match java_import_of(t) {
                None => (imps, deps),
                Some(m) => {
                    let ln = ((n - 1) as u32) as int;
                    let deps2 = if external_import(m.path, pkg) {
                        match top_level_package(m.path) {
                            Some(tp) => if deps.contains(tp) { deps } else { deps.push(tp) },
                            None => deps,
                        }
                    } else {
                        deps
                    };
                    (imps.push((m, ln)), deps2)
                },
            }
        }
    }
}

/// Parses every `import` line of a Java file (comments skipped) and collects
/// the distinct top-level packages of the external ones, in order of first use.
pub fn parse_imports(content: &str) -> (r: Result<(Vec<ImportInfo>, Vec<String>), String>)
    ensures
        r matches Ok((imports, deps)) && {
            let lines = lines_of(content@);
            let (imps, ds) = scan_imports(lines, package_name(content@), lines.len() as int);
            &&& imports@.len() == imps.len()
            &&& forall|k: int| 0 <= k < imps.len() ==> import_reported(#[trigger] imports@[k], imps[k].0, imps[k].1)
            &&& deps@.map_values(|s: String| s@) == ds
        },
{
    let pkg = extract_package_name(content);
    let src = str_chars(content);
    let lines = split_lines(&src);
    let ghost ls = vv(&lines);
    let mut imports: Vec<ImportInfo> = Vec::new();
    let mut deps: Vec<String> = Vec::new();
    let mut i: usize = 0;
    while i < lines.len()
        invariant
            i <= lines@.len(),
            ls == vv(&lines),
            ls == lines_of(content@),
            pkg@ == package_name(content@),
            imports@.len() == scan_imports(ls, pkg@, i as int).0.len(),
            forall|k: int| 0 <= k < imports@.len() ==> import_reported(#[trigger] imports@[k],
                scan_imports(ls, pkg@, i as int).0[k].0, scan_imports(ls, pkg@, i as int).0[k].1),
            deps@.map_values(|s: String| s@) == scan_imports(ls, pkg@, i as int).1,
        decreases lines@.len() - i,
    {
        assert(lines@[i as int]@ == ls[i as int]);
        let t = trim_chars(&lines[i]);
        let ghost before = scan_imports(ls, pkg@, i as int);
        if !starts_with_str(&t, "//") && !starts_with_str(&t, "/*") && starts_with_str(&t, "import ") {
            let ts = chars_to_string(&t);
            assert(trim(t@) == t@) by {
                crate::text::lemma_trim_idempotent(ls[i as int]);
            }
            match parse_import_statement(ts.as_str(), i as u32, pkg.as_str()) {
                Some((info, ext)) => {
                    if ext {
                        match extract_top_level_package(info.module.as_str()) {
                            Some(tp) => {
                                let mut found = false;
                                let mut j: usize = 0;
                                while j < deps.len()
                                    invariant
                                        j <= deps@.len(),
                                        found <==> exists|q: int| 0 <= q < j && deps@[q]@ == tp@,
                                    decreases deps@.len() - j,
                                {
                                    let a = str_chars(deps[j].as_str());
                                    let b = str_chars(tp.as_str());
                                    if chars_eq(&a, &b) {
                                        found = true;
                                    }
                                    j = j + 1;
                                }
                                let ghost dv = deps@.map_values(|s: String| s@);
                                assert(found <==> dv.contains(tp@)) by {
                                    if found {
                                        let q = choose|q: int| 0 <= q < deps@.len() && deps@[q]@ == tp@;
                                        assert(dv[q] == tp@);
                                    }
                                    if dv.contains(tp@) {
                                        let q = choose|q: int| 0 <= q < dv.len() && dv[q] == tp@;
                                        assert(deps@[q]@ == tp@);
                                    }
                                }
                                if !found {
                                    deps.push(tp);
                                    assert(deps@.map_values(|s: String| s@) =~= dv.push(tp@));
                                }
                            },
                            None => {},
                        }
                    }
                    imports.push(info);
                },
                None => {},
            }
        }
        i = i + 1;
    }
    Ok((imports, deps))
}

/// Import analysis of Java files.
#[derive(Debug, Clone, Copy, Default)]
pub struct JavaImportAnalyzer;

impl JavaImportAnalyzer {
    /// The import graph of a Java file with the given content: its imports and
    /// the external packages they use.
    pub fn build_import_graph_from(&self, file_path: &str, content: &str) -> (r: Result<ImportGraph, PluginError>)
        ensures
            r matches Ok(g) && {
                let lines = lines_of(content@);
                let (imps, ds) = scan_imports(lines, package_name(content@), lines.len() as int);
                &&& g.source_file@ == file_path@
                &&& g.imports@.len() == imps.len()
                &&& forall|k: int| 0 <= k < imps.len() ==> import_reported(#[trigger] g.imports@[k], imps[k].0, imps[k].1)
                &&& g.importers@.len() == 0
                &&& g.metadata.language@ == "java"@
                &&& g.metadata.parser_version@ == "1.0.0"@
                &&& g.metadata.circular_dependencies@.len() == 0
                &&& g.metadata.external_dependencies@.map_values(|s: String| s@) == ds
            },
    {
        let (imports, deps) = match parse_imports(content) {
            Ok(x) => x,
            Err(e) => {
                return Err(PluginError::Internal(e));
            },
        };
        Ok(ImportGraph {
            source_file: chars_to_string(&str_chars(file_path)),
            imports,
            importers: Vec::new(),
            metadata: ImportGraphMetadata {
                language: chars_to_string(&str_chars("java")),
                parsed_at: now_timestamp(),
                parser_version: chars_to_string(&str_chars("1.0.0")),
                circular_dependencies: Vec::new(),
                external_dependencies: deps,
            },
        })
    }
}


/// The external packages of a Java file are listed once each, and each is the
/// top-level package of an external import of the file.
pub proof fn law_external_packages(lines: Seq<Seq<char>>, pkg: Seq<char>, n: int)
    ensures
        scan_imports(lines, pkg, n).1.no_duplicates(),
        forall|d: Seq<char>| #[trigger] scan_imports(lines, pkg, n).1.contains(d) ==> exists|k: int|
            0 <= k < scan_imports(lines, pkg, n).0.len() && external_import(#[trigger] scan_imports(lines, pkg, n).0[k].0.path, pkg)
                && top_level_package(scan_imports(lines, pkg, n).0[k].0.path) == Some(d),
    decreases n,
{
    if n > 0 {
        law_external_packages(lines, pkg, n - 1);
        let (imps, deps) = scan_imports(lines, pkg, n - 1);
        let (imps2, deps2) = scan_imports(lines, pkg, n);
        let t = trim(lines[n - 1]);
        if import_candidate(t) {
            match java_import_of(t) {
                None => {},
                Some(m) => {
                    assert(imps2 == imps.push((m, ((n - 1) as u32) as int)));
                    assert forall|d: Seq<char>| #[trigger] deps2.contains(d) implies exists|k: int|
                        0 <= k < imps2.len() && external_import(#[trigger] imps2[k].0.path, pkg)
                            && top_level_package(imps2[k].0.path) == Some(d) by {
                        if deps.contains(d) {
                            let k = choose|k: int| 0 <= k < imps.len() && external_import(#[trigger] imps[k].0.path, pkg)
                                && top_level_package(imps[k].0.path) == Some(d);
                            assert(imps2[k] == imps[k]);
                            assert(external_import(imps2[k].0.path, pkg));
                            assert(top_level_package(imps2[k].0.path) == Some(d));
                        } else {
                            let k = imps.len() as int;
                            assert(imps2[k] == (m, ((n - 1) as u32) as int));
                            assert(external_import(m.path, pkg));
                            assert(top_level_package(m.path) == Some(d));
                            assert(external_import(imps2[k].0.path, pkg));
                            assert(top_level_package(imps2[k].0.path) == Some(d));
                        }
                    }
                    if external_import(m.path, pkg) {
                        match top_level_package(m.path) {
                            Some(tp) => {
                                if !deps.contains(tp) {
                                    assert forall|i: int, j: int| 0 <= i < j < deps2.len() implies deps2[i] != deps2[j] by {
                                        if j == deps.len() {
                                            assert(deps2[j] == tp);
                                            assert(deps2[i] == deps[i]);
                                        } else {
                                            assert(deps2[i] == deps[i]);
                                            assert(deps2[j] == deps[j]);
                                        }
                                    }
                                }
                            },
                            None => {},
                        }
                    }
                },
            }
        }
    }
}

} // verus!
