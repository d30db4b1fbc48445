//! Extraction of a module into a package of its own: the per-language
//! adapters and the plan of the extraction.

use vstd::prelude::*;
use crate::edit::{ArgValue, EditPlan, EditPlanMetadata, ValidationRule, ValidationType, now_timestamp};
use crate::paths::{join_relative, join_relative_path, path_exists, path_is_file};
use crate::text::{str_chars, chars_to_string, append_str, append_chars, vv};

verus! {

fn owned(t: &str) -> (s: String)
    ensures
        s@ == t@,
{
    chars_to_string(&str_chars(t))
}

/// Error of a syntax-tree operation.
#[derive(Debug, Clone)]
pub enum AstError {
    /// The analysis of the code failed.
    Analysis { message: String },
    /// The code uses something not supported.
    UnsupportedSyntax { feature: String },
    /// The code could not be parsed.
    Parse { message: String },
}

/// The parameters of an extraction.
#[derive(Debug, Clone)]
pub struct ExtractModuleToPackageParams {
    pub source_package: String,
    pub module: String,
    pub target_package_path: String,
    pub target_package_name: String,
    pub update_imports: Option<bool>,
    pub create_manifest: Option<bool>,
    pub dry_run: Option<bool>,
}

/// The language of a project.
#[derive(Debug, Clone, Copy, PartialEq, Eq, Structural)]
pub enum ProjectLanguage {
    Rust,
    TypeScript,
    Python,
    Go,
    Java,
    Unknown,
}

/// The name of a language.
pub open spec fn language_name(l: ProjectLanguage) -> Seq<char> {
    match l {
        ProjectLanguage::Rust => "rust"@,
        ProjectLanguage::TypeScript => "typescript"@,
        ProjectLanguage::Python => "python"@,
        ProjectLanguage::Go => "go"@,
        ProjectLanguage::Java => "java"@,
        ProjectLanguage::Unknown => "unknown"@,
    }
}

impl ProjectLanguage {
    /// The language's name.
    pub fn as_str(&self) -> (r: &'static str)
        ensures
            r@ == language_name(*self),
    {
        match self {
            ProjectLanguage::Rust => "rust",
            ProjectLanguage::TypeScript => "typescript",
            ProjectLanguage::Python => "python",
            ProjectLanguage::Go => "go",
            ProjectLanguage::Java => "java",
            ProjectLanguage::Unknown => "unknown",
        }
    }
}

/// What a language adapter knows of its language's package layout.
pub trait LanguageAdapter {
    /// The language.
    fn language(&self) -> ProjectLanguage;
    /// The package manifest's file name.
    fn manifest_filename(&self) -> &'static str;
    /// The source directory inside a package.
    fn source_dir(&self) -> &'static str;
    /// The package's entry-point file.
    fn entry_point(&self) -> &'static str;
    /// The module path separator.
    fn module_separator(&self) -> &'static str;
}

/// Adapter for Rust crates.
#[derive(Debug, Clone, Copy, Default)]
pub struct RustAdapter;

/// Adapter for TypeScript/JavaScript packages.
#[derive(Debug, Clone, Copy, Default)]
pub struct TypeScriptAdapter;

/// Adapter for Python packages.
#[derive(Debug, Clone, Copy, Default)]
pub struct PythonAdapter;

impl LanguageAdapter for RustAdapter {
    fn language(&self) -> (r: ProjectLanguage)
        ensures
            r == ProjectLanguage::Rust,
    {
        ProjectLanguage::Rust
    }

    fn manifest_filename(&self) -> (r: &'static str)
        ensures
            r@ == "Cargo.toml"@,
    {
        "Cargo.toml"
    }

    fn source_dir(&self) -> (r: &'static str)
        ensures
            r@ == "src"@,
    {
        "src"
    }

    fn entry_point(&self) -> (r: &'static str)
        ensures
            r@ == "lib.rs"@,
    {
        "lib.rs"
    }

    fn module_separator(&self) -> (r: &'static str)
        ensures
            r@ == "::"@,
    {
        "::"
    }
}

impl LanguageAdapter for TypeScriptAdapter {
    fn language(&self) -> (r: ProjectLanguage)
        ensures
            r == ProjectLanguage::TypeScript,
    {
        ProjectLanguage::TypeScript
    }

    fn manifest_filename(&self) -> (r: &'static str)
        ensures
            r@ == "package.json"@,
    {
        "package.json"
    }

    fn source_dir(&self) -> (r: &'static str)
        ensures
            r@ == "src"@,
    {
        "src"
    }

    fn entry_point(&self) -> (r: &'static str)
        ensures
            r@ == "index.ts"@,
    {
        "index.ts"
    }

    fn module_separator(&self) -> (r: &'static str)
        ensures
            r@ == "."@,
    {
        "."
    }
}

impl LanguageAdapter for PythonAdapter {
    fn language(&self) -> (r: ProjectLanguage)
        ensures
            r == ProjectLanguage::Python,
    {
        ProjectLanguage::Python
    }

    fn manifest_filename(&self) -> (r: &'static str)
        ensures
            r@ == "pyproject.toml"@,
    {
        "pyproject.toml"
    }

    fn source_dir(&self) -> (r: &'static str)
        ensures
            r@ == ""@,
    {
        ""
    }

    fn entry_point(&self) -> (r: &'static str)
        ensures
            r@ == "__init__.py"@,
    {
        "__init__.py"
    }

    fn module_separator(&self) -> (r: &'static str)
        ensures
            r@ == "."@,
    {
        "."
    }
}

/// A character that separates module path segments (`::` or `.`).
pub open spec fn segment_sep(c: char) -> bool {
    c == ':' || c == '.'
}

/// The segments read so far and the one being read.
pub open spec fn segments_state(s: Seq<char>) -> (Seq<Seq<char>>, Seq<char>)
    decreases s.len(),
{
    if s.len() == 0 {
        (Seq::empty(), Seq::empty())
    } else {
        let (ws, cur) = segments_state(s.drop_last());
        if segment_sep(s.last()) {
            if cur.len() > 0 { (ws.push(cur), Seq::empty()) } else { (ws, Seq::empty()) }
        } else {
            (ws, cur.push(s.last()))
        }
    }
}

/// The non-empty segments of a module path split at `:` and `.`.
pub open spec fn module_segments(s: Seq<char>) -> Seq<Seq<char>> {
    let (ws, cur) = segments_state(s);
    if cur.len() > 0 { ws.push(cur) } else { ws }
}

fn split_module(s: &Vec<char>) -> (r: Vec<Vec<char>>)
    ensures
        vv(&r) == module_segments(s@),
{
    let mut ws: Vec<Vec<char>> = Vec::new();
    let mut cur: Vec<char> = Vec::new();
    let mut i: usize = 0;
    while i < s.len()
        invariant
            i <= s@.len(),
            (vv(&ws), cur@) == segments_state(s@.subrange(0, i as int)),
        decreases s@.len() - i,
    {
        assert(s@.subrange(0, i + 1).drop_last() =~= s@.subrange(0, i as int));
        let c = s[i];
        if c == ':' || c == '.' {
            if cur.len() > 0 {
                let ghost old_ws = vv(&ws);
                let w = cur;
                ws.push(w);
                cur = Vec::new();
                assert(vv(&ws) =~= old_ws.push(w@));
            } else {
                cur = Vec::new();
            }
        } else {
            cur.push(c);
        }
        i = i + 1;
    }
    assert(s@.subrange(0, s@.len() as int) =~= s@);
    if cur.len() > 0 {
        let ghost old_ws = vv(&ws);
        ws.push(cur);
        assert(vv(&ws) =~= old_ws.push(cur@));
    }
    ws
}

/// `base` joined with each of `parts` in turn.
pub open spec fn join_all(base: Seq<char>, parts: Seq<Seq<char>>) -> Seq<char>
    decreases parts.len(),
{
    if parts.len() == 0 { base } else { join_relative(join_all(base, parts.drop_last()), parts.last()) }
}

/// Where a module's files may be, given the package path and module path: the
/// source root, the directory of the last segment, the last segment, and the
/// two candidate files (`<last>.rs`, `<last>/mod.rs`); `None` when the module
/// path has no segment.
pub open spec fn module_places(package_path: Seq<char>, module: Seq<char>)
    -> Option<(Seq<char>, Seq<char>, Seq<char>, Seq<char>, Seq<char>)>
{
    let segs = module_segments(module);
    if segs.len() == 0 {
        None
    } else {
        let root = join_relative(package_path, "src"@);
        let dir = join_all(root, segs.drop_last());
        let last = segs.last();
        Some((root, dir, last, join_relative(dir, last + ".rs"@), join_relative(join_relative(dir, last), "mod.rs"@)))
    }
}

/// The files of a module that the file system showed to exist, or why none.
pub open spec fn located_files(
    package_path: Seq<char>,
    module: Seq<char>,
    root_exists: bool,
    rs_is_file: bool,
    mod_is_file: bool,
) -> Result<Seq<Seq<char>>, Seq<char>> {
    if !root_exists {
        Err("Source directory not found: "@ + join_relative(package_path, "src"@))
    } else {
        match module_places(package_path, module) {
            None => Err("Module path cannot be empty"@),
            Some((root, dir, last, rs, md)) => {
                let found = (if rs_is_file { seq![rs] } else { Seq::empty() })
                    + (if mod_is_file { seq![md] } else { Seq::empty() });
                if found.len() == 0 {
                    Err("Module '"@ + module + "' not found at "@ + dir + " (checked both "@ + last + ".rs and "@
                        + last + "/mod.rs)"@)
                } else {
                    Ok(found)
                }
            },
        }
    }
}

/// `r` reports the located files (or why there are none) for what the file
/// system showed.
pub open spec fn reports_located(
    r: Result<Vec<String>, AstError>,
    package_path: Seq<char>,
    module: Seq<char>,
    root_exists: bool,
    rs_is_file: bool,
    mod_is_file: bool,
) -> bool {
    match located_files(package_path, module, root_exists, rs_is_file, mod_is_file) {
        Ok(files) => r matches Ok(v) && string_views(v@) == files,
        Err(m) => r matches Err(AstError::Analysis { message }) && message@ == m,
    }
}

/// The views of a vector of strings.
pub open spec fn string_views(v: Seq<String>) -> Seq<Seq<char>> {
    v.map_values(|s: String| s@)
}

impl RustAdapter {
    /// The places a module's files may be (see `module_places`).
    pub fn module_places(&self, package_path: &str, module: &str)
        -> (r: Option<(String, String, String, String, String)>)
        ensures
            match module_places(package_path@, module@) {
                None => r is None,
                Some((a, b, c, d, e)) => r matches Some((x, y, z, u, w)) && x@ == a && y@ == b && z@ == c
                    && u@ == d && w@ == e,
            },
    {
        let m = str_chars(module);
        let segs = split_module(&m);
        let ghost sv = vv(&segs);
        if segs.len() == 0 {
            return None;
        }
        let root = join_relative_path(package_path, "src");
        let n = segs.len();
        let mut dir = chars_to_string(&str_chars(root.as_str()));
        let mut i: usize = 0;
        while i + 1 < n
            invariant
                n == segs@.len(),
                n >= 1,
                i + 1 <= n,
                sv == vv(&segs),
                dir@ == join_all(root@, sv.subrange(0, i as int)),
            decreases n - i,
        {
            assert(sv.subrange(0, i + 1).drop_last() =~= sv.subrange(0, i as int));
            assert(segs@[i as int]@ == sv[i as int]);
            let seg = chars_to_string(&segs[i]);
            dir = join_relative_path(dir.as_str(), seg.as_str());
            i = i + 1;
        }
        assert(sv.subrange(0, (n - 1) as int) =~= sv.drop_last());
        assert(segs@[(n - 1) as int]@ == sv.last());
        let last = chars_to_string(&segs[n - 1]);
        let mut rs_name = str_chars(last.as_str());
        append_str(&mut rs_name, ".rs");
        let rs = join_relative_path(dir.as_str(), chars_to_string(&rs_name).as_str());
        let sub = join_relative_path(dir.as_str(), last.as_str());
        let md = join_relative_path(sub.as_str(), "mod.rs");
        Some((root, dir, last, rs, md))
    }

    /// The located files, given what the file system showed: whether the source
    /// root exists and whether each candidate file is a regular file.
    pub fn locate_with(&self, package_path: &str, module: &str, root_exists: bool, rs_is_file: bool, mod_is_file: bool)
        -> (r: Result<Vec<String>, AstError>)
        ensures
            match located_files(package_path@, module@, root_exists, rs_is_file, mod_is_file) {
                Ok(files) => r matches Ok(v) && string_views(v@) == files,
                Err(m) => r matches Err(AstError::Analysis { message }) && message@ == m,
            },
    {
        if !root_exists {
            let root = join_relative_path(package_path, "src");
            let mut v: Vec<char> = Vec::new();
            append_str(&mut v, "Source directory not found: ");
            append_str(&mut v, root.as_str());
            return Err(AstError::Analysis { message: chars_to_string(&v) });
        }
        match self.module_places(package_path, module) {
            None => Err(AstError::Analysis { message: owned("Module path cannot be empty") }),
            Some((_root, dir, last, rs, md)) => {
                let mut found: Vec<String> = Vec::new();
                if rs_is_file {
                    found.push(rs);
                }
                if mod_is_file {
                    found.push(md);
                }
                if found.len() == 0 {
                    let mut v: Vec<char> = Vec::new();
                    append_str(&mut v, "Module '");
                    append_str(&mut v, module);
                    append_str(&mut v, "' not found at ");
                    append_str(&mut v, dir.as_str());
                    append_str(&mut v, " (checked both ");
                    append_str(&mut v, last.as_str());
                    append_str(&mut v, ".rs and ");
                    append_str(&mut v, last.as_str());
                    append_str(&mut v, "/mod.rs)");
                    return Err(AstError::Analysis { message: chars_to_string(&v) });
                }
                proof {
                    reveal_strlit("");
                }
                assert(string_views(found@) =~= (if rs_is_file { seq![rs@] } else { Seq::empty() })
                    + (if mod_is_file { seq![md@] } else { Seq::empty() }));
                Ok(found)
            },
        }
    }

    /// Locates a module's files in a Rust crate: `<src>/<dirs>/<last>.rs` and
    /// `<src>/<dirs>/<last>/mod.rs`, whichever exist. The answer is that of
    /// `locate_with` for what the file system showed.
    pub fn locate_module_files(&self, package_path: &str, module: &str) -> (r: Result<Vec<String>, AstError>)
        ensures
            exists|root_exists: bool, rs_is_file: bool, mod_is_file: bool|
                #[trigger] reports_located(r, package_path@, module@, root_exists, rs_is_file, mod_is_file),
    {
        let root = join_relative_path(package_path, "src");
        let root_exists = path_exists(root.as_str());
        let (rs_ok, mod_ok) = match self.module_places(package_path, module) {
            Some((_r, _d, _l, rs, md)) => (path_exists(rs.as_str()) && path_is_file(rs.as_str()),
                path_exists(md.as_str()) && path_is_file(md.as_str())),
            None => (false, false),
        };
        let r = self.locate_with(package_path, module, root_exists, rs_ok, mod_ok);
        assert(reports_located(r, package_path@, module@, root_exists, rs_ok, mod_ok));
        r
    }
}

/// The located files a plan records.
pub open spec fn plan_files(plan: EditPlan) -> Seq<Seq<char>> {
    match plan.metadata.intent_arguments@[5].1 {
        ArgValue::TextList(v) => string_views(v@),
        _ => Seq::empty(),
    }
}

/// The plan of an extraction, given the detected language and the files the
/// adapter located.
pub open spec fn extraction_plan_matches(plan: EditPlan, params: ExtractModuleToPackageParams, lang: ProjectLanguage, files: Seq<Seq<char>>) -> bool {
    &&& plan.source_file@ == params.source_package@
    &&& plan.edits@.len() == 0
    &&& plan.validations@.len() == 1
    &&& plan.validations@[0].rule_type == ValidationType::SyntaxCheck
    &&& plan.validations@[0].description@ == "Verify syntax is valid after extraction"@
    &&& plan.metadata.intent_name@ == "extract_module_to_package"@
    &&& plan.metadata.intent_arguments@.len() == 6
    &&& plan.metadata.intent_arguments@[0].0@ == "source_package"@
    &&& plan.metadata.intent_arguments@[0].1 matches ArgValue::Text(t) && t@ == params.source_package@
    &&& plan.metadata.intent_arguments@[1].0@ == "module_path"@
    &&& plan.metadata.intent_arguments@[1].1 matches ArgValue::Text(t) && t@ == params.module@
    &&& plan.metadata.intent_arguments@[2].0@ == "target_package_path"@
    &&& plan.metadata.intent_arguments@[2].1 matches ArgValue::Text(t) && t@ == params.target_package_path@
    &&& plan.metadata.intent_arguments@[3].0@ == "target_package_name"@
    &&& plan.metadata.intent_arguments@[3].1 matches ArgValue::Text(t) && t@ == params.target_package_name@
    &&& plan.metadata.intent_arguments@[4].0@ == "adapter_selected"@
    &&& plan.metadata.intent_arguments@[4].1 matches ArgValue::Text(t) && t@ == language_name(lang)
    &&& plan.metadata.intent_arguments@[5].0@ == "located_files"@
    &&& plan.metadata.intent_arguments@[5].1 matches ArgValue::TextList(v) && string_views(v@) == files
    &&& plan.metadata.complexity == 1
    &&& plan.metadata.impact_areas@.len() == 1
    &&& plan.metadata.impact_areas@[0]@ == "package_extraction"@
}

fn copy_string(s: &String) -> (r: String)
    ensures
        r@ == s@,
{
    chars_to_string(&str_chars(s.as_str()))
}

fn copy_strings(v: &Vec<String>) -> (r: Vec<String>)
    ensures
        string_views(r@) == string_views(v@),
{
    let mut out: Vec<String> = Vec::new();
    let mut i: usize = 0;
    while i < v.len()
        invariant
            i <= v@.len(),
            string_views(out@) == string_views(v@).subrange(0, i as int),
        decreases v@.len() - i,
    {
        let ghost o = string_views(out@);
        out.push(copy_string(&v[i]));
        assert(string_views(out@) =~= o.push(v@[i as int]@));
        assert(string_views(v@).subrange(0, i + 1) =~= string_views(v@).subrange(0, i as int).push(v@[i as int]@));
        i = i + 1;
    }
    assert(string_views(v@).subrange(0, v@.len() as int) =~= string_views(v@));
    out
}

/// The plan of an extraction from the adapter's language and located files.
pub fn build_extraction_plan(params: &ExtractModuleToPackageParams, lang: ProjectLanguage, files: &Vec<String>) -> (r: EditPlan)
    ensures
        extraction_plan_matches(r, *params, lang, string_views(files@)),
{
    let mut validations: Vec<ValidationRule> = Vec::new();
    validations.push(ValidationRule {
        rule_type: ValidationType::SyntaxCheck,
        description: owned("Verify syntax is valid after extraction"),
    });
    let mut args: Vec<(String, ArgValue)> = Vec::new();
    args.push((owned("source_package"), ArgValue::Text(copy_string(&params.source_package))));
    args.push((owned("module_path"), ArgValue::Text(copy_string(&params.module))));
    args.push((owned("target_package_path"), ArgValue::Text(copy_string(&params.target_package_path))));
    args.push((owned("target_package_name"), ArgValue::Text(copy_string(&params.target_package_name))));
    args.push((owned("adapter_selected"), ArgValue::Text(owned(lang.as_str()))));
    args.push((owned("located_files"), ArgValue::TextList(copy_strings(files))));
    let mut areas: Vec<String> = Vec::new();
    areas.push(owned("package_extraction"));
    EditPlan {
        source_file: copy_string(&params.source_package),
        edits: Vec::new(),
        validations,
        metadata: EditPlanMetadata {
            intent_name: owned("extract_module_to_package"),
            intent_arguments: args,
            created_at: now_timestamp(),
            complexity: 1,
            impact_areas: areas,
        },
    }
}

/// `r` is the extraction for what the file system showed: the plan of the
/// located files, or the analysis error saying why none were found.
pub open spec fn extraction_from_located(
    r: Result<EditPlan, AstError>,
    params: ExtractModuleToPackageParams,
    root_exists: bool,
    rs_is_file: bool,
    mod_is_file: bool,
) -> bool {
    match located_files(params.source_package@, params.module@, root_exists, rs_is_file, mod_is_file) {
        Ok(files) => r matches Ok(p) && extraction_plan_matches(p, params, ProjectLanguage::Rust, files),
        Err(m) => r matches Err(AstError::Analysis { message }) && message@ == m,
    }
}

/// Plans the extraction of a module into a package for a project detected to
/// be in `detected`: Rust projects locate the module's files; Go and Java are
/// unsupported and an unknown language is an analysis error. (The TypeScript
/// and Python adapters cannot locate modules yet; those inputs are excluded.)
pub fn plan_extract_module_to_package(params: ExtractModuleToPackageParams, detected: ProjectLanguage)
    -> (r: Result<EditPlan, AstError>)
    requires
        detected != ProjectLanguage::TypeScript,
        detected != ProjectLanguage::Python,
    ensures
        detected == ProjectLanguage::Go || detected == ProjectLanguage::Java ==> (r matches Err(AstError::UnsupportedSyntax { feature })
            && feature@ == language_name(detected) + " language not yet supported for extract_module_to_package"@),
        detected == ProjectLanguage::Unknown ==> (r matches Err(AstError::Analysis { message })
            && message@ == "Could not detect project language - no manifest files found"@),
        r is Ok ==> detected == ProjectLanguage::Rust,
        r is Ok ==> extraction_plan_matches(r.unwrap(), params, detected, plan_files(r.unwrap())),
        detected == ProjectLanguage::Rust ==> exists|root_exists: bool, rs_is_file: bool, mod_is_file: bool|
            #[trigger] extraction_from_located(r, params, root_exists, rs_is_file, mod_is_file),
{
    match detected {
        ProjectLanguage::Go | ProjectLanguage::Java => {
            let mut v: Vec<char> = Vec::new();
            append_str(&mut v, detected.as_str());
            append_str(&mut v, " language not yet supported for extract_module_to_package");
            Err(AstError::UnsupportedSyntax { feature: chars_to_string(&v) })
        },
        ProjectLanguage::Unknown => Err(AstError::Analysis {
            message: owned("Could not detect project language - no manifest files found"),
        }),
        ProjectLanguage::TypeScript | ProjectLanguage::Python => {
            proof {
                assert(false);
            }
            Err(AstError::Analysis { message: String::new() })
        },
        ProjectLanguage::Rust => {
            let adapter = RustAdapter;
            let located = adapter.locate_module_files(params.source_package.as_str(), params.module.as_str());
            let ghost (a, b, c) = choose|a: bool, b: bool, c: bool|
                #[trigger] reports_located(located, params.source_package@, params.module@, a, b, c);
            assert(reports_located(located, params.source_package@, params.module@, a, b, c));
            let files = match located {
                Ok(f) => f,
                Err(e) => {
                    let r: Result<EditPlan, AstError> = Err(e);
                    assert(extraction_from_located(r, params, a, b, c));
                    return r;
                },
            };
            let plan = build_extraction_plan(&params, ProjectLanguage::Rust, &files);
            assert(extraction_plan_matches(plan, params, detected, string_views(files@)));
            assert(extraction_from_located(Ok(plan), params, a, b, c));
            Ok(plan)
        },
    }
}


proof fn lemma_segments_state(s: Seq<char>)
    ensures
        forall|i: int| 0 <= i < segments_state(s).0.len() ==> #[trigger] segments_state(s).0[i].len() > 0,
        forall|i: int, j: int| 0 <= i < segments_state(s).0.len() && 0 <= j < segments_state(s).0[i].len()
            ==> !segment_sep(#[trigger] segments_state(s).0[i][j]),
        forall|j: int| 0 <= j < segments_state(s).1.len() ==> !segment_sep(#[trigger] segments_state(s).1[j]),
    decreases s.len(),
{
    if s.len() > 0 {
        lemma_segments_state(s.drop_last());
        let (ws, cur) = segments_state(s.drop_last());
        if !segment_sep(s.last()) {
            let c2 = cur.push(s.last());
            assert forall|j: int| 0 <= j < c2.len() implies !segment_sep(#[trigger] c2[j]) by {
                if j < cur.len() {
                    assert(c2[j] == cur[j]);
                }
            }
        } else if cur.len() > 0 {
            let w2 = ws.push(cur);
            assert forall|i: int| 0 <= i < w2.len() implies #[trigger] w2[i].len() > 0 by {
                if i < ws.len() {
                    assert(w2[i] == ws[i]);
                }
            }
            assert forall|i: int, j: int| 0 <= i < w2.len() && 0 <= j < w2[i].len() implies !segment_sep(#[trigger] w2[i][j]) by {
                if i < ws.len() {
                    assert(w2[i] == ws[i]);
                }
            }
        }
    }
}

/// The segments of a module path are non-empty and hold no `:` or `.`.
pub proof fn law_module_segments_clean(s: Seq<char>)
    ensures
        forall|i: int| 0 <= i < module_segments(s).len() ==> #[trigger] module_segments(s)[i].len() > 0,
        forall|i: int, j: int| 0 <= i < module_segments(s).len() && 0 <= j < module_segments(s)[i].len()
            ==> !segment_sep(#[trigger] module_segments(s)[i][j]),
{
    lemma_segments_state(s);
    let (ws, cur) = segments_state(s);
    if cur.len() > 0 {
        let w2 = ws.push(cur);
        assert forall|i: int| 0 <= i < w2.len() implies #[trigger] w2[i].len() > 0 by {
            if i < ws.len() {
                assert(w2[i] == ws[i]);
            }
        }
        assert forall|i: int, j: int| 0 <= i < w2.len() && 0 <= j < w2[i].len() implies !segment_sep(#[trigger] w2[i][j]) by {
            if i < ws.len() {
                assert(w2[i] == ws[i]);
            }
        }
    }
}

} // verus!
