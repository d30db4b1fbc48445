//! Argument handling of the editing and file tools: formatting options, how
//! the code actions of an organize-imports request are combined, the changes
//! a manifest update lists, and the answer to a file creation.

use vstd::prelude::*;
use crate::numeric::{decimal, usize_to_decimal};
use crate::text::{str_chars, chars_to_string, append_str, append_chars};
use crate::server_errors::ServerError;

verus! {

/// Formatting options as a request gives them; every field may be missing.
#[derive(Debug, Clone, Copy, PartialEq, Eq, Structural)]
pub struct FormatOptions {
    pub tab_size: Option<u32>,
    pub insert_spaces: Option<bool>,
    pub trim_trailing_whitespace: Option<bool>,
    pub insert_final_newline: Option<bool>,
    pub trim_final_newlines: Option<bool>,
}

/// The options used when a request gives none: two-space indentation with
/// spaces, trailing whitespace trimmed and exactly one final newline.
pub open spec fn default_format_options() -> FormatOptions {
    FormatOptions {
        tab_size: Some(2),
        insert_spaces: Some(true),
        trim_trailing_whitespace: Some(true),
        insert_final_newline: Some(true),
        trim_final_newlines: Some(true),
    }
}

/// What is sent to the language server: the tab size and the choice of
/// spaces always, the three trimming choices only where they were given.
#[derive(Debug, Clone, Copy, PartialEq, Eq, Structural)]
pub struct LspFormattingOptions {
    pub tab_size: u32,
    pub insert_spaces: bool,
    pub trim_trailing_whitespace: Option<bool>,
    pub insert_final_newline: Option<bool>,
    pub trim_final_newlines: Option<bool>,
}

/// The options reported back with the result, every one settled.
#[derive(Debug, Clone, Copy, PartialEq, Eq, Structural)]
pub struct ReportedFormatOptions {
    pub tab_size: u32,
    pub insert_spaces: bool,
    pub trim_trailing_whitespace: bool,
    pub insert_final_newline: bool,
    pub trim_final_newlines: bool,
}

/// `o` with `d` in place of `None`.
pub open spec fn or_default<T>(o: Option<T>, d: T) -> T {
    match o {
        Some(v) => v,
        None => d,
    }
}

fn unwrap_bool(o: Option<bool>, d: bool) -> (r: bool)
    ensures
        r == or_default(o, d),
{
    match o {
        Some(v) => v,
        None => d,
    }
}

/// Settles the formatting options of a request: the defaults when it gives
/// none; otherwise tab size 2 and spaces where they are missing, and the
/// trimming choices sent only where given but reported as `true` where not.
pub fn resolve_format_options(options: Option<FormatOptions>) -> (r: (LspFormattingOptions, ReportedFormatOptions))
    ensures
        ({
            let o = or_default(options, default_format_options());
            &&& r.0 == LspFormattingOptions {
                tab_size: or_default(o.tab_size, 2u32),
                insert_spaces: or_default(o.insert_spaces, true),
                trim_trailing_whitespace: o.trim_trailing_whitespace,
                insert_final_newline: o.insert_final_newline,
                trim_final_newlines: o.trim_final_newlines,
            }
            &&& r.1 == ReportedFormatOptions {
                tab_size: or_default(o.tab_size, 2u32),
                insert_spaces: or_default(o.insert_spaces, true),
                trim_trailing_whitespace: or_default(o.trim_trailing_whitespace, true),
                insert_final_newline: or_default(o.insert_final_newline, true),
                trim_final_newlines: or_default(o.trim_final_newlines, true),
            }
        }),
{
    let o = match options {
        Some(o) => o,
        None => FormatOptions {
            tab_size: Some(2),
            insert_spaces: Some(true),
            trim_trailing_whitespace: Some(true),
            insert_final_newline: Some(true),
            trim_final_newlines: Some(true),
        },
    };
    let tab_size: u32 = match o.tab_size {
        Some(t) => t,
        None => 2,
    };
    let insert_spaces = unwrap_bool(o.insert_spaces, true);
    (
        LspFormattingOptions {
            tab_size,
            insert_spaces,
            trim_trailing_whitespace: o.trim_trailing_whitespace,
            insert_final_newline: o.insert_final_newline,
            trim_final_newlines: o.trim_final_newlines,
        },
        ReportedFormatOptions {
            tab_size,
            insert_spaces,
            trim_trailing_whitespace: unwrap_bool(o.trim_trailing_whitespace, true),
            insert_final_newline: unwrap_bool(o.insert_final_newline, true),
            trim_final_newlines: unwrap_bool(o.trim_final_newlines, true),
        },
    )
}

/// What an organize-imports request answers, given which of the returned
/// code actions carry an edit.
#[derive(Debug, Clone, PartialEq, Eq)]
pub enum OrganizeImportsOutcome {
    /// No code action came back: nothing to organize.
    NothingToDo,
    /// Exactly one action carries an edit: it is the workspace edit.
    SingleEdit(usize),
    /// Otherwise the edits of these actions, in order, are gathered as the
    /// changes of one workspace edit.
    Combined(Vec<usize>),
}

/// The indices of the actions among the first `n` that carry an edit.
pub open spec fn edit_indices(has_edit: Seq<bool>, n: int) -> Seq<usize>
    decreases n,
{
    if n <= 0 {
        Seq::empty()
    } else if has_edit[n - 1] {
        edit_indices(has_edit, n - 1).push((n - 1) as usize)
    } else {
        edit_indices(has_edit, n - 1)
    }
}

/// Decides the answer to an organize-imports request from the code actions
/// that came back (`true` for each one that carries an edit).
pub fn organize_imports_outcome(has_edit: &Vec<bool>) -> (r: OrganizeImportsOutcome)
    ensures
        has_edit@.len() == 0 ==> r == OrganizeImportsOutcome::NothingToDo,
        has_edit@.len() > 0 && edit_indices(has_edit@, has_edit@.len() as int).len() == 1 ==>
            r == OrganizeImportsOutcome::SingleEdit(edit_indices(has_edit@, has_edit@.len() as int)[0]),
        has_edit@.len() > 0 && edit_indices(has_edit@, has_edit@.len() as int).len() != 1 ==>
            (r matches OrganizeImportsOutcome::Combined(v) && v@ == edit_indices(has_edit@, has_edit@.len() as int)),
{
    if has_edit.len() == 0 {
        return OrganizeImportsOutcome::NothingToDo;
    }
    let mut idx: Vec<usize> = Vec::new();
    let mut i: usize = 0;
    while i < has_edit.len()
        invariant
            i <= has_edit@.len(),
            idx@ == edit_indices(has_edit@, i as int),
        decreases has_edit@.len() - i,
    {
        if has_edit[i] {
            idx.push(i);
        }
        i = i + 1;
    }
    if idx.len() == 1 {
        OrganizeImportsOutcome::SingleEdit(idx[0])
    } else {
        OrganizeImportsOutcome::Combined(idx)
    }
}


/// The `file_path` argument of an editing tool; a request without it, or with
/// one that is not a string, is refused.
pub fn required_file_path(file_path: Option<&str>) -> (r: Result<String, ServerError>)
    ensures
        match file_path {
            Some(p) => r matches Ok(s) && s@ == p@,
            None => r matches Err(ServerError::InvalidRequest(m)) && m@ == "Missing file_path"@,
        },
{
    match file_path {
        Some(p) => Ok(chars_to_string(&str_chars(p))),
        None => Err(ServerError::InvalidRequest(chars_to_string(&str_chars("Missing file_path")))),
    }
}

/// The answer to an organize-imports request from the language service's
/// reply: its code actions (`true` for each one that carries an edit), or
/// `None` when the reply is not a list of actions.
pub fn organize_imports_reply(actions: Option<&Vec<bool>>) -> (r: Result<OrganizeImportsOutcome, ServerError>)
    ensures
        actions is None ==> (r matches Err(ServerError::Runtime { message })
            && message@ == "LSP returned invalid code actions format"@),
        actions matches Some(a) ==> (r matches Ok(o)
            && (a@.len() == 0 ==> o == OrganizeImportsOutcome::NothingToDo)
            && (a@.len() > 0 && edit_indices(a@, a@.len() as int).len() == 1 ==>
                o == OrganizeImportsOutcome::SingleEdit(edit_indices(a@, a@.len() as int)[0]))
            && (a@.len() > 0 && edit_indices(a@, a@.len() as int).len() != 1 ==>
                (o matches OrganizeImportsOutcome::Combined(v) && v@ == edit_indices(a@, a@.len() as int)))),
{
    match actions {
        Some(a) => Ok(organize_imports_outcome(a)),
        None => Err(ServerError::runtime(chars_to_string(&str_chars("LSP returned invalid code actions format")))),
    }
}

/// The views of (name, value) pairs.
pub open spec fn pair_views(v: Seq<(String, String)>) -> Seq<(Seq<char>, Seq<char>)> {
    v.map_values(|p: (String, String)| (p.0@, p.1@))
}

/// One line per pair: `head name sep value`.
pub open spec fn pair_lines(head: Seq<char>, sep: Seq<char>, v: Seq<(Seq<char>, Seq<char>)>) -> Seq<Seq<char>> {
    Seq::new(v.len(), |k: int| head + v[k].0 + sep + v[k].1)
}

/// The changes a package manifest update lists, in this order: added
/// dependencies, added development dependencies, added scripts, removed
/// dependencies and the new version (each group only when given).
pub open spec fn manifest_changes(
    deps: Option<Seq<(Seq<char>, Seq<char>)>>,
    dev_deps: Option<Seq<(Seq<char>, Seq<char>)>>,
    scripts: Option<Seq<(Seq<char>, Seq<char>)>>,
    remove: Option<Seq<Seq<char>>>,
    version: Option<Seq<char>>,
) -> Seq<Seq<char>> {
    let a = match deps { Some(d) => pair_lines("Add dependency: "@, " @ "@, d), None => Seq::empty() };
    let b = match dev_deps { Some(d) => pair_lines("Add dev dependency: "@, " @ "@, d), None => Seq::empty() };
    let c = match scripts { Some(d) => pair_lines("Add script: "@, " = "@, d), None => Seq::empty() };
    let r = match remove { Some(n) => Seq::new(n.len(), |k: int| "Remove dependency: "@ + n[k]), None => Seq::empty() };
    let v = match version { Some(x) => seq!["Update version to: "@ + x], None => Seq::empty() };
    a + b + c + r + v
}

fn push_pairs(out: &mut Vec<String>, head: &str, sep: &str, v: &Vec<(String, String)>)
    ensures
        final(out)@.map_values(|s: String| s@) == old(out)@.map_values(|s: String| s@) + pair_lines(head@, sep@, pair_views(v@)),
{
    let ghost base = out@.map_values(|s: String| s@);
    let mut i: usize = 0;
    while i < v.len()
        invariant
            i <= v@.len(),
            out@.map_values(|s: String| s@) == base + pair_lines(head@, sep@, pair_views(v@)).subrange(0, i as int),
        decreases v@.len() - i,
    {
        let ghost o = out@.map_values(|s: String| s@);
        let mut line = str_chars(head);
        append_str(&mut line, v[i].0.as_str());
        append_str(&mut line, sep);
        append_str(&mut line, v[i].1.as_str());
        out.push(chars_to_string(&line));
        assert(out@.map_values(|s: String| s@) =~= o.push(head@ + v@[i as int].0@ + sep@ + v@[i as int].1@));
        assert(pair_lines(head@, sep@, pair_views(v@)).subrange(0, i + 1) =~= pair_lines(head@, sep@, pair_views(v@)).subrange(0, i as int).push(head@ + v@[i as int].0@ + sep@ + v@[i as int].1@));
        i = i + 1;
    }
    assert(pair_lines(head@, sep@, pair_views(v@)).subrange(0, v@.len() as int) =~= pair_lines(head@, sep@, pair_views(v@)));
}

/// The changes an `update_package_json` request lists.
pub fn package_json_changes(
    add_dependencies: &Option<Vec<(String, String)>>,
    add_dev_dependencies: &Option<Vec<(String, String)>>,
    add_scripts: &Option<Vec<(String, String)>>,
    remove_dependencies: &Option<Vec<String>>,
    update_version: &Option<String>,
) -> (r: Vec<String>)
    ensures
        r@.map_values(|s: String| s@) == manifest_changes(
            match add_dependencies { Some(d) => Some(pair_views(d@)), None => None },
            match add_dev_dependencies { Some(d) => Some(pair_views(d@)), None => None },
            match add_scripts { Some(d) => Some(pair_views(d@)), None => None },
            match remove_dependencies { Some(n) => Some(n@.map_values(|s: String| s@)), None => None },
            match update_version { Some(x) => Some(x@), None => None },
        ),
{
    let mut out: Vec<String> = Vec::new();
    assert(out@.map_values(|s: String| s@) =~= Seq::<Seq<char>>::empty());
    match add_dependencies {
        Some(d) => push_pairs(&mut out, "Add dependency: ", " @ ", d),
        None => {},
    }
    let ghost after_a = out@.map_values(|s: String| s@);
    match add_dev_dependencies {
        Some(d) => push_pairs(&mut out, "Add dev dependency: ", " @ ", d),
        None => {},
    }
    match add_scripts {
        Some(d) => push_pairs(&mut out, "Add script: ", " = ", d),
        None => {},
    }
    let ghost before_r = out@.map_values(|s: String| s@);
    match remove_dependencies {
        Some(n) => {
            let mut i: usize = 0;
            while i < n.len()
                invariant
                    i <= n@.len(),
                    out@.map_values(|s: String| s@) == before_r + Seq::new(n@.len(), |k: int| "Remove dependency: "@ + n@[k]@).subrange(0, i as int),
                decreases n@.len() - i,
            {
                let ghost o = out@.map_values(|s: String| s@);
                let mut line = str_chars("Remove dependency: ");
                append_str(&mut line, n[i].as_str());
                out.push(chars_to_string(&line));
                assert(out@.map_values(|s: String| s@) =~= o.push("Remove dependency: "@ + n@[i as int]@));
                assert(Seq::new(n@.len(), |k: int| "Remove dependency: "@ + n@[k]@).subrange(0, i + 1) =~= Seq::new(n@.len(), |k: int| "Remove dependency: "@ + n@[k]@).subrange(0, i as int).push("Remove dependency: "@ + n@[i as int]@));
                i = i + 1;
            }
            assert(Seq::new(n@.len(), |k: int| "Remove dependency: "@ + n@[k]@).subrange(0, n@.len() as int) =~= Seq::new(n@.len(), |k: int| "Remove dependency: "@ + n@[k]@));
            let ghost nv = n@.map_values(|s: String| s@);
            assert(Seq::new(n@.len(), |k: int| "Remove dependency: "@ + n@[k]@) =~= Seq::new(nv.len(), |k: int| "Remove dependency: "@ + nv[k]));
        },
        None => {},
    }
    match update_version {
        Some(x) => {
            let mut line = str_chars("Update version to: ");
            append_str(&mut line, x.as_str());
            let ghost o = out@.map_values(|s: String| s@);
            out.push(chars_to_string(&line));
            assert(out@.map_values(|s: String| s@) =~= o.push("Update version to: "@ + x@));
        },
        None => {},
    }
    proof {
        let m = manifest_changes(
            match add_dependencies { Some(d) => Some(pair_views(d@)), None => None },
            match add_dev_dependencies { Some(d) => Some(pair_views(d@)), None => None },
            match add_scripts { Some(d) => Some(pair_views(d@)), None => None },
            match remove_dependencies { Some(n) => Some(n@.map_values(|s: String| s@)), None => None },
            match update_version { Some(x) => Some(x@), None => None },
        );
        assert(out@.map_values(|s: String| s@) =~= m);
    }
    out
}

/// The size in bytes of the content (UTF-8), as `str::len` gives it.
pub open spec fn content_bytes(content: Option<String>) -> usize {
    match content {
        Some(c) => vstd::utf8::encode_utf8(c@).len() as usize,
        None => 0,
    }
}

/// What a `create_file` request answers.
#[derive(Debug, Clone)]
pub struct FileOperationResult {
    pub success: bool,
    pub operation: String,
    pub file_path: String,
    pub message: Option<String>,
}

/// Answers a `create_file` request for `file_path` with `content` (none
/// means empty): refused when the file exists and may not be overwritten,
/// else reported with the content's size in bytes.
pub fn create_file_result(file_path: &str, exists: bool, overwrite: Option<bool>, content: &Option<String>)
    -> (r: FileOperationResult)
    ensures
        r.operation@ == "create"@,
        r.file_path@ == file_path@,
        (exists && !or_default(overwrite, false)) ==> (!r.success && (r.message matches Some(m)
            && m@ == "File already exists and overwrite is false"@)),
        !(exists && !or_default(overwrite, false)) ==> (r.success && (r.message matches Some(m)
            && m@ == "Created with "@ + decimal(content_bytes(*content) as nat) + " bytes"@)),
{
    let ow = unwrap_bool(overwrite, false);
    if exists && !ow {
        return FileOperationResult {
            success: false,
            operation: chars_to_string(&str_chars("create")),
            file_path: chars_to_string(&str_chars(file_path)),
            message: Some(chars_to_string(&str_chars("File already exists and overwrite is false"))),
        };
    }
    let n: usize = match content {
        Some(c) => c.as_str().len(),
        None => 0,
    };
    let mut m = str_chars("Created with ");
    let digits = usize_to_decimal(n);
    append_chars(&mut m, &digits);
    append_str(&mut m, " bytes");
    FileOperationResult {
        success: true,
        operation: chars_to_string(&str_chars("create")),
        file_path: chars_to_string(&str_chars(file_path)),
        message: Some(chars_to_string(&m)),
    }
}

} // verus!
