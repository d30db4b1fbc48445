//! Swift plugin: import statements and `Package.swift` workspace manifests.

use vstd::prelude::*;
use crate::paths::{path_file_stem_of, path_file_stem};
use crate::regex_support::{
    regex_match_outcome, regex_is_match, regex_escape_of, regex_escape, regex_group_texts,
    regex_capture_groups, regex_replaced_all, regex_replace_all, regex_replaced_first, regex_replace_first,
    regex_first_split, regex_find_split,
};
use crate::text::{str_chars, chars_to_string, append_str, append_chars, slice_chars};

verus! {

fn owned(t: &str) -> (s: String)
    ensures
        s@ == t@,
{
    chars_to_string(&str_chars(t))
}

fn strings_of(v: Vec<String>) -> (r: Vec<String>)
    ensures
        r@ == v@,
{
    v
}

/// Pattern of a Swift `import` line; group 1 is the module.
pub const IMPORT_PATTERN: &'static str = "(?m)^\\s*import\\s+([a-zA-Z0-9_]+)";

/// The modules named by the `import` lines of `source`, in order.
pub open spec fn imported_modules(source: Seq<char>) -> Seq<Seq<char>> {
    match regex_group_texts(IMPORT_PATTERN@, source, 1) {
        Some(g) => g,
        None => Seq::empty(),
    }
}

/// The pattern of an `import` line for `module` at the start of a line.
pub open spec fn import_line_pattern(module: Seq<char>) -> Seq<char> {
    "(?m)^\\s*import\\s+"@ + regex_escape_of(module) + "\\b"@
}

/// The pattern of `import module` anywhere.
pub open spec fn import_rename_pattern(module: Seq<char>) -> Seq<char> {
    "\\bimport\\s+"@ + regex_escape_of(module) + "\\b"@
}

/// The pattern of a whole `import module` line with its line break.
pub open spec fn import_remove_pattern(module: Seq<char>) -> Seq<char> {
    "(?m)^\\s*import\\s+"@ + regex_escape_of(module) + "\\s*\\n?"@
}

/// What renaming the module of the imports gives: the new source and the
/// number of imports rewritten (the source unchanged when the pattern fails).
pub open spec fn renamed_imports(source: Seq<char>, old_module: Seq<char>, new_module: Seq<char>) -> (Seq<char>, nat) {
    let p = import_rename_pattern(old_module);
    match (regex_replaced_all(p, source, "import "@ + new_module), regex_group_texts(p, source, 0)) {
        (Some(s), Some(ms)) => (s, ms.len()),
        _ => (source, 0),
    }
}

fn build_pattern(head: &str, module: &str, tail: &str) -> (r: String)
    ensures
        r@ == head@ + regex_escape_of(module@) + tail@,
{
    let esc = regex_escape(module);
    let mut v: Vec<char> = Vec::new();
    append_str(&mut v, head);
    append_str(&mut v, esc.as_str());
    append_str(&mut v, tail);
    chars_to_string(&v)
}

/// Import handling for Swift sources.
#[derive(Debug, Clone, Copy, Default)]
pub struct SwiftImportSupport;

impl SwiftImportSupport {
    /// The modules imported by `source`, in order.
    pub fn parse_imports(&self, source: &str) -> (r: Vec<String>)
        ensures
            r@.map_values(|s: String| s@) == imported_modules(source@),
    {
        match regex_capture_groups(IMPORT_PATTERN, source, 1) {
            Some(v) => strings_of(v),
            None => {
                let v: Vec<String> = Vec::new();
                assert(v@.map_values(|s: String| s@) =~= Seq::<Seq<char>>::empty());
                v
            },
        }
    }

    /// Whether `source` has an `import module` line (false when the pattern
    /// cannot be built).
    pub fn contains_import(&self, source: &str, module: &str) -> (r: bool)
        ensures
            r == (regex_match_outcome(import_line_pattern(module@), source@) == Some(true)),
    {
        let p = build_pattern("(?m)^\\s*import\\s+", module, "\\b");
        match regex_is_match(p.as_str(), source) {
            Some(b) => b,
            None => false,
        }
    }

    /// Rewrites every `import old_module` to `import new_module` and counts them.
    pub fn rewrite_imports_for_rename(&self, source: &str, old_module: &str, new_module: &str) -> (r: (String, usize))
        ensures
            (r.0@, r.1 as nat) == renamed_imports(source@, old_module@, new_module@),
    {
        let p = build_pattern("\\bimport\\s+", old_module, "\\b");
        let mut rep: Vec<char> = Vec::new();
        append_str(&mut rep, "import ");
        append_str(&mut rep, new_module);
        let rep_s = chars_to_string(&rep);
        match (regex_replace_all(p.as_str(), source, rep_s.as_str()), regex_capture_groups(p.as_str(), source, 0)) {
            (Some(s), Some(ms)) => {
                assert(ms@.map_values(|x: String| x@).len() == ms@.len());
                (s, ms.len())
            },
            _ => (owned(source), 0),
        }
    }

    /// Rewrites the imports of the module named by `old_path`'s file stem to
    /// the one named by `new_path`'s (an absent stem counts as empty).
    pub fn rewrite_imports_for_move(&self, source: &str, old_path: &str, new_path: &str) -> (r: (String, usize))
        ensures
            ({
                let old_module = match path_file_stem_of(old_path@) { Some(s) => s, None => Seq::empty() };
                let new_module = match path_file_stem_of(new_path@) { Some(s) => s, None => Seq::empty() };
                (r.0@, r.1 as nat) == renamed_imports(source@, old_module, new_module)
            }),
    {
        let new_module = match path_file_stem(new_path) {
            Some(s) => s,
            None => String::new(),
        };
        let old_module = match path_file_stem(old_path) {
            Some(s) => s,
            None => String::new(),
        };
        self.rewrite_imports_for_rename(source, old_module.as_str(), new_module.as_str())
    }

    /// Puts `import module` on a line of its own before `source`.
    pub fn add_import(&self, source: &str, module: &str) -> (r: String)
        ensures
            r@ == "import "@ + module@ + "\n"@ + source@,
    {
        let mut v: Vec<char> = Vec::new();
        append_str(&mut v, "import ");
        append_str(&mut v, module);
        append_str(&mut v, "\n");
        append_str(&mut v, source);
        chars_to_string(&v)
    }

    /// Deletes every `import module` line (the source unchanged when the
    /// pattern cannot be built).
    pub fn remove_import(&self, source: &str, module: &str) -> (r: String)
        ensures
            r@ == match regex_replaced_all(import_remove_pattern(module@), source@, ""@) {
                Some(s) => s,
                None => source@,
            },
    {
        let p = build_pattern("(?m)^\\s*import\\s+", module, "\\s*\\n?");
        match regex_replace_all(p.as_str(), source, "") {
            Some(s) => s,
            None => owned(source),
        }
    }
}

/// Pattern of a local package dependency.
pub const LOCAL_PACKAGE_PATTERN: &'static str = "\\.package\\s*\\(\\s*path:";

/// Pattern of the package name; group 1 is `name: "`.
pub const PACKAGE_NAME_PATTERN: &'static str = "(name:\\s*\")([^\"]+)\"";

/// Pattern of the `dependencies: [...]` array.
pub const DEPENDENCIES_PATTERN: &'static str = "(?s)dependencies:\\s*\\[(.*?)\\]";

/// Pattern of a local package dependency; group 1 is its path.
pub const MEMBER_PATTERN: &'static str = "\\.package\\s*\\(\\s*path:\\s*\"([^\"]+)\"\\s*\\)";

/// The pattern of the dependency line of member `path`.
pub open spec fn member_line_pattern(path: Seq<char>) -> Seq<char> {
    "(?m)^\\s*\\.package\\s*\\(\\s*path:\\s*\""@ + regex_escape_of(path) + "\"\\s*\\),?\\s*[\\r\\n]?"@
}

/// The dependency line added for a new member.
pub open spec fn member_line(path: Seq<char>) -> Seq<char> {
    "\n        .package(path: \""@ + path + "\"),"@
}

/// Workspace handling for Swift packages whose `Package.swift` lists local
/// packages as dependencies.
#[derive(Debug, Clone, Copy, Default)]
pub struct SwiftWorkspaceSupport;

impl SwiftWorkspaceSupport {
    /// A manifest is a workspace manifest when it has a local package dependency.
    pub fn is_workspace_manifest(&self, content: &str) -> (r: bool)
        ensures
            r == (regex_match_outcome(LOCAL_PACKAGE_PATTERN@, content@) == Some(true)),
    {
        match regex_is_match(LOCAL_PACKAGE_PATTERN, content) {
            Some(b) => b,
            None => false,
        }
    }

    /// Replaces the first `name: "..."` by `$1` followed by the new name, as a
    /// regex replacement.
    pub fn update_package_name(&self, content: &str, new_name: &str) -> (r: String)
        ensures
            r@ == match regex_replaced_first(PACKAGE_NAME_PATTERN@, content@, "$1"@ + new_name@) {
                Some(s) => s,
                None => content@,
            },
    {
        let mut rep: Vec<char> = Vec::new();
        append_str(&mut rep, "$1");
        append_str(&mut rep, new_name);
        let rep_s = chars_to_string(&rep);
        match regex_replace_first(PACKAGE_NAME_PATTERN, content, rep_s.as_str()) {
            Some(s) => s,
            None => owned(content),
        }
    }

    /// Adds `.package(path: "member")` just before the `]` that closes the
    /// `dependencies` array; without such an array the content is unchanged.
    pub fn add_workspace_member(&self, content: &str, member_path: &str) -> (r: String)
        ensures
            r@ == match regex_first_split(DEPENDENCIES_PATTERN@, content@) {
                Some(Some((before, m, after))) => if m.len() > 0 {
                    before + m.drop_last() + member_line(member_path@) + seq![m.last()] + after
                } else {
                    content@
                },
                _ => content@,
            },
    {
        match regex_find_split(DEPENDENCIES_PATTERN, content) {
            Some(Some((before, m, after))) => {
                let mc = str_chars(m.as_str());
                if mc.len() == 0 {
                    return owned(content);
                }
                let mut v = str_chars(before.as_str());
                let head = slice_chars(&mc, 0, mc.len() - 1);
                assert(head@ =~= m@.drop_last());
                append_chars(&mut v, &head);
                append_str(&mut v, "\n        .package(path: \"");
                append_str(&mut v, member_path);
                append_str(&mut v, "\"),");
                v.push(mc[mc.len() - 1]);
                append_str(&mut v, after.as_str());
                chars_to_string(&v)
            },
            _ => owned(content),
        }
    }

    /// Deletes the dependency line of `member_path`.
    pub fn remove_workspace_member(&self, content: &str, member_path: &str) -> (r: String)
        ensures
            r@ == match regex_replaced_all(member_line_pattern(member_path@), content@, ""@) {
                Some(s) => s,
                None => content@,
            },
    {
        let p = build_pattern("(?m)^\\s*\\.package\\s*\\(\\s*path:\\s*\"", member_path, "\"\\s*\\),?\\s*[\\r\\n]?");
        match regex_replace_all(p.as_str(), content, "") {
            Some(s) => s,
            None => owned(content),
        }
    }

    /// The paths of the local package dependencies, in order.
    pub fn list_workspace_members(&self, content: &str) -> (r: Vec<String>)
        ensures
            r@.map_values(|s: String| s@) == match regex_group_texts(MEMBER_PATTERN@, content@, 1) {
                Some(g) => g,
                None => Seq::empty(),
            },
    {
        match regex_capture_groups(MEMBER_PATTERN, content, 1) {
            Some(v) => v,
            None => {
                let v: Vec<String> = Vec::new();
                assert(v@.map_values(|s: String| s@) =~= Seq::<Seq<char>>::empty());
                v
            },
        }
    }
}


/// The pattern of a qualified path through `module` (`module.` as a word).
pub open spec fn qualified_path_pattern_of(module: Seq<char>) -> Seq<char> {
    "\\b"@ + regex_escape_of(module) + "\\."@
}

/// The pattern of an import of `module`, plain or of one declaration kind
/// (`import class Foundation.NSObject`).
pub open spec fn module_import_pattern_of(module: Seq<char>) -> Seq<char> {
    "\\bimport\\s+(?:class|struct|func|enum|protocol|typealias)?\\s*"@ + regex_escape_of(module) + "\\b"@
}

/// The regular expression, as text, of a qualified path through
/// `module_name`.
pub fn qualified_path_pattern(module_name: &str) -> (r: String)
    ensures
        r@ == qualified_path_pattern_of(module_name@),
{
    build_pattern("\\b", module_name, "\\.")
}

/// The regular expression, as text, of an import of `module_name`.
pub fn import_pattern_for_module(module_name: &str) -> (r: String)
    ensures
        r@ == module_import_pattern_of(module_name@),
{
    build_pattern("\\bimport\\s+(?:class|struct|func|enum|protocol|typealias)?\\s*", module_name, "\\b")
}

} // verus!
