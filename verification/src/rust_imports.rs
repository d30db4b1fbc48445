//! The imports declared by a Rust `use` tree.

use vstd::prelude::*;
use crate::imports::{ImportType, NamedImport, SourceLocation, ImportInfo, line_start};
use crate::text::{str_chars, chars_to_string, append_str};

verus! {

/// A `use` tree as the Rust parser reports it.
#[derive(Debug)]
pub enum UseTreeModel {
    /// `ident::tree`.
    Path { ident: String, tree: Box<UseTreeModel> },
    /// A name.
    Name { ident: String },
    /// `ident as rename`.
    Rename { ident: String, rename: String },
    /// `*`.
    Glob,
    /// `{a, b, ...}`.
    Group { items: Vec<UseTreeModel> },
}

/// One import declared by a `use` tree.
pub struct UseImport {
    /// The module the import comes from.
    pub module: Seq<char>,
    /// The imported name, for a name or rename.
    pub name: Option<Seq<char>>,
    /// The new name of a rename.
    pub alias: Option<Seq<char>>,
    /// The import is a glob.
    pub glob: bool,
}

/// The prefix extended by one path segment.
pub open spec fn extend_prefix(prefix: Seq<char>, ident: Seq<char>) -> Seq<char> {
    if prefix.len() == 0 { ident } else { prefix + "::"@ + ident }
}

/// The imports declared by tree `t` under `prefix`, in source order: a name
/// imports from the prefix (from itself at top level), a rename from the
/// prefix, a glob everything of the prefix, and a group each of its items.
pub open spec fn tree_imports(t: UseTreeModel, prefix: Seq<char>) -> Seq<UseImport>
    decreases t,
{
    match t {
        UseTreeModel::Path { ident, tree } => tree_imports(*tree, extend_prefix(prefix, ident@)),
        UseTreeModel::Name { ident } => seq![UseImport {
            module: if prefix.len() == 0 { ident@ } else { prefix },
            name: Some(ident@),
            alias: None,
            glob: false,
        }],
        UseTreeModel::Rename { ident, rename } => seq![UseImport {
            module: prefix,
            name: Some(ident@),
            alias: Some(rename@),
            glob: false,
        }],
        UseTreeModel::Glob => seq![UseImport { module: prefix, name: None, alias: None, glob: true }],
        UseTreeModel::Group { items } => group_imports(items@, prefix, items@.len() as int),
    }
}

/// The imports of the first `k` items of a group.
pub open spec fn group_imports(items: Seq<UseTreeModel>, prefix: Seq<char>, k: int) -> Seq<UseImport>
    decreases items, k,
{
    if k <= 0 || k > items.len() {
        Seq::empty()
    } else {
        group_imports(items, prefix, k - 1) + tree_imports(items[k - 1], prefix)
    }
}

/// `info` records import `m` of the `use` item numbered `line`.
pub open spec fn records_use(info: ImportInfo, m: UseImport, line: int) -> bool {
    &&& info.module@ == m.module
    &&& info.import_type == ImportType::EsModule
    &&& (match m.name {
        Some(n) => info.named_imports@.len() == 1 && info.named_imports@[0].name@ == n
            && (match m.alias {
                Some(a) => info.named_imports@[0].alias matches Some(x) && x@ == a,
                None => info.named_imports@[0].alias is None,
            })
            && !info.named_imports@[0].type_only,
        None => info.named_imports@.len() == 0,
    })
    &&& info.default_import is None
    &&& (if m.glob { info.namespace_import matches Some(x) && x@ == m.module } else { info.namespace_import is None })
    &&& !info.type_only
    &&& info.location == line_start(line)
}

fn owned(t: &str) -> (s: String)
    ensures
        s@ == t@,
{
    chars_to_string(&str_chars(t))
}

fn import_record(module: String, name: Option<String>, alias: Option<String>, glob: bool, line: u32) -> (r: ImportInfo)
    requires
        name is None ==> alias is None,
    ensures
        records_use(r, UseImport {
            module: module@,
            name: match name { Some(n) => Some(n@), None => None },
            alias: match alias { Some(a) => Some(a@), None => None },
            glob,
        }, line as int),
{
    let mut named: Vec<NamedImport> = Vec::new();
    match name {
        Some(n) => named.push(NamedImport { name: n, alias, type_only: false }),
        None => {},
    }
    let ns = if glob { Some(owned(module.as_str())) } else { None };
    ImportInfo {
        module,
        import_type: ImportType::EsModule,
        named_imports: named,
        default_import: None,
        namespace_import: ns,
        type_only: false,
        location: SourceLocation { start_line: line, start_column: 0, end_line: line, end_column: 0 },
    }
}

/// Appends the imports of tree `t` under `prefix`, declared by `use` item
/// number `line`, to `out`.
#[verifier::loop_isolation(false)]
pub fn collect_use_tree(t: &UseTreeModel, prefix: &str, line: u32, out: &mut Vec<ImportInfo>)
    ensures
        final(out)@.len() == old(out)@.len() + tree_imports(*t, prefix@).len(),
        forall|k: int| 0 <= k < old(out)@.len() ==> final(out)@[k] == old(out)@[k],
        forall|k: int| 0 <= k < tree_imports(*t, prefix@).len() ==> records_use(
            #[trigger] final(out)@[old(out)@.len() + k], tree_imports(*t, prefix@)[k], line as int),
    decreases t,
{
    match t {
        UseTreeModel::Path { ident, tree } => {
            let pc = str_chars(prefix);
            let p: String = if pc.len() == 0 {
                owned(ident.as_str())
            } else {
                let mut v = str_chars(prefix);
                append_str(&mut v, "::");
                append_str(&mut v, ident.as_str());
                chars_to_string(&v)
            };
            assert(p@ == extend_prefix(prefix@, ident@));
            collect_use_tree(tree, p.as_str(), line, out);
        },
        UseTreeModel::Name { ident } => {
            let pc = str_chars(prefix);
            let module = if pc.len() == 0 { owned(ident.as_str()) } else { owned(prefix) };
            out.push(import_record(module, Some(owned(ident.as_str())), None, false, line));
        },
        UseTreeModel::Rename { ident, rename } => {
            out.push(import_record(owned(prefix), Some(owned(ident.as_str())), Some(owned(rename.as_str())), false, line));
        },
        UseTreeModel::Glob => {
            out.push(import_record(owned(prefix), None, None, true, line));
        },
        UseTreeModel::Group { items } => {
            let ghost start = old(out)@.len();
            let ghost o = old(out)@;
            let mut i: usize = 0;
            while i < items.len()
                invariant
                    i <= items@.len(),
                    out@.len() == start + group_imports(items@, prefix@, i as int).len(),
                    forall|k: int| 0 <= k < start ==> out@[k] == o[k],
                    forall|k: int| 0 <= k < group_imports(items@, prefix@, i as int).len() ==> records_use(
                        #[trigger] out@[start + k], group_imports(items@, prefix@, i as int)[k], line as int),
                    start == o.len(),
                decreases items@.len() - i,
            {
                let ghost before = out@;
                let ghost g = group_imports(items@, prefix@, i as int);
                assert(decreases_to!(*t => *items));
                assert(decreases_to!(*items => items@));
                assert(decreases_to!(items@ => items@[i as int]));
                collect_use_tree(&items[i], prefix, line, out);
                let ghost h = tree_imports(items@[i as int], prefix@);
                assert(group_imports(items@, prefix@, i + 1) == g + h);
                assert forall|k: int| 0 <= k < (g + h).len() implies records_use(
                    #[trigger] out@[start + k], (g + h)[k], line as int) by {
                    if k < g.len() {
                        assert(out@[start + k] == before[start + k]);
                    } else {
                        assert(out@[before.len() + (k - g.len())] == out@[start + k]);
                    }
                }
                i = i + 1;
            }
        },
    }
}

} // verus!
