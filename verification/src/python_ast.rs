//! What the Python syntax-tree analysis reports: functions, variables and the
//! import records built from parsed `import` statements.

use vstd::prelude::*;
use crate::imports::{ImportType, NamedImport, SourceLocation, ImportInfo, line_start};
use crate::text::{str_chars, chars_to_string, append_str};

verus! {

/// A Python function definition.
#[derive(Debug, Clone)]
pub struct PythonFunction {
    pub name: String,
    pub start_line: u32,
    pub end_line: u32,
    pub args: Vec<String>,
    pub body_start_line: u32,
    pub is_async: bool,
    pub decorators: Vec<String>,
}

/// The kind of value assigned to a Python variable.
#[derive(Debug, Clone, Copy, PartialEq, Eq, Structural)]
pub enum PythonValueType {
    String,
    Number,
    Boolean,
    List,
    Dict,
    Tuple,
    SetValue,
    NoneValue,
    Function,
    Class,
    Unknown,
}

/// A Python variable assignment.
#[derive(Debug, Clone)]
pub struct PythonVariable {
    pub name: String,
    pub line: u32,
    pub value_type: PythonValueType,
    pub is_constant: bool,
}

/// What `char::is_uppercase` returns for `c` (Unicode `Uppercase`).
pub uninterp spec fn unicode_uppercase(c: char) -> bool;

/// Calls `char::is_uppercase`. Its documentation defines it by the Unicode
/// `Uppercase` property; the result is named, and for ASCII it is exactly
/// `A`..`Z`.
#[verifier::external_body]
fn char_is_uppercase(c: char) -> (r: bool)
    ensures
        r == unicode_uppercase(c),
        ('A' <= c <= 'Z') ==> r,
        (c as u32) < 128 && !('A' <= c <= 'Z') ==> !r,
{
    c.is_uppercase()
}

/// A name written as a constant: only upper-case letters and `_`.
pub open spec fn constant_name(name: Seq<char>) -> bool {
    forall|i: int| 0 <= i < name.len() ==> (unicode_uppercase(#[trigger] name[i]) || name[i] == '_')
}

/// Whether a variable name is written as a constant.
pub fn is_constant_name(name: &str) -> (r: bool)
    ensures
        r == constant_name(name@),
{
    let cs = str_chars(name);
    let mut i: usize = 0;
    while i < cs.len()
        invariant
            i <= cs@.len(),
            cs@ == name@,
            forall|j: int| 0 <= j < i ==> (unicode_uppercase(#[trigger] cs@[j]) || cs@[j] == '_'),
        decreases cs@.len() - i,
    {
        let c = cs[i];
        if !(char_is_uppercase(c) || c == '_') {
            return false;
        }
        i = i + 1;
    }
    true
}

/// The module path of `from <dots><module> import ...`: `level` dots before
/// the module when the import is relative; without a module, the dots alone
/// (one by default).
pub open spec fn from_module_path(module: Option<Seq<char>>, level: Option<u32>) -> Seq<char> {
    match module {
        Some(m) => {
            let l = match level { Some(l) => l, None => 0 };
            if l > 0 { Seq::new(l as nat, |i: int| '.') + m } else { m }
        },
        None => Seq::new((match level { Some(l) => l, None => 1 }) as nat, |i: int| '.'),
    }
}

/// The module path of `from <dots><module> import ...` is exactly `level`
/// dots followed by the module name (the name alone for an absolute import,
/// level 0 or none); without a module name it is `level` dots, one when the
/// level is missing.
pub proof fn law_from_module_path_dots(module: Option<Seq<char>>, level: Option<u32>)
    ensures
        ({
            let p = from_module_path(module, level);
            let l: int = match level { Some(l) => l as int, None => if module is Some { 0 } else { 1 } };
            &&& p.len() == l + match module { Some(m) => m.len(), None => 0 }
            &&& forall|i: int| 0 <= i < l ==> #[trigger] p[i] == '.'
            &&& module matches Some(m) ==> p.subrange(l, p.len() as int) == m
        }),
{
    let p = from_module_path(module, level);
    match module {
        Some(m) => {
            let l: int = match level { Some(l) => l as int, None => 0 };
            if l > 0 {
                assert(p.subrange(l, p.len() as int) =~= m);
            } else {
                assert(p.subrange(0, p.len() as int) =~= m);
            }
        },
        None => {},
    }
}

fn dots(n: u32) -> (r: Vec<char>)
    ensures
        r@ == Seq::new(n as nat, |i: int| '.'),
{
    let mut v: Vec<char> = Vec::new();
    let mut i: u32 = 0;
    while i < n
        invariant
            i <= n,
            v@ == Seq::new(i as nat, |j: int| '.'),
        decreases n - i,
    {
        v.push('.');
        i = i + 1;
        assert(v@ =~= Seq::new(i as nat, |j: int| '.'));
    }
    v
}

/// Builds the module path of a `from ... import` statement.
pub fn relative_module_path(module: Option<String>, level: Option<u32>) -> (r: String)
    ensures
        r@ == from_module_path(match module { Some(m) => Some(m@), None => None }, level),
{
    match module {
        Some(m) => {
            let l: u32 = match level { Some(l) => l, None => 0 };
            if l > 0 {
                let mut v = dots(l);
                append_str(&mut v, m.as_str());
                chars_to_string(&v)
            } else {
                m
            }
        },
        None => {
            let l: u32 = match level { Some(l) => l, None => 1 };
            chars_to_string(&dots(l))
        },
    }
}

/// The record of `import name [as alias]` on statement `line`: the module is
/// the name and the namespace is the alias, or the name.
pub fn plain_import_info(name: &str, alias: Option<String>, line: u32) -> (r: ImportInfo)
    ensures
        r.module@ == name@,
        r.import_type == ImportType::PythonImport,
        r.named_imports@.len() == 0,
        r.default_import is None,
        r.namespace_import matches Some(n) && n@ == (match alias { Some(a) => a@, None => name@ }),
        !r.type_only,
        r.location == line_start(line as int),
{
    let ns = match alias {
        Some(a) => a,
        None => chars_to_string(&str_chars(name)),
    };
    ImportInfo {
        module: chars_to_string(&str_chars(name)),
        import_type: ImportType::PythonImport,
        named_imports: Vec::new(),
        default_import: None,
        namespace_import: Some(ns),
        type_only: false,
        location: SourceLocation { start_line: line, start_column: 0, end_line: line, end_column: 0 },
    }
}

/// The record of `from module import names` on statement `line`.
pub fn from_import_info(module: Option<String>, level: Option<u32>, names: Vec<(String, Option<String>)>, line: u32)
    -> (r: ImportInfo)
    ensures
        r.module@ == from_module_path(match module { Some(m) => Some(m@), None => None }, level),
        r.import_type == ImportType::PythonFromImport,
        r.named_imports@.len() == names@.len(),
        forall|i: int| 0 <= i < names@.len() ==> (#[trigger] r.named_imports@[i]).name == names@[i].0
            && r.named_imports@[i].alias == names@[i].1 && !r.named_imports@[i].type_only,
        r.default_import is None,
        r.namespace_import is None,
        !r.type_only,
        r.location == line_start(line as int),
{
    let path = relative_module_path(module, level);
    let mut named: Vec<NamedImport> = Vec::new();
    let mut rest = names;
    let ghost all = rest@;
    let n = rest.len();
    let mut pending: Vec<(String, Option<String>)> = Vec::new();
    while rest.len() > 0
        invariant
            pending@.len() + rest@.len() == n,
            all.len() == n,
            rest@ == all.subrange(0, rest@.len() as int),
            pending@ == all.subrange(rest@.len() as int, n as int).reverse(),
        decreases rest@.len(),
    {
        let x = rest.pop().unwrap();
        pending.push(x);
        assert(pending@ =~= all.subrange(rest@.len() as int, n as int).reverse());
    }
    while pending.len() > 0
        invariant
            named@.len() + pending@.len() == n,
            all.len() == n,
            pending@ == all.subrange(named@.len() as int, n as int).reverse(),
            forall|k: int| 0 <= k < named@.len() ==> (#[trigger] named@[k]).name == all[k].0
                && named@[k].alias == all[k].1 && !named@[k].type_only,
        decreases pending@.len(),
    {
        let k = named.len();
        let (nm, al) = pending.pop().unwrap();
        assert((nm, al) == all[k as int]);
        named.push(NamedImport { name: nm, alias: al, type_only: false });
        assert(pending@ =~= all.subrange(named@.len() as int, n as int).reverse());
    }
    ImportInfo {
        module: path,
        import_type: ImportType::PythonFromImport,
        named_imports: named,
        default_import: None,
        namespace_import: None,
        type_only: false,
        location: SourceLocation { start_line: line, start_column: 0, end_line: line, end_column: 0 },
    }
}

} // verus!
