//! What the Python analysis reads off a parsed module: its imports, its
//! function definitions and its variable assignments, walked over the
//! statement tree the parser produces.

use vstd::prelude::*;
use crate::imports::{ImportInfo, NamedImport, line_start, ImportType};
use crate::python_ast::{
    PythonFunction, PythonValueType, PythonVariable, constant_name, is_constant_name, from_module_path,
    plain_import_info, from_import_info,
};
use crate::text::{str_chars, chars_to_string};

verus! {

/// An expression, as far as the analysis looks at it.
#[derive(Debug)]
pub enum PyExpr {
    /// A string constant.
    StrConst,
    /// An integer or floating-point constant.
    NumberConst,
    /// `True` or `False`.
    BoolConst,
    /// `None`.
    NoneConst,
    /// Any other constant.
    OtherConst,
    /// A list display.
    ListDisplay,
    /// A dict display.
    DictDisplay,
    /// A tuple.
    TupleDisplay,
    /// A set display.
    SetDisplay,
    /// A lambda.
    Lambda,
    /// A plain name.
    Name(String),
    /// An attribute access, by the attribute's name.
    Attribute(String),
    /// Anything else.
    Other,
}

/// A statement, as far as the analysis looks at it.
#[derive(Debug)]
pub enum PyStmt {
    /// `import a, b as c`: (name, alias) of each.
    Import { names: Vec<(String, Option<String>)> },
    /// `from <level dots><module> import ...`.
    ImportFrom { module: Option<String>, names: Vec<(String, Option<String>)>, level: Option<u32> },
    /// A function definition (`async def` when `is_async`).
    FunctionDef { name: String, args: Vec<String>, body: Vec<PyStmt>, decorators: Vec<PyExpr>, is_async: bool },
    /// A class definition.
    ClassDef { body: Vec<PyStmt> },
    /// `targets = value`.
    Assign { targets: Vec<PyExpr>, value: PyExpr },
    /// `target: annotation = ...`.
    AnnAssign { target: PyExpr },
    /// Any other statement.
    Other,
}

/// The kind of value an assigned expression is.
pub open spec fn value_type_of(e: PyExpr) -> PythonValueType {
    match e {
        PyExpr::StrConst => PythonValueType::String,
        PyExpr::NumberConst => PythonValueType::Number,
        PyExpr::BoolConst => PythonValueType::Boolean,
        PyExpr::NoneConst => PythonValueType::NoneValue,
        PyExpr::ListDisplay => PythonValueType::List,
        PyExpr::DictDisplay => PythonValueType::Dict,
        PyExpr::TupleDisplay => PythonValueType::Tuple,
        PyExpr::SetDisplay => PythonValueType::SetValue,
        PyExpr::Lambda => PythonValueType::Function,
        _ => PythonValueType::Unknown,
    }
}

/// Infers the kind of value an assigned expression is.
pub fn infer_python_value_type(e: &PyExpr) -> (r: PythonValueType)
    ensures
        r == value_type_of(*e),
{
    match e {
        PyExpr::StrConst => PythonValueType::String,
        PyExpr::NumberConst => PythonValueType::Number,
        PyExpr::BoolConst => PythonValueType::Boolean,
        PyExpr::NoneConst => PythonValueType::NoneValue,
        PyExpr::ListDisplay => PythonValueType::List,
        PyExpr::DictDisplay => PythonValueType::Dict,
        PyExpr::TupleDisplay => PythonValueType::Tuple,
        PyExpr::SetDisplay => PythonValueType::SetValue,
        PyExpr::Lambda => PythonValueType::Function,
        _ => PythonValueType::Unknown,
    }
}

/// The views of a vector of strings.
pub open spec fn texts(v: Seq<String>) -> Seq<Seq<char>> {
    v.map_values(|s: String| s@)
}

/// The names of the first `k` decorators that are a name or an attribute.
pub open spec fn decorator_names(decs: Seq<PyExpr>, k: int) -> Seq<Seq<char>>
    decreases k,
{
    if k <= 0 || k > decs.len() {
        Seq::empty()
    } else {
        let prev = decorator_names(decs, k - 1);
        match decs[k - 1] {
            PyExpr::Name(id) => prev.push(id@),
            PyExpr::Attribute(a) => prev.push(a@),
            _ => prev,
        }
    }
}

/// A function definition as the analysis reports it.
pub struct FunctionView {
    pub name: Seq<char>,
    pub start_line: int,
    pub end_line: int,
    pub args: Seq<Seq<char>>,
    pub body_start_line: int,
    pub is_async: bool,
    pub decorators: Seq<Seq<char>>,
}

/// `f` is the function `v`.
pub open spec fn function_is(f: PythonFunction, v: FunctionView) -> bool {
    &&& f.name@ == v.name
    &&& f.start_line == v.start_line
    &&& f.end_line == v.end_line
    &&& texts(f.args@) == v.args
    &&& f.body_start_line == v.body_start_line
    &&& f.is_async == v.is_async
    &&& texts(f.decorators@) == v.decorators
}

/// The functions defined by statement `s`, the `i`-th of a body whose first
/// statement is numbered `start`: a definition is numbered `start + i`, its
/// body from the next number on and its end that plus the length of its body
/// (the numbering counts statements); then come the functions inside it. A
/// class contributes its methods, numbered likewise.
pub open spec fn stmt_functions(s: PyStmt, start: int, i: int) -> Seq<FunctionView>
    decreases s,
{
    match s {
        PyStmt::FunctionDef { name, args, body, decorators, is_async } => seq![FunctionView {
            name: name@,
            start_line: start + i,
            end_line: start + i + 1 + body@.len(),
            args: texts(args@),
            body_start_line: start + i + 1,
            is_async,
            decorators: decorator_names(decorators@, decorators@.len() as int),
        }] + body_functions(body@, start + i + 1, body@.len() as int),
        PyStmt::ClassDef { body } => body_functions(body@, start + i + 1, body@.len() as int),
        _ => Seq::empty(),
    }
}

/// The functions defined by the first `k` statements of a body.
pub open spec fn body_functions(body: Seq<PyStmt>, start: int, k: int) -> Seq<FunctionView>
    decreases body, k,
{
    if k <= 0 || k > body.len() {
        Seq::empty()
    } else {
        body_functions(body, start, k - 1) + stmt_functions(body[k - 1], start, k - 1)
    }
}

/// Every number the walk computes for statement `s` (the `i`-th of a body
/// numbered from `start`) fits in a `u32`.
pub open spec fn stmt_fits(s: PyStmt, start: int, i: int) -> bool
    decreases s,
{
    match s {
        PyStmt::FunctionDef { body, .. } => start + i + 1 + body@.len() <= u32::MAX
            && body_fits(body@, start + i + 1, body@.len() as int),
        PyStmt::ClassDef { body } => start + i + 1 <= u32::MAX && body_fits(body@, start + i + 1, body@.len() as int),
        _ => start + i + 1 <= u32::MAX,
    }
}

/// Every number the walk computes for the first `k` statements fits.
pub open spec fn body_fits(body: Seq<PyStmt>, start: int, k: int) -> bool
    decreases body, k,
{
    if k <= 0 || k > body.len() {
        true
    } else {
        body_fits(body, start, k - 1) && stmt_fits(body[k - 1], start, k - 1)
    }
}

fn copy_text(s: &String) -> (r: String)
    ensures
        r@ == s@,
{
    chars_to_string(&str_chars(s.as_str()))
}

fn copy_texts(v: &Vec<String>) -> (r: Vec<String>)
    ensures
        texts(r@) == texts(v@),
{
    let mut out: Vec<String> = Vec::new();
    let mut i: usize = 0;
    while i < v.len()
        invariant
            i <= v@.len(),
            texts(out@) == texts(v@).subrange(0, i as int),
        decreases v@.len() - i,
    {
        let ghost o = texts(out@);
        out.push(copy_text(&v[i]));
        assert(texts(out@) =~= o.push(v@[i as int]@));
        assert(texts(v@).subrange(0, i + 1) =~= texts(v@).subrange(0, i as int).push(v@[i as int]@));
        i = i + 1;
    }
    assert(texts(v@).subrange(0, v@.len() as int) =~= texts(v@));
    out
}

fn decorators_of(decs: &Vec<PyExpr>) -> (r: Vec<String>)
    ensures
        texts(r@) == decorator_names(decs@, decs@.len() as int),
{
    let mut out: Vec<String> = Vec::new();
    let mut i: usize = 0;
    while i < decs.len()
        invariant
            i <= decs@.len(),
            texts(out@) == decorator_names(decs@, i as int),
        decreases decs@.len() - i,
    {
        let ghost o = texts(out@);
        match &decs[i] {
            PyExpr::Name(id) => {
                out.push(copy_text(id));
                assert(texts(out@) =~= o.push(id@));
            },
            PyExpr::Attribute(a) => {
                out.push(copy_text(a));
                assert(texts(out@) =~= o.push(a@));
            },
            _ => {},
        }
        i = i + 1;
    }
    out
}

/// Appends the functions defined by statement `s` (the `i`-th of a body
/// numbered from `start`).
fn collect_stmt_functions(s: &PyStmt, start: u32, i: u32, out: &mut Vec<PythonFunction>)
    requires
        stmt_fits(*s, start as int, i as int),
    ensures
        final(out)@.len() == old(out)@.len() + stmt_functions(*s, start as int, i as int).len(),
        forall|k: int| 0 <= k < old(out)@.len() ==> final(out)@[k] == old(out)@[k],
        forall|k: int| 0 <= k < stmt_functions(*s, start as int, i as int).len() ==> function_is(
            #[trigger] final(out)@[old(out)@.len() + k], stmt_functions(*s, start as int, i as int)[k]),
    decreases s,
{
    match s {
        PyStmt::FunctionDef { name, args, body, decorators, is_async } => {
            let body_start = start + i + 1;
            let ghost o = out@;
            out.push(PythonFunction {
                name: copy_text(name),
                start_line: start + i,
                end_line: body_start + body.len() as u32,
                args: copy_texts(args),
                body_start_line: body_start,
                is_async: *is_async,
                decorators: decorators_of(decorators),
            });
            let ghost mid = out@;
            assert(decreases_to!(*s => *body));
            assert(decreases_to!(*body => body@));
            collect_body_functions(body, body_start, out);
            let ghost head = stmt_functions(*s, start as int, i as int)[0];
            let ghost rest = body_functions(body@, body_start as int, body@.len() as int);
            assert(stmt_functions(*s, start as int, i as int) == seq![head] + rest);
            assert forall|k: int| 0 <= k < stmt_functions(*s, start as int, i as int).len() implies function_is(
                #[trigger] out@[o.len() + k], stmt_functions(*s, start as int, i as int)[k]) by {
                if k == 0 {
                    assert(out@[o.len() as int] == mid[o.len() as int]);
                } else {
                    assert(out@[mid.len() + (k - 1)] == out@[o.len() + k]);
                }
            }
            assert forall|k: int| 0 <= k < o.len() implies out@[k] == o[k] by {
                assert(out@[k] == mid[k]);
            }
        },
        PyStmt::ClassDef { body } => {
            assert(decreases_to!(*s => *body));
            assert(decreases_to!(*body => body@));
            collect_body_functions(body, start + i + 1, out);
        },
        _ => {},
    }
}

/// Appends the functions defined in `body`, whose first statement is
/// numbered `start`.
pub fn collect_body_functions(body: &Vec<PyStmt>, start: u32, out: &mut Vec<PythonFunction>)
    requires
        body_fits(body@, start as int, body@.len() as int),
    ensures
        final(out)@.len() == old(out)@.len() + body_functions(body@, start as int, body@.len() as int).len(),
        forall|k: int| 0 <= k < old(out)@.len() ==> final(out)@[k] == old(out)@[k],
        forall|k: int| 0 <= k < body_functions(body@, start as int, body@.len() as int).len() ==> function_is(
            #[trigger] final(out)@[old(out)@.len() + k], body_functions(body@, start as int, body@.len() as int)[k]),
    decreases body@,
{
    let ghost base = out@.len();
    let ghost o = out@;
    let mut i: usize = 0;
    while i < body.len()
        invariant
            i <= body@.len(),
            base == o.len(),
            body_fits(body@, start as int, body@.len() as int),
            out@.len() == base + body_functions(body@, start as int, i as int).len(),
            forall|k: int| 0 <= k < base ==> out@[k] == o[k],
            forall|k: int| 0 <= k < body_functions(body@, start as int, i as int).len() ==> function_is(
                #[trigger] out@[base + k], body_functions(body@, start as int, i as int)[k]),
        decreases body@.len() - i,
    {
        proof {
            lemma_body_fits_prefix(body@, start as int, (i + 1) as int, body@.len() as int);
        }
        let ghost before = out@;
        let ghost g = body_functions(body@, start as int, i as int);
        assert(decreases_to!(body@ => body@[i as int]));
        collect_stmt_functions(&body[i], start, i as u32, out);
        let ghost h = stmt_functions(body@[i as int], start as int, i as int);
        assert(body_functions(body@, start as int, i + 1) == g + h);
        assert forall|k: int| 0 <= k < (g + h).len() implies function_is(#[trigger] out@[base + k], (g + h)[k]) by {
            if k < g.len() {
                assert(out@[base + k] == before[base + k]);
            } else {
                assert(out@[before.len() + (k - g.len())] == out@[base + k]);
            }
        }
        i = i + 1;
    }
}

proof fn lemma_body_fits_prefix(body: Seq<PyStmt>, start: int, a: int, b: int)
    requires
        0 <= a <= b <= body.len(),
        body_fits(body, start, b),
    ensures
        body_fits(body, start, a),
        a > 0 ==> stmt_fits(body[a - 1], start, a - 1),
    decreases b - a,
{
    if a < b {
        lemma_body_fits_prefix(body, start, a, b - 1);
    }
}


/// A variable assignment as the analysis reports it: (name, line, kind,
/// written as a constant).
pub open spec fn variable_is(v: PythonVariable, w: (Seq<char>, int, PythonValueType, bool)) -> bool {
    v.name@ == w.0 && v.line == w.1 && v.value_type == w.2 && v.is_constant == w.3
}

/// The plain names among the first `k` targets of an assignment on line
/// `line` of a value of kind `t`.
pub open spec fn target_variables(targets: Seq<PyExpr>, line: int, t: PythonValueType, k: int)
    -> Seq<(Seq<char>, int, PythonValueType, bool)>
    decreases k,
{
    if k <= 0 || k > targets.len() {
        Seq::empty()
    } else {
        let prev = target_variables(targets, line, t, k - 1);
        match targets[k - 1] {
            PyExpr::Name(id) => prev.push((id@, line, t, constant_name(id@))),
            _ => prev,
        }
    }
}

/// The variables assigned by statement `s`, the `i`-th of a body numbered
/// from `start`: each plain name an assignment binds (an annotated one with
/// an unknown kind), and the variables inside functions and classes, whose
/// bodies are numbered from the next number on.
pub open spec fn stmt_variables(s: PyStmt, start: int, i: int) -> Seq<(Seq<char>, int, PythonValueType, bool)>
    decreases s,
{
    match s {
        PyStmt::Assign { targets, value } => target_variables(targets@, start + i, value_type_of(value), targets@.len() as int),
        PyStmt::AnnAssign { target } => match target {
            PyExpr::Name(id) => seq![(id@, start + i, PythonValueType::Unknown, constant_name(id@))],
            _ => Seq::empty(),
        },
        PyStmt::FunctionDef { body, .. } => body_variables(body@, start + i + 1, body@.len() as int),
        PyStmt::ClassDef { body } => body_variables(body@, start + i + 1, body@.len() as int),
        _ => Seq::empty(),
    }
}

/// The variables assigned by the first `k` statements of a body.
pub open spec fn body_variables(body: Seq<PyStmt>, start: int, k: int) -> Seq<(Seq<char>, int, PythonValueType, bool)>
    decreases body, k,
{
    if k <= 0 || k > body.len() {
        Seq::empty()
    } else {
        body_variables(body, start, k - 1) + stmt_variables(body[k - 1], start, k - 1)
    }
}

fn collect_stmt_variables(s: &PyStmt, start: u32, i: u32, out: &mut Vec<PythonVariable>)
    requires
        stmt_fits(*s, start as int, i as int),
    ensures
        final(out)@.len() == old(out)@.len() + stmt_variables(*s, start as int, i as int).len(),
        forall|k: int| 0 <= k < old(out)@.len() ==> final(out)@[k] == old(out)@[k],
        forall|k: int| 0 <= k < stmt_variables(*s, start as int, i as int).len() ==> variable_is(
            #[trigger] final(out)@[old(out)@.len() + k], stmt_variables(*s, start as int, i as int)[k]),
    decreases s,
{
    let ghost o = out@;
    match s {
        PyStmt::Assign { targets, value } => {
            let t = infer_python_value_type(value);
            let line = start + i;
            let mut j: usize = 0;
            while j < targets.len()
                invariant
                    j <= targets@.len(),
                    t == value_type_of(*value),
                    line == start + i,
                    out@.len() == o.len() + target_variables(targets@, line as int, t, j as int).len(),
                    forall|k: int| 0 <= k < o.len() ==> out@[k] == o[k],
                    forall|k: int| 0 <= k < target_variables(targets@, line as int, t, j as int).len() ==> variable_is(
                        #[trigger] out@[o.len() + k], target_variables(targets@, line as int, t, j as int)[k]),
                decreases targets@.len() - j,
            {
                match &targets[j] {
                    PyExpr::Name(id) => {
                        let c = is_constant_name(id.as_str());
                        out.push(PythonVariable { name: copy_text(id), line, value_type: t, is_constant: c });
                    },
                    _ => {},
                }
                j = j + 1;
            }
        },
        PyStmt::AnnAssign { target } => {
            match target {
                PyExpr::Name(id) => {
                    let c = is_constant_name(id.as_str());
                    out.push(PythonVariable { name: copy_text(id), line: start + i, value_type: PythonValueType::Unknown, is_constant: c });
                },
                _ => {},
            }
        },
        PyStmt::FunctionDef { body, .. } => {
            assert(decreases_to!(*s => *body));
            assert(decreases_to!(*body => body@));
            collect_body_variables(body, start + i + 1, out);
        },
        PyStmt::ClassDef { body } => {
            assert(decreases_to!(*s => *body));
            assert(decreases_to!(*body => body@));
            collect_body_variables(body, start + i + 1, out);
        },
        _ => {},
    }
}

/// Appends the variables assigned in `body`, whose first statement is
/// numbered `start`.
pub fn collect_body_variables(body: &Vec<PyStmt>, start: u32, out: &mut Vec<PythonVariable>)
    requires
        body_fits(body@, start as int, body@.len() as int),
    ensures
        final(out)@.len() == old(out)@.len() + body_variables(body@, start as int, body@.len() as int).len(),
        forall|k: int| 0 <= k < old(out)@.len() ==> final(out)@[k] == old(out)@[k],
        forall|k: int| 0 <= k < body_variables(body@, start as int, body@.len() as int).len() ==> variable_is(
            #[trigger] final(out)@[old(out)@.len() + k], body_variables(body@, start as int, body@.len() as int)[k]),
    decreases body@,
{
    let ghost base = out@.len();
    let ghost o = out@;
    let mut i: usize = 0;
    while i < body.len()
        invariant
            i <= body@.len(),
            base == o.len(),
            body_fits(body@, start as int, body@.len() as int),
            out@.len() == base + body_variables(body@, start as int, i as int).len(),
            forall|k: int| 0 <= k < base ==> out@[k] == o[k],
            forall|k: int| 0 <= k < body_variables(body@, start as int, i as int).len() ==> variable_is(
                #[trigger] out@[base + k], body_variables(body@, start as int, i as int)[k]),
        decreases body@.len() - i,
    {
        proof {
            lemma_body_fits_prefix(body@, start as int, (i + 1) as int, body@.len() as int);
        }
        let ghost before = out@;
        let ghost g = body_variables(body@, start as int, i as int);
        assert(decreases_to!(body@ => body@[i as int]));
        collect_stmt_variables(&body[i], start, i as u32, out);
        let ghost h = stmt_variables(body@[i as int], start as int, i as int);
        assert(body_variables(body@, start as int, i + 1) == g + h);
        assert forall|k: int| 0 <= k < (g + h).len() implies variable_is(#[trigger] out@[base + k], (g + h)[k]) by {
            if k < g.len() {
                assert(out@[base + k] == before[base + k]);
            } else {
                assert(out@[before.len() + (k - g.len())] == out@[base + k]);
            }
        }
        i = i + 1;
    }
}


/// The view of an optional string.
pub open spec fn opt_text(o: Option<String>) -> Option<Seq<char>> {
    match o {
        Some(s) => Some(s@),
        None => None,
    }
}

/// The views of (name, alias) pairs.
pub open spec fn alias_views(v: Seq<(String, Option<String>)>) -> Seq<(Seq<char>, Option<Seq<char>>)> {
    v.map_values(|p: (String, Option<String>)| (p.0@, opt_text(p.1)))
}

/// An import the analysis reports.
pub enum ExpectedImport {
    /// `import name [as alias]` on statement `line`.
    Plain(Seq<char>, Option<Seq<char>>, int),
    /// `from ... import names` on statement `line`.
    From(Option<Seq<char>>, Option<u32>, Seq<(Seq<char>, Option<Seq<char>>)>, int),
}

/// `info` is the import `e`.
pub open spec fn import_is(info: ImportInfo, e: ExpectedImport) -> bool {
    &&& info.default_import is None
    &&& !info.type_only
    &&& match e {
        ExpectedImport::Plain(name, alias, line) => {
            &&& info.module@ == name
            &&& info.import_type == ImportType::PythonImport
            &&& info.named_imports@.len() == 0
            &&& info.namespace_import matches Some(n) && n@ == (match alias { Some(a) => a, None => name })
            &&& info.location == line_start(line)
        },
        ExpectedImport::From(module, level, names, line) => {
            &&& info.module@ == from_module_path(module, level)
            &&& info.import_type == ImportType::PythonFromImport
            &&& info.named_imports@.len() == names.len()
            &&& forall|k: int| 0 <= k < names.len() ==> (#[trigger] info.named_imports@[k]).name@ == names[k].0
                && opt_text(info.named_imports@[k].alias) == names[k].1 && !info.named_imports@[k].type_only
            &&& info.namespace_import is None
            &&& info.location == line_start(line)
        },
    }
}

/// The imports of statement `s`, the `line`-th top-level statement: one per
/// name of an `import`, one for a `from ... import`.
pub open spec fn stmt_imports(s: PyStmt, line: int) -> Seq<ExpectedImport> {
    match s {
        PyStmt::Import { names } => Seq::new(names@.len(), |k: int| ExpectedImport::Plain(names@[k].0@, opt_text(names@[k].1), line)),
        PyStmt::ImportFrom { module, names, level } => seq![ExpectedImport::From(opt_text(module), level, alias_views(names@), line)],
        _ => Seq::empty(),
    }
}

/// The imports of the first `k` top-level statements, numbered from 0.
pub open spec fn module_imports(body: Seq<PyStmt>, k: int) -> Seq<ExpectedImport>
    decreases k,
{
    if k <= 0 || k > body.len() {
        Seq::empty()
    } else {
        module_imports(body, k - 1) + stmt_imports(body[k - 1], k - 1)
    }
}

fn copy_opt(o: &Option<String>) -> (r: Option<String>)
    ensures
        opt_text(r) == opt_text(*o),
{
    match o {
        Some(s) => Some(copy_text(s)),
        None => None,
    }
}

fn copy_aliases(v: &Vec<(String, Option<String>)>) -> (r: Vec<(String, Option<String>)>)
    ensures
        alias_views(r@) == alias_views(v@),
{
    let mut out: Vec<(String, Option<String>)> = Vec::new();
    let mut i: usize = 0;
    while i < v.len()
        invariant
            i <= v@.len(),
            alias_views(out@) == alias_views(v@).subrange(0, i as int),
        decreases v@.len() - i,
    {
        let ghost o = alias_views(out@);
        let (n, a) = &v[i];
        out.push((copy_text(n), copy_opt(a)));
        assert(alias_views(out@) =~= o.push((v@[i as int].0@, opt_text(v@[i as int].1))));
        assert(alias_views(v@).subrange(0, i + 1) =~= alias_views(v@).subrange(0, i as int).push((v@[i as int].0@, opt_text(v@[i as int].1))));
        i = i + 1;
    }
    assert(alias_views(v@).subrange(0, v@.len() as int) =~= alias_views(v@));
    out
}

/// The imports of a parsed module, each numbered by its top-level statement.
pub fn module_import_infos(body: &Vec<PyStmt>) -> (r: Vec<ImportInfo>)
    requires
        body@.len() <= u32::MAX,
    ensures
        r@.len() == module_imports(body@, body@.len() as int).len(),
        forall|k: int| 0 <= k < r@.len() ==> import_is(#[trigger] r@[k], module_imports(body@, body@.len() as int)[k]),
{
    let mut out: Vec<ImportInfo> = Vec::new();
    let mut line: u32 = 0;
    let mut i: usize = 0;
    while i < body.len()
        invariant
            i <= body@.len() <= u32::MAX,
            line == i,
            out@.len() == module_imports(body@, i as int).len(),
            forall|k: int| 0 <= k < out@.len() ==> import_is(#[trigger] out@[k], module_imports(body@, i as int)[k]),
        decreases body@.len() - i,
    {
        let ghost before = out@;
        let ghost g = module_imports(body@, i as int);
        match &body[i] {
            PyStmt::Import { names } => {
                let mut j: usize = 0;
                while j < names.len()
                    invariant
                        j <= names@.len(),
                        line == i,
                        out@.len() == before.len() + j,
                        forall|k: int| 0 <= k < before.len() ==> out@[k] == before[k],
                        forall|k: int| 0 <= k < j ==> import_is(#[trigger] out@[before.len() + k],
                            ExpectedImport::Plain(names@[k].0@, opt_text(names@[k].1), line as int)),
                    decreases names@.len() - j,
                {
                    let (n, a) = &names[j];
                    out.push(plain_import_info(n.as_str(), copy_opt(a), line));
                    j = j + 1;
                }
            },
            PyStmt::ImportFrom { module, names, level } => {
                out.push(from_import_info(copy_opt(module), *level, copy_aliases(names), line));
            },
            _ => {},
        }
        proof {
            let h = stmt_imports(body@[i as int], i as int);
            assert(module_imports(body@, i + 1) == g + h);
            assert forall|k: int| 0 <= k < (g + h).len() implies import_is(#[trigger] out@[k], (g + h)[k]) by {
                if k < g.len() {
                    assert(out@[k] == before[k]);
                } else {
                    assert(out@[before.len() + (k - g.len())] == out@[k]);
                }
            }
        }
        line = line + 1;
        i = i + 1;
    }
    out
}

/// The function definitions of a parsed module; its statements are numbered
/// from 0.
pub fn module_functions(body: &Vec<PyStmt>) -> (r: Vec<PythonFunction>)
    requires
        body_fits(body@, 0, body@.len() as int),
    ensures
        r@.len() == body_functions(body@, 0, body@.len() as int).len(),
        forall|k: int| 0 <= k < r@.len() ==> function_is(#[trigger] r@[k], body_functions(body@, 0, body@.len() as int)[k]),
{
    let mut out: Vec<PythonFunction> = Vec::new();
    collect_body_functions(body, 0, &mut out);
    assert forall|k: int| 0 <= k < out@.len() implies function_is(#[trigger] out@[k], body_functions(body@, 0, body@.len() as int)[k]) by {
        assert(out@[0 + k] == out@[k]);
    }
    out
}

/// The variable assignments of a parsed module; its statements are numbered
/// from 0.
pub fn module_variables(body: &Vec<PyStmt>) -> (r: Vec<PythonVariable>)
    requires
        body_fits(body@, 0, body@.len() as int),
    ensures
        r@.len() == body_variables(body@, 0, body@.len() as int).len(),
        forall|k: int| 0 <= k < r@.len() ==> variable_is(#[trigger] r@[k], body_variables(body@, 0, body@.len() as int)[k]),
{
    let mut out: Vec<PythonVariable> = Vec::new();
    collect_body_variables(body, 0, &mut out);
    assert forall|k: int| 0 <= k < out@.len() implies variable_is(#[trigger] out@[k], body_variables(body@, 0, body@.len() as int)[k]) by {
        assert(out@[0 + k] == out@[k]);
    }
    out
}


fn stmt_fits_exec(s: &PyStmt, start: u64, i: u64) -> (r: bool)
    requires
        start <= u32::MAX,
        i <= u32::MAX,
    ensures
        r == stmt_fits(*s, start as int, i as int),
    decreases s,
{
    let next = start + i + 1;
    match s {
        PyStmt::FunctionDef { body, .. } => {
            if next > u32::MAX as u64 || body.len() as u64 > u32::MAX as u64 - next {
                return false;
            }
            assert(decreases_to!(*s => *body));
            assert(decreases_to!(*body => body@));
            body_fits_exec(body, next)
        },
        PyStmt::ClassDef { body } => {
            if next > u32::MAX as u64 {
                return false;
            }
            assert(decreases_to!(*s => *body));
            assert(decreases_to!(*body => body@));
            body_fits_exec(body, next)
        },
        _ => next <= u32::MAX as u64,
    }
}

/// Whether every number the walk over `body` (numbered from `start`)
/// computes fits in a `u32`.
pub fn body_fits_exec(body: &Vec<PyStmt>, start: u64) -> (r: bool)
    requires
        start <= u32::MAX,
    ensures
        r == body_fits(body@, start as int, body@.len() as int),
    decreases body@,
{
    let mut i: usize = 0;
    while i < body.len()
        invariant
            i <= body@.len(),
            start <= u32::MAX,
            body_fits(body@, start as int, i as int),
        decreases body@.len() - i,
    {
        if i as u64 > u32::MAX as u64 {
            proof {
                lemma_long_body_does_not_fit(body@, start as int, i as int);
                lemma_fits_stays_false(body@, start as int, (i + 1) as int, body@.len() as int);
            }
            return false;
        }
        assert(decreases_to!(body@ => body@[i as int]));
        if !stmt_fits_exec(&body[i], start, i as u64) {
            proof {
                lemma_fits_stays_false(body@, start as int, (i + 1) as int, body@.len() as int);
            }
            return false;
        }
        i = i + 1;
    }
    true
}

proof fn lemma_long_body_does_not_fit(body: Seq<PyStmt>, start: int, i: int)
    requires
        0 <= start,
        u32::MAX < i < body.len(),
    ensures
        !stmt_fits(body[i], start, i),
{
}

proof fn lemma_fits_stays_false(body: Seq<PyStmt>, start: int, a: int, b: int)
    requires
        0 < a <= b <= body.len(),
        !body_fits(body, start, a),
    ensures
        !body_fits(body, start, b),
    decreases b - a,
{
    if a < b {
        lemma_fits_stays_false(body, start, a, b - 1);
    }
}

} // verus!
