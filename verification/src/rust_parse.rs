//! Parsing Rust source with syn, and the imports and function names read from
//! the parsed file in the order syn's visitor meets them.

use vstd::prelude::*;
use crate::imports::ImportInfo;
use crate::package_extractor::AstError;
use crate::python_refactor::texts;
use crate::rust_imports::{UseTreeModel, UseImport, tree_imports, records_use, collect_use_tree};
use crate::text::{str_chars, chars_to_string, append_str};

verus! {

#[verifier::external_type_specification]
#[verifier::external_body]
pub struct ExSynFile(syn::File);

#[verifier::external_type_specification]
#[verifier::external_body]
pub struct ExSynItem(syn::Item);

#[verifier::external_type_specification]
#[verifier::external_body]
pub struct ExSynImplItem(syn::ImplItem);

#[verifier::external_type_specification]
#[verifier::external_body]
pub struct ExSynTraitItem(syn::TraitItem);

#[verifier::external_type_specification]
#[verifier::external_body]
pub struct ExSynBlock(syn::Block);

#[verifier::external_type_specification]
#[verifier::external_body]
pub struct ExSynStmt(syn::Stmt);

#[verifier::external_type_specification]
#[verifier::external_body]
pub struct ExSynExpr(syn::Expr);

#[verifier::external_type_specification]
#[verifier::external_body]
pub struct ExSynUseTree(syn::UseTree);

/// What an item is, as far as imports and function names go.
#[derive(Debug)]
pub enum RustItemKind {
    /// A `use` item and its tree.
    Use(UseTreeModel),
    /// A function item and its name.
    Fn(String),
    /// Any other item.
    Other,
}

/// An item met by syn's visitor, or a method of an `impl` block, with the
/// items and methods met inside it, in visiting order.
#[derive(Debug)]
pub enum RustItemModel {
    /// An item and what it holds.
    Item { kind: RustItemKind, inner: Vec<RustItemModel> },
    /// A method of an `impl` block and what its body holds.
    ImplFn { name: String, inner: Vec<RustItemModel> },
}

/// The items of `syn::parse_str::<syn::File>(source)`, or the display text of
/// its error.
pub uninterp spec fn rust_items_of(source: Seq<char>) -> Result<Seq<RustItemModel>, Seq<char>>;

/// The items of `syn::parse_file(source)`, or the display text of its error.
pub uninterp spec fn rust_file_items_of(source: Seq<char>) -> Result<Seq<RustItemModel>, Seq<char>>;

/// The model of a `use` tree.
#[verifier::external_body]
fn use_tree_model(t: &syn::UseTree) -> (r: UseTreeModel) {
    match t {
        syn::UseTree::Path(p) => UseTreeModel::Path { ident: p.ident.to_string(), tree: Box::new(use_tree_model(&p.tree)) },
        syn::UseTree::Name(n) => UseTreeModel::Name { ident: n.ident.to_string() },
        syn::UseTree::Rename(r) => UseTreeModel::Rename { ident: r.ident.to_string(), rename: r.rename.to_string() },
        syn::UseTree::Glob(_) => UseTreeModel::Glob,
        syn::UseTree::Group(g) => UseTreeModel::Group { items: g.items.iter().map(use_tree_model).collect() },
    }
}

/// The kind of an item.
#[verifier::external_body]
fn item_kind(i: &syn::Item) -> (r: RustItemKind) {
    match i {
        syn::Item::Use(u) => RustItemKind::Use(use_tree_model(&u.tree)),
        syn::Item::Fn(f) => RustItemKind::Fn(f.sig.ident.to_string()),
        _ => RustItemKind::Other,
    }
}

/// Appends the models of a list of items.
#[verifier::external_body]
fn walk_items(items: &[syn::Item], out: &mut Vec<RustItemModel>) {
    for i in items {
        walk_item(i, out);
    }
}

/// Appends the model of an item, with the models of what it holds.
#[verifier::external_body]
fn walk_item(i: &syn::Item, out: &mut Vec<RustItemModel>) {
    let mut inner = Vec::new();
    walk_item_parts(i, &mut inner);
    out.push(RustItemModel::Item { kind: item_kind(i), inner });
}

/// Appends the models of what an item holds.
#[verifier::external_body]
fn walk_item_parts(i: &syn::Item, out: &mut Vec<RustItemModel>) {
    match i {
        syn::Item::Fn(f) => walk_block(&f.block, out),
        syn::Item::Mod(m) => m.content.iter().for_each(|c| walk_items(&c.1, out)),
        syn::Item::Impl(m) => m.items.iter().for_each(|it| walk_impl_item(it, out)),
        syn::Item::Trait(t) => t.items.iter().for_each(|it| walk_trait_item(it, out)),
        syn::Item::Const(c) => walk_expr(&c.expr, out),
        syn::Item::Static(s) => walk_expr(&s.expr, out),
        _ => walk_enum(i, out),
    }
}

/// Appends the models of what the discriminants of an enum hold.
#[verifier::external_body]
fn walk_enum(i: &syn::Item, out: &mut Vec<RustItemModel>) {
    match i {
        syn::Item::Enum(e) => e.variants.iter().for_each(|v| v.discriminant.iter().for_each(|d| walk_expr(&d.1, out))),
        _ => {},
    }
}

/// Appends the model of what an item of an `impl` block holds (a method
/// with its body's models).
#[verifier::external_body]
fn walk_impl_item(it: &syn::ImplItem, out: &mut Vec<RustItemModel>) {
    match it {
        syn::ImplItem::Fn(f) => {
            let mut inner = Vec::new();
            walk_block(&f.block, &mut inner);
            out.push(RustItemModel::ImplFn { name: f.sig.ident.to_string(), inner });
        },
        syn::ImplItem::Const(c) => walk_expr(&c.expr, out),
        _ => {},
    }
}

/// Appends the models of what an item of a trait holds.
#[verifier::external_body]
fn walk_trait_item(it: &syn::TraitItem, out: &mut Vec<RustItemModel>) {
    match it {
        syn::TraitItem::Fn(f) => f.default.iter().for_each(|b| walk_block(b, out)),
        syn::TraitItem::Const(c) => c.default.iter().for_each(|d| walk_expr(&d.1, out)),
        _ => {},
    }
}

/// Appends the models of what the statements of a block hold.
#[verifier::external_body]
fn walk_block(b: &syn::Block, out: &mut Vec<RustItemModel>) {
    for s in &b.stmts {
        walk_stmt(s, out);
    }
}

/// Appends the models of what a statement holds.
#[verifier::external_body]
fn walk_stmt(s: &syn::Stmt, out: &mut Vec<RustItemModel>) {
    match s {
        syn::Stmt::Item(i) => walk_item(i, out),
        syn::Stmt::Expr(e, _) => walk_expr(e, out),
        syn::Stmt::Local(l) => l.init.iter().for_each(|init| {
            walk_expr(&init.expr, out);
            init.diverge.iter().for_each(|d| walk_expr(&d.1, out));
        }),
        _ => {},
    }
}

/// Walks an expression that holds a block.
#[verifier::external_body]
fn walk_expr(e: &syn::Expr, out: &mut Vec<RustItemModel>) {
    match e {
        syn::Expr::Block(b) => walk_block(&b.block, out),
        syn::Expr::Async(b) => walk_block(&b.block, out),
        syn::Expr::Const(b) => walk_block(&b.block, out),
        syn::Expr::Unsafe(b) => walk_block(&b.block, out),
        syn::Expr::TryBlock(b) => walk_block(&b.block, out),
        syn::Expr::Loop(b) => walk_block(&b.body, out),
        syn::Expr::Closure(c) => walk_expr(&c.body, out),
        _ => walk_control(e, out),
    }
}

/// Walks a conditional, a loop over a condition or an iterator, or a match.
#[verifier::external_body]
fn walk_control(e: &syn::Expr, out: &mut Vec<RustItemModel>) {
    match e {
        syn::Expr::If(i) => {
            walk_expr(&i.cond, out);
            walk_block(&i.then_branch, out);
            i.else_branch.iter().for_each(|x| walk_expr(&x.1, out));
        },
        syn::Expr::While(w) => {
            walk_expr(&w.cond, out);
            walk_block(&w.body, out);
        },
        _ => walk_match(e, out),
    }
}

/// Walks a match: the scrutinee, then each arm's guard and body.
#[verifier::external_body]
fn walk_match(e: &syn::Expr, out: &mut Vec<RustItemModel>) {
    match e {
        syn::Expr::Match(m) => {
            walk_expr(&m.expr, out);
            for a in &m.arms {
                a.guard.iter().for_each(|g| walk_expr(&g.1, out));
                walk_expr(&a.body, out);
            }
        },
        syn::Expr::ForLoop(f) => {
            walk_expr(&f.expr, out);
            walk_block(&f.body, out);
        },
        _ => walk_operands(e, out),
    }
}

/// Walks the operands of an expression with two or more of them.
#[verifier::external_body]
fn walk_operands(e: &syn::Expr, out: &mut Vec<RustItemModel>) {
    match e {
        syn::Expr::Assign(a) => [&*a.left, &*a.right].iter().for_each(|x| walk_expr(x, out)),
        syn::Expr::Binary(b) => [&*b.left, &*b.right].iter().for_each(|x| walk_expr(x, out)),
        syn::Expr::Index(x) => [&*x.expr, &*x.index].iter().for_each(|y| walk_expr(y, out)),
        syn::Expr::Repeat(r) => [&*r.expr, &*r.len].iter().for_each(|y| walk_expr(y, out)),
        _ => walk_calls(e, out),
    }
}

/// Walks the callee or receiver of a call, then its arguments.
#[verifier::external_body]
fn walk_calls(e: &syn::Expr, out: &mut Vec<RustItemModel>) {
    match e {
        syn::Expr::Call(c) => std::iter::once(&*c.func).chain(c.args.iter()).for_each(|y| walk_expr(y, out)),
        syn::Expr::MethodCall(m) => std::iter::once(&*m.receiver).chain(m.args.iter()).for_each(|y| walk_expr(y, out)),
        _ => walk_lists(e, out),
    }
}

/// Walks the parts of an array, tuple, struct literal or range.
#[verifier::external_body]
fn walk_lists(e: &syn::Expr, out: &mut Vec<RustItemModel>) {
    match e {
        syn::Expr::Array(a) => a.elems.iter().for_each(|x| walk_expr(x, out)),
        syn::Expr::Tuple(t) => t.elems.iter().for_each(|x| walk_expr(x, out)),
        syn::Expr::Struct(s) => s.fields.iter().map(|f| &f.expr).chain(s.rest.as_deref()).for_each(|x| walk_expr(x, out)),
        syn::Expr::Range(r) => r.start.iter().chain(r.end.iter()).for_each(|x| walk_expr(x, out)),
        _ => walk_inner(e, out),
    }
}

/// Walks the one operand of an expression that has one.
#[verifier::external_body]
fn walk_inner(e: &syn::Expr, out: &mut Vec<RustItemModel>) {
    match e {
        syn::Expr::Await(x) => walk_expr(&x.base, out),
        syn::Expr::Cast(x) => walk_expr(&x.expr, out),
        syn::Expr::Field(x) => walk_expr(&x.base, out),
        syn::Expr::Group(x) => walk_expr(&x.expr, out),
        syn::Expr::Let(x) => walk_expr(&x.expr, out),
        syn::Expr::Paren(x) => walk_expr(&x.expr, out),
        _ => walk_inner_more(e, out),
    }
}

/// Walks the one operand of the remaining expressions that have one.
#[verifier::external_body]
fn walk_inner_more(e: &syn::Expr, out: &mut Vec<RustItemModel>) {
    match e {
        syn::Expr::RawAddr(x) => walk_expr(&x.expr, out),
        syn::Expr::Reference(x) => walk_expr(&x.expr, out),
        syn::Expr::Try(x) => walk_expr(&x.expr, out),
        syn::Expr::Unary(x) => walk_expr(&x.expr, out),
        syn::Expr::Break(x) => x.expr.iter().for_each(|y| walk_expr(y, out)),
        syn::Expr::Return(x) => x.expr.iter().for_each(|y| walk_expr(y, out)),
        syn::Expr::Yield(x) => x.expr.iter().for_each(|y| walk_expr(y, out)),
        _ => {},
    }
}

/// Calls `syn::parse_str::<syn::File>` and hands out the file's items as the
/// library's model: each item with the items, `impl` methods, blocks and
/// expressions it holds (types, patterns and attributes are not entered), in
/// the order syn's visitor meets them. The result is named, not described.
#[verifier::external_body]
pub(crate) fn parse_rust_items(source: &str) -> (r: Result<Vec<RustItemModel>, String>)
    ensures
        match r {
            Ok(v) => rust_items_of(source@) == Ok::<Seq<RustItemModel>, Seq<char>>(v@),
            Err(e) => rust_items_of(source@) == Err::<Seq<RustItemModel>, Seq<char>>(e@),
        },
{
    match syn::parse_str::<syn::File>(source) {
        Ok(f) => {
            let mut out = Vec::new();
            walk_items(&f.items, &mut out);
            Ok(out)
        },
        Err(e) => Err(e.to_string()),
    }
}

/// Calls `syn::parse_file` (which drops a leading byte-order mark and a
/// shebang line) and hands out the file's items as above. The result is
/// named, not described.
#[verifier::external_body]
pub(crate) fn parse_rust_file_items(source: &str) -> (r: Result<Vec<RustItemModel>, String>)
    ensures
        match r {
            Ok(v) => rust_file_items_of(source@) == Ok::<Seq<RustItemModel>, Seq<char>>(v@),
            Err(e) => rust_file_items_of(source@) == Err::<Seq<RustItemModel>, Seq<char>>(e@),
        },
{
    match syn::parse_file(source) {
        Ok(f) => {
            let mut out = Vec::new();
            walk_items(&f.items, &mut out);
            Ok(out)
        },
        Err(e) => Err(e.to_string()),
    }
}

/// The imports of an item of kind `kind` numbered `line`: those of its tree,
/// under an empty prefix, for a `use` item; none for another.
pub open spec fn own_imports(kind: RustItemKind, line: int) -> Seq<(UseImport, int)> {
    match kind {
        RustItemKind::Use(t) => tree_imports(t, ""@).map_values(|m: UseImport| (m, line)),
        _ => Seq::empty(),
    }
}

/// Visiting `n` after `line` items: the count of items visited once `n` and
/// what it holds are, and the imports met on the way, each with the number
/// of its `use` item. An item counts one before what it holds is visited.
pub open spec fn node_visit(n: RustItemModel, line: int) -> (int, Seq<(UseImport, int)>)
    decreases n,
{
    match n {
        RustItemModel::Item { kind, inner } => {
            let r = forest_visit(inner@, inner@.len() as int, line + 1);
            (r.0, own_imports(kind, line + 1) + r.1)
        },
        RustItemModel::ImplFn { name, inner } => forest_visit(inner@, inner@.len() as int, line),
    }
}

/// Visiting the first `k` nodes of `s`, in order, after `line` items.
pub open spec fn forest_visit(s: Seq<RustItemModel>, k: int, line: int) -> (int, Seq<(UseImport, int)>)
    decreases s, k,
{
    if k <= 0 || k > s.len() {
        (line, Seq::empty())
    } else {
        let a = forest_visit(s, k - 1, line);
        let b = node_visit(s[k - 1], a.0);
        (b.0, a.1 + b.1)
    }
}

/// The imports of a file's items, each with the number of its `use` item
/// (the count of items visited up to and including it).
pub open spec fn imports_in_visit_order(items: Seq<RustItemModel>) -> Seq<(UseImport, int)> {
    forest_visit(items, items.len() as int, 0).1
}

/// The number of items of a file, nested ones included.
pub open spec fn items_visited(items: Seq<RustItemModel>) -> int {
    forest_visit(items, items.len() as int, 0).0
}

/// `out` is `before` followed by the records of the imports `added`.
pub open spec fn extends_with(out: Seq<ImportInfo>, before: Seq<ImportInfo>, added: Seq<(UseImport, int)>) -> bool {
    &&& out.len() == before.len() + added.len()
    &&& forall|k: int| 0 <= k < before.len() ==> out[k] == before[k]
    &&& forall|k: int| 0 <= k < added.len() ==> records_use(#[trigger] out[before.len() + k], added[k].0, added[k].1)
}

/// `v` records the imports of the items, in visiting order.
pub open spec fn imports_recorded(v: Seq<ImportInfo>, items: Seq<RustItemModel>) -> bool {
    let ms = imports_in_visit_order(items);
    &&& v.len() == ms.len()
    &&& forall|k: int| 0 <= k < v.len() ==> records_use(#[trigger] v[k], ms[k].0, ms[k].1)
}

proof fn lemma_node_visit_grows(n: RustItemModel, line: int)
    ensures
        node_visit(n, line).0 >= line,
    decreases n,
{
    match n {
        RustItemModel::Item { kind, inner } => {
            lemma_forest_visit_grows(inner@, inner@.len() as int, inner@.len() as int, line + 1);
        },
        RustItemModel::ImplFn { name, inner } => {
            lemma_forest_visit_grows(inner@, inner@.len() as int, inner@.len() as int, line);
        },
    }
}

proof fn lemma_forest_visit_grows(s: Seq<RustItemModel>, j: int, k: int, line: int)
    requires
        0 <= j <= k <= s.len(),
    ensures
        line <= forest_visit(s, j, line).0 <= forest_visit(s, k, line).0,
    decreases s, k,
{
    if k > 0 {
        if j < k {
            lemma_forest_visit_grows(s, j, k - 1, line);
        } else {
            lemma_forest_visit_grows(s, k - 1, k - 1, line);
        }
        lemma_node_visit_grows(s[k - 1], forest_visit(s, k - 1, line).0);
    }
}

proof fn lemma_extends_chain(a: Seq<ImportInfo>, b: Seq<ImportInfo>, c: Seq<ImportInfo>,
    x: Seq<(UseImport, int)>, y: Seq<(UseImport, int)>)
    requires
        extends_with(b, a, x),
        extends_with(c, b, y),
    ensures
        extends_with(c, a, x + y),
{
    assert forall|k: int| 0 <= k < (x + y).len() implies records_use(
        #[trigger] c[a.len() + k], (x + y)[k].0, (x + y)[k].1) by {
        if k < x.len() {
            assert(c[a.len() + k] == b[a.len() + k]);
        } else {
            assert(c[b.len() + (k - x.len())] == c[a.len() + k]);
        }
    }
}

/// Appends the imports met visiting `n` after `*line` items, and counts the
/// items it holds into `*line`.
fn node_imports(n: &RustItemModel, line: &mut u32, out: &mut Vec<ImportInfo>)
    requires
        node_visit(*n, *old(line) as int).0 <= u32::MAX,
    ensures
        *final(line) as int == node_visit(*n, *old(line) as int).0,
        extends_with(final(out)@, old(out)@, node_visit(*n, *old(line) as int).1),
    decreases *n,
{
    let ghost l0 = *line as int;
    let ghost o0 = out@;
    match n {
        RustItemModel::Item { kind, inner } => {
            proof {
                lemma_forest_visit_grows(inner@, inner@.len() as int, inner@.len() as int, l0 + 1);
            }
            *line = *line + 1;
            let ghost own = own_imports(*kind, l0 + 1);
            match kind {
                RustItemKind::Use(t) => {
                    collect_use_tree(t, "", *line, out);
                    assert(extends_with(out@, o0, own));
                },
                _ => {
                    assert(extends_with(out@, o0, own));
                },
            }
            let ghost o1 = out@;
            proof {
                assert(decreases_to!(*n => *inner));
                assert(decreases_to!(*inner => inner@));
            }
            forest_imports(inner, line, out);
            proof {
                lemma_extends_chain(o0, o1, out@, own,
                    forest_visit(inner@, inner@.len() as int, l0 + 1).1);
            }
        },
        RustItemModel::ImplFn { name, inner } => {
            proof {
                assert(decreases_to!(*n => *inner));
                assert(decreases_to!(*inner => inner@));
            }
            forest_imports(inner, line, out);
        },
    }
}

/// Appends the imports met visiting the nodes of `items`, in order, after
/// `*line` items, and counts the items they hold into `*line`.
fn forest_imports(items: &Vec<RustItemModel>, line: &mut u32, out: &mut Vec<ImportInfo>)
    requires
        forest_visit(items@, items@.len() as int, *old(line) as int).0 <= u32::MAX,
    ensures
        *final(line) as int == forest_visit(items@, items@.len() as int, *old(line) as int).0,
        extends_with(final(out)@, old(out)@, forest_visit(items@, items@.len() as int, *old(line) as int).1),
    decreases items@,
{
    let ghost l0 = *line as int;
    let ghost o0 = out@;
    let mut i: usize = 0;
    while i < items.len()
        invariant
            i <= items@.len(),
            forest_visit(items@, items@.len() as int, l0).0 <= u32::MAX,
            *line as int == forest_visit(items@, i as int, l0).0,
            extends_with(out@, o0, forest_visit(items@, i as int, l0).1),
        decreases items@.len() - i,
    {
        proof {
            lemma_forest_visit_grows(items@, i + 1, items@.len() as int, l0);
            assert(decreases_to!(items@ => items@[i as int]));
        }
        let ghost before = out@;
        let ghost f = forest_visit(items@, i as int, l0);
        node_imports(&items[i], line, out);
        proof {
            lemma_extends_chain(o0, before, out@, f.1, node_visit(items@[i as int], f.0).1);
        }
        i = i + 1;
    }
}

/// The imports of a file's items, each numbered by the count of items
/// visited up to and including its own `use` item.
pub fn imports_of_items(items: &Vec<RustItemModel>) -> (r: Vec<ImportInfo>)
    requires
        items_visited(items@) <= u32::MAX,
    ensures
        imports_recorded(r@, items@),
{
    let mut line: u32 = 0;
    let mut out: Vec<ImportInfo> = Vec::new();
    forest_imports(items, &mut line, &mut out);
    assert forall|k: int| 0 <= k < out@.len() implies records_use(#[trigger] out@[k],
        imports_in_visit_order(items@)[k].0, imports_in_visit_order(items@)[k].1) by {
        assert(out@[0 + k] == out@[k]);
    }
    out
}

/// The names of the functions and `impl` methods met visiting `n`, in order.
pub open spec fn node_names(n: RustItemModel) -> Seq<Seq<char>>
    decreases n,
{
    match n {
        RustItemModel::Item { kind, inner } => (match kind {
            RustItemKind::Fn(name) => seq![name@],
            _ => Seq::empty(),
        }) + forest_names(inner@, inner@.len() as int),
        RustItemModel::ImplFn { name, inner } => seq![name@] + forest_names(inner@, inner@.len() as int),
    }
}

/// The names of the functions and methods met visiting the first `k` nodes.
pub open spec fn forest_names(s: Seq<RustItemModel>, k: int) -> Seq<Seq<char>>
    decreases s, k,
{
    if k <= 0 || k > s.len() {
        Seq::empty()
    } else {
        forest_names(s, k - 1) + node_names(s[k - 1])
    }
}

/// The names of the functions and methods of a file's items, in visiting
/// order.
pub open spec fn functions_in_visit_order(items: Seq<RustItemModel>) -> Seq<Seq<char>> {
    forest_names(items, items.len() as int)
}

fn push_name(out: &mut Vec<String>, name: &String)
    ensures
        texts(final(out)@) == texts(old(out)@).push(name@),
{
    let ghost o = texts(out@);
    out.push(chars_to_string(&str_chars(name.as_str())));
    assert(texts(out@) =~= o.push(name@));
}

fn node_functions(n: &RustItemModel, out: &mut Vec<String>)
    ensures
        texts(final(out)@) == texts(old(out)@) + node_names(*n),
    decreases *n,
{
    let ghost o = texts(out@);
    match n {
        RustItemModel::Item { kind, inner } => {
            match kind {
                RustItemKind::Fn(name) => {
                    push_name(out, name);
                },
                _ => {},
            }
            let ghost o1 = texts(out@);
            proof {
                assert(decreases_to!(*n => *inner));
                assert(decreases_to!(*inner => inner@));
            }
            forest_functions(inner, out);
            assert(texts(out@) =~= o + node_names(*n));
        },
        RustItemModel::ImplFn { name, inner } => {
            push_name(out, name);
            proof {
                assert(decreases_to!(*n => *inner));
                assert(decreases_to!(*inner => inner@));
            }
            forest_functions(inner, out);
            assert(texts(out@) =~= o + node_names(*n));
        },
    }
}

fn forest_functions(items: &Vec<RustItemModel>, out: &mut Vec<String>)
    ensures
        texts(final(out)@) == texts(old(out)@) + forest_names(items@, items@.len() as int),
    decreases items@,
{
    let ghost o = texts(out@);
    let mut i: usize = 0;
    while i < items.len()
        invariant
            i <= items@.len(),
            texts(out@) == o + forest_names(items@, i as int),
        decreases items@.len() - i,
    {
        proof {
            assert(decreases_to!(items@ => items@[i as int]));
        }
        let ghost before = texts(out@);
        node_functions(&items[i], out);
        assert(texts(out@) =~= o + forest_names(items@, i + 1));
        i = i + 1;
    }
}

/// The names of the functions and methods of a file's items, in visiting
/// order.
pub fn functions_of_items(items: &Vec<RustItemModel>) -> (r: Vec<String>)
    ensures
        texts(r@) == functions_in_visit_order(items@),
{
    let mut out: Vec<String> = Vec::new();
    assert(texts(out@) =~= Seq::<Seq<char>>::empty());
    forest_functions(items, &mut out);
    assert(texts(out@) =~= functions_in_visit_order(items@));
    out
}

/// The count of items after visiting `n` from `line`, or `None` once it
/// passes `u32::MAX`.
fn node_count(n: &RustItemModel, line: u64) -> (r: Option<u64>)
    requires
        line <= u32::MAX,
    ensures
        match r {
            Some(c) => c as int == node_visit(*n, line as int).0 && c <= u32::MAX,
            None => node_visit(*n, line as int).0 > u32::MAX,
        },
    decreases *n,
{
    match n {
        RustItemModel::Item { kind, inner } => {
            if line == u32::MAX as u64 {
                proof {
                    lemma_forest_visit_grows(inner@, inner@.len() as int, inner@.len() as int, line + 1);
                }
                return None;
            }
            proof {
                assert(decreases_to!(*n => *inner));
                assert(decreases_to!(*inner => inner@));
            }
            forest_count(inner, line + 1)
        },
        RustItemModel::ImplFn { name, inner } => {
            proof {
                assert(decreases_to!(*n => *inner));
                assert(decreases_to!(*inner => inner@));
            }
            forest_count(inner, line)
        },
    }
}

/// The count of items after visiting the nodes of `items` from `line`, or
/// `None` once it passes `u32::MAX`.
fn forest_count(items: &Vec<RustItemModel>, line: u64) -> (r: Option<u64>)
    requires
        line <= u32::MAX,
    ensures
        match r {
            Some(c) => c as int == forest_visit(items@, items@.len() as int, line as int).0 && c <= u32::MAX,
            None => forest_visit(items@, items@.len() as int, line as int).0 > u32::MAX,
        },
    decreases items@,
{
    let mut c: u64 = line;
    let mut i: usize = 0;
    while i < items.len()
        invariant
            i <= items@.len(),
            line <= u32::MAX,
            c <= u32::MAX,
            c as int == forest_visit(items@, i as int, line as int).0,
        decreases items@.len() - i,
    {
        proof {
            assert(decreases_to!(items@ => items@[i as int]));
        }
        match node_count(&items[i], c) {
            Some(next) => {
                c = next;
            },
            None => {
                proof {
                    lemma_forest_visit_grows(items@, i + 1, items@.len() as int, line as int);
                }
                return None;
            },
        }
        i = i + 1;
    }
    Some(c)
}

/// The source's items parse, and number within `u32`.
pub open spec fn rust_imports_fit(source: Seq<char>) -> bool {
    match rust_items_of(source) {
        Ok(items) => items_visited(items) <= u32::MAX,
        Err(_) => true,
    }
}

/// `r` is what parsing the source for imports reports.
pub open spec fn rust_imports_reported(source: Seq<char>, r: Result<Vec<ImportInfo>, AstError>) -> bool {
    match rust_items_of(source) {
        Err(m) => r matches Err(AstError::Analysis { message }) && message@ == "Failed to parse Rust source: "@ + m,
        Ok(items) => r matches Ok(v) && imports_recorded(v@, items),
    }
}

fn prefixed(prefix: &str, rest: &str) -> (s: String)
    ensures
        s@ == prefix@ + rest@,
{
    let mut v = str_chars(prefix);
    append_str(&mut v, rest);
    chars_to_string(&v)
}

/// The imports declared by the `use` items of Rust source, each numbered by
/// the count of items visited up to and including its own.
pub fn parse_rust_imports_ast(source: &str) -> (r: Result<Vec<ImportInfo>, AstError>)
    requires
        rust_imports_fit(source@),
    ensures
        rust_imports_reported(source@, r),
{
    match parse_rust_items(source) {
        Ok(items) => Ok(imports_of_items(&items)),
        Err(m) => Err(AstError::Analysis { message: prefixed("Failed to parse Rust source: ", m.as_str()) }),
    }
}

/// The imports of Rust source, or `None` when the source has more items than
/// the item counter holds.
pub fn parse_rust_imports_checked(source: &str) -> (r: Option<Result<Vec<ImportInfo>, AstError>>)
    ensures
        r is Some <==> rust_imports_fit(source@),
        r matches Some(x) ==> rust_imports_reported(source@, x),
{
    match parse_rust_items(source) {
        Ok(items) => match forest_count(&items, 0) {
            Some(_) => Some(Ok(imports_of_items(&items))),
            None => None,
        },
        Err(m) => Some(Err(AstError::Analysis { message: prefixed("Failed to parse Rust source: ", m.as_str()) })),
    }
}

/// The names of the functions and methods of Rust source, in visiting order.
pub fn list_functions(source: &str) -> (r: Result<Vec<String>, AstError>)
    ensures
        match rust_file_items_of(source@) {
            Err(m) => r matches Err(AstError::Analysis { message }) && message@ == "Failed to parse Rust code: "@ + m,
            Ok(items) => r matches Ok(v) && texts(v@) == functions_in_visit_order(items),
        },
{
    match parse_rust_file_items(source) {
        Ok(items) => Ok(functions_of_items(&items)),
        Err(m) => Err(AstError::Analysis { message: prefixed("Failed to parse Rust code: ", m.as_str()) }),
    }
}

} // verus!
