//! Applying a workspace edit to the text of one file: range checks, the order
//! in which the edits are applied, and the edited text.

use vstd::prelude::*;
use crate::numeric::{decimal, usize_to_decimal};
use crate::text::{str_chars, chars_to_string, split_lines, vv, lines_of, append_str, append_chars, join_with, join_chars, slice_chars};

verus! {

/// One text edit of a workspace edit, with the positions as the request gave
/// them (a missing number reads as 0).
#[derive(Debug, Clone)]
pub struct WorkspaceTextEdit {
    pub start_line: usize,
    pub start_character: usize,
    pub end_line: usize,
    pub end_character: usize,
    /// The edit carries a range with both a start and an end.
    pub has_range: bool,
    /// The replacement text, where the edit carries one.
    pub new_text: Option<String>,
}

/// The edit is carried out: it has a range and a replacement text.
pub open spec fn takes_effect(e: WorkspaceTextEdit) -> bool {
    e.has_range && e.new_text is Some
}

/// The replacement text of an edit that has one.
pub open spec fn replacement_of(e: WorkspaceTextEdit) -> Seq<char> {
    match e.new_text {
        Some(t) => t@,
        None => Seq::empty(),
    }
}

/// Edit `a` is applied before edit `b`: it starts on a later line, or on the
/// same line and comes first in the request.
pub open spec fn applied_before(edits: Seq<WorkspaceTextEdit>, a: int, b: int) -> bool {
    edits[a].start_line > edits[b].start_line || (edits[a].start_line == edits[b].start_line && a < b)
}

/// `ord` lists every edit once, in the order of application.
pub open spec fn is_application_order(edits: Seq<WorkspaceTextEdit>, ord: Seq<usize>) -> bool {
    &&& ord.len() == edits.len()
    &&& forall|i: int| 0 <= i < ord.len() ==> ord[i] < edits.len()
    &&& forall|i: int, j: int| 0 <= i < j < ord.len() ==> applied_before(edits, #[trigger] ord[i] as int, #[trigger] ord[j] as int)
}

/// Where edit `i` goes among the ordered edits `ord`, looking from `p` on:
/// after every edit that starts on its line or a later one.
pub open spec fn insert_position(edits: Seq<WorkspaceTextEdit>, ord: Seq<usize>, i: int, p: int) -> int
    decreases ord.len() - p,
{
    if p >= ord.len() || p < 0 {
        p
    } else if edits[ord[p] as int].start_line >= edits[i].start_line {
        insert_position(edits, ord, i, p + 1)
    } else {
        p
    }
}

/// The order of application of the first `n` edits.
pub open spec fn application_order(edits: Seq<WorkspaceTextEdit>, n: int) -> Seq<usize>
    decreases n,
{
    if n <= 0 {
        Seq::empty()
    } else {
        let o = application_order(edits, n - 1);
        o.insert(insert_position(edits, o, n - 1, 0), (n - 1) as usize)
    }
}

proof fn lemma_insert_position(edits: Seq<WorkspaceTextEdit>, ord: Seq<usize>, i: int, p: int)
    requires
        0 <= p <= ord.len(),
    ensures
        p <= insert_position(edits, ord, i, p) <= ord.len(),
        forall|q: int| p <= q < insert_position(edits, ord, i, p) ==>
            edits[#[trigger] ord[q] as int].start_line >= edits[i].start_line,
        insert_position(edits, ord, i, p) < ord.len() ==>
            edits[ord[insert_position(edits, ord, i, p)] as int].start_line < edits[i].start_line,
    decreases ord.len() - p,
{
    if p < ord.len() && edits[ord[p] as int].start_line >= edits[i].start_line {
        lemma_insert_position(edits, ord, i, p + 1);
    }
}

/// The order of application sorts the edits: by start line, last line first,
/// edits on one line in request order.
pub proof fn lemma_application_order(edits: Seq<WorkspaceTextEdit>, n: int)
    requires
        0 <= n <= edits.len(),
        n <= usize::MAX,
    ensures
        application_order(edits, n).len() == n,
        forall|i: int| 0 <= i < n ==> application_order(edits, n)[i] < n,
        forall|i: int, j: int| 0 <= i < j < n ==> applied_before(edits,
            #[trigger] application_order(edits, n)[i] as int, #[trigger] application_order(edits, n)[j] as int),
    decreases n,
{
    if n > 0 {
        lemma_application_order(edits, n - 1);
        let o = application_order(edits, n - 1);
        let p = insert_position(edits, o, n - 1, 0);
        lemma_insert_position(edits, o, n - 1, 0);
        let r = o.insert(p, (n - 1) as usize);
        o.insert_ensures(p, (n - 1) as usize);
        assert(r == application_order(edits, n));
        assert forall|i: int| p < i < n implies r[i] == o[i - 1] by {
            assert(r[(i - 1) + 1] == o[i - 1]);
        }
        assert forall|i: int| 0 <= i < n implies r[i] < n by {
            if i < p {
                assert(r[i] == o[i]);
            } else if i > p {
                assert(r[i] == o[i - 1]);
            }
        }
        assert forall|i: int, j: int| 0 <= i < j < n implies applied_before(edits, #[trigger] r[i] as int, #[trigger] r[j] as int) by {
            if j < p {
                assert(r[i] == o[i] && r[j] == o[j]);
                assert(applied_before(edits, o[i] as int, o[j] as int));
            } else if j == p {
                assert(r[i] == o[i]);
                assert(r[j] == (n - 1) as usize);
                assert(o[i] < n - 1);
                assert(edits[o[i] as int].start_line >= edits[n - 1].start_line);
            } else if i > p {
                assert(r[i] == o[i - 1] && r[j] == o[j - 1]);
                assert(applied_before(edits, o[i - 1] as int, o[j - 1] as int));
            } else if i == p {
                assert(r[j] == o[j - 1]);
                assert(r[i] == (n - 1) as usize);
                assert(edits[o[p] as int].start_line < edits[n - 1].start_line);
                if j - 1 > p {
                    assert(applied_before(edits, o[p] as int, o[j - 1] as int));
                }
                assert(edits[o[j - 1] as int].start_line < edits[n - 1].start_line);
            } else {
                assert(r[i] == o[i] && r[j] == o[j - 1]);
                assert(applied_before(edits, o[i] as int, o[j - 1] as int));
            }
        }
    }
}

/// The order in which the edits are applied.
pub fn order_edits(edits: &Vec<WorkspaceTextEdit>) -> (ord: Vec<usize>)
    ensures
        ord@ == application_order(edits@, edits@.len() as int),
        is_application_order(edits@, ord@),
{
    let mut ord: Vec<usize> = Vec::new();
    let n = edits.len();
    let mut i: usize = 0;
    while i < n
        invariant
            i <= n == edits@.len(),
            ord@ == application_order(edits@, i as int),
        decreases n - i,
    {
        proof {
            lemma_application_order(edits@, i as int);
        }
        let key = edits[i].start_line;
        let mut p: usize = 0;
        while p < ord.len() && edits[ord[p]].start_line >= key
            invariant
                p <= ord@.len() == i,
                i < n == edits@.len(),
                key == edits@[i as int].start_line,
                forall|k: int| 0 <= k < ord@.len() ==> ord@[k] < i,
                insert_position(edits@, ord@, i as int, 0) == insert_position(edits@, ord@, i as int, p as int),
            decreases ord@.len() - p,
        {
            p = p + 1;
        }
        ord.insert(p, i);
        i = i + 1;
    }
    proof {
        lemma_application_order(edits@, n as int);
    }
    ord
}

/// The first edit with a range reaching past the last line, if any, as (the
/// larger of its two lines, the number of lines).
pub open spec fn first_range_error(lines: Seq<Seq<char>>, edits: Seq<WorkspaceTextEdit>, n: int) -> Option<(int, int)>
    decreases n,
{
    if n <= 0 {
        None
    } else {
        match first_range_error(lines, edits, n - 1) {
            Some(e) => Some(e),
            None => {
                let e = edits[n - 1];
                if e.has_range && (e.start_line >= lines.len() || e.end_line >= lines.len()) {
                    Some((if e.start_line >= e.end_line { e.start_line as int } else { e.end_line as int }, lines.len() as int))
                } else {
                    None
                }
            },
        }
    }
}

/// Checks the ranges of the edits for one file against its text: every
/// range must stay within the file's lines.
pub fn check_edit_ranges(file_path: &str, content: &str, edits: &Vec<WorkspaceTextEdit>) -> (r: Result<(), String>)
    ensures
        match first_range_error(lines_of(content@), edits@, edits@.len() as int) {
            None => r is Ok,
            Some((line, count)) => r matches Err(m) && m@ == "Invalid range in "@ + file_path@ + ": line "@
                + decimal(line as nat) + " out of bounds (file has "@ + decimal(count as nat) + " lines)"@,
        },
{
    let src = str_chars(content);
    let lines = split_lines(&src);
    let ghost ls = vv(&lines);
    let n = lines.len();
    let mut i: usize = 0;
    while i < edits.len()
        invariant
            i <= edits@.len(),
            ls == lines_of(content@),
            n == ls.len(),
            first_range_error(ls, edits@, i as int) is None,
        decreases edits@.len() - i,
    {
        let e = &edits[i];
        if e.has_range && (e.start_line >= n || e.end_line >= n) {
            let line = if e.start_line >= e.end_line { e.start_line } else { e.end_line };
            let mut m: Vec<char> = Vec::new();
            append_str(&mut m, "Invalid range in ");
            append_str(&mut m, file_path);
            append_str(&mut m, ": line ");
            let a = usize_to_decimal(line);
            append_chars(&mut m, &a);
            append_str(&mut m, " out of bounds (file has ");
            let b = usize_to_decimal(n);
            append_chars(&mut m, &b);
            append_str(&mut m, " lines)");
            proof {
                lemma_first_error_stays(ls, edits@, (i + 1) as int, edits@.len() as int);
            }
            return Err(chars_to_string(&m));
        }
        i = i + 1;
    }
    Ok(())
}

proof fn lemma_first_error_stays(lines: Seq<Seq<char>>, edits: Seq<WorkspaceTextEdit>, a: int, b: int)
    requires
        0 <= a <= b,
        first_range_error(lines, edits, a) is Some,
    ensures
        first_range_error(lines, edits, b) == first_range_error(lines, edits, a),
    decreases b - a,
{
    if a < b {
        lemma_first_error_stays(lines, edits, a, b - 1);
    }
}


/// What a one-line edit keeps of its line before the start column: the text up
/// to the column when the column lies within the line, nothing otherwise.
pub open spec fn kept_before(line: Seq<char>, c: int) -> Seq<char> {
    if c <= line.len() {
        line.subrange(0, c)
    } else {
        Seq::empty()
    }
}

/// What an edit keeps of a line after the end column: the rest of the line
/// when the column lies before its end, nothing otherwise.
pub open spec fn kept_after(line: Seq<char>, c: int) -> Seq<char> {
    if 0 <= c < line.len() {
        line.subrange(c, line.len() as int)
    } else {
        Seq::empty()
    }
}

/// What a multi-line edit keeps of its start line: the text up to the start
/// column, or the whole line when the column lies past its end.
pub open spec fn start_piece(line: Seq<char>, c: int) -> Seq<char> {
    if c <= line.len() {
        line.subrange(0, c)
    } else {
        line
    }
}

/// The lines that replace the lines of a multi-line edit: the start piece
/// joined to the first new line, the new lines in between, and the last new
/// line joined to the end piece. A single new line takes no end piece.
pub open spec fn replacement_lines(start: Seq<char>, new_lines: Seq<Seq<char>>, end: Seq<char>) -> Seq<Seq<char>> {
    if new_lines.len() == 0 {
        seq![start + end]
    } else {
        let middle = if new_lines.len() >= 2 { new_lines.subrange(1, new_lines.len() - 1) } else { Seq::empty() };
        let last = if new_lines.len() > 1 { seq![new_lines.last() + end] } else { Seq::empty() };
        seq![start + new_lines[0]] + middle + last
    }
}

/// The last line a multi-line edit replaces: its end line, or the last line
/// of the file.
pub open spec fn splice_end(lines: Seq<Seq<char>>, el: int) -> int {
    if el < lines.len() - 1 {
        el
    } else {
        lines.len() - 1
    }
}

/// The lines after applying one edit.
pub open spec fn apply_edit(lines: Seq<Seq<char>>, e: WorkspaceTextEdit) -> Seq<Seq<char>> {
    let sl = e.start_line as int;
    if !takes_effect(e) || sl >= lines.len() {
        lines
    } else if e.start_line == e.end_line {
        lines.update(sl, kept_before(lines[sl], e.start_character as int) + replacement_of(e)
            + kept_after(lines[sl], e.end_character as int))
    } else {
        let el = e.end_line as int;
        let end = if el < lines.len() { kept_after(lines[el], e.end_character as int) } else { Seq::empty() };
        let hi = splice_end(lines, el);
        lines.subrange(0, sl) + replacement_lines(start_piece(lines[sl], e.start_character as int),
            lines_of(replacement_of(e)), end) + lines.subrange(hi + 1, lines.len() as int)
    }
}

/// The edit can be applied: a multi-line edit does not end more than one line
/// above its start.
pub open spec fn edit_fits(lines: Seq<Seq<char>>, e: WorkspaceTextEdit) -> bool {
    !takes_effect(e) || e.start_line >= lines.len() || e.start_line == e.end_line
        || splice_end(lines, e.end_line as int) + 1 >= e.start_line
}

/// The lines after applying the first `k` edits of `ord`.
pub open spec fn apply_ordered(lines: Seq<Seq<char>>, edits: Seq<WorkspaceTextEdit>, ord: Seq<usize>, k: int) -> Seq<Seq<char>>
    decreases k,
{
    if k <= 0 {
        lines
    } else {
        apply_edit(apply_ordered(lines, edits, ord, k - 1), edits[ord[k - 1] as int])
    }
}

/// Each of the first `k` edits of `ord` can be applied when its turn comes.
pub open spec fn fits_ordered(lines: Seq<Seq<char>>, edits: Seq<WorkspaceTextEdit>, ord: Seq<usize>, k: int) -> bool
    decreases k,
{
    k <= 0 || (fits_ordered(lines, edits, ord, k - 1)
        && edit_fits(apply_ordered(lines, edits, ord, k - 1), edits[ord[k - 1] as int]))
}

/// The number of edits among the first `k` of `ord` that take effect.
pub open spec fn count_in_order(edits: Seq<WorkspaceTextEdit>, ord: Seq<usize>, k: int) -> nat
    decreases k,
{
    if k <= 0 {
        0
    } else {
        count_in_order(edits, ord, k - 1) + if takes_effect(edits[ord[k - 1] as int]) { 1nat } else { 0nat }
    }
}

proof fn lemma_count_in_order_bound(edits: Seq<WorkspaceTextEdit>, ord: Seq<usize>, k: int)
    requires
        0 <= k,
    ensures
        count_in_order(edits, ord, k) <= k,
    decreases k,
{
    if k > 0 {
        lemma_count_in_order_bound(edits, ord, k - 1);
    }
}

fn piece(v: &Vec<char>, from: usize, to: usize) -> (r: Vec<char>)
    requires
        from <= to <= v@.len(),
    ensures
        r@ == v@.subrange(from as int, to as int),
{
    slice_chars(v, from, to)
}

fn concat(a: &Vec<char>, b: &Vec<char>) -> (r: Vec<char>)
    ensures
        r@ == a@ + b@,
{
    let mut r = piece(a, 0, a.len());
    assert(a@.subrange(0, a@.len() as int) =~= a@);
    append_chars(&mut r, b);
    r
}

/// Applies one edit to the lines.
fn apply_one(lines: Vec<Vec<char>>, e: &WorkspaceTextEdit) -> (r: Vec<Vec<char>>)
    requires
        edit_fits(vv(&lines), *e),
    ensures
        vv(&r) == apply_edit(vv(&lines), *e),
{
    let ghost ls = vv(&lines);
    let new_text = match &e.new_text {
        Some(t) => t,
        None => {
            return lines;
        },
    };
    let sl = e.start_line;
    if !e.has_range || sl >= lines.len() {
        return lines;
    }
    let repl = str_chars(new_text.as_str());
    assert(repl@ == replacement_of(*e));
    let line = &lines[sl];
    assert(line@ == ls[sl as int]);
    let sc = e.start_character;
    let ec = e.end_character;
    if sl == e.end_line {
        let before = if sc <= line.len() { piece(line, 0, sc) } else { Vec::new() };
        let after = if ec < line.len() { piece(line, ec, line.len()) } else { Vec::new() };
        let mid = concat(&before, &repl);
        let new_line = concat(&mid, &after);
        let mut out = lines;
        let ghost o = vv(&out);
        out.set(sl, new_line);
        assert(vv(&out) =~= o.update(sl as int, new_line@));
        return out;
    }
    let el = e.end_line;
    let hi = if el < lines.len() - 1 { el } else { lines.len() - 1 };
    let start = if sc <= line.len() { piece(line, 0, sc) } else { piece(line, 0, line.len()) };
    assert(line@.subrange(0, line@.len() as int) =~= line@);
    let end: Vec<char> = if el < lines.len() {
        let l2 = &lines[el];
        assert(l2@ == ls[el as int]);
        if ec < l2.len() { piece(l2, ec, l2.len()) } else { Vec::new() }
    } else {
        Vec::new()
    };
    let new_lines = split_lines(&repl);
    let ghost nls = vv(&new_lines);
    let mut repl_lines: Vec<Vec<char>> = Vec::new();
    if new_lines.len() == 0 {
        repl_lines.push(concat(&start, &end));
        assert(vv(&repl_lines) =~= seq![start@ + end@]);
    } else {
        assert(new_lines@[0]@ == nls[0]);
        repl_lines.push(concat(&start, &new_lines[0]));
        let nn = new_lines.len();
        let mut k: usize = 1;
        while k < nn - 1
            invariant
                1 <= k <= nn,
                nn > 1 ==> k <= nn - 1,
                nn == new_lines@.len() == nls.len(),
                nls == vv(&new_lines),
                vv(&repl_lines) == seq![start@ + nls[0]] + nls.subrange(1, k as int),
            decreases nn - k,
        {
            let ghost o = vv(&repl_lines);
            assert(new_lines@[k as int]@ == nls[k as int]);
            repl_lines.push(piece(&new_lines[k], 0, new_lines[k].len()));
            assert(new_lines@[k as int]@.subrange(0, new_lines@[k as int]@.len() as int) =~= nls[k as int]);
            assert(vv(&repl_lines) =~= o.push(nls[k as int]));
            assert(nls.subrange(1, k + 1) =~= nls.subrange(1, k as int).push(nls[k as int]));
            k = k + 1;
        }
        if nn > 1 {
            assert(k == nn - 1);
            let ghost o = vv(&repl_lines);
            assert(new_lines@[(nn - 1) as int]@ == nls.last());
            repl_lines.push(concat(&new_lines[nn - 1], &end));
            assert(vv(&repl_lines) =~= o.push(nls.last() + end@));
            assert(vv(&repl_lines) =~= seq![start@ + nls[0]] + nls.subrange(1, nls.len() - 1) + seq![nls.last() + end@]);
        } else {
            assert(nls.subrange(1, 1) =~= Seq::<Seq<char>>::empty());
            assert(vv(&repl_lines) =~= seq![start@ + nls[0]] + Seq::<Seq<char>>::empty() + Seq::<Seq<char>>::empty());
        }
    }
    assert(vv(&repl_lines) == replacement_lines(start_piece(ls[sl as int], sc as int), lines_of(replacement_of(*e)), end@));
    let mut out: Vec<Vec<char>> = Vec::new();
    let mut i: usize = 0;
    while i < sl
        invariant
            i <= sl < lines@.len(),
            ls == vv(&lines),
            vv(&out) == ls.subrange(0, i as int),
        decreases sl - i,
    {
        let ghost o = vv(&out);
        assert(lines@[i as int]@ == ls[i as int]);
        out.push(piece(&lines[i], 0, lines[i].len()));
        assert(lines@[i as int]@.subrange(0, lines@[i as int]@.len() as int) =~= ls[i as int]);
        assert(vv(&out) =~= o.push(ls[i as int]));
        assert(ls.subrange(0, i + 1) =~= ls.subrange(0, i as int).push(ls[i as int]));
        i = i + 1;
    }
    let mut j: usize = 0;
    while j < repl_lines.len()
        invariant
            j <= repl_lines@.len(),
            sl < ls.len(),
            vv(&out) == ls.subrange(0, sl as int) + vv(&repl_lines).subrange(0, j as int),
        decreases repl_lines@.len() - j,
    {
        let ghost o = vv(&out);
        let ghost rv = vv(&repl_lines);
        assert(repl_lines@[j as int]@ == rv[j as int]);
        out.push(piece(&repl_lines[j], 0, repl_lines[j].len()));
        assert(repl_lines@[j as int]@.subrange(0, repl_lines@[j as int]@.len() as int) =~= rv[j as int]);
        assert(vv(&out) =~= o.push(rv[j as int]));
        assert(rv.subrange(0, j + 1) =~= rv.subrange(0, j as int).push(rv[j as int]));
        j = j + 1;
    }
    assert(vv(&repl_lines).subrange(0, repl_lines@.len() as int) =~= vv(&repl_lines));
    let n = lines.len();
    let mut t: usize = hi + 1;
    while t < n
        invariant
            hi + 1 <= t <= n,
            n == lines@.len(),
            ls == vv(&lines),
            sl < ls.len(),
            vv(&out) == ls.subrange(0, sl as int) + vv(&repl_lines) + ls.subrange(hi + 1, t as int),
        decreases n - t,
    {
        let ghost o = vv(&out);
        assert(lines@[t as int]@ == ls[t as int]);
        out.push(piece(&lines[t], 0, lines[t].len()));
        assert(lines@[t as int]@.subrange(0, lines@[t as int]@.len() as int) =~= ls[t as int]);
        assert(vv(&out) =~= o.push(ls[t as int]));
        assert(ls.subrange(hi + 1, t + 1) =~= ls.subrange(hi + 1, t as int).push(ls[t as int]));
        t = t + 1;
    }
    out
}

/// Every edit can be applied in its turn: the condition under which
/// `apply_workspace_edits` runs.
pub fn edits_fit(content: &str, edits: &Vec<WorkspaceTextEdit>) -> (r: bool)
    ensures
        r == fits_ordered(lines_of(content@), edits@, application_order(edits@, edits@.len() as int), edits@.len() as int),
{
    let ord = order_edits(edits);
    let src = str_chars(content);
    let mut lines = split_lines(&src);
    let ghost ls = vv(&lines);
    let n = ord.len();
    let mut k: usize = 0;
    while k < n
        invariant
            k <= n == ord@.len() == edits@.len(),
            is_application_order(edits@, ord@),
            ord@ == application_order(edits@, edits@.len() as int),
            ls == lines_of(content@),
            fits_ordered(ls, edits@, ord@, k as int),
            vv(&lines) == apply_ordered(ls, edits@, ord@, k as int),
        decreases n - k,
    {
        let e = &edits[ord[k]];
        if !edit_fits_exec(&lines, e) {
            proof {
                lemma_fits_stays_false(ls, edits@, ord@, (k + 1) as int, n as int);
            }
            return false;
        }
        lines = apply_one(lines, e);
        k = k + 1;
    }
    true
}

fn edit_fits_exec(lines: &Vec<Vec<char>>, e: &WorkspaceTextEdit) -> (r: bool)
    ensures
        r == edit_fits(vv(lines), *e),
{
    if !(e.has_range && e.new_text.is_some()) || e.start_line >= lines.len() || e.start_line == e.end_line {
        return true;
    }
    let hi = if e.end_line < lines.len() - 1 { e.end_line } else { lines.len() - 1 };
    hi + 1 >= e.start_line
}

proof fn lemma_fits_stays_false(lines: Seq<Seq<char>>, edits: Seq<WorkspaceTextEdit>, ord: Seq<usize>, a: int, b: int)
    requires
        0 <= a <= b,
        !fits_ordered(lines, edits, ord, a),
    ensures
        !fits_ordered(lines, edits, ord, b),
    decreases b - a,
{
    if a < b {
        lemma_fits_stays_false(lines, edits, ord, a, b - 1);
    }
}

/// Applies the edits for one file to its text, last start line first, and
/// joins the lines with `"\n"`. Gives the new text, the number of edits that
/// took effect, and the order in which the edits were applied.
pub fn apply_workspace_edits(content: &str, edits: &Vec<WorkspaceTextEdit>) -> (r: (String, usize, Vec<usize>))
    requires
        fits_ordered(lines_of(content@), edits@, application_order(edits@, edits@.len() as int), edits@.len() as int),
    ensures
        r.2@ == application_order(edits@, edits@.len() as int),
        is_application_order(edits@, r.2@),
        r.0@ == join_with(apply_ordered(lines_of(content@), edits@, r.2@, edits@.len() as int), "\n"@),
        r.1 == count_in_order(edits@, r.2@, edits@.len() as int),
{
    let ord = order_edits(edits);
    let src = str_chars(content);
    let mut lines = split_lines(&src);
    let ghost ls = vv(&lines);
    let n = ord.len();
    let mut count: usize = 0;
    let mut k: usize = 0;
    while k < n
        invariant
            k <= n == ord@.len() == edits@.len(),
            is_application_order(edits@, ord@),
            ord@ == application_order(edits@, edits@.len() as int),
            fits_ordered(ls, edits@, ord@, n as int),
            vv(&lines) == apply_ordered(ls, edits@, ord@, k as int),
            count == count_in_order(edits@, ord@, k as int),
        decreases n - k,
    {
        proof {
            lemma_fits_prefix(ls, edits@, ord@, (k + 1) as int, n as int);
            lemma_count_in_order_bound(edits@, ord@, k as int);
        }
        let e = &edits[ord[k]];
        lines = apply_one(lines, e);
        if e.has_range && e.new_text.is_some() {
            count = count + 1;
        }
        k = k + 1;
    }
    let joined = join_chars(&lines, "\n");
    (chars_to_string(&joined), count, ord)
}

proof fn lemma_fits_prefix(lines: Seq<Seq<char>>, edits: Seq<WorkspaceTextEdit>, ord: Seq<usize>, a: int, b: int)
    requires
        0 <= a <= b,
        fits_ordered(lines, edits, ord, b),
    ensures
        fits_ordered(lines, edits, ord, a),
    decreases b - a,
{
    if a < b {
        lemma_fits_prefix(lines, edits, ord, a, b - 1);
    }
}


/// An edit that writes back the text its one-line range already holds
/// leaves the file's lines unchanged.
pub proof fn law_identity_edit_keeps_lines(lines: Seq<Seq<char>>, e: WorkspaceTextEdit)
    requires
        takes_effect(e),
        e.start_line == e.end_line,
        e.start_line < lines.len(),
        e.start_character <= e.end_character < lines[e.start_line as int].len(),
        replacement_of(e) == lines[e.start_line as int].subrange(e.start_character as int, e.end_character as int),
    ensures
        apply_edit(lines, e) == lines,
{
    let l = lines[e.start_line as int];
    let sc = e.start_character as int;
    let ec = e.end_character as int;
    assert(l.subrange(0, sc) + l.subrange(sc, ec) + l.subrange(ec, l.len() as int) =~= l);
    assert(lines.update(e.start_line as int, l) =~= lines);
}

} // verus!
