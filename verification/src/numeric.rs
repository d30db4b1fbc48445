//! Syntax of the number literals that `str::parse` accepts.

use vstd::prelude::*;
use crate::text::{is_digit, char_is_digit};

verus! {

/// Code point of the ASCII lower-casing of one character.
pub open spec fn ascii_lower(c: char) -> u32 {
    if 'A' <= c && c <= 'Z' {
        ((c as u32) + 32) as u32
    } else {
        c as u32
    }
}

/// `s` equals `word` (given in lower case) ignoring ASCII case.
pub open spec fn eq_ignore_case(s: Seq<char>, word: Seq<char>) -> bool {
    s.len() == word.len() && forall|i: int| 0 <= i < s.len() ==> ascii_lower(#[trigger] s[i]) == word[i] as u32
}

/// All characters of `s` are decimal digits.
pub open spec fn all_digits(s: Seq<char>) -> bool {
    forall|i: int| 0 <= i < s.len() ==> is_digit(#[trigger] s[i])
}

/// `s` without one leading `+` or `-`.
pub open spec fn strip_sign(s: Seq<char>) -> Seq<char> {
    if s.len() > 0 && (s[0] == '+' || s[0] == '-') {
        s.drop_first()
    } else {
        s
    }
}

/// Mantissa of a decimal literal: digits with at most one `.` and at least one digit.
pub open spec fn mantissa_syntax(m: Seq<char>) -> bool {
    &&& forall|i: int| 0 <= i < m.len() ==> (is_digit(#[trigger] m[i]) || m[i] == '.')
    &&& forall|i: int, j: int| 0 <= i < j < m.len() && #[trigger] m[i] == '.' ==> #[trigger] m[j] != '.'
    &&& exists|i: int| 0 <= i < m.len() && #[trigger] is_digit(m[i])
}

/// Position of the first `e` or `E` in `u`, or its length.
pub open spec fn exp_pos(u: Seq<char>) -> int
    decreases u.len(),
{
    if u.len() == 0 {
        0
    } else if u[0] == 'e' || u[0] == 'E' {
        0
    } else {
        1 + exp_pos(u.drop_first())
    }
}

/// `Number ::= (Digit+ | Digit+ '.' Digit* | Digit* '.' Digit+) ('e' Sign? Digit+)?`,
/// with `e` in either case.
pub open spec fn number_syntax(u: Seq<char>) -> bool {
    let m = exp_pos(u);
    &&& mantissa_syntax(u.subrange(0, m))
    &&& (m == u.len() || {
        let e = strip_sign(u.subrange(m + 1, u.len() as int));
        e.len() > 0 && all_digits(e)
    })
}

/// The strings that `str::parse::<f64>` accepts, as its documentation gives the
/// grammar: an optional sign, then `inf`, `infinity`, `nan` (any case) or a
/// decimal number.
pub open spec fn float_syntax(s: Seq<char>) -> bool {
    let u = strip_sign(s);
    special_float(u) || number_syntax(u)
}

/// `inf`, `infinity` or `nan`, in any case.
pub open spec fn special_float(u: Seq<char>) -> bool {
    ||| eq_ignore_case(u, seq!['i', 'n', 'f'])
    ||| eq_ignore_case(u, seq!['i', 'n', 'f', 'i', 'n', 'i', 't', 'y'])
    ||| eq_ignore_case(u, seq!['n', 'a', 'n'])
}

pub proof fn lemma_exp_pos(u: Seq<char>, k: int)
    requires
        0 <= k <= u.len(),
        forall|j: int| 0 <= j < k ==> #[trigger] u[j] != 'e' && u[j] != 'E',
        k == u.len() || u[k] == 'e' || u[k] == 'E',
    ensures
        exp_pos(u) == k,
    decreases k,
{
    if k > 0 {
        let t = u.drop_first();
        assert forall|j: int| 0 <= j < k - 1 implies #[trigger] t[j] != 'e' && t[j] != 'E' by {
            assert(t[j] == u[j + 1]);
        }
        if k < u.len() {
            assert(t[k - 1] == u[k]);
        }
        lemma_exp_pos(t, k - 1);
    }
}

fn lower(c: char) -> (r: u32)
    ensures
        r == ascii_lower(c),
{
    if 'A' <= c && c <= 'Z' {
        (c as u32) + 32
    } else {
        c as u32
    }
}

fn eq_ignore_case_exec(u: &Vec<char>, from: usize, word: &Vec<char>) -> (r: bool)
    requires
        from <= u@.len(),
    ensures
        r == eq_ignore_case(u@.subrange(from as int, u@.len() as int), word@),
{
    let ghost t = u@.subrange(from as int, u@.len() as int);
    let ulen = u.len();
    if ulen - from != word.len() {
        return false;
    }
    let mut i: usize = 0;
    while i < word.len()
        invariant
            u@.len() - from == word@.len(),
            from <= u@.len(),
            ulen == u@.len(),
            t == u@.subrange(from as int, u@.len() as int),
            i <= word@.len(),
            forall|j: int| 0 <= j < i ==> ascii_lower(#[trigger] t[j]) == word@[j] as u32,
        decreases word@.len() - i,
    {
        assert(t[i as int] == u@[from + i]);
        if lower(u[from + i]) != (word[i] as u32) {
            return false;
        }
        i = i + 1;
    }
    true
}

/// Decides `float_syntax`: whether `str::parse::<f64>` would accept `s`.
pub fn is_float_syntax(s: &Vec<char>) -> (r: bool)
    ensures
        r == float_syntax(s@),
{
    let n = s.len();
    let from: usize = if n > 0 && (s[0] == '+' || s[0] == '-') { 1 } else { 0 };
    let ghost u = strip_sign(s@);
    assert(u =~= s@.subrange(from as int, n as int));
    let inf = vec!['i', 'n', 'f'];
    let infinity = vec!['i', 'n', 'f', 'i', 'n', 'i', 't', 'y'];
    let nan = vec!['n', 'a', 'n'];
    assert(inf@ =~= seq!['i', 'n', 'f']);
    assert(infinity@ =~= seq!['i', 'n', 'f', 'i', 'n', 'i', 't', 'y']);
    assert(nan@ =~= seq!['n', 'a', 'n']);
    if eq_ignore_case_exec(s, from, &inf) || eq_ignore_case_exec(s, from, &infinity)
        || eq_ignore_case_exec(s, from, &nan) {
        return true;
    }
    // mantissa
    let mut i: usize = from;
    let mut dot: Option<usize> = None;
    let mut digits = false;
    while i < n && s[i] != 'e' && s[i] != 'E'
        invariant
            from <= i <= n,
            n == s@.len(),
            u == s@.subrange(from as int, n as int),
            u == strip_sign(s@),
            !special_float(u),
            forall|j: int| 0 <= j < i - from ==> #[trigger] u[j] != 'e' && u[j] != 'E',
            forall|j: int| 0 <= j < i - from ==> (is_digit(#[trigger] u[j]) || u[j] == '.'),
            match dot {
                None => forall|j: int| 0 <= j < i - from ==> #[trigger] u[j] != '.',
                Some(d) => d < i - from && u[d as int] == '.' && forall|j: int|
                    0 <= j < i - from && j != d ==> #[trigger] u[j] != '.',
            },
            digits <==> exists|j: int| 0 <= j < i - from && #[trigger] is_digit(u[j]),
        decreases n - i,
    {
        let c = s[i];
        let p = i - from;
        assert(u[p as int] == c);
        if c == '.' {
            match dot {
                Some(d) => {
                    proof {
                        lemma_exp_pos_ge(u, p as int);
                        lemma_exp_pos_bound(u);
                        let m = u.subrange(0, exp_pos(u));
                        assert(m[d as int] == '.' && m[p as int] == '.');
                    }
                    return false;
                },
                None => {
                    dot = Some(p);
                },
            }
        } else if char_is_digit(c) {
            digits = true;
        } else {
            proof {
                lemma_exp_pos_ge(u, p as int);
                lemma_exp_pos_bound(u);
                let m = u.subrange(0, exp_pos(u));
                assert(m[p as int] == c);
            }
            return false;
        }
        i = i + 1;
    }
    let ghost m = (i - from) as int;
    proof {
        lemma_exp_pos(u, m);
    }
    let ghost mant = u.subrange(0, m);
    if !digits {
        assert(!mantissa_syntax(mant)) by {
            if exists|j: int| 0 <= j < mant.len() && #[trigger] is_digit(mant[j]) {
                let j = choose|j: int| 0 <= j < mant.len() && #[trigger] is_digit(mant[j]);
                assert(mant[j] == u[j]);
            }
        }
        return false;
    }
    assert(mantissa_syntax(mant)) by {
        assert forall|a: int, b: int| 0 <= a < b < mant.len() && #[trigger] mant[a] == '.' implies #[trigger] mant[b] != '.' by {
            assert(mant[a] == u[a] && mant[b] == u[b]);
        }
        assert forall|j: int| 0 <= j < mant.len() implies (is_digit(#[trigger] mant[j]) || mant[j] == '.') by {
            assert(mant[j] == u[j]);
        }
        let j = choose|j: int| 0 <= j < i - from && #[trigger] is_digit(u[j]);
        assert(mant[j] == u[j]);
    }
    if i == n {
        return true;
    }
    // exponent
    let ghost rest = u.subrange(m + 1, u.len() as int);
    assert(rest =~= s@.subrange(i + 1, n as int));
    let mut k: usize = i + 1;
    if k < n && (s[k] == '+' || s[k] == '-') {
        k = k + 1;
    }
    let ghost e = strip_sign(rest);
    assert(e =~= s@.subrange(k as int, n as int));
    if k == n {
        return false;
    }
    let start = k;
    while k < n
        invariant
            start <= k <= n,
            n == s@.len(),
            e == s@.subrange(start as int, n as int),
            u == strip_sign(s@),
            !special_float(u),
            e == strip_sign(u.subrange(exp_pos(u) + 1, u.len() as int)),
            exp_pos(u) < u.len(),
            forall|j: int| start <= j < k ==> is_digit(#[trigger] s@[j]),
        decreases n - k,
    {
        if !char_is_digit(s[k]) {
            assert(e[k - start] == s@[k as int]);
            return false;
        }
        k = k + 1;
    }
    assert forall|j: int| 0 <= j < e.len() implies is_digit(#[trigger] e[j]) by {
        assert(e[j] == s@[j + start]);
    }
    true
}

pub proof fn lemma_exp_pos_bound(u: Seq<char>)
    ensures
        0 <= exp_pos(u) <= u.len(),
    decreases u.len(),
{
    if u.len() > 0 && !(u[0] == 'e' || u[0] == 'E') {
        lemma_exp_pos_bound(u.drop_first());
    }
}

pub proof fn lemma_exp_pos_ge(u: Seq<char>, k: int)
    requires
        0 <= k < u.len(),
        forall|j: int| 0 <= j <= k ==> #[trigger] u[j] != 'e' && u[j] != 'E',
    ensures
        exp_pos(u) > k,
    decreases k,
{
    let t = u.drop_first();
    lemma_exp_pos_bound(t);
    if k > 0 {
        assert forall|j: int| 0 <= j <= k - 1 implies #[trigger] t[j] != 'e' && t[j] != 'E' by {
            assert(t[j] == u[j + 1]);
        }
        lemma_exp_pos_ge(t, k - 1);
    }
}

/// The decimal digit for `d < 10`.
pub open spec fn digit_char(d: nat) -> char {
    if d == 0 { '0' }
    else if d == 1 { '1' }
    else if d == 2 { '2' }
    else if d == 3 { '3' }
    else if d == 4 { '4' }
    else if d == 5 { '5' }
    else if d == 6 { '6' }
    else if d == 7 { '7' }
    else if d == 8 { '8' }
    else { '9' }
}

/// The decimal representation of `n`, without leading zeros.
pub open spec fn decimal(n: nat) -> Seq<char>
    decreases n,
{
    if n < 10 {
        seq![digit_char(n)]
    } else {
        decimal(n / 10).push(digit_char(n % 10))
    }
}

fn digit_of(d: usize) -> (c: char)
    requires
        d < 10,
    ensures
        c == digit_char(d as nat),
{
    if d == 0 { '0' }
    else if d == 1 { '1' }
    else if d == 2 { '2' }
    else if d == 3 { '3' }
    else if d == 4 { '4' }
    else if d == 5 { '5' }
    else if d == 6 { '6' }
    else if d == 7 { '7' }
    else if d == 8 { '8' }
    else { '9' }
}

/// Writes `n` in decimal, as `usize::to_string` does.
pub fn usize_to_decimal(n: usize) -> (r: Vec<char>)
    ensures
        r@ == decimal(n as nat),
    decreases n,
{
    if n < 10 {
        let mut r: Vec<char> = Vec::new();
        r.push(digit_of(n));
        assert(r@ =~= seq![digit_char(n as nat)]);
        r
    } else {
        let mut r = usize_to_decimal(n / 10);
        r.push(digit_of(n % 10));
        r
    }
}

/// The number that a sequence of decimal digits denotes.
pub open spec fn digits_value(s: Seq<char>) -> nat
    decreases s.len(),
{
    if s.len() == 0 {
        0
    } else {
        digits_value(s.drop_last()) * 10 + ((s.last() as u32) - ('0' as u32)) as nat
    }
}

/// The strings that `str::parse::<usize>` accepts and the value it gives: an
/// optional `+`, then at least one decimal digit, with the value in range.
pub open spec fn parse_usize_spec(s: Seq<char>) -> Option<usize> {
    let u = if s.len() > 0 && s[0] == '+' { s.drop_first() } else { s };
    if u.len() > 0 && all_digits(u) && digits_value(u) <= usize::MAX {
        Some(digits_value(u) as usize)
    } else {
        None
    }
}

/// Parses an unsigned decimal number, like `str::parse::<usize>`.
pub fn parse_usize(s: &Vec<char>, from: usize) -> (r: Option<usize>)
    requires
        from <= s@.len(),
    ensures
        r == parse_usize_spec(s@.subrange(from as int, s@.len() as int)),
{
    let ghost t = s@.subrange(from as int, s@.len() as int);
    let n = s.len();
    let start: usize = if from < n && s[from] == '+' { from + 1 } else { from };
    let ghost u = if t.len() > 0 && t[0] == '+' { t.drop_first() } else { t };
    assert(u =~= s@.subrange(start as int, n as int));
    if start == n {
        return None;
    }
    let mut v: usize = 0;
    let mut i: usize = start;
    while i < n
        invariant
            start <= i <= n,
            n == s@.len(),
            u == s@.subrange(start as int, n as int),
            u.len() > 0,
            t == s@.subrange(from as int, s@.len() as int),
            u == (if t.len() > 0 && t[0] == '+' { t.drop_first() } else { t }),
            all_digits(s@.subrange(start as int, i as int)),
            v as nat == digits_value(s@.subrange(start as int, i as int)),
        decreases n - i,
    {
        let c = s[i];
        let ghost pre = s@.subrange(start as int, i as int);
        let ghost nxt = s@.subrange(start as int, i + 1);
        assert(nxt.drop_last() =~= pre);
        assert(nxt.last() == c);
        if !char_is_digit(c) {
            assert(u[i - start] == c);
            return None;
        }
        let d: usize = ((c as u32) - ('0' as u32)) as usize;
        if v > (usize::MAX - d) / 10 {
            proof {
                assert(u.subrange(0, i - start + 1) =~= nxt);
                if all_digits(u) {
                    lemma_digits_value_prefix_bound(u, (i - start + 1) as int);
                }
                assert(digits_value(nxt) == v * 10 + d) by (nonlinear_arith)
                    requires
                        digits_value(nxt) == digits_value(pre) * 10 + d,
                        v == digits_value(pre);
                assert(v * 10 + d > usize::MAX) by (nonlinear_arith)
                    requires
                        v > (usize::MAX - d) / 10,
                        d < 10;
            }
            return None;
        }
        assert(v * 10 + d <= usize::MAX) by (nonlinear_arith)
            requires
                v <= (usize::MAX - d) / 10,
                d < 10;
        v = v * 10 + d;
        assert forall|j: int| 0 <= j < nxt.len() implies is_digit(#[trigger] nxt[j]) by {
            if j < pre.len() {
                assert(nxt[j] == pre[j]);
            }
        }
        i = i + 1;
    }
    Some(v)
}

/// The value of a digit prefix never exceeds the value of a longer digit string.
pub proof fn lemma_digits_value_prefix_bound(u: Seq<char>, k: int)
    requires
        0 <= k <= u.len(),
        all_digits(u),
    ensures
        digits_value(u.subrange(0, k)) <= digits_value(u),
    decreases u.len() - k,
{
    if k < u.len() {
        lemma_digits_value_prefix_bound(u, k + 1);
        let a = u.subrange(0, k);
        let b = u.subrange(0, k + 1);
        assert(b.drop_last() =~= a);
        assert(is_digit(u[k]));
        assert(digits_value(a) <= digits_value(b)) by (nonlinear_arith)
            requires
                digits_value(b) == digits_value(a) * 10 + ((b.last() as u32) - ('0' as u32)) as nat,
                '0' <= b.last();
        assert(u.subrange(0, u.len() as int) =~= u);
    } else {
        assert(u.subrange(0, k) =~= u);
    }
}

/// Writes `n` in decimal, as `u64::to_string` does.
pub fn u64_to_decimal(n: u64) -> (r: Vec<char>)
    ensures
        r@ == decimal(n as nat),
    decreases n,
{
    if n < 10 {
        let mut r: Vec<char> = Vec::new();
        r.push(digit_of(n as usize));
        assert(r@ =~= seq![digit_char(n as nat)]);
        r
    } else {
        let mut r = u64_to_decimal(n / 10);
        r.push(digit_of((n % 10) as usize));
        r
    }
}

/// The strings that `str::parse::<u64>` accepts and the value it gives: an
/// optional `+`, then at least one decimal digit, with the value in range.
pub open spec fn parse_u64_spec(s: Seq<char>) -> Option<u64> {
    let u = if s.len() > 0 && s[0] == '+' { s.drop_first() } else { s };
    if u.len() > 0 && all_digits(u) && digits_value(u) <= u64::MAX {
        Some(digits_value(u) as u64)
    } else {
        None
    }
}

/// Parses an unsigned decimal number, like `str::parse::<u64>`.
pub fn parse_u64(s: &Vec<char>, from: usize) -> (r: Option<u64>)
    requires
        from <= s@.len(),
    ensures
        r == parse_u64_spec(s@.subrange(from as int, s@.len() as int)),
{
    let ghost t = s@.subrange(from as int, s@.len() as int);
    let n = s.len();
    let start: usize = if from < n && s[from] == '+' { from + 1 } else { from };
    let ghost u = if t.len() > 0 && t[0] == '+' { t.drop_first() } else { t };
    assert(u =~= s@.subrange(start as int, n as int));
    if start == n {
        return None;
    }
    let mut v: u64 = 0;
    let mut i: usize = start;
    while i < n
        invariant
            start <= i <= n,
            n == s@.len(),
            u == s@.subrange(start as int, n as int),
            u.len() > 0,
            t == s@.subrange(from as int, s@.len() as int),
            u == (if t.len() > 0 && t[0] == '+' { t.drop_first() } else { t }),
            all_digits(s@.subrange(start as int, i as int)),
            v as nat == digits_value(s@.subrange(start as int, i as int)),
        decreases n - i,
    {
        let c = s[i];
        let ghost pre = s@.subrange(start as int, i as int);
        let ghost nxt = s@.subrange(start as int, i + 1);
        assert(nxt.drop_last() =~= pre);
        assert(nxt.last() == c);
        if !char_is_digit(c) {
            assert(u[i - start] == c);
            return None;
        }
        let d: u64 = ((c as u32) - ('0' as u32)) as u64;
        if v > (u64::MAX - d) / 10 {
            proof {
                assert(u.subrange(0, i - start + 1) =~= nxt);
                if all_digits(u) {
                    lemma_digits_value_prefix_bound(u, (i - start + 1) as int);
                }
                assert(digits_value(nxt) == v * 10 + d) by (nonlinear_arith)
                    requires
                        digits_value(nxt) == digits_value(pre) * 10 + d,
                        v == digits_value(pre);
                assert(v * 10 + d > u64::MAX) by (nonlinear_arith)
                    requires
                        v > (u64::MAX - d) / 10,
                        d < 10;
            }
            return None;
        }
        assert(v * 10 + d <= u64::MAX) by (nonlinear_arith)
            requires
                v <= (u64::MAX - d) / 10,
                d < 10;
        v = v * 10 + d;
        assert forall|j: int| 0 <= j < nxt.len() implies is_digit(#[trigger] nxt[j]) by {
            if j < pre.len() {
                assert(nxt[j] == pre[j]);
            }
        }
        i = i + 1;
    }
    Some(v)
}


proof fn lemma_digit_char(d: nat)
    requires
        d < 10,
    ensures
        is_digit(digit_char(d)),
        (digit_char(d) as u32) - ('0' as u32) == d,
{
}

/// The decimal representation of a number is a non-empty digit string whose
/// value is the number.
pub proof fn lemma_decimal_digits(n: nat)
    ensures
        decimal(n).len() >= 1,
        all_digits(decimal(n)),
        digits_value(decimal(n)) == n,
    decreases n,
{
    if n < 10 {
        lemma_digit_char(n);
        assert(decimal(n).drop_last() =~= Seq::<char>::empty());
        assert(digits_value(Seq::<char>::empty()) == 0);
        assert(digits_value(decimal(n)) == digits_value(decimal(n).drop_last()) * 10
            + ((decimal(n).last() as u32) - ('0' as u32)) as nat);
    } else {
        lemma_decimal_digits(n / 10);
        lemma_digit_char(n % 10);
        let s = decimal(n);
        assert(s.drop_last() =~= decimal(n / 10));
        assert(s.last() == digit_char(n % 10));
        assert(digits_value(s) == digits_value(decimal(n / 10)) * 10 + ((digit_char(n % 10) as u32) - ('0' as u32)) as nat);
        assert((n / 10) * 10 + n % 10 == n) by (nonlinear_arith);
        assert(((digit_char(n % 10) as u32) - ('0' as u32)) as nat == n % 10);
        assert forall|i: int| 0 <= i < s.len() implies is_digit(#[trigger] s[i]) by {
            if i < s.len() - 1 {
                assert(s[i] == decimal(n / 10)[i]);
            }
        }
    }
}

/// Writing a number in decimal and parsing it back gives the number.
pub proof fn law_decimal_parses_back(n: usize)
    ensures
        parse_usize_spec(decimal(n as nat)) == Some(n),
{
    lemma_decimal_digits(n as nat);
    let s = decimal(n as nat);
    assert(is_digit(s[0]));
}

} // verus!
