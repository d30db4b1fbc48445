//! The language-server client: framing of messages (the `Content-Length`
//! header), the table of requests awaiting an answer, and the routing of
//! what the server sends back.

use vstd::prelude::*;
use crate::numeric::{decimal, usize_to_decimal, parse_usize_spec, parse_usize, law_decimal_parses_back};
use crate::text::{str_chars, chars_to_string, has_prefix, starts_with_str, append_str, append_chars};
use crate::server_errors::ServerError;

verus! {

/// The length of a `Content-Length: n` header line, when it has one that parses.
pub open spec fn content_length_of(line: Seq<char>) -> Option<usize> {
    if line.len() >= 16 && has_prefix(line, "Content-Length: "@) {
        parse_usize_spec(line.subrange(16, line.len() as int))
    } else {
        None
    }
}

/// Reads the length from a `Content-Length: n` header line.
pub fn parse_content_length(line: &str) -> (r: Option<usize>)
    ensures
        r == content_length_of(line@),
{
    let l = str_chars(line);
    if l.len() >= 16 && starts_with_str(&l, "Content-Length: ") {
        parse_usize(&l, 16)
    } else {
        None
    }
}

/// The number of bytes UTF-8 uses for `c`.
pub open spec fn utf8_width(c: char) -> nat {
    if (c as u32) < 0x80 {
        1
    } else if (c as u32) < 0x800 {
        2
    } else if (c as u32) < 0x10000 {
        3
    } else {
        4
    }
}

/// The number of bytes of `s` in UTF-8.
pub open spec fn utf8_len(s: Seq<char>) -> nat
    decreases s.len(),
{
    if s.len() == 0 {
        0
    } else {
        utf8_len(s.drop_last()) + utf8_width(s.last())
    }
}

/// The UTF-8 length of a text.
pub fn utf8_byte_len(s: &Vec<char>) -> (r: usize)
    requires
        utf8_len(s@) <= usize::MAX,
    ensures
        r == utf8_len(s@),
{
    let mut n: usize = 0;
    let mut i: usize = 0;
    while i < s.len()
        invariant
            i <= s@.len(),
            n == utf8_len(s@.subrange(0, i as int)),
            utf8_len(s@) <= usize::MAX,
        decreases s@.len() - i,
    {
        proof {
            assert(s@.subrange(0, i + 1).drop_last() =~= s@.subrange(0, i as int));
            lemma_utf8_len_prefix(s@, i + 1);
        }
        let c = s[i];
        let w: usize = if (c as u32) < 0x80 { 1 } else if (c as u32) < 0x800 { 2 } else if (c as u32) < 0x10000 { 3 } else { 4 };
        n = n + w;
        i = i + 1;
    }
    assert(s@.subrange(0, s@.len() as int) =~= s@);
    n
}

/// A prefix is no longer in UTF-8 than the whole text.
pub proof fn lemma_utf8_len_prefix(s: Seq<char>, k: int)
    requires
        0 <= k <= s.len(),
    ensures
        utf8_len(s.subrange(0, k)) <= utf8_len(s),
    decreases s.len() - k,
{
    if k < s.len() {
        lemma_utf8_len_prefix(s, k + 1);
        assert(s.subrange(0, k + 1).drop_last() =~= s.subrange(0, k));
    } else {
        assert(s.subrange(0, k) =~= s);
    }
}

/// A message framed for the wire: the header with the body's UTF-8 length,
/// an empty line, then the body.
pub open spec fn framed(body: Seq<char>) -> Seq<char> {
    "Content-Length: "@ + decimal(utf8_len(body)) + "\r\n\r\n"@ + body
}

/// Frames a JSON body for sending to a language server.
pub fn frame_message(body: &str) -> (r: String)
    requires
        utf8_len(body@) <= usize::MAX,
    ensures
        r@ == framed(body@),
{
    let b = str_chars(body);
    let n = utf8_byte_len(&b);
    let mut v: Vec<char> = Vec::new();
    append_str(&mut v, "Content-Length: ");
    let d = usize_to_decimal(n);
    append_chars(&mut v, &d);
    append_str(&mut v, "\r\n\r\n");
    append_chars(&mut v, &b);
    chars_to_string(&v)
}

/// How a response to a pending request is answered.
#[derive(Debug, Clone)]
pub enum ResponseKind {
    /// The server reported an error, with its message.
    Failure(String),
    /// The server sent a result.
    Success,
    /// Neither an error nor a result.
    Malformed,
}

/// Classifies a response: an `error` member wins (its message, or `Unknown
/// error`), then a `result` member; anything else is malformed.
pub fn classify_response(has_error: bool, error_message: Option<String>, has_result: bool) -> (r: ResponseKind)
    ensures
        has_error ==> match error_message {
            Some(m) => r matches ResponseKind::Failure(x) && x == m,
            None => r matches ResponseKind::Failure(x) && x@ == "Unknown error"@,
        },
        !has_error && has_result ==> r is Success,
        !has_error && !has_result ==> (r matches ResponseKind::Malformed),
{
    if has_error {
        match error_message {
            Some(m) => ResponseKind::Failure(m),
            None => ResponseKind::Failure(chars_to_string(&str_chars("Unknown error"))),
        }
    } else if has_result {
        ResponseKind::Success
    } else {
        ResponseKind::Malformed
    }
}


/// The header of a framed message reads back as the body's UTF-8 length.
pub proof fn law_frame_header_parses_back(body: Seq<char>)
    requires
        utf8_len(body) <= usize::MAX,
    ensures
        content_length_of("Content-Length: "@ + decimal(utf8_len(body))) == Some(utf8_len(body) as usize),
        framed(body) == ("Content-Length: "@ + decimal(utf8_len(body))) + "\r\n\r\n"@ + body,
{
    reveal_strlit("Content-Length: ");
    let n = utf8_len(body) as usize;
    let line = "Content-Length: "@ + decimal(n as nat);
    law_decimal_parses_back(n);
    assert(line.subrange(0, 16) =~= "Content-Length: "@);
    assert(line.subrange(16, line.len() as int) =~= decimal(n as nat));
}


/// A text takes at least one and at most four bytes per character in UTF-8.
pub proof fn law_utf8_len_bounds(s: Seq<char>)
    ensures
        s.len() <= utf8_len(s) <= 4 * s.len(),
    decreases s.len(),
{
    if s.len() > 0 {
        law_utf8_len_bounds(s.drop_last());
    }
}


/// How the client learns about a message from the server.
#[derive(Debug, Clone)]
pub enum IncomingAction {
    /// The answer to pending request `id`, which is no longer pending.
    Deliver(i64, ResponseKind),
    /// A message with an id that no pending request has: dropped.
    Unmatched,
    /// A notification from the server.
    Notification,
    /// Anything else: dropped.
    Ignored,
}

/// The requests a client has sent and not yet seen answered.
#[derive(Debug)]
pub struct RequestTable {
    next_id: i64,
    pending: Vec<i64>,
}

impl RequestTable {
    /// The id the next request gets.
    pub closed spec fn next(&self) -> i64 {
        self.next_id
    }

    /// The ids of the pending requests, in the order they were sent.
    pub closed spec fn pending_ids(&self) -> Seq<i64> {
        self.pending@
    }

    /// Ids are handed out from 1 up; every pending id was handed out, once.
    pub open spec fn wf(&self) -> bool {
        &&& self.next() >= 1
        &&& self.pending_ids().no_duplicates()
        &&& forall|k: int| 0 <= k < self.pending_ids().len() ==> 1 <= #[trigger] self.pending_ids()[k] < self.next()
    }

    /// A table with nothing pending; the first request gets id 1.
    pub fn new() -> (r: Self)
        ensures
            r.wf(),
            r.next() == 1,
            r.pending_ids() == Seq::<i64>::empty(),
    {
        RequestTable { next_id: 1, pending: Vec::new() }
    }

    /// The id the next request gets.
    pub fn next_id(&self) -> (r: i64)
        ensures
            r == self.next(),
    {
        self.next_id
    }

    /// Hands out the id of a new request and records it as pending.
    pub fn issue(&mut self) -> (id: i64)
        requires
            old(self).wf(),
            old(self).next() < i64::MAX,
        ensures
            final(self).wf(),
            id == old(self).next(),
            final(self).next() == old(self).next() + 1,
            final(self).pending_ids() == old(self).pending_ids().push(id),
    {
        let id = self.next_id;
        self.next_id = self.next_id + 1;
        let ghost o = self.pending@;
        self.pending.push(id);
        proof {
            let p = self.pending@;
            assert forall|i: int, j: int| 0 <= i < j < p.len() implies p[i] != p[j] by {
                if j == o.len() {
                    assert(o[i] < id);
                }
            }
        }
        id
    }

    /// Whether request `id` is pending.
    pub fn is_pending(&self, id: i64) -> (r: bool)
        ensures
            r == self.pending_ids().contains(id),
    {
        let mut i: usize = 0;
        while i < self.pending.len()
            invariant
                i <= self.pending@.len(),
                forall|k: int| 0 <= k < i ==> self.pending@[k] != id,
            decreases self.pending@.len() - i,
        {
            if self.pending[i] == id {
                assert(self.pending@[i as int] == id);
                return true;
            }
            i = i + 1;
        }
        false
    }

    /// Stops waiting for request `id` (answered, timed out or not sent);
    /// tells whether it was pending.
    pub fn remove(&mut self, id: i64) -> (was: bool)
        requires
            old(self).wf(),
        ensures
            final(self).wf(),
            was == old(self).pending_ids().contains(id),
            final(self).next() == old(self).next(),
            !final(self).pending_ids().contains(id),
            forall|x: i64| x != id ==> (#[trigger] final(self).pending_ids().contains(x) <==> old(self).pending_ids().contains(x)),
    {
        let ghost o = self.pending@;
        let mut kept: Vec<i64> = Vec::new();
        let mut was = false;
        let mut i: usize = 0;
        while i < self.pending.len()
            invariant
                i <= self.pending@.len(),
                self.pending@ == o,
                o.no_duplicates(),
                kept@.no_duplicates(),
                was == o.subrange(0, i as int).contains(id),
                !kept@.contains(id),
                forall|x: i64| x != id ==> (#[trigger] kept@.contains(x) <==> o.subrange(0, i as int).contains(x)),
                forall|k: int| 0 <= k < kept@.len() ==> o.contains(#[trigger] kept@[k]),
            decreases self.pending@.len() - i,
        {
            let x = self.pending[i];
            let ghost pre = o.subrange(0, i as int);
            assert(o.subrange(0, i + 1) =~= pre.push(x));
            if x == id {
                was = true;
            } else {
                let ghost kb = kept@;
                proof {
                    if kb.contains(x) {
                        let k = choose|k: int| 0 <= k < kb.len() && kb[k] == x;
                        assert(pre.contains(x));
                        let m = choose|m: int| 0 <= m < pre.len() && pre[m] == x;
                        assert(o[m] == o[i as int]);
                    }
                }
                kept.push(x);
                proof {
                    let kn = kept@;
                    assert forall|a: int, b: int| 0 <= a < b < kn.len() implies kn[a] != kn[b] by {
                        if b == kb.len() {
                            assert(kb.contains(kb[a]));
                        }
                    }
                    assert forall|y: i64| y != id implies (#[trigger] kn.contains(y) <==> pre.push(x).contains(y)) by {
                        let pp = pre.push(x);
                        if y == x {
                            assert(kn[kb.len() as int] == x);
                            assert(pp[pre.len() as int] == x);
                        } else {
                            if kn.contains(y) {
                                let k = choose|k: int| 0 <= k < kn.len() && kn[k] == y;
                                assert(kb[k] == y);
                                assert(kb.contains(y));
                                assert(pre.contains(y));
                                let m = choose|m: int| 0 <= m < pre.len() && pre[m] == y;
                                assert(pp[m] == y);
                            }
                            if pp.contains(y) {
                                let k = choose|k: int| 0 <= k < pp.len() && pp[k] == y;
                                assert(pre[k] == y);
                                assert(pre.contains(y));
                                assert(kb.contains(y));
                                let m = choose|m: int| 0 <= m < kb.len() && kb[m] == y;
                                assert(kn[m] == y);
                            }
                        }
                    }
                    assert forall|k: int| 0 <= k < kn.len() implies o.contains(#[trigger] kn[k]) by {
                        if k == kb.len() {
                            assert(o[i as int] == x);
                        } else {
                            assert(kn[k] == kb[k]);
                        }
                    }
                    if kn.contains(id) {
                        let k = choose|k: int| 0 <= k < kn.len() && kn[k] == id;
                        assert(kb[k] == id);
                        assert(kb.contains(id));
                    }
                }
            }
            proof {
                if pre.push(x).contains(id) && x != id {
                    let k = choose|k: int| 0 <= k < pre.push(x).len() && pre.push(x)[k] == id;
                    assert(pre[k] == id);
                    assert(pre.contains(id));
                }
                if x == id {
                    assert(pre.push(x)[pre.len() as int] == id);
                }
                if pre.contains(id) {
                    let k = choose|k: int| 0 <= k < pre.len() && pre[k] == id;
                    assert(pre.push(x)[k] == id);
                }
            }
            i = i + 1;
        }
        assert(o.subrange(0, o.len() as int) =~= o);
        self.pending = kept;
        proof {
            let p = self.pending@;
            assert forall|k: int| 0 <= k < p.len() implies 1 <= #[trigger] p[k] < self.next_id by {
                assert(o.contains(p[k]));
                let m = choose|m: int| 0 <= m < o.len() && o[m] == p[k];
                assert(1 <= o[m] < self.next_id);
            }
        }
        was
    }

    /// What a message from the server comes to: a message with an integer id
    /// answers that request if it is pending (and it stops being pending),
    /// else is dropped; a message without an id but with a method is a
    /// notification.
    pub fn route_incoming(
        &mut self,
        has_id: bool,
        id: Option<i64>,
        has_error: bool,
        error_message: Option<String>,
        has_result: bool,
        has_method: bool,
    ) -> (r: IncomingAction)
        requires
            old(self).wf(),
        ensures
            final(self).wf(),
            final(self).next() == old(self).next(),
            has_id && id is Some && old(self).pending_ids().contains(id->0) ==> (r matches IncomingAction::Deliver(i, _) && i == id->0
                && !final(self).pending_ids().contains(i)),
            has_id && id is Some && !old(self).pending_ids().contains(id->0) ==> (r matches IncomingAction::Unmatched
                && final(self).pending_ids() == old(self).pending_ids()),
            has_id && id is None ==> (r matches IncomingAction::Ignored && final(self).pending_ids() == old(self).pending_ids()),
            !has_id && has_method ==> (r matches IncomingAction::Notification && final(self).pending_ids() == old(self).pending_ids()),
            !has_id && !has_method ==> (r matches IncomingAction::Ignored && final(self).pending_ids() == old(self).pending_ids()),
            r matches IncomingAction::Deliver(_, k) ==> ({
                &&& has_error ==> match error_message {
                    Some(m) => k matches ResponseKind::Failure(x) && x == m,
                    None => k matches ResponseKind::Failure(x) && x@ == "Unknown error"@,
                }
                &&& !has_error && has_result ==> k is Success
                &&& !has_error && !has_result ==> (k matches ResponseKind::Malformed)
            }),
            forall|x: i64| (id is None || x != id->0) ==> (#[trigger] final(self).pending_ids().contains(x)
                <==> old(self).pending_ids().contains(x)),
    {
        if has_id {
            match id {
                Some(n) => {
                    if self.is_pending(n) {
                        self.remove(n);
                        IncomingAction::Deliver(n, classify_response(has_error, error_message, has_result))
                    } else {
                        IncomingAction::Unmatched
                    }
                },
                None => IncomingAction::Ignored,
            }
        } else if has_method {
            IncomingAction::Notification
        } else {
            IncomingAction::Ignored
        }
    }
}

/// The program and its arguments from a server command, which must not be
/// empty.
pub fn split_command(command: &Vec<String>) -> (r: Result<(String, Vec<String>), ServerError>)
    ensures
        command@.len() == 0 ==> (r matches Err(ServerError::Config { message: m })
            && m@ == "LSP server command cannot be empty"@),
        command@.len() > 0 ==> (r matches Ok((p, a)) && p@ == command@[0]@
            && a@.map_values(|s: String| s@) == command@.subrange(1, command@.len() as int).map_values(|s: String| s@)),
{
    if command.len() == 0 {
        return Err(ServerError::config(chars_to_string(&str_chars("LSP server command cannot be empty"))));
    }
    let program = chars_to_string(&str_chars(command[0].as_str()));
    let mut args: Vec<String> = Vec::new();
    let mut i: usize = 1;
    while i < command.len()
        invariant
            1 <= i <= command@.len(),
            args@.map_values(|s: String| s@) == command@.subrange(1, i as int).map_values(|s: String| s@),
        decreases command@.len() - i,
    {
        let ghost o = args@.map_values(|s: String| s@);
        args.push(chars_to_string(&str_chars(command[i].as_str())));
        assert(args@.map_values(|s: String| s@) =~= o.push(command@[i as int]@));
        assert(command@.subrange(1, i + 1).map_values(|s: String| s@) =~= command@.subrange(1, i as int).map_values(|s: String| s@).push(command@[i as int]@));
        i = i + 1;
    }
    Ok((program, args))
}

/// A new request never reuses the id of a request still in flight: the
/// next id is above every pending one.
pub proof fn law_new_ids_are_fresh(pending: Seq<i64>, next: i64)
    requires
        forall|k: int| 0 <= k < pending.len() ==> 1 <= #[trigger] pending[k] < next,
    ensures
        !pending.contains(next),
        !pending.push(next).subrange(0, pending.len() as int).contains(next),
{
    if pending.contains(next) {
        let k = choose|k: int| 0 <= k < pending.len() && pending[k] == next;
        assert(pending[k] < next);
    }
    assert(pending.push(next).subrange(0, pending.len() as int) =~= pending);
}

} // verus!
