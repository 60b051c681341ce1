//! The messages that the validation runner exchanges with a serverless function runtime over
//! plain HTTP/1.1: the request head it sends, where the response head ends, the header it
//! reads back, and the paths and bodies of its replies.

use vstd::prelude::*;
use vstd::string::*;

use crate::text::{decimal, push_decimal};
use crate::textual::{
    chars_of, eq_ignore_ascii_case, eq_ignoring_ascii_case, json_escape, json_escaped, string_of,
    trim_bounds, trimmed,
};

verus! {

/// The index of the first `c` in `s`, or `s.len()` when `s` has none.
#[verifier::opaque]
pub open spec fn first_index(s: Seq<char>, c: char) -> int {
    if exists|i: int| 0 <= i < s.len() && s[i] == c && forall|k: int| 0 <= k < i ==> #[trigger] s[k] != c {
        choose|i: int| 0 <= i < s.len() && s[i] == c && forall|k: int| 0 <= k < i ==> #[trigger] s[k] != c
    } else {
        s.len() as int
    }
}

proof fn lemma_first_index_at(s: Seq<char>, c: char, i: int)
    requires
        0 <= i <= s.len(),
        i < s.len() ==> s[i] == c,
        forall|k: int| 0 <= k < i ==> #[trigger] s[k] != c,
    ensures
        first_index(s, c) == i,
{
    reveal(first_index);
    if i < s.len() {
        let j = choose|j: int| 0 <= j < s.len() && s[j] == c && forall|k: int| 0 <= k < j ==> #[trigger] s[k] != c;
        assert(0 <= j < s.len() && s[j] == c && forall|k: int| 0 <= k < j ==> #[trigger] s[k] != c);
        if j < i {
            assert(s[j] != c);
        } else if j > i {
            assert(s[i] != c);
        }
    } else {
        if exists|j: int| 0 <= j < s.len() && s[j] == c && forall|k: int| 0 <= k < j ==> #[trigger] s[k] != c {
            let j = choose|j: int| 0 <= j < s.len() && s[j] == c && forall|k: int| 0 <= k < j ==> #[trigger] s[k] != c;
            assert(s[j] != c);
        }
    }
}

/// The value of header line `line` when its field name is `name`, compared without ASCII
/// case: the text after the first `:`, without surrounding white space. `None` for a line
/// without `:` or with another name.
pub open spec fn header_in_line(line: Seq<char>, name: Seq<char>) -> Option<Seq<char>> {
    let colon = first_index(line, ':');
    if colon < line.len() && eq_ignoring_ascii_case(line.take(colon), name) {
        Some(trimmed(line.skip(colon + 1)))
    } else {
        None
    }
}

/// The first line of `s`: the text before the first `\n`, without a `\r` that ends it, or all
/// of `s` when it has no `\n`.
pub open spec fn first_line(s: Seq<char>) -> Seq<char> {
    let e = first_index(s, '\n');
    if e < s.len() && e > 0 && s[e - 1] == '\r' {
        s.take(e - 1)
    } else {
        s.take(e)
    }
}

/// The value of the first header line of `headers` whose field name is `name` (ASCII
/// case-insensitive), trimmed; lines end at `\n` or `\r\n`.
pub open spec fn header_value_of(headers: Seq<char>, name: Seq<char>) -> Option<Seq<char>>
    decreases headers.len(),
{
    if headers.len() == 0 {
        None
    } else {
        let e = first_index(headers, '\n');
        match header_in_line(first_line(headers), name) {
            Some(v) => Some(v),
            None => if 0 <= e < headers.len() {
                header_value_of(headers.skip(e + 1), name)
            } else {
                None
            },
        }
    }
}

/// The first index `i` in `from..to` with `chars[i] == c`, or `to`.
fn find_char(chars: &Vec<char>, from: usize, to: usize, c: char) -> (r: usize)
    requires
        from <= to <= chars.len(),
    ensures
        from <= r <= to,
        r < to ==> chars@[r as int] == c,
        forall|k: int| from <= k < r ==> #[trigger] chars@[k] != c,
        first_index(chars@.subrange(from as int, to as int), c) == r - from,
{
    let mut i = from;
    while i < to && chars[i] != c
        invariant
            from <= i <= to <= chars.len(),
            forall|k: int| from <= k < i ==> #[trigger] chars@[k] != c,
        decreases to - i,
    {
        i = i + 1;
    }
    proof {
        let s = chars@.subrange(from as int, to as int);
        assert forall|k: int| 0 <= k < i - from implies #[trigger] s[k] != c by {
            assert(s[k] == chars@[from + k]);
        }
        lemma_first_index_at(s, c, i - from);
    }
    i
}

/// The position of the `\n` that ends the line starting at `pos` (or the end of `chars`), and
/// the header value that this line holds for `key`.
fn scan_line(chars: &Vec<char>, key: &Vec<char>, pos: usize) -> (r: (usize, Option<String>))
    requires
        pos < chars.len(),
    ensures
        pos <= r.0 <= chars.len(),
        r.0 - pos == first_index(chars@.skip(pos as int), '\n'),
        match r.1 {
            Some(v) => header_in_line(first_line(chars@.skip(pos as int)), key@) == Some(v@),
            None => header_in_line(first_line(chars@.skip(pos as int)), key@) is None,
        },
{
    let len = chars.len();
    let ghost rest = chars@.skip(pos as int);
    assert(rest =~= chars@.subrange(pos as int, len as int));
    let e = find_char(chars, pos, len, '\n');
    let line_end = if e < len && e > pos && chars[e - 1] == '\r' { e - 1 } else { e };
    let ghost line = first_line(rest);
    assert(line =~= chars@.subrange(pos as int, line_end as int)) by {
        if e < len && e > pos {
            assert(rest[e - pos - 1] == chars@[e - 1]);
        }
    }
    let colon = find_char(chars, pos, line_end, ':');
    assert(line.take(colon - pos) =~= chars@.subrange(pos as int, colon as int));
    if colon < line_end && eq_ignore_ascii_case(chars, pos, colon, key) {
        let (start, end) = trim_bounds(chars, colon + 1, line_end);
        assert(line.skip(colon - pos + 1) =~= chars@.subrange(colon + 1, line_end as int));
        (e, Some(string_of(chars, start, end)))
    } else {
        (e, None)
    }
}

/// The value of the first header line in `headers` whose field name is `name`, compared
/// without ASCII case, with surrounding white space removed.
pub fn header_value(headers: &str, name: &str) -> (r: Option<String>)
    ensures
        match r {
            Some(v) => header_value_of(headers@, name@) == Some(v@),
            None => header_value_of(headers@, name@) is None,
        },
{
    let chars = chars_of(headers);
    let key = chars_of(name);
    let len = chars.len();
    let mut pos: usize = 0;
    assert(chars@.skip(0) =~= chars@);
    while pos < len
        invariant
            chars@ == headers@,
            key@ == name@,
            len == chars.len(),
            pos <= len,
            header_value_of(headers@, name@) == header_value_of(chars@.skip(pos as int), name@),
        decreases len - pos,
    {
        let ghost rest = chars@.skip(pos as int);
        let (e, found) = scan_line(&chars, &key, pos);
        if found.is_some() {
            return found;
        }
        if e < len {
            assert(rest.skip(e - pos + 1) =~= chars@.skip(e + 1));
            pos = e + 1;
        } else {
            return None;
        }
    }
    assert(chars@.skip(pos as int) =~= Seq::<char>::empty());
    None
}


/// The request head of an HTTP/1.1 request without keep-alive:
/// `{method} {path} HTTP/1.1`, then the `Host`, `Connection: close` and `Content-Length`
/// header lines, each ended by CRLF, then an empty line.
pub open spec fn request_head_text(method: Seq<char>, path: Seq<char>, host: Seq<char>, body_len: nat) -> Seq<char> {
    method + " "@ + path + " HTTP/1.1\r\nHost: "@ + host + "\r\nConnection: close\r\nContent-Length: "@
        + decimal(body_len) + "\r\n\r\n"@
}

/// The head of a request for `path` on `host` with a body of `body_len` bytes.
pub fn request_head(method: &str, path: &str, host: &str, body_len: u64) -> (head: String)
    ensures
        head@ == request_head_text(method@, path@, host@, body_len as nat),
{
    let mut head = String::new();
    head.append(method);
    head.append(" ");
    head.append(path);
    head.append(" HTTP/1.1\r\nHost: ");
    head.append(host);
    head.append("\r\nConnection: close\r\nContent-Length: ");
    push_decimal(&mut head, body_len);
    head.append("\r\n\r\n");
    head
}

/// `bytes` holds the blank line `\r\n\r\n` that ends a response head at `p`.
pub open spec fn blank_line_at(bytes: Seq<u8>, p: int) -> bool {
    0 <= p && p + 4 <= bytes.len() && bytes[p] == 0x0D && bytes[p + 1] == 0x0A && bytes[p + 2] == 0x0D
        && bytes[p + 3] == 0x0A
}

/// Where the head of the HTTP response `response` ends: the position of the first
/// `\r\n\r\n`, or `None` when the response has none (an invalid response).
pub fn header_block_end(response: &[u8]) -> (r: Option<usize>)
    ensures
        match r {
            Some(p) => blank_line_at(response@, p as int) && forall|q: int|
                0 <= q < p ==> !#[trigger] blank_line_at(response@, q),
            None => forall|q: int| !#[trigger] blank_line_at(response@, q),
        },
{
    let n = response.len();
    if n < 4 {
        return None;
    }
    let mut p: usize = 0;
    while p <= n - 4
        invariant
            n == response.len(),
            4 <= n,
            p <= n - 3,
            forall|q: int| 0 <= q < p ==> !#[trigger] blank_line_at(response@, q),
        decreases n - p,
    {
        if response[p] == 0x0D && response[p + 1] == 0x0A && response[p + 2] == 0x0D && response[p + 3] == 0x0A {
            return Some(p);
        }
        p = p + 1;
    }
    None
}

/// The header that carries the id of the invocation to answer.
pub open spec fn request_id_header() -> Seq<char> {
    "lambda-runtime-aws-request-id"@
}

/// The id of the invocation that a next-invocation response head announces, if it has one.
pub fn invocation_id(headers: &str) -> (r: Option<String>)
    ensures
        match r {
            Some(v) => header_value_of(headers@, request_id_header()) == Some(v@),
            None => header_value_of(headers@, request_id_header()) is None,
        },
{
    header_value(headers, "lambda-runtime-aws-request-id")
}

/// The path that long-polls the runtime for the next invocation.
pub fn next_invocation_path() -> (p: &'static str)
    ensures
        p@ == "/2018-06-01/runtime/invocation/next"@,
{
    "/2018-06-01/runtime/invocation/next"
}

/// The path that answers invocation `request_id`: its `response` when the report passed, its
/// `error` otherwise.
pub open spec fn reply_path_text(request_id: Seq<char>, ok: bool) -> Seq<char> {
    "/2018-06-01/runtime/invocation/"@ + request_id + if ok {
        "/response"@
    } else {
        "/error"@
    }
}

/// The path that answers invocation `request_id`.
pub fn reply_path(request_id: &str, ok: bool) -> (p: String)
    ensures
        p@ == reply_path_text(request_id@, ok),
{
    let mut p = String::new();
    p.append("/2018-06-01/runtime/invocation/");
    p.append(request_id);
    if ok {
        p.append("/response");
    } else {
        p.append("/error");
    }
    p
}

/// The body that answers an invocation: the report itself when it passed, otherwise a JSON
/// error object whose message is the escaped report.
pub open spec fn reply_body_text(report: Seq<char>, ok: bool) -> Seq<char> {
    if ok {
        report
    } else {
        "{\"errorMessage\":\""@ + json_escaped(report) + "\",\"errorType\":\"TachSelectionMismatch\"}"@
    }
}

/// The body that answers an invocation with `report`.
pub fn reply_body(report: &str, ok: bool) -> (b: String)
    ensures
        b@ == reply_body_text(report@, ok),
{
    let mut b = String::new();
    if ok {
        b.append(report);
    } else {
        b.append("{\"errorMessage\":\"");
        let escaped = json_escape(report);
        b.append(escaped.as_str());
        b.append("\",\"errorType\":\"TachSelectionMismatch\"}");
    }
    b
}

} // verus!
