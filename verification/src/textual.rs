//! Character-level text handling for reports and protocol messages: whitespace trimming,
//! ASCII case folding and JSON string escaping, all stated over the characters of a string.

use vstd::prelude::*;
use vstd::string::*;

verus! {

/// The characters of `s`, in order.
pub fn chars_of(s: &str) -> (v: Vec<char>)
    ensures
        v@ == s@,
{
    let mut v: Vec<char> = Vec::new();
    for c in it: s.chars()
        invariant
            v@ == it.seq().take(it.index() as int),
    {
        v.push(c);
    }
    v
}

/// Calls `String::push`, which appends `c` to the end of `s`: the characters of `s` afterwards
/// are those before, followed by `c`.
#[verifier::external_body]
fn push_char(s: &mut String, c: char)
    ensures
        final(s)@ == old(s)@.push(c),
{
    s.push(c);
}

/// The string made of `chars[start..end]`.
pub fn string_of(chars: &Vec<char>, start: usize, end: usize) -> (s: String)
    requires
        start <= end <= chars.len(),
    ensures
        s@ == chars@.subrange(start as int, end as int),
{
    let mut s = String::new();
    let mut i = start;
    while i < end
        invariant
            start <= i <= end <= chars.len(),
            s@ == chars@.subrange(start as int, i as int),
        decreases end - i,
    {
        push_char(&mut s, chars[i]);
        i = i + 1;
    }
    s
}

/// The Unicode `White_Space` property, which `char::is_whitespace` tests and `str::trim`
/// strips.
pub open spec fn is_white_space(c: char) -> bool {
    let u = c as u32;
    ||| 0x09 <= u <= 0x0D
    ||| u == 0x20
    ||| u == 0x85
    ||| u == 0xA0
    ||| u == 0x1680
    ||| 0x2000 <= u <= 0x200A
    ||| u == 0x2028
    ||| u == 0x2029
    ||| u == 0x202F
    ||| u == 0x205F
    ||| u == 0x3000
}

/// Whether `c` is white space.
pub fn white_space(c: char) -> (r: bool)
    ensures
        r == is_white_space(c),
{
    let u = c as u32;
    (0x09 <= u && u <= 0x0D) || u == 0x20 || u == 0x85 || u == 0xA0 || u == 0x1680 || (0x2000 <= u
        && u <= 0x200A) || u == 0x2028 || u == 0x2029 || u == 0x202F || u == 0x205F || u == 0x3000
}

/// `s` without its leading and trailing white space: the part from the first to the last
/// character that is not white space (empty when there is none).
#[verifier::opaque]
pub open spec fn trimmed(s: Seq<char>) -> Seq<char> {
    if forall|i: int| 0 <= i < s.len() ==> is_white_space(#[trigger] s[i]) {
        Seq::empty()
    } else {
        let first = choose|i: int|
            0 <= i < s.len() && !is_white_space(s[i]) && forall|k: int|
                0 <= k < i ==> is_white_space(#[trigger] s[k]);
        let last = choose|j: int|
            0 <= j < s.len() && !is_white_space(s[j]) && forall|k: int|
                j < k < s.len() ==> is_white_space(#[trigger] s[k]);
        s.subrange(first, last + 1)
    }
}

/// The bounds `(start, end)` of `chars[from..to]` without its leading and trailing white space.
pub fn trim_bounds(chars: &Vec<char>, from: usize, to: usize) -> (r: (usize, usize))
    requires
        from <= to <= chars.len(),
    ensures
        from <= r.0 <= r.1 <= to,
        chars@.subrange(r.0 as int, r.1 as int) == trimmed(chars@.subrange(from as int, to as int)),
{
    reveal(trimmed);
    let ghost s = chars@.subrange(from as int, to as int);
    let mut start = from;
    while start < to && white_space(chars[start])
        invariant
            from <= start <= to <= chars.len(),
            forall|k: int| from <= k < start ==> is_white_space(#[trigger] chars@[k]),
        decreases to - start,
    {
        start = start + 1;
    }
    if start == to {
        assert forall|i: int| 0 <= i < s.len() implies is_white_space(#[trigger] s[i]) by {
            assert(s[i] == chars@[from + i]);
        }
        assert(chars@.subrange(start as int, start as int) =~= Seq::<char>::empty());
        return (start, start);
    }
    let mut end = to;
    while end > start && white_space(chars[end - 1])
        invariant
            from <= start < end <= to <= chars.len(),
            !is_white_space(chars@[start as int]),
            forall|k: int| end <= k < to ==> is_white_space(#[trigger] chars@[k]),
        decreases end - start,
    {
        end = end - 1;
    }
    proof {
        let first = start - from;
        let last = end - 1 - from;
        assert(!is_white_space(s[first]));
        assert(!is_white_space(s[last]));
        assert(forall|k: int| 0 <= k < first ==> is_white_space(#[trigger] s[k])) by {
            assert forall|k: int| 0 <= k < first implies is_white_space(#[trigger] s[k]) by {
                assert(s[k] == chars@[from + k]);
            }
        }
        assert(forall|k: int| last < k < s.len() ==> is_white_space(#[trigger] s[k])) by {
            assert forall|k: int| last < k < s.len() implies is_white_space(#[trigger] s[k]) by {
                assert(s[k] == chars@[from + k]);
            }
        }
        let c1 = choose|i: int|
            0 <= i < s.len() && !is_white_space(s[i]) && forall|k: int|
                0 <= k < i ==> is_white_space(#[trigger] s[k]);
        let c2 = choose|j: int|
            0 <= j < s.len() && !is_white_space(s[j]) && forall|k: int|
                j < k < s.len() ==> is_white_space(#[trigger] s[k]);
        assert(c1 == first) by {
            if c1 < first {
                assert(is_white_space(s[c1]));
            } else if c1 > first {
                assert(is_white_space(s[first]));
            }
        }
        assert(c2 == last) by {
            if c2 < last {
                assert(is_white_space(s[last]));
            } else if c2 > last {
                assert(is_white_space(s[c2]));
            }
        }
        assert(chars@.subrange(start as int, end as int) =~= s.subrange(first, last + 1));
    }
    (start, end)
}

/// `c` with `A`–`Z` mapped to `a`–`z`.
pub open spec fn ascii_lower(c: char) -> char {
    if 'A' <= c <= 'Z' {
        ((c as u32) + 32) as char
    } else {
        c
    }
}

/// Whether `a` and `b` are equal when ASCII letters are compared without case.
#[verifier::opaque]
pub open spec fn eq_ignoring_ascii_case(a: Seq<char>, b: Seq<char>) -> bool {
    a.len() == b.len() && forall|i: int| 0 <= i < a.len() ==> ascii_lower(#[trigger] a[i]) == ascii_lower(b[i])
}

fn lower(c: char) -> (r: char)
    ensures
        r == ascii_lower(c),
{
    if 'A' <= c && c <= 'Z' {
        let u = (c as u32) + 32;
        proof {
            assert(0x61 <= u <= 0x7A);
        }
        char_of(u)
    } else {
        c
    }
}

/// The ASCII lowercase letter with code `u`.
fn char_of(u: u32) -> (c: char)
    requires
        0x61 <= u <= 0x7A,
    ensures
        c == u as char,
{
    let b = u as u8;
    let c = b as char;
    proof {
        assert(c as u32 == u);
    }
    c
}


/// Whether `a[a_from..a_to]` equals `b` when ASCII letters are compared without case.
pub fn eq_ignore_ascii_case(a: &Vec<char>, a_from: usize, a_to: usize, b: &Vec<char>) -> (r: bool)
    requires
        a_from <= a_to <= a.len(),
    ensures
        r == eq_ignoring_ascii_case(a@.subrange(a_from as int, a_to as int), b@),
{
    reveal(eq_ignoring_ascii_case);
    let ghost sa = a@.subrange(a_from as int, a_to as int);
    if a_to - a_from != b.len() {
        return false;
    }
    let mut i: usize = 0;
    while i < b.len()
        invariant
            a_from <= a_to <= a.len(),
            a_to - a_from == b.len(),
            sa == a@.subrange(a_from as int, a_to as int),
            i <= b.len(),
            forall|k: int| 0 <= k < i ==> ascii_lower(#[trigger] sa[k]) == ascii_lower(b@[k]),
        decreases b.len() - i,
    {
        if lower(a[a_from + i]) != lower(b[i]) {
            assert(sa[i as int] == a@[a_from + i]);
            proof {
                reveal(eq_ignoring_ascii_case);
            }
            return false;
        }
        assert(sa[i as int] == a@[a_from + i]);
        i = i + 1;
    }
    true
}

/// Whether `a` and `b` hold the same characters.
pub fn same_chars(a: &str, b: &str) -> (r: bool)
    ensures
        r == (a@ == b@),
{
    let va = chars_of(a);
    let vb = chars_of(b);
    if va.len() != vb.len() {
        return false;
    }
    let mut i: usize = 0;
    while i < va.len()
        invariant
            va@ == a@,
            vb@ == b@,
            va.len() == vb.len(),
            i <= va.len(),
            forall|k: int| 0 <= k < i ==> va@[k] == vb@[k],
        decreases va.len() - i,
    {
        if va[i] != vb[i] {
            return false;
        }
        i = i + 1;
    }
    assert(va@ =~= vb@);
    true
}

/// The lowercase hexadecimal digit for `d` (`d < 16`).
pub open spec fn hex_digit(d: nat) -> char {
    if d < 10 {
        (('0' as u32) + d) as char
    } else {
        (('a' as u32) + d - 10) as char
    }
}

fn hex_char(d: u32) -> (c: char)
    requires
        d < 16,
    ensures
        c == hex_digit(d as nat),
{
    let b: u8 = if d < 10 { 0x30 + d as u8 } else { 0x61 + (d as u8 - 10) };
    b as char
}

/// A control character (Unicode general category `Cc`), as `char::is_control` tests.
pub open spec fn is_control(c: char) -> bool {
    (c as u32) <= 0x1F || (0x7F <= (c as u32) && (c as u32) <= 0x9F)
}

/// The JSON string escape of one character: `\"`, `\\`, `\n`, `\r`, `\t`, `\u` with four
/// lowercase hex digits for the other control characters, and the character itself otherwise.
pub open spec fn escape_char(c: char) -> Seq<char> {
    let u = c as u32;
    if c == '"' {
        seq!['\\', '"']
    } else if c == '\\' {
        seq!['\\', '\\']
    } else if c == '\n' {
        seq!['\\', 'n']
    } else if c == '\r' {
        seq!['\\', 'r']
    } else if c == '\t' {
        seq!['\\', 't']
    } else if is_control(c) {
        seq![
            '\\',
            'u',
            hex_digit(((u / 4096) % 16) as nat),
            hex_digit(((u / 256) % 16) as nat),
            hex_digit(((u / 16) % 16) as nat),
            hex_digit((u % 16) as nat),
        ]
    } else {
        seq![c]
    }
}

/// `s` with every character escaped for the inside of a JSON string.
pub open spec fn json_escaped(s: Seq<char>) -> Seq<char>
    decreases s.len(),
{
    if s.len() == 0 {
        Seq::empty()
    } else {
        json_escaped(s.drop_last()) + escape_char(s.last())
    }
}

fn push_escaped(out: &mut String, c: char)
    ensures
        final(out)@ == old(out)@ + escape_char(c),
{
    let u = c as u32;
    if c == '"' {
        push_char(out, '\\');
        push_char(out, '"');
    } else if c == '\\' {
        push_char(out, '\\');
        push_char(out, '\\');
    } else if c == '\n' {
        push_char(out, '\\');
        push_char(out, 'n');
    } else if c == '\r' {
        push_char(out, '\\');
        push_char(out, 'r');
    } else if c == '\t' {
        push_char(out, '\\');
        push_char(out, 't');
    } else if u <= 0x1F || (0x7F <= u && u <= 0x9F) {
        push_char(out, '\\');
        push_char(out, 'u');
        push_char(out, hex_char((u / 4096) % 16));
        push_char(out, hex_char((u / 256) % 16));
        push_char(out, hex_char((u / 16) % 16));
        push_char(out, hex_char(u % 16));
    } else {
        push_char(out, c);
    }
    assert(final(out)@ =~= old(out)@ + escape_char(c));
}

/// `value` escaped for use inside a JSON string literal.
pub fn json_escape(value: &str) -> (escaped: String)
    ensures
        escaped@ == json_escaped(value@),
{
    let chars = chars_of(value);
    let mut escaped = String::new();
    let mut i: usize = 0;
    while i < chars.len()
        invariant
            chars@ == value@,
            i <= chars.len(),
            escaped@ == json_escaped(chars@.take(i as int)),
        decreases chars.len() - i,
    {
        assert(chars@.take(i as int + 1).drop_last() =~= chars@.take(i as int));
        push_escaped(&mut escaped, chars[i]);
        i = i + 1;
    }
    assert(chars@.take(chars.len() as int) =~= chars@);
    escaped
}


/// Whether `c` is an ASCII decimal digit.
pub open spec fn is_digit(c: char) -> bool {
    '0' <= c <= '9'
}

/// The value of the decimal digits `s`, most significant first.
pub open spec fn digits_value(s: Seq<char>) -> nat
    decreases s.len(),
{
    if s.len() == 0 {
        0
    } else {
        digits_value(s.drop_last()) * 10 + ((s.last() as u32) - ('0' as u32)) as nat
    }
}

/// Whether every character of `s` is an ASCII decimal digit.
pub open spec fn all_digits(s: Seq<char>) -> bool {
    forall|i: int| 0 <= i < s.len() ==> is_digit(#[trigger] s[i])
}

/// `s` without a leading `+`.
pub open spec fn unsigned_body(s: Seq<char>) -> Seq<char> {
    if s.len() > 0 && s[0] == '+' {
        s.skip(1)
    } else {
        s
    }
}

/// What `u64::from_str` makes of `s`: an optional `+` followed by one or more ASCII digits
/// whose value fits in a `u64`; `None` for anything else (no white space is allowed).
pub open spec fn parsed_u64(s: Seq<char>) -> Option<u64> {
    let body = unsigned_body(s);
    if body.len() > 0 && all_digits(body) && digits_value(body) <= u64::MAX {
        Some(digits_value(body) as u64)
    } else {
        None
    }
}

proof fn lemma_digits_value_monotone(s: Seq<char>, i: int)
    requires
        0 <= i <= s.len(),
        forall|k: int| 0 <= k < s.len() ==> is_digit(#[trigger] s[k]),
    ensures
        digits_value(s.take(i)) <= digits_value(s),
    decreases s.len() - i,
{
    if i < s.len() {
        lemma_digits_value_monotone(s, i + 1);
        assert(s.take(i + 1).drop_last() =~= s.take(i));
    } else {
        assert(s.take(i) =~= s);
    }
}

/// The number that `chars[from..to]` spells as `u64::from_str` reads it.
pub fn parse_u64(chars: &Vec<char>, from: usize, to: usize) -> (r: Option<u64>)
    requires
        from <= to <= chars.len(),
    ensures
        r == parsed_u64(chars@.subrange(from as int, to as int)),
{
    let ghost s = chars@.subrange(from as int, to as int);
    let start = if from < to && chars[from] == '+' { from + 1 } else { from };
    let ghost body = chars@.subrange(start as int, to as int);
    assert(body =~= unsigned_body(s));
    if start == to {
        return None;
    }
    let mut value: u64 = 0;
    let mut i = start;
    while i < to
        invariant
            from <= start <= i <= to <= chars.len(),
            start < to,
            s == chars@.subrange(from as int, to as int),
            body == chars@.subrange(start as int, to as int),
            body == unsigned_body(s),
            forall|k: int| start <= k < i ==> is_digit(#[trigger] chars@[k]),
            value == digits_value(chars@.subrange(start as int, i as int)),
        decreases to - i,
    {
        let c = chars[i];
        if !('0' <= c && c <= '9') {
            proof {
                assert(body[i - start] == chars@[i as int]);
                assert(!is_digit(body[i - start]));
            }
            return None;
        }
        let d = (c as u32 - '0' as u32) as u64;
        let ghost prefix = chars@.subrange(start as int, i + 1);
        assert(prefix.drop_last() =~= chars@.subrange(start as int, i as int));
        assert(prefix.last() == c);
        assert(digits_value(prefix) == value * 10 + d);
        if value > (u64::MAX - d) / 10 {
            proof {
                assert(value * 10 + d > u64::MAX) by (nonlinear_arith)
                    requires
                        value > (u64::MAX - d) / 10,
                        d <= 9,
                ;
                if forall|k: int| 0 <= k < body.len() ==> is_digit(#[trigger] body[k]) {
                    lemma_digits_value_monotone(body, i + 1 - start);
                    assert(body.take(i + 1 - start) =~= chars@.subrange(start as int, i + 1));
                }
            }
            return None;
        }
        value = value * 10 + d;
        i = i + 1;
    }
    proof {
        assert forall|k: int| 0 <= k < body.len() implies is_digit(#[trigger] body[k]) by {
            assert(body[k] == chars@[start + k]);
        }
    }
    Some(value)
}

} // verus!
