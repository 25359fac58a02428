//! The text under which a credential is kept in a vault: a JSON object with
//! the members `user_id` and `api_token`, in this order, without white space,
//! its strings escaped as JSON asks and no further.

use crate::auth::credentials::{Credentials, CredentialsView};
use crate::text::{chars_of, string_of};
use vstd::prelude::*;

verus! {

/// The lower-case hexadecimal digit of value `d`.
pub open spec fn hex_char(d: int) -> char
    recommends
        0 <= d < 16,
{
    if d < 10 {
        (('0' as int) + d) as char
    } else {
        (('a' as int) + d - 10) as char
    }
}

/// How one character is written inside a string of the record: the quote,
/// the backslash and the control characters are escaped, every other
/// character stands for itself.
pub open spec fn escape_char(c: char) -> Seq<char> {
    if c == '"' {
        seq!['\\', '"']
    } else if c == '\\' {
        seq!['\\', '\\']
    } else if c == '\u{8}' {
        seq!['\\', 'b']
    } else if c == '\u{c}' {
        seq!['\\', 'f']
    } else if c == '\n' {
        seq!['\\', 'n']
    } else if c == '\r' {
        seq!['\\', 'r']
    } else if c == '\t' {
        seq!['\\', 't']
    } else if (c as int) < 0x20 {
        seq!['\\', 'u', '0', '0', hex_char((c as int) / 16), hex_char((c as int) % 16)]
    } else {
        seq![c]
    }
}

/// How a text is written inside a string of the record.
pub open spec fn escaped(s: Seq<char>) -> Seq<char>
    decreases s.len(),
{
    if s.len() == 0 {
        Seq::<char>::empty()
    } else {
        escaped(s.drop_last()) + escape_char(s.last())
    }
}

/// What a record begins with.
pub open spec fn record_head() -> Seq<char> {
    seq!['{', '"', 'u', 's', 'e', 'r', '_', 'i', 'd', '"', ':', '"']
}

/// What stands between the two strings of a record.
pub open spec fn record_middle() -> Seq<char> {
    seq!['"', ',', '"', 'a', 'p', 'i', '_', 't', 'o', 'k', 'e', 'n', '"', ':', '"']
}

/// What a record ends with.
pub open spec fn record_tail() -> Seq<char> {
    seq!['"', '}']
}

/// The record of a credential.
pub open spec fn record_text(c: CredentialsView) -> Seq<char> {
    record_head() + escaped(c.user_id) + record_middle() + escaped(c.api_token) + record_tail()
}

/// The credential that a text is the record of, if it is the record of one.
pub open spec fn record_value(text: Seq<char>) -> Option<CredentialsView> {
    if exists|c: CredentialsView| record_text(c) == text {
        Some(choose|c: CredentialsView| record_text(c) == text)
    } else {
        None
    }
}

/// The view of an optional credential.
pub open spec fn option_view(c: Option<Credentials>) -> Option<CredentialsView> {
    match c {
        Some(c) => Some(c@),
        None => None,
    }
}

/// The character written at index `i` of `t` and the number of characters that
/// write it; `None` where a string ends or nothing well formed stands there.
spec fn unescape_at(t: Seq<char>, i: int) -> Option<(char, int)> {
    if i < 0 || i >= t.len() {
        None
    } else if t[i] == '"' {
        None
    } else if t[i] == '\\' {
        if i + 1 >= t.len() {
            None
        } else if t[i + 1] == '"' {
            Some(('"', 2))
        } else if t[i + 1] == '\\' {
            Some(('\\', 2))
        } else if t[i + 1] == 'b' {
            Some(('\u{8}', 2))
        } else if t[i + 1] == 'f' {
            Some(('\u{c}', 2))
        } else if t[i + 1] == 'n' {
            Some(('\n', 2))
        } else if t[i + 1] == 'r' {
            Some(('\r', 2))
        } else if t[i + 1] == 't' {
            Some(('\t', 2))
        } else if t[i + 1] == 'u' {
            if i + 5 >= t.len() || t[i + 2] != '0' || t[i + 3] != '0' {
                None
            } else {
                match (hex_value(t[i + 4]), hex_value(t[i + 5])) {
                    (Some(hi), Some(lo)) => {
                        let v = hi * 16 + lo;
                        if v >= 0x20 || v == 8 || v == 9 || v == 10 || v == 12 || v == 13 {
                            None
                        } else {
                            Some((v as char, 6))
                        }
                    },
                    _ => None,
                }
            }
        } else {
            None
        }
    } else if (t[i] as int) < 0x20 {
        None
    } else {
        Some((t[i], 1))
    }
}

/// The value of a lower-case hexadecimal digit.
spec fn hex_value(c: char) -> Option<int> {
    if '0' <= c <= '9' {
        Some(c as int - '0' as int)
    } else if 'a' <= c <= 'f' {
        Some(c as int - 'a' as int + 10)
    } else {
        None
    }
}

/// The text written from index `i` of `t` up to the quote that closes it, and
/// the index of that quote.
spec fn scan(t: Seq<char>, i: int) -> Option<(Seq<char>, int)>
    decreases t.len() - i,
{
    if i < 0 || i >= t.len() {
        None
    } else if t[i] == '"' {
        Some((Seq::<char>::empty(), i))
    } else {
        match unescape_at(t, i) {
            None => None,
            Some((c, n)) => match scan(t, i + n) {
                None => None,
                Some((rest, j)) => Some((seq![c] + rest, j)),
            },
        }
    }
}

/// `r` with `front` put before the text it found.
spec fn prepend(front: Seq<char>, r: Option<(Seq<char>, int)>) -> Option<(Seq<char>, int)> {
    match r {
        None => None,
        Some((rest, j)) => Some((front + rest, j)),
    }
}

proof fn lemma_escape_char_shape(c: char)
    ensures
        1 <= escape_char(c).len() <= 6,
        escape_char(c)[0] != '"',
{
}

proof fn lemma_unescape_sound(t: Seq<char>, i: int)
    ensures
        unescape_at(t, i) matches Some((c, n)) ==> 1 <= n && i + n <= t.len() && t.subrange(
            i,
            i + n,
        ) == escape_char(c),
{
    if let Some((c, n)) = unescape_at(t, i) {
        assert(t.subrange(i, i + n) =~= escape_char(c));
    }
}

proof fn lemma_unescape_complete(t: Seq<char>, i: int, c: char)
    requires
        0 <= i,
        i + escape_char(c).len() <= t.len(),
        t.subrange(i, i + escape_char(c).len()) == escape_char(c),
    ensures
        unescape_at(t, i) == Some((c, escape_char(c).len() as int)),
{
    let e = escape_char(c);
    let n = e.len() as int;
    assert forall|k: int| 0 <= k < n implies t[i + k] == e[k] by {
        assert(t.subrange(i, i + n)[k] == t[i + k]);
    }
    assert(t[i] == e[0]);
    if n >= 2 {
        assert(t[i + 1] == e[1]);
    }
    if n == 6 {
        assert(t[i + 2] == e[2]);
        assert(t[i + 3] == e[3]);
        assert(t[i + 4] == e[4]);
        assert(t[i + 5] == e[5]);
        let v = c as int;
        assert(hex_value(hex_char(v / 16)) == Some(v / 16));
        assert(hex_value(hex_char(v % 16)) == Some(v % 16));
        assert((v / 16) * 16 + v % 16 == v);
        assert(v as char == c);
    }
}

proof fn lemma_escaped_front(c: char, rest: Seq<char>)
    ensures
        escaped(seq![c] + rest) == escape_char(c) + escaped(rest),
    decreases rest.len(),
{
    let s = seq![c] + rest;
    if rest.len() == 0 {
        assert(s.drop_last() =~= Seq::<char>::empty());
        assert(escaped(s.drop_last()) =~= Seq::<char>::empty());
        assert(escaped(rest) =~= Seq::<char>::empty());
        assert(escaped(s) =~= escape_char(c) + escaped(rest));
    } else {
        assert(s.drop_last() =~= seq![c] + rest.drop_last());
        assert(s.last() == rest.last());
        lemma_escaped_front(c, rest.drop_last());
        assert(escaped(s) =~= escape_char(c) + escaped(rest));
    }
}

proof fn lemma_scan_sound(t: Seq<char>, i: int)
    ensures
        scan(t, i) matches Some((x, j)) ==> 0 <= i <= j < t.len() && t[j] == '"' && t.subrange(
            i,
            j,
        ) == escaped(x),
    decreases t.len() - i,
{
    if let Some((x, j)) = scan(t, i) {
        if t[i] == '"' {
            assert(t.subrange(i, j) =~= escaped(x));
        } else {
            let (c, n) = unescape_at(t, i).unwrap();
            let (rest, j2) = scan(t, i + n).unwrap();
            lemma_unescape_sound(t, i);
            lemma_scan_sound(t, i + n);
            lemma_escaped_front(c, rest);
            assert(t.subrange(i, j) =~= t.subrange(i, i + n) + t.subrange(i + n, j));
        }
    }
}

proof fn lemma_scan_complete(t: Seq<char>, i: int, x: Seq<char>)
    requires
        0 <= i,
        i + escaped(x).len() < t.len(),
        t.subrange(i, i + escaped(x).len()) == escaped(x),
        t[i + escaped(x).len()] == '"',
    ensures
        scan(t, i) == Some((x, i + escaped(x).len())),
    decreases x.len(),
{
    if x.len() == 0 {
        assert(escaped(x).len() == 0);
        assert(scan(t, i).unwrap().0 =~= x);
    } else {
        let c = x[0];
        let rest = x.drop_first();
        assert(x =~= seq![c] + rest);
        lemma_escaped_front(c, rest);
        lemma_escape_char_shape(c);
        let e = escape_char(c);
        let n = e.len() as int;
        let whole = escaped(x);
        assert(whole == e + escaped(rest));
        assert(t.subrange(i, i + n) =~= e) by {
            assert forall|k: int| 0 <= k < n implies t.subrange(i, i + n)[k] == e[k] by {
                assert(t.subrange(i, i + whole.len())[k] == whole[k]);
            }
        }
        assert(t[i] == e[0]) by {
            assert(t.subrange(i, i + n)[0] == t[i]);
        }
        lemma_unescape_complete(t, i, c);
        assert(t.subrange(i + n, i + n + escaped(rest).len()) =~= escaped(rest)) by {
            assert forall|k: int| 0 <= k < escaped(rest).len() implies t.subrange(
                i + n,
                i + n + escaped(rest).len(),
            )[k] == escaped(rest)[k] by {
                assert(t.subrange(i, i + whole.len())[n + k] == whole[n + k]);
            }
        }
        lemma_scan_complete(t, i + n, rest);
    }
}

proof fn lemma_record_shape(c: CredentialsView)
    ensures
        ({
            let t = record_text(c);
            let a = record_head().len() + escaped(c.user_id).len();
            let b = a + record_middle().len();
            let d = b + escaped(c.api_token).len();
            &&& t.len() == d + record_tail().len()
            &&& t.subrange(0, record_head().len() as int) == record_head()
            &&& scan(t, record_head().len() as int) == Some((c.user_id, a as int))
            &&& t.subrange(a as int, b as int) == record_middle()
            &&& scan(t, b as int) == Some((c.api_token, d as int))
            &&& t.subrange(d as int, t.len() as int) == record_tail()
        }),
{
    let t = record_text(c);
    let h = record_head().len() as int;
    let a = h + escaped(c.user_id).len();
    let b = a + record_middle().len();
    let d = b + escaped(c.api_token).len();
    assert(t.subrange(0, h) =~= record_head());
    assert(t.subrange(h, a) =~= escaped(c.user_id));
    assert(t.subrange(a, b) =~= record_middle());
    assert(t.subrange(b, d) =~= escaped(c.api_token));
    assert(t.subrange(d, t.len() as int) =~= record_tail());
    assert(t[a] == record_middle()[0]) by {
        assert(t.subrange(a, b)[0] == t[a]);
    }
    assert(t[d] == record_tail()[0]) by {
        assert(t.subrange(d, t.len() as int)[0] == t[d]);
    }
    lemma_scan_complete(t, h, c.user_id);
    lemma_scan_complete(t, b, c.api_token);
}

/// Two credentials with the same record are the same credential, and the
/// record of a credential is the record of that credential alone.
pub proof fn law_record_round_trip(c: CredentialsView)
    ensures
        record_value(record_text(c)) == Some(c),
        forall|other: CredentialsView| record_text(other) == record_text(c) ==> other == c,
{
    lemma_record_shape(c);
    assert forall|other: CredentialsView| record_text(other) == record_text(c) implies other
        == c by {
        lemma_record_shape(other);
    }
}

fn hex_digit(d: u8) -> (c: char)
    requires
        d < 16,
    ensures
        c == hex_char(d as int),
{
    if d < 10 {
        (d + 48u8) as char
    } else {
        (d + 87u8) as char
    }
}

fn push_escaped_char(c: char, out: &mut Vec<char>)
    ensures
        final(out)@ == old(out)@ + escape_char(c),
{
    if c == '"' {
        out.push('\\');
        out.push('"');
    } else if c == '\\' {
        out.push('\\');
        out.push('\\');
    } else if c == '\u{8}' {
        out.push('\\');
        out.push('b');
    } else if c == '\u{c}' {
        out.push('\\');
        out.push('f');
    } else if c == '\n' {
        out.push('\\');
        out.push('n');
    } else if c == '\r' {
        out.push('\\');
        out.push('r');
    } else if c == '\t' {
        out.push('\\');
        out.push('t');
    } else if ' ' > c {
        let v: u8 = c as u8;
        out.push('\\');
        out.push('u');
        out.push('0');
        out.push('0');
        out.push(hex_digit(v / 16));
        out.push(hex_digit(v % 16));
    } else {
        out.push(c);
    }
    assert(final(out)@ =~= old(out)@ + escape_char(c));
}

fn push_escaped(s: &Vec<char>, out: &mut Vec<char>)
    ensures
        final(out)@ == old(out)@ + escaped(s@),
{
    let mut i: usize = 0;
    assert(escaped(s@.take(0)) =~= Seq::<char>::empty());
    while i < s.len()
        invariant
            i <= s.len(),
            out@ == old(out)@ + escaped(s@.take(i as int)),
        decreases s.len() - i,
    {
        proof {
            let next = s@.take(i + 1);
            assert(next.drop_last() =~= s@.take(i as int));
            assert(next.last() == s@[i as int]);
        }
        push_escaped_char(s[i], out);
        i = i + 1;
    }
    assert(s@.take(i as int) =~= s@);
}

fn push_all(s: &Vec<char>, out: &mut Vec<char>)
    ensures
        final(out)@ == old(out)@ + s@,
{
    let mut i: usize = 0;
    while i < s.len()
        invariant
            i <= s.len(),
            out@ == old(out)@ + s@.take(i as int),
        decreases s.len() - i,
    {
        out.push(s[i]);
        i = i + 1;
    }
    assert(s@.take(i as int) =~= s@);
}

fn head_chars() -> (r: Vec<char>)
    ensures
        r@ == record_head(),
{
    let r = vec!['{', '"', 'u', 's', 'e', 'r', '_', 'i', 'd', '"', ':', '"'];
    assert(r@ =~= record_head());
    r
}

fn middle_chars() -> (r: Vec<char>)
    ensures
        r@ == record_middle(),
{
    let r = vec!['"', ',', '"', 'a', 'p', 'i', '_', 't', 'o', 'k', 'e', 'n', '"', ':', '"'];
    assert(r@ =~= record_middle());
    r
}

fn tail_chars() -> (r: Vec<char>)
    ensures
        r@ == record_tail(),
{
    let r = vec!['"', '}'];
    assert(r@ =~= record_tail());
    r
}

/// Writes the record of a credential.
pub fn encode(credentials: &Credentials) -> (r: String)
    ensures
        r@ == record_text(credentials@),
{
    let mut out: Vec<char> = Vec::new();
    push_all(&head_chars(), &mut out);
    push_escaped(&chars_of(credentials.user_id.as_str()), &mut out);
    push_all(&middle_chars(), &mut out);
    push_escaped(&chars_of(credentials.api_token.as_str()), &mut out);
    push_all(&tail_chars(), &mut out);
    assert(out@ =~= record_text(credentials@));
    string_of(&out)
}

/// Whether `want` stands in `t` at index `at`; if so, the index after it.
fn expect(t: &Vec<char>, at: usize, want: &Vec<char>) -> (r: Option<usize>)
    requires
        at <= t.len(),
    ensures
        match r {
            Some(next) => next == at + want.len() && next <= t.len() && t@.subrange(
                at as int,
                next as int,
            ) == want@,
            None => at + want.len() > t.len() || t@.subrange(
                at as int,
                at + want.len(),
            ) != want@,
        },
{
    if want.len() > t.len() - at {
        return None;
    }
    let mut k: usize = 0;
    while k < want.len()
        invariant
            k <= want.len(),
            at + want.len() <= t.len(),
            forall|j: int| 0 <= j < k ==> t@[at + j] == want@[j],
        decreases want.len() - k,
    {
        if t[at + k] != want[k] {
            assert(t@.subrange(at as int, at + want.len())[k as int] != want@[k as int]);
            return None;
        }
        k = k + 1;
    }
    assert(t@.subrange(at as int, at + want.len()) =~= want@);
    Some(at + want.len())
}

fn hex_digit_value(c: char) -> (r: Option<u8>)
    ensures
        match r {
            Some(v) => hex_value(c) == Some(v as int),
            None => hex_value(c) is None,
        },
{
    if '0' <= c && c <= '9' {
        Some((c as u8) - 48u8)
    } else if 'a' <= c && c <= 'f' {
        Some((c as u8) - 87u8)
    } else {
        None
    }
}

fn read_char(t: &Vec<char>, i: usize) -> (r: Option<(char, usize)>)
    ensures
        match r {
            Some((c, n)) => unescape_at(t@, i as int) == Some((c, n as int)),
            None => unescape_at(t@, i as int) is None,
        },
{
    if i >= t.len() {
        return None;
    }
    let c = t[i];
    if c == '"' {
        None
    } else if c == '\\' {
        if t.len() - i < 2 {
            return None;
        }
        let e = t[i + 1];
        if e == '"' {
            Some(('"', 2))
        } else if e == '\\' {
            Some(('\\', 2))
        } else if e == 'b' {
            Some(('\u{8}', 2))
        } else if e == 'f' {
            Some(('\u{c}', 2))
        } else if e == 'n' {
            Some(('\n', 2))
        } else if e == 'r' {
            Some(('\r', 2))
        } else if e == 't' {
            Some(('\t', 2))
        } else if e == 'u' {
            if t.len() - i < 6 || t[i + 2] != '0' || t[i + 3] != '0' {
                return None;
            }
            match (hex_digit_value(t[i + 4]), hex_digit_value(t[i + 5])) {
                (Some(hi), Some(lo)) => {
                    let v: u8 = hi * 16 + lo;
                    if v >= 0x20 || v == 8 || v == 9 || v == 10 || v == 12 || v == 13 {
                        None
                    } else {
                        Some((v as char, 6))
                    }
                },
                _ => None,
            }
        } else {
            None
        }
    } else if ' ' > c {
        None
    } else {
        Some((c, 1))
    }
}

fn scan_string(t: &Vec<char>, at: usize) -> (r: Option<(Vec<char>, usize)>)
    ensures
        match r {
            Some((x, j)) => scan(t@, at as int) == Some((x@, j as int)),
            None => scan(t@, at as int) is None,
        },
{
    let mut out: Vec<char> = Vec::new();
    let mut i: usize = at;
    assert(prepend(out@, scan(t@, i as int)) == scan(t@, at as int)) by {
        if let Some((rest, j)) = scan(t@, at as int) {
            assert(out@ + rest =~= rest);
        }
    }
    while i < t.len()
        invariant
            at <= i,
            prepend(out@, scan(t@, i as int)) == scan(t@, at as int),
        decreases t.len() - i,
    {
        if t[i] == '"' {
            assert(out@ + Seq::<char>::empty() =~= out@);
            return Some((out, i));
        }
        proof {
            lemma_unescape_sound(t@, i as int);
        }
        match read_char(t, i) {
            None => {
                return None;
            },
            Some((c, n)) => {
                proof {
                    if let Some((rest, j)) = scan(t@, i + n) {
                        assert(out@ + (seq![c] + rest) =~= out@.push(c) + rest);
                    }
                }
                out.push(c);
                i = i + n;
            },
        }
    }
    None
}

/// Reads a credential from its record. A text that is the record of no
/// credential yields `None`.
pub fn decode(text: &str) -> (r: Option<Credentials>)
    ensures
        option_view(r) == record_value(text@),
        r matches Some(c) ==> record_text(c@) == text@,
        r is None ==> forall|c: CredentialsView| record_text(c) != text@,
{
    let t = chars_of(text);
    match decode_chars(&t) {
        Some((user_id, api_token)) => {
            proof {
                law_record_round_trip(
                    CredentialsView { user_id: user_id@, api_token: api_token@ },
                );
            }
            Some(Credentials { user_id: string_of(&user_id), api_token: string_of(&api_token) })
        },
        None => None,
    }
}

fn decode_chars(t: &Vec<char>) -> (r: Option<(Vec<char>, Vec<char>)>)
    ensures
        match r {
            Some((user_id, api_token)) => record_text(
                CredentialsView { user_id: user_id@, api_token: api_token@ },
            ) == t@,
            None => forall|c: CredentialsView| record_text(c) != t@,
        },
{
    proof {
        assert forall|c: CredentialsView| record_text(c) == t@ implies ({
            let a = record_head().len() + escaped(c.user_id).len();
            let b = a + record_middle().len();
            let d = b + escaped(c.api_token).len();
            &&& t@.len() == d + record_tail().len()
            &&& t@.subrange(0, record_head().len() as int) == record_head()
            &&& scan(t@, record_head().len() as int) == Some((c.user_id, a as int))
            &&& t@.subrange(a as int, b as int) == record_middle()
            &&& scan(t@, b as int) == Some((c.api_token, d as int))
            &&& t@.subrange(d as int, t@.len() as int) == record_tail()
        }) by {
            lemma_record_shape(c);
        }
    }
    let after_head = match expect(t, 0, &head_chars()) {
        Some(i) => i,
        None => {
            return None;
        },
    };
    let (user_id, quote) = match scan_string(t, after_head) {
        Some(found) => found,
        None => {
            return None;
        },
    };
    proof {
        lemma_scan_sound(t@, after_head as int);
    }
    let after_middle = match expect(t, quote, &middle_chars()) {
        Some(i) => i,
        None => {
            return None;
        },
    };
    let (api_token, last_quote) = match scan_string(t, after_middle) {
        Some(found) => found,
        None => {
            return None;
        },
    };
    proof {
        lemma_scan_sound(t@, after_middle as int);
    }
    let end = match expect(t, last_quote, &tail_chars()) {
        Some(i) => i,
        None => {
            return None;
        },
    };
    if end != t.len() {
        return None;
    }
    proof {
        let c = CredentialsView { user_id: user_id@, api_token: api_token@ };
        assert(t@ =~= t@.subrange(0, after_head as int) + t@.subrange(
            after_head as int,
            quote as int,
        ) + t@.subrange(quote as int, after_middle as int) + t@.subrange(
            after_middle as int,
            last_quote as int,
        ) + t@.subrange(last_quote as int, end as int));
        assert(record_text(c) =~= t@);
    }
    Some((user_id, api_token))
}

} // verus!
