//! Text helpers: comparing and converting strings, and decimal numbers.

use vstd::prelude::*;

verus! {

/// `String::push` appends one character.
pub assume_specification[ String::push ](s: &mut String, ch: char)
    ensures
        final(s)@ == old(s)@.push(ch),
;

/// `==` on string slices compares their characters.
pub assume_specification[ <str as PartialEq>::eq ](a: &str, b: &str) -> (r: bool)
    ensures
        r == (a@ == b@),
;

/// What `str::to_lowercase` makes of a text: its Unicode lowercase form.
pub uninterp spec fn lowercase(s: Seq<char>) -> Seq<char>;

/// `str::to_lowercase`: the Unicode lowercase form of `s`, which depends on
/// `s` alone.
#[verifier::external_body]
pub(crate) fn to_lowercase(s: &str) -> (r: String)
    ensures
        r@ == lowercase(s@),
{
    s.to_lowercase()
}

/// The text of an optional string.
pub open spec fn option_text(o: Option<String>) -> Option<Seq<char>> {
    match o {
        Some(s) => Some(s@),
        None => None,
    }
}

/// Whether two texts hold the same characters.
pub fn text_eq(a: &str, b: &str) -> (r: bool)
    ensures
        r == (a@ == b@),
{
    *a == *b
}

/// The characters of `s`, in order.
pub fn chars_of(s: &str) -> (v: Vec<char>)
    ensures
        v@ == s@,
{
    let mut v: Vec<char> = Vec::new();
    for c in it: s.chars()
        invariant
            it.seq() == s@,
            v@ == it.seq().take(it.index()),
    {
        v.push(c);
    }
    v
}

/// The string made of the characters of `v`, in order.
pub fn string_of(v: &Vec<char>) -> (s: String)
    ensures
        s@ == v@,
{
    let mut s = String::new();
    let mut i: usize = 0;
    while i < v.len()
        invariant
            i <= v.len(),
            s@ == v@.take(i as int),
        decreases v.len() - i,
    {
        s.push(v[i]);
        i = i + 1;
    }
    s
}

/// The character that writes the digit `d`.
pub open spec fn digit_char(d: int) -> char
    recommends
        0 <= d <= 9,
{
    (('0' as int) + d) as char
}

/// Whether `c` is one of `0` to `9`.
pub open spec fn is_digit(c: char) -> bool {
    '0' <= c <= '9'
}

/// The decimal text of `n`, without sign or leading zeros.
pub open spec fn decimal(n: nat) -> Seq<char>
    decreases n,
{
    if n < 10 {
        seq![digit_char(n as int)]
    } else {
        decimal(n / 10).push(digit_char((n % 10) as int))
    }
}

/// The number that a run of digits writes, read in base ten.
pub open spec fn digits_value(s: Seq<char>) -> nat
    decreases s.len(),
{
    if s.len() == 0 {
        0
    } else {
        (digits_value(s.drop_last()) * 10 + (s.last() as int - '0' as int)) as nat
    }
}

/// Whether every character of `s` is a digit.
pub open spec fn all_digits(s: Seq<char>) -> bool {
    forall|i: int| 0 <= i < s.len() ==> is_digit(#[trigger] s[i])
}

/// `s` without one leading `+`, if it has one.
pub open spec fn unsigned_body(s: Seq<char>) -> Seq<char> {
    if s.len() > 0 && s[0] == '+' {
        s.skip(1)
    } else {
        s
    }
}

/// The `u64` that a text writes: an optional `+`, then at least one digit and
/// nothing but digits, of a value that fits. Any other text writes none.
pub open spec fn parsed_u64(s: Seq<char>) -> Option<u64> {
    let body = unsigned_body(s);
    if body.len() > 0 && all_digits(body) && digits_value(body) <= u64::MAX {
        Some(digits_value(body) as u64)
    } else {
        None
    }
}

proof fn lemma_digits_value_prefix(s: Seq<char>, k: int)
    requires
        all_digits(s),
        0 <= k <= s.len(),
    ensures
        digits_value(s.take(k)) <= digits_value(s),
    decreases s.len() - k,
{
    if k == s.len() {
        assert(s.take(k) == s);
    } else {
        lemma_digits_value_prefix(s, k + 1);
        let t = s.take(k + 1);
        assert(t.drop_last() == s.take(k));
        assert(is_digit(s[k]));
        assert(t.last() == s[k]);
    }
}

/// Reads a `u64` from its decimal text.
pub fn parse_u64(s: &str) -> (r: Option<u64>)
    ensures
        r == parsed_u64(s@),
{
    let v = chars_of(s);
    let start: usize = if v.len() > 0 && v[0] == '+' {
        1
    } else {
        0
    };
    let ghost body = unsigned_body(s@);
    assert(body == v@.skip(start as int));
    if start == v.len() {
        return None;
    }
    let mut acc: u64 = 0;
    let mut i: usize = start;
    while i < v.len()
        invariant
            start <= i <= v.len(),
            body == v@.skip(start as int),
            body == unsigned_body(s@),
            body.len() > 0,
            forall|j: int| 0 <= j < i - start ==> is_digit(#[trigger] body[j]),
            acc == digits_value(body.take(i - start)),
        decreases v.len() - i,
    {
        let c = v[i];
        assert(c == body[i - start]);
        if c < '0' || c > '9' {
            assert(!is_digit(body[i - start]));
            return None;
        }
        let d: u64 = (c as u32 - '0' as u32) as u64;
        proof {
            let t = body.take(i - start + 1);
            assert(t.drop_last() == body.take(i - start));
            assert(t.last() == c);
            assert(digits_value(t) == acc * 10 + d);
        }
        if acc > (u64::MAX - d) / 10 {
            proof {
                let t = body.take(i - start + 1);
                assert(digits_value(t) > u64::MAX);
                if all_digits(body) {
                    lemma_digits_value_prefix(body, i - start + 1);
                }
            }
            return None;
        }
        acc = acc * 10 + d;
        i = i + 1;
    }
    assert(body.take(i - start) == body);
    Some(acc)
}

/// Appends the decimal text of `n` to `out`.
pub fn push_decimal(n: u64, out: &mut Vec<char>)
    ensures
        final(out)@ == old(out)@ + decimal(n as nat),
    decreases n,
{
    if n >= 10 {
        push_decimal(n / 10, out);
    }
    let d: u8 = (n % 10) as u8;
    let c: char = (d + 48u8) as char;
    assert(c == digit_char((n % 10) as int));
    out.push(c);
    assert(final(out)@ == old(out)@ + decimal(n as nat));
}

/// The decimal text of `n`.
pub fn u64_to_text(n: u64) -> (r: String)
    ensures
        r@ == decimal(n as nat),
{
    let mut out: Vec<char> = Vec::new();
    push_decimal(n, &mut out);
    string_of(&out)
}

/// The `bool` that a text writes: `true` or `false`, spelled exactly so.
pub open spec fn parsed_bool(s: Seq<char>) -> Option<bool> {
    if s == "true"@ {
        Some(true)
    } else if s == "false"@ {
        Some(false)
    } else {
        None
    }
}

/// Reads a `bool` from its text.
pub fn parse_bool(s: &str) -> (r: Option<bool>)
    ensures
        r == parsed_bool(s@),
{
    if text_eq(s, "true") {
        Some(true)
    } else if text_eq(s, "false") {
        Some(false)
    } else {
        None
    }
}

/// The text of a `bool`: `true` or `false`.
pub open spec fn bool_text(b: bool) -> Seq<char> {
    if b {
        "true"@
    } else {
        "false"@
    }
}

/// Writes a `bool` as text.
pub fn bool_to_text(b: bool) -> (r: String)
    ensures
        r@ == bool_text(b),
{
    if b {
        "true".to_string()
    } else {
        "false".to_string()
    }
}

proof fn lemma_decimal_reads_back(n: nat)
    ensures
        decimal(n).len() >= 1,
        all_digits(decimal(n)),
        digits_value(decimal(n)) == n,
    decreases n,
{
    if n < 10 {
        assert(decimal(n).drop_last() =~= Seq::<char>::empty());
        assert(decimal(n).last() == digit_char(n as int));
        assert(digits_value(Seq::<char>::empty()) == 0);
    } else {
        lemma_decimal_reads_back(n / 10);
        assert(decimal(n).drop_last() =~= decimal(n / 10));
        assert(decimal(n).last() == digit_char((n % 10) as int));
        assert(digit_char((n % 10) as int) as int - '0' as int == n % 10);
        assert forall|i: int| 0 <= i < decimal(n).len() implies is_digit(
            #[trigger] decimal(n)[i],
        ) by {
            if i < decimal(n / 10).len() {
                assert(decimal(n)[i] == decimal(n / 10)[i]);
            }
        }
    }
}

/// The decimal text of a number reads back as that number.
pub proof fn law_decimal_round_trip(n: u64)
    ensures
        parsed_u64(decimal(n as nat)) == Some(n),
{
    lemma_decimal_reads_back(n as nat);
    assert(is_digit(decimal(n as nat)[0]));
}

/// The text of a `bool` reads back as that `bool`.
pub proof fn law_bool_round_trip(b: bool)
    ensures
        parsed_bool(bool_text(b)) == Some(b),
{
    reveal_strlit("true");
    reveal_strlit("false");
    assert("true"@.len() != "false"@.len());
}

/// How many characters of a long text are shown at each of its ends.
pub const ABBREVIATION_EDGE: usize = 6;

/// A text as a table shows it: one of more than twelve characters is cut
/// down to its first six and its last six with three dots between them.
pub open spec fn abbreviation(s: Seq<char>) -> Seq<char> {
    if s.len() > 2 * ABBREVIATION_EDGE {
        s.take(ABBREVIATION_EDGE as int) + seq!['.', '.', '.'] + s.skip(
            s.len() - ABBREVIATION_EDGE,
        )
    } else {
        s
    }
}

/// Appends to `out` the characters of `s` from index `from` up to `to`.
pub(crate) fn push_range(s: &Vec<char>, from: usize, to: usize, out: &mut Vec<char>)
    requires
        from <= to <= s.len(),
    ensures
        final(out)@ == old(out)@ + s@.subrange(from as int, to as int),
{
    let mut i: usize = from;
    assert(s@.subrange(from as int, from as int) =~= Seq::<char>::empty());
    while i < to
        invariant
            from <= i <= to <= s.len(),
            out@ == old(out)@ + s@.subrange(from as int, i as int),
        decreases to - i,
    {
        out.push(s[i]);
        i = i + 1;
        assert(s@.subrange(from as int, i as int) =~= s@.subrange(from as int, i - 1).push(
            s@[i - 1],
        ));
    }
}

/// Cuts a long text down for a table.
pub fn abbreviated(text: &str) -> (r: String)
    ensures
        r@ == abbreviation(text@),
{
    let t = chars_of(text);
    if t.len() > 2 * ABBREVIATION_EDGE {
        let mut out: Vec<char> = Vec::new();
        push_range(&t, 0, ABBREVIATION_EDGE, &mut out);
        out.push('.');
        out.push('.');
        out.push('.');
        push_range(&t, t.len() - ABBREVIATION_EDGE, t.len(), &mut out);
        assert(out@ =~= abbreviation(text@));
        string_of(&out)
    } else {
        string_of(&t)
    }
}

/// Whether `date` is the date of a timestamp: what stands before its first
/// `T`, or all of it where it has none.
pub open spec fn is_date_of(date: Seq<char>, timestamp: Seq<char>) -> bool {
    &&& date.len() <= timestamp.len()
    &&& date == timestamp.take(date.len() as int)
    &&& forall|i: int| 0 <= i < date.len() ==> date[i] != 'T'
    &&& date.len() == timestamp.len() || timestamp[date.len() as int] == 'T'
}

/// The date of a timestamp.
pub fn date_part(timestamp: &str) -> (r: String)
    ensures
        is_date_of(r@, timestamp@),
{
    let t = chars_of(timestamp);
    let mut n: usize = 0;
    while n < t.len() && t[n] != 'T'
        invariant
            n <= t.len(),
            forall|i: int| 0 <= i < n ==> t@[i] != 'T',
        decreases t.len() - n,
    {
        n = n + 1;
    }
    let mut out: Vec<char> = Vec::new();
    push_range(&t, 0, n, &mut out);
    assert(out@ =~= t@.take(n as int));
    string_of(&out)
}

/// A timestamp has one date only.
pub proof fn law_date_is_unique(a: Seq<char>, b: Seq<char>, timestamp: Seq<char>)
    requires
        is_date_of(a, timestamp),
        is_date_of(b, timestamp),
    ensures
        a == b,
{
    if a.len() < b.len() {
        assert(b[a.len() as int] == timestamp[a.len() as int]);
    } else if b.len() < a.len() {
        assert(a[b.len() as int] == timestamp[b.len() as int]);
    }
    assert(a =~= b);
}

} // verus!
