//! Text building blocks shared by the protocol: decimal numbers, JSON string
//! literals and the extension of a file name.

use vstd::prelude::*;

verus! {

/// The character of a decimal digit.
pub open spec fn digit_char(d: nat) -> char {
    if d == 0 { '0' }
    else if d == 1 { '1' }
    else if d == 2 { '2' }
    else if d == 3 { '3' }
    else if d == 4 { '4' }
    else if d == 5 { '5' }
    else if d == 6 { '6' }
    else if d == 7 { '7' }
    else if d == 8 { '8' }
    else { '9' }
}

/// Decimal digits of `n`, most significant first, without leading zeros.
pub open spec fn decimal_digits(n: nat) -> Seq<char>
    decreases n,
{
    if n < 10 {
        seq![digit_char(n)]
    } else {
        decimal_digits(n / 10) + seq![digit_char(n % 10)]
    }
}

/// Decimal text of a signed integer: a minus sign before negative values.
pub open spec fn signed_decimal(i: int) -> Seq<char> {
    if i < 0 {
        seq!['-'] + decimal_digits((-i) as nat)
    } else {
        decimal_digits(i as nat)
    }
}

pub(crate) fn digit_str(d: u64) -> (r: &'static str)
    requires
        d < 10,
    ensures
        r@ == seq![digit_char(d as nat)],
{
    proof {
        reveal_strlit("0");
        reveal_strlit("1");
        reveal_strlit("2");
        reveal_strlit("3");
        reveal_strlit("4");
        reveal_strlit("5");
        reveal_strlit("6");
        reveal_strlit("7");
        reveal_strlit("8");
        reveal_strlit("9");
    }
    if d == 0 { "0" }
    else if d == 1 { "1" }
    else if d == 2 { "2" }
    else if d == 3 { "3" }
    else if d == 4 { "4" }
    else if d == 5 { "5" }
    else if d == 6 { "6" }
    else if d == 7 { "7" }
    else if d == 8 { "8" }
    else { "9" }
}

/// Decimal text of an unsigned integer.
pub fn decimal(n: u64) -> (r: String)
    ensures
        r@ == decimal_digits(n as nat),
    decreases n,
{
    if n < 10 {
        String::from_str(digit_str(n))
    } else {
        let mut s = decimal(n / 10);
        s.append(digit_str(n % 10));
        s
    }
}

/// Decimal text of a signed integer.
pub fn decimal_signed(i: i32) -> (r: String)
    ensures
        r@ == signed_decimal(i as int),
{
    if i < 0 {
        let magnitude: i64 = -(i as i64);
        let s = String::from_str("-");
        proof {
            reveal_strlit("-");
        }
        s.concat(decimal(magnitude as u64).as_str())
    } else {
        decimal(i as u64)
    }
}

/// A lower-case hexadecimal digit.
pub open spec fn hex_char(d: nat) -> char {
    if d < 10 {
        digit_char(d)
    } else if d == 10 {
        'a'
    } else if d == 11 {
        'b'
    } else if d == 12 {
        'c'
    } else if d == 13 {
        'd'
    } else if d == 14 {
        'e'
    } else {
        'f'
    }
}

/// How one character stands inside a JSON string literal: quote and
/// backslash behind a backslash, the usual short escapes for backspace, tab,
/// line feed, form feed and carriage return, `\u00XX` for the other
/// control characters, and every other character as it is.
pub open spec fn escape_char(c: char) -> Seq<char> {
    if c == '"' {
        seq!['\\', '"']
    } else if c == '\\' {
        seq!['\\', '\\']
    } else if c == '\x08' {
        seq!['\\', 'b']
    } else if c == '\t' {
        seq!['\\', 't']
    } else if c == '\n' {
        seq!['\\', 'n']
    } else if c == '\x0c' {
        seq!['\\', 'f']
    } else if c == '\r' {
        seq!['\\', 'r']
    } else if (c as u32) < 0x20 {
        seq!['\\', 'u', '0', '0', hex_char((c as u32 / 16) as nat), hex_char((c as u32 % 16) as nat)]
    } else {
        seq![c]
    }
}

/// The characters of `s`, each escaped.
pub open spec fn escape_all(s: Seq<char>) -> Seq<char>
    decreases s.len(),
{
    if s.len() == 0 {
        Seq::empty()
    } else {
        escape_all(s.drop_last()) + escape_char(s.last())
    }
}

/// The JSON string literal of `s`: its escaped characters between quotes.
pub open spec fn json_string(s: Seq<char>) -> Seq<char> {
    seq!['"'] + escape_all(s) + seq!['"']
}

/// No line feed and no carriage return.
pub open spec fn one_line(s: Seq<char>) -> bool {
    forall|i: int| 0 <= i < s.len() ==> #[trigger] s[i] != '\n' && s[i] != '\r'
}

pub proof fn lemma_one_line_concat(a: Seq<char>, b: Seq<char>)
    requires
        one_line(a),
        one_line(b),
    ensures
        one_line(a + b),
{
    assert forall|i: int| 0 <= i < (a + b).len() implies #[trigger] (a + b)[i] != '\n' && (a
        + b)[i] != '\r' by {
        if i < a.len() {
            assert((a + b)[i] == a[i]);
        } else {
            assert((a + b)[i] == b[i - a.len()]);
        }
    }
}

/// A JSON string literal holds no line break: serde_json escapes both.
pub proof fn lemma_json_string_one_line(s: Seq<char>)
    ensures
        one_line(json_string(s)),
    decreases s.len(),
{
    lemma_escape_all_one_line(s);
    lemma_one_line_concat(seq!['"'], escape_all(s));
    lemma_one_line_concat(seq!['"'] + escape_all(s), seq!['"']);
}

proof fn lemma_escape_all_one_line(s: Seq<char>)
    ensures
        one_line(escape_all(s)),
    decreases s.len(),
{
    if s.len() > 0 {
        lemma_escape_all_one_line(s.drop_last());
        let c = s.last();
        let e = escape_char(c);
        if (c as u32) < 0x20 {
            let hi = hex_char((c as u32 / 16) as nat);
            let lo = hex_char((c as u32 % 16) as nat);
            assert(hi != '\n' && hi != '\r' && lo != '\n' && lo != '\r');
        }
        assert(one_line(e));
        lemma_one_line_concat(escape_all(s.drop_last()), e);
    }
}

/// Decimal digits hold no line break.
pub proof fn lemma_decimal_one_line(n: nat)
    ensures
        one_line(decimal_digits(n)),
    decreases n,
{
    if n >= 10 {
        lemma_decimal_one_line(n / 10);
        lemma_one_line_concat(decimal_digits(n / 10), seq![digit_char(n % 10)]);
    }
}

/// Relies on `serde_json::to_string` for a `str`: it writes the string
/// between quotes, escaping by its fixed table (`format_escaped_str`), into
/// a `Vec`, and cannot fail on that writer.
#[verifier::external_body]
pub(crate) fn quote_json(s: &str) -> (r: String)
    ensures
        r@ == json_string(s@),
{
    serde_json::to_string(s).unwrap_or_default()
}

/// Position just after the last occurrence of `c` among the first `end`
/// characters of `s`, or 0 when there is none.
pub open spec fn after_last(s: Seq<char>, c: char, end: int) -> int
    decreases end,
{
    if end <= 0 {
        0
    } else if s[end - 1] == c {
        end
    } else {
        after_last(s, c, end - 1)
    }
}

/// The extension of the file that `path` names: the text after the last dot
/// of its base name (the part after the last slash), where that dot is not
/// the base name's first character; empty when there is no such dot. The
/// empty text stands for "no extension". A path that ends in a slash has an
/// empty base name and so no extension: unlike std's `Path::extension`,
/// trailing slashes are not skipped, since such a path names a folder and
/// not a written file.
pub open spec fn extension_of(path: Seq<char>) -> Seq<char> {
    let base = after_last(path, '/', path.len() as int);
    let dot = after_last(path, '.', path.len() as int);
    if dot > base && dot - base > 1 {
        path.subrange(dot, path.len() as int)
    } else {
        Seq::empty()
    }
}

fn position_after_last(s: &str, c: char) -> (r: usize)
    ensures
        r as int == after_last(s@, c, s@.len() as int),
        r <= s@.len(),
{
    let n = s.unicode_len();
    let mut i: usize = n;
    while i > 0 && s.get_char(i - 1) != c
        invariant
            i <= n,
            n == s@.len(),
            after_last(s@, c, i as int) == after_last(s@, c, n as int),
        decreases i,
    {
        i = i - 1;
    }
    i
}

/// The extension of the file that `path` names (see `extension_of`).
pub fn extension(path: &str) -> (r: String)
    ensures
        r@ == extension_of(path@),
{
    let base = position_after_last(path, '/');
    let dot = position_after_last(path, '.');
    if dot > base && dot - base > 1 {
        String::from_str(path.substring_char(dot, path.unicode_len()))
    } else {
        String::new()
    }
}

} // verus!
