use vstd::prelude::*;

verus! {

/// The lowercase hexadecimal digit of `n`, for `n` under 16.
pub open spec fn hex_digit(n: nat) -> char {
    if n < 10 {
        crate::utils::digit_char(n)
    } else if n == 10 {
        'a'
    } else if n == 11 {
        'b'
    } else if n == 12 {
        'c'
    } else if n == 13 {
        'd'
    } else if n == 14 {
        'e'
    } else {
        'f'
    }
}

/// How one character is written inside a JSON string: the quote and the
/// backslash behind a backslash; backspace, tab, line feed, form feed and
/// carriage return as `\b \t \n \f \r`; the other control characters below
/// 0x20 as `\u00` and two hex digits; everything else as itself.
pub open spec fn json_escape(c: char) -> Seq<char> {
    let n = c as u32;
    if c == '"' {
        seq!['\\', '"']
    } else if c == '\\' {
        seq!['\\', '\\']
    } else if n == 8 {
        seq!['\\', 'b']
    } else if n == 9 {
        seq!['\\', 't']
    } else if n == 10 {
        seq!['\\', 'n']
    } else if n == 12 {
        seq!['\\', 'f']
    } else if n == 13 {
        seq!['\\', 'r']
    } else if n < 32 {
        seq!['\\', 'u', '0', '0', hex_digit((n / 16) as nat), hex_digit((n % 16) as nat)]
    } else {
        seq![c]
    }
}

/// The characters of `s`, each escaped for a JSON string.
pub open spec fn json_escaped(s: Seq<char>) -> Seq<char>
    decreases s.len(),
{
    if s.len() == 0 {
        seq![]
    } else {
        json_escaped(s.drop_last()) + json_escape(s.last())
    }
}

/// The JSON string literal of `s`: its escaped characters between quotes.
pub open spec fn json_string_of(s: Seq<char>) -> Seq<char> {
    seq!['"'] + json_escaped(s) + seq!['"']
}

/// Relies on `serde_json::to_string` applied to a `str`: it writes the quote,
/// each character escaped by serde_json's escape table, and the closing quote.
/// Writing into memory cannot fail, so the error branch is never taken.
#[verifier::external_body]
pub(crate) fn json_string(s: &str) -> (r: String)
    ensures
        r@ == json_string_of(s@),
{
    serde_json::to_string(s).unwrap_or_default()
}

/// The JSON literal of a boolean.
pub open spec fn json_bool(b: bool) -> Seq<char> {
    if b {
        "true"@
    } else {
        "false"@
    }
}

/// Appends the JSON string literal of `s` to `out`.
pub(crate) fn push_json_string(out: &mut String, s: &str)
    ensures
        final(out)@ == old(out)@ + json_string_of(s@),
{
    let q = json_string(s);
    out.append(q.as_str());
}

/// Appends the JSON literal of `b` to `out`.
pub(crate) fn push_json_bool(out: &mut String, b: bool)
    ensures
        final(out)@ == old(out)@ + json_bool(b),
{
    if b {
        out.append("true");
    } else {
        out.append("false");
    }
}

} // verus!
