use vstd::prelude::*;
use vstd::string::StringExecFns;

verus! {

/// Lower-case hexadecimal digit of `n` in `0..16`.
pub open spec fn hex_digit(n: int) -> char {
    seq!['0', '1', '2', '3', '4', '5', '6', '7', '8', '9', 'a', 'b', 'c', 'd', 'e', 'f'][n]
}

/// How one character stands inside a JSON string literal: quote and
/// backslash are escaped, control characters get their short escape or
/// `\u00XX`, everything else stands for itself.
pub open spec fn json_escaped_char(c: char) -> Seq<char> {
    if c == '"' {
        seq!['\\', '"']
    } else if c == '\\' {
        seq!['\\', '\\']
    } else if c == '\u{8}' {
        seq!['\\', 'b']
    } else if c == '\t' {
        seq!['\\', 't']
    } else if c == '\n' {
        seq!['\\', 'n']
    } else if c == '\u{c}' {
        seq!['\\', 'f']
    } else if c == '\r' {
        seq!['\\', 'r']
    } else if (c as int) < 0x20 {
        seq!['\\', 'u', '0', '0', hex_digit((c as int) / 16), hex_digit((c as int) % 16)]
    } else {
        seq![c]
    }
}

/// The escaped characters of `s`, in order.
pub open spec fn json_escaped(s: Seq<char>) -> Seq<char>
    decreases s.len(),
{
    if s.len() == 0 {
        Seq::empty()
    } else {
        json_escaped(s.drop_last()) + json_escaped_char(s.last())
    }
}

/// The JSON string literal of a text: the escaped text between quotes.
pub open spec fn json_string_literal(s: Seq<char>) -> Seq<char> {
    seq!['"'] + json_escaped(s) + seq!['"']
}

/// Relies on `serde_json::to_string` applied to a `str`: it writes the JSON
/// string literal of the text into a `Vec`, which cannot fail, escaping
/// quote, backslash and the control characters below U+0020 only.
#[verifier::external_body]
fn encode_json_string(text: &str) -> (r: String)
    ensures
        r@ == json_string_literal(text@),
{
    serde_json::to_string(text).unwrap_or_default()
}

/// The body of a draft-creation request around an already encoded JSON
/// string: `{"content":<encoded>}`.
pub fn frame_draft_body(encoded: &str) -> (r: String)
    ensures
        r@ == "{\"content\":"@ + encoded@ + "}"@,
{
    let mut body = "{\"content\":".to_owned();
    body.append(encoded);
    body.append("}");
    body
}

/// The JSON body `{"content": text}` of a draft-creation request.
pub fn draft_body(text: &str) -> (r: String)
    ensures
        r@ == "{\"content\":"@ + json_string_literal(text@) + "}"@,
{
    let encoded = encode_json_string(text);
    frame_draft_body(encoded.as_str())
}

} // verus!
