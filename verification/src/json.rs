//! What the library takes from `serde_json`: the text of a string literal,
//! and the judgement whether a text is JSON at all.

use vstd::prelude::*;

verus! {

/// The lower-case hexadecimal digit for `n`.
pub open spec fn hex_digit(n: u32) -> char {
    seq!['0', '1', '2', '3', '4', '5', '6', '7', '8', '9', 'a', 'b', 'c', 'd', 'e', 'f'][n as int]
}

/// How one character stands inside a JSON string literal: the quote and the
/// backslash take a backslash in front, a control character below U+0020
/// its short escape if it has one and `\u00XX` otherwise, and every other
/// character stands for itself.
pub open spec fn escaped_char(c: char) -> Seq<char> {
    if c == '"' {
        seq!['\\', '"']
    } else if c == '\\' {
        seq!['\\', '\\']
    } else if c == '\u{08}' {
        seq!['\\', 'b']
    } else if c == '\t' {
        seq!['\\', 't']
    } else if c == '\n' {
        seq!['\\', 'n']
    } else if c == '\u{0c}' {
        seq!['\\', 'f']
    } else if c == '\r' {
        seq!['\\', 'r']
    } else if (c as u32) < 0x20 {
        seq!['\\', 'u', '0', '0', hex_digit((c as u32) / 16), hex_digit((c as u32) % 16)]
    } else {
        seq![c]
    }
}

/// The characters of `text`, each as it stands inside a JSON string literal.
pub open spec fn escaped(text: Seq<char>) -> Seq<char>
    decreases text.len(),
{
    if text.len() == 0 {
        Seq::empty()
    } else {
        escaped(text.drop_last()) + escaped_char(text.last())
    }
}

/// The JSON string literal that holds `text`.
pub open spec fn quoted(text: Seq<char>) -> Seq<char> {
    seq!['"'] + escaped(text) + seq!['"']
}

/// Whether `serde_json` reads `text` as exactly one JSON value.
pub uninterp spec fn is_json(text: Seq<char>) -> bool;

/// The JSON string literal for `text`, as `serde_json` writes it.
///
/// Calls `Display` of `serde_json::Value` on a `Value::String`. Believed of
/// it: the result is `text` between two quotes, with the quote, the
/// backslash and the control characters below U+0020 escaped as
/// `escaped_char` says, and every other character unchanged.
#[verifier::external_body]
pub(crate) fn json_quote(text: &str) -> (literal: String)
    ensures
        literal@ == quoted(text@),
{
    serde_json::Value::String(text.to_owned()).to_string()
}

/// Whether `text` is JSON, as `serde_json` judges it.
///
/// Calls `serde_json::from_str` for a `serde_json::Value`. Believed of it:
/// the same text is always judged alike, and a text that is accepted is not
/// empty and holds no NUL character, since the parser takes a NUL neither
/// as white space nor inside a value.
#[verifier::external_body]
pub(crate) fn json_parses(text: &str) -> (ok: bool)
    ensures
        ok == is_json(text@),
        ok ==> text@.len() > 0,
        ok ==> forall|i: int| 0 <= i < text@.len() ==> text@[i] != '\0',
{
    serde_json::from_str::<serde_json::Value>(text).is_ok()
}

} // verus!
