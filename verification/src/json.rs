//! serde_json's writing of a single JSON string literal.

use vstd::prelude::*;

verus! {

/// The lower-case hexadecimal digit `d`.
pub open spec fn hex_digit(d: int) -> char {
    seq!['0', '1', '2', '3', '4', '5', '6', '7', '8', '9', 'a', 'b', 'c', 'd', 'e', 'f'][d]
}

/// How serde_json writes one character inside a string: `"` and `\`
/// escaped with a backslash, backspace, tab, line feed, form feed and
/// carriage return as `\b \t \n \f \r`, every other character below 0x20 as
/// `\u00xx`, and every other character as it is.
pub open spec fn json_escape_char(c: char) -> Seq<char> {
    if c == '"' {
        seq!['\\', '"']
    } else if c == '\\' {
        seq!['\\', '\\']
    } else if c == '\x08' {
        seq!['\\', 'b']
    } else if c == '\t' {
        seq!['\\', 't']
    } else if c == '\n' {
        seq!['\\', 'n']
    } else if c == '\x0c' {
        seq!['\\', 'f']
    } else if c == '\r' {
        seq!['\\', 'r']
    } else if (c as int) < 0x20 {
        seq!['\\', 'u', '0', '0', hex_digit((c as int) / 16), hex_digit((c as int) % 16)]
    } else {
        seq![c]
    }
}

/// The escaped characters of a string, in order.
pub open spec fn json_escape(s: Seq<char>) -> Seq<char>
    decreases s.len(),
{
    if s.len() == 0 {
        Seq::empty()
    } else {
        json_escape(s.drop_last()) + json_escape_char(s.last())
    }
}

/// The JSON string literal that serde_json writes for `s`.
pub open spec fn json_string_literal(s: Seq<char>) -> Seq<char> {
    seq!['"'] + json_escape(s) + seq!['"']
}

/// `serde_json::to_string` on a string slice: the JSON string literal that
/// serde_json writes for it (its source writes the escapes of
/// `json_escape_char` into a byte vector, which cannot fail), or the
/// display text of serde_json's error.
#[verifier::external_body]
pub(crate) fn json_string(s: &str) -> (r: core::result::Result<String, String>)
    ensures
        r is Ok,
        r is Ok ==> r->Ok_0@ == json_string_literal(s@),
{
    serde_json::to_string(s).map_err(|e| e.to_string())
}

} // verus!
