//! JSON string literals.
//!
//! The text of a message may hold any character. Before it goes into a JSON
//! document it is quoted, and the characters that JSON does not take inside a
//! string are escaped. `serde_json` does the quoting; this module says what
//! comes out.

use vstd::prelude::*;
use crate::decimal::digit_char;

verus! {

/// The lower-case hexadecimal digit `d`.
pub open spec fn hex_char(d: nat) -> char
    recommends
        d < 16,
{
    if d < 10 {
        digit_char(d)
    } else if d == 10 {
        'a'
    } else if d == 11 {
        'b'
    } else if d == 12 {
        'c'
    } else if d == 13 {
        'd'
    } else if d == 14 {
        'e'
    } else {
        'f'
    }
}

/// Whether `c` stands for itself inside a JSON string: every character but the
/// quote, the backslash and the control characters below the space.
pub open spec fn is_plain(c: char) -> bool {
    c != '"' && c != '\\' && (c as u32) >= 0x20
}

/// How one character is written inside a JSON string. The quote and the
/// backslash get a backslash in front; backspace, tab, line feed, form feed and
/// carriage return get their letter; every other control character below the
/// space becomes `\u00` and two hexadecimal digits; all others stand for
/// themselves.
pub open spec fn escaped_char(c: char) -> Seq<char> {
    if c == '"' {
        seq!['\\', '"']
    } else if c == '\\' {
        seq!['\\', '\\']
    } else if c == '\u{8}' {
        seq!['\\', 'b']
    } else if c == '\t' {
        seq!['\\', 't']
    } else if c == '\n' {
        seq!['\\', 'n']
    } else if c == '\u{c}' {
        seq!['\\', 'f']
    } else if c == '\r' {
        seq!['\\', 'r']
    } else if (c as u32) < 0x20 {
        seq![
            '\\',
            'u',
            '0',
            '0',
            hex_char(((c as u32) / 16) as nat),
            hex_char(((c as u32) % 16) as nat),
        ]
    } else {
        seq![c]
    }
}

/// `text` with each character escaped, in order.
pub open spec fn escaped(text: Seq<char>) -> Seq<char>
    decreases text.len(),
{
    if text.len() == 0 {
        Seq::empty()
    } else {
        escaped(text.drop_last()) + escaped_char(text.last())
    }
}

/// `text` as a JSON string literal: escaped, between two quotes.
pub open spec fn json_string(text: Seq<char>) -> Seq<char> {
    seq!['"'] + escaped(text) + seq!['"']
}

/// `text` as a JSON string literal.
///
/// Calls `serde_json::to_string` on a string slice. Not proved: that the call
/// succeeds on every string (it writes into a byte vector, which takes every
/// write), and that what it returns is the text between two quotes with each
/// character escaped as [`escaped_char`] says.
#[verifier::external_body]
pub(crate) fn quote(text: &str) -> (quoted: Option<String>)
    ensures
        quoted is Some,
        quoted.unwrap()@ == json_string(text@),
{
    serde_json::to_string(text).ok()
}

/// Text without a character that needs escaping is its own escaped form.
pub proof fn lemma_plain_text_escapes_to_itself(text: Seq<char>)
    requires
        forall|i: int| 0 <= i < text.len() ==> is_plain(#[trigger] text[i]),
    ensures
        escaped(text) == text,
    decreases text.len(),
{
    if text.len() > 0 {
        lemma_plain_text_escapes_to_itself(text.drop_last());
        assert(is_plain(text.last()));
        assert(escaped_char(text.last()) == seq![text.last()]);
        assert(text =~= text.drop_last() + seq![text.last()]);
    } else {
        assert(text =~= Seq::<char>::empty());
    }
}

} // verus!
