//! Text as a JSON string literal.
use crate::text::digit_char;
use vstd::prelude::*;

verus! {

/// The character of a lower-case hexadecimal digit.
pub open spec fn hex_char(digit: nat) -> char {
    if digit < 10 {
        digit_char(digit)
    } else if digit == 10 {
        'a'
    } else if digit == 11 {
        'b'
    } else if digit == 12 {
        'c'
    } else if digit == 13 {
        'd'
    } else if digit == 14 {
        'e'
    } else {
        'f'
    }
}

/// How one character stands inside a JSON string literal.
pub open spec fn json_char(c: char) -> Seq<char> {
    if c == '"' || c == '\\' {
        seq!['\\', c]
    } else if c == '\n' {
        seq!['\\', 'n']
    } else if c == '\r' {
        seq!['\\', 'r']
    } else if c == '\t' {
        seq!['\\', 't']
    } else if c == '\u{8}' {
        seq!['\\', 'b']
    } else if c == '\u{c}' {
        seq!['\\', 'f']
    } else if 0x20 > c as nat {
        seq!['\\', 'u', '0', '0', hex_char(c as nat / 16), hex_char(c as nat % 16)]
    } else {
        seq![c]
    }
}

/// The characters of `text` as they stand inside a JSON string literal.
pub open spec fn json_chars(text: Seq<char>) -> Seq<char>
    decreases text.len(),
{
    if text.len() == 0 {
        Seq::empty()
    } else {
        json_chars(text.drop_last()) + json_char(text.last())
    }
}

/// `text` as a JSON string literal.
pub open spec fn json_string(text: Seq<char>) -> Seq<char> {
    seq!['"'] + json_chars(text) + seq!['"']
}

/// A text is written character by character: two texts in a row are written as
/// the one and then the other.
pub proof fn law_json_of_parts(left: Seq<char>, right: Seq<char>)
    ensures
        json_chars(left + right) == json_chars(left) + json_chars(right),
    decreases right.len(),
{
    if right.len() == 0 {
        assert(left + right =~= left);
        assert(json_chars(left) + json_chars(right) =~= json_chars(left));
    } else {
        law_json_of_parts(left, right.drop_last());
        assert((left + right).drop_last() =~= left + right.drop_last());
        assert((left + right).last() == right.last());
        assert(json_chars(left + right) =~= json_chars(left) + json_chars(right));
    }
}

/// A character stands for itself unless it is a quote, a backslash or below the
/// space; those begin with a backslash, and no character is written as a bare
/// quote.
pub proof fn law_json_escapes(c: char)
    ensures
        c == '"' || c == '\\' || (c as nat) <= 0x1f <==> json_chars(seq![c]) != seq![c],
        json_chars(seq![c]) != seq![c] ==> json_chars(seq![c]).len() >= 2 && json_chars(
            seq![c],
        )[0] == '\\',
        json_string(seq![c]).first() == '"',
        json_string(seq![c]).last() == '"',
        json_string(seq![c]).len() == json_chars(seq![c]).len() + 2,
{
    assert(seq![c].drop_last() =~= Seq::<char>::empty());
    reveal_with_fuel(json_chars, 2);
    assert(json_chars(seq![c]) =~= json_char(c));
    if c == '"' || c == '\\' || (c as nat) <= 0x1f {
        assert(json_char(c).len() >= 2);
        assert(seq![c].len() == 1);
    }
}

/// Calls `serde_json::to_string_pretty` on a string. The contract claims that
/// the call succeeds and gives the text in double quotes, with quotes,
/// backslashes and the characters below the space escaped and every other
/// character as it is.
#[verifier::external_body]
pub(crate) fn to_json_string(text: &str) -> (literal: Result<String, serde_json::Error>)
    ensures
        literal is Ok,
        literal->Ok_0@ == json_string(text@),
{
    serde_json::to_string_pretty(text)
}

} // verus!
