//! The text of a decimal number, as the endpoint writes magnitudes.
//!
//! A number is an optional sign followed by digits with at most one `.`
//! among them and at least one digit, optionally followed by an exponent:
//! `e` or `E`, an optional sign, and digits. Nothing else is a number: no
//! word, no blank, no other separator.

use vstd::prelude::*;
use vstd::string::*;
use vstd::utf8::is_ascii_chars;
use crate::ascii::{ascii_len, byte_at, CAPITAL_E, DIGIT_0, DIGIT_9, MINUS, PLUS, POINT, SMALL_E};
use crate::digits::is_digit;

verus! {

pub open spec fn is_sign(c: char) -> bool {
    c == '+' || c == '-'
}

/// Whether every character of `s[from..to]` is a digit.
pub open spec fn digits_between(s: Seq<char>, from: int, to: int) -> bool {
    forall|i: int| from <= i < to ==> is_digit(#[trigger] s[i])
}

/// Whether `s[from..to]` is digits with at most one `.` among them, and at
/// least one digit.
pub open spec fn is_decimal(s: Seq<char>, from: int, to: int) -> bool {
    ||| from < to && digits_between(s, from, to)
    ||| exists|dot: int|
        from <= dot < to && to - from >= 2 && #[trigger] s[dot] == '.' && digits_between(
            s,
            from,
            dot,
        ) && digits_between(s, dot + 1, to)
}

/// Where the digits of an exponent start that begins at `from`: behind the
/// letter and the sign, if there is a sign.
pub open spec fn exponent_digits_from(s: Seq<char>, from: int, to: int) -> int {
    if from + 1 < to && is_sign(s[from + 1]) {
        from + 2
    } else {
        from + 1
    }
}

/// Whether `s[from..to]` is an exponent: `e` or `E`, an optional sign, and
/// at least one digit.
pub open spec fn is_exponent(s: Seq<char>, from: int, to: int) -> bool {
    &&& from < to
    &&& (s[from] == 'e' || s[from] == 'E')
    &&& exponent_digits_from(s, from, to) < to
    &&& digits_between(s, exponent_digits_from(s, from, to), to)
}

/// Whether `s[from..to]` is a decimal with or without an exponent.
pub open spec fn is_number(s: Seq<char>, from: int, to: int) -> bool {
    ||| is_decimal(s, from, to)
    ||| exists|mark: int|
        from < mark < to && is_decimal(s, from, mark) && #[trigger] is_exponent(s, mark, to)
}

/// Where the number starts: behind the sign, if there is one.
pub open spec fn body_from(s: Seq<char>) -> int {
    if s.len() > 0 && is_sign(s[0]) {
        1
    } else {
        0
    }
}

/// Whether `s` is the text of a number.
pub open spec fn is_numeric_text(s: Seq<char>) -> bool {
    is_number(s, body_from(s), s.len() as int)
}

/// Whether `c` can stand in the text of a number: a digit, a sign, the
/// decimal point, or the letter of an exponent.
pub open spec fn is_numeric_char(c: char) -> bool {
    is_digit(c) || is_sign(c) || c == '.' || c == 'e' || c == 'E'
}

/// The text of a number starts, behind its sign, with a digit or with the
/// decimal point, and holds no character that `is_numeric_char` leaves out.
/// So no word is a number, whatever it is meant to stand for.
pub proof fn lemma_numeric_text_characters(s: Seq<char>)
    requires
        is_numeric_text(s),
    ensures
        body_from(s) < s.len(),
        is_digit(s[body_from(s)]) || s[body_from(s)] == '.',
        forall|i: int| 0 <= i < s.len() ==> is_numeric_char(#[trigger] s[i]),
{
}

/// The text of a number holds ASCII characters only.
pub proof fn lemma_numeric_text_is_ascii(s: Seq<char>)
    requires
        is_numeric_text(s),
    ensures
        is_ascii_chars(s),
{
    lemma_numeric_text_characters(s);
}

/// The end of the run of digits that starts at `from`.
fn skip_digits(text: &str, from: usize, len: usize) -> (to: usize)
    requires
        text.is_ascii(),
        len == text@.len(),
        from <= len,
    ensures
        from <= to <= len,
        digits_between(text@, from as int, to as int),
        to < len ==> !is_digit(text@[to as int]),
{
    let mut to: usize = from;
    while to < len
        invariant
            text.is_ascii(),
            len == text@.len(),
            from <= to <= len,
            digits_between(text@, from as int, to as int),
        decreases len - to,
    {
        let byte = byte_at(text, to);
        if byte < DIGIT_0 || byte > DIGIT_9 {
            return to;
        }
        to += 1;
    }
    to
}

/// Whether `text` is the text of a number.
pub fn is_numeric(text: &str) -> (numeric: bool)
    ensures
        numeric == is_numeric_text(text@),
{
    if !text.is_ascii() {
        proof {
            if is_numeric_text(text@) {
                lemma_numeric_text_is_ascii(text@);
            }
        }
        return false;
    }
    let ghost s = text@;
    let len: usize = ascii_len(text);
    let from: usize = if len > 0 && (byte_at(text, 0) == PLUS || byte_at(text, 0) == MINUS) {
        1
    } else {
        0
    };
    let whole_end = skip_digits(text, from, len);
    let has_dot = whole_end < len && byte_at(text, whole_end) == POINT;
    let decimal_end = if has_dot {
        skip_digits(text, whole_end + 1, len)
    } else {
        whole_end
    };
    if decimal_end - from < 1 || (has_dot && decimal_end - from < 2) {
        return false;
    }
    assert(is_decimal(s, from as int, decimal_end as int));
    if decimal_end == len {
        return true;
    }
    let mark = byte_at(text, decimal_end);
    if mark != SMALL_E && mark != CAPITAL_E {
        return false;
    }
    let digits_from: usize = if decimal_end + 1 < len && (byte_at(text, decimal_end + 1) == PLUS
        || byte_at(text, decimal_end + 1) == MINUS) {
        decimal_end + 2
    } else {
        decimal_end + 1
    };
    if digits_from >= len {
        return false;
    }
    let end = skip_digits(text, digits_from, len);
    assert(end == len ==> is_exponent(s, decimal_end as int, len as int));
    end == len
}

} // verus!
