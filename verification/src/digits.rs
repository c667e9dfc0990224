//! Decimal digits in text: what a run of digits is worth, how a number is
//! written with a fixed width, and readers for both.

use vstd::prelude::*;
use vstd::string::*;
use crate::ascii::{byte_at, DIGIT_0, DIGIT_9};

verus! {

/// Whether `c` is one of `0` to `9`.
pub open spec fn is_digit(c: char) -> bool {
    '0' <= c <= '9'
}

/// The number that the digit `c` stands for.
pub open spec fn digit_value(c: char) -> int {
    c as int - '0' as int
}

/// The digit that stands for `d`, for `d` from 0 to 9.
pub open spec fn digit_char(d: int) -> char {
    (d + '0' as int) as char
}

/// Whether two digits stand at `at` and `at + 1`.
pub open spec fn two_digits(s: Seq<char>, at: int) -> bool {
    &&& 0 <= at
    &&& at + 2 <= s.len()
    &&& is_digit(s[at])
    &&& is_digit(s[at + 1])
}

/// Whether four digits stand at `at` to `at + 3`.
pub open spec fn four_digits(s: Seq<char>, at: int) -> bool {
    two_digits(s, at) && two_digits(s, at + 2)
}

/// The number written by the two digits at `at`.
pub open spec fn two_digit_value(s: Seq<char>, at: int) -> int {
    digit_value(s[at]) * 10 + digit_value(s[at + 1])
}

/// The number written by the four digits at `at`.
pub open spec fn four_digit_value(s: Seq<char>, at: int) -> int {
    two_digit_value(s, at) * 100 + two_digit_value(s, at + 2)
}

/// `n` written with two digits, for `n` from 0 to 99.
pub open spec fn two_digit_text(n: int) -> Seq<char> {
    seq![digit_char(n / 10 % 10), digit_char(n % 10)]
}

/// `n` written with four digits, for `n` from 0 to 9999.
pub open spec fn four_digit_text(n: int) -> Seq<char> {
    two_digit_text(n / 100) + two_digit_text(n % 100)
}

/// Writing a number below 100 with two digits and reading them gives the
/// number back.
pub proof fn lemma_two_digit_round_trip(n: int)
    requires
        0 <= n < 100,
    ensures
        two_digit_text(n).len() == 2,
        two_digits(two_digit_text(n), 0),
        two_digit_value(two_digit_text(n), 0) == n,
{
}

/// Reading two digits and writing their number with two digits gives the
/// digits back.
pub proof fn lemma_two_digit_canonical(s: Seq<char>, at: int)
    requires
        two_digits(s, at),
    ensures
        0 <= two_digit_value(s, at) < 100,
        two_digit_text(two_digit_value(s, at)) == s.subrange(at, at + 2),
{
    assert(two_digit_text(two_digit_value(s, at)) =~= s.subrange(at, at + 2));
}

/// Writing a number below 10000 with four digits and reading them gives the
/// number back.
pub proof fn lemma_four_digit_round_trip(n: int)
    requires
        0 <= n < 10000,
    ensures
        four_digit_text(n).len() == 4,
        four_digits(four_digit_text(n), 0),
        four_digit_value(four_digit_text(n), 0) == n,
{
    lemma_two_digit_round_trip(n / 100);
    lemma_two_digit_round_trip(n % 100);
}

/// Reading four digits and writing their number with four digits gives the
/// digits back.
pub proof fn lemma_four_digit_canonical(s: Seq<char>, at: int)
    requires
        four_digits(s, at),
    ensures
        0 <= four_digit_value(s, at) < 10000,
        four_digit_text(four_digit_value(s, at)) == s.subrange(at, at + 4),
{
    lemma_two_digit_canonical(s, at);
    lemma_two_digit_canonical(s, at + 2);
    assert(s.subrange(at, at + 4) =~= s.subrange(at, at + 2) + s.subrange(at + 2, at + 4));
}

/// The value of the digit at index `at` of an ASCII text, or `None` when
/// another character stands there.
pub(crate) fn digit_at(text: &str, at: usize) -> (digit: Option<u32>)
    requires
        text.is_ascii(),
        at < text@.len(),
    ensures
        digit is Some <==> is_digit(text@[at as int]),
        digit matches Some(d) ==> d == digit_value(text@[at as int]),
{
    let byte: u8 = byte_at(text, at);
    if DIGIT_0 <= byte && byte <= DIGIT_9 {
        Some((byte - DIGIT_0) as u32)
    } else {
        None
    }
}

/// The number written by the two digits at `at`, or `None` when the two
/// characters there are not both digits.
pub(crate) fn two_digits_at(text: &str, at: usize) -> (number: Option<u32>)
    requires
        text.is_ascii(),
        at + 2 <= text@.len() <= usize::MAX,
    ensures
        number is Some <==> two_digits(text@, at as int),
        number matches Some(n) ==> n == two_digit_value(text@, at as int),
{
    match (digit_at(text, at), digit_at(text, at + 1)) {
        (Some(tens), Some(ones)) => Some(tens * 10 + ones),
        _ => None,
    }
}

/// The number written by the four digits at `at`, or `None` when the four
/// characters there are not all digits.
pub(crate) fn four_digits_at(text: &str, at: usize) -> (number: Option<u32>)
    requires
        text.is_ascii(),
        at + 4 <= text@.len() <= usize::MAX,
    ensures
        number is Some <==> four_digits(text@, at as int),
        number matches Some(n) ==> n == four_digit_value(text@, at as int),
{
    match (two_digits_at(text, at), two_digits_at(text, at + 2)) {
        (Some(high), Some(low)) => Some(high * 100 + low),
        _ => None,
    }
}

} // verus!
