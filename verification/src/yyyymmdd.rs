//! The date token of a query: year, month and day as `YYYYMMDD`.

use vstd::prelude::*;
use vstd::string::*;
use crate::ascii::ascii_len;
use crate::calendar::{valid_date, DateView, NaiveDate};
use crate::digits::{
    four_digit_text, four_digit_value, four_digits, four_digits_at, is_digit,
    lemma_four_digit_canonical, lemma_four_digit_round_trip, lemma_two_digit_canonical,
    lemma_two_digit_round_trip, two_digit_text, two_digit_value, two_digits, two_digits_at,
    digit_char,
};

verus! {

/// The year of a token. The years 0 to 9999 take four digits. Any other
/// year takes a sign and its distance from 0 with at least four digits.
pub open spec fn year_text(year: int) -> Seq<char> {
    if 0 <= year <= 9999 {
        four_digit_text(year)
    } else {
        let sign = if year < 0 {
            '-'
        } else {
            '+'
        };
        let distance = if year < 0 {
            -year
        } else {
            year
        };
        let leading = if distance < 10_000 {
            Seq::empty()
        } else if distance < 100_000 {
            seq![digit_char(distance / 10_000)]
        } else {
            seq![digit_char(distance / 100_000), digit_char(distance / 10_000 % 10)]
        };
        seq![sign] + leading + four_digit_text(distance % 10_000)
    }
}

/// The token of a date: its year, then month and day with two digits each.
pub open spec fn date_token(date: DateView) -> Seq<char> {
    year_text(date.year) + two_digit_text(date.month) + two_digit_text(date.day)
}

/// The date that an eight-digit token names, if it names one.
pub open spec fn token_date(token: Seq<char>) -> Option<DateView> {
    if token.len() == 8 && four_digits(token, 0) && two_digits(token, 4) && two_digits(token, 6) {
        let date = DateView {
            year: four_digit_value(token, 0),
            month: two_digit_value(token, 4),
            day: two_digit_value(token, 6),
        };
        if date.valid() {
            Some(date)
        } else {
            None
        }
    } else {
        None
    }
}

/// Formats a date with chrono: `NaiveDate::from_ymd_opt` builds the date,
/// `NaiveDate::format` with the pattern `%Y%m%d` and `to_string` write it.
///
/// Trusted: chrono has the date exactly when `valid_date` holds, and writes
/// the year as `year_text` does (`%Y` pads the years 0 to 9999 to four digits
/// and gives any other year a sign and at least four digits), then month and
/// day with two digits each.
#[verifier::external_body]
fn format_ymd(year: i32, month: u32, day: u32) -> (text: Option<String>)
    ensures
        text is Some <==> valid_date(year as int, month as int, day as int),
        text matches Some(t) ==> t@ == date_token(
            (DateView { year: year as int, month: month as int, day: day as int }),
        ),
{
    let date = chrono::NaiveDate::from_ymd_opt(year, month, day)?;
    Some(date.format("%Y%m%d").to_string())
}

/// Writes `date` as the token that the endpoint expects.
pub fn serialize(date: &NaiveDate) -> (token: String)
    ensures
        token@ == date_token(date@),
{
    match format_ymd(date.year(), date.month(), date.day()) {
        Some(token) => token,
        None => unreached(),
    }
}

/// Reads a date from an eight-digit token. Anything else, and a token whose
/// digits name no day of the calendar, gives `None`.
pub fn parse(token: &str) -> (date: Option<NaiveDate>)
    ensures
        date is Some <==> token_date(token@) is Some,
        date matches Some(d) ==> token_date(token@) == Some(d@),
{
    if !token.is_ascii() {
        return None;
    }
    if ascii_len(token) != 8 {
        return None;
    }
    match (four_digits_at(token, 0), two_digits_at(token, 4), two_digits_at(token, 6)) {
        (Some(year), Some(month), Some(day)) => NaiveDate::from_ymd_opt(year as i32, month, day),
        _ => None,
    }
}

/// The token of a date in the years 0 to 9999 is eight digits: the year
/// padded with zeros to four digits, then the month and the day padded to
/// two digits each.
pub proof fn lemma_token_eight_digits(date: DateView)
    requires
        date.valid(),
        0 <= date.year <= 9999,
    ensures
        date_token(date).len() == 8,
        forall|i: int| 0 <= i < 8 ==> is_digit(#[trigger] date_token(date)[i]),
        date_token(date) == four_digit_text(date.year) + two_digit_text(date.month)
            + two_digit_text(date.day),
{
    lemma_four_digit_round_trip(date.year);
    lemma_two_digit_round_trip(date.month);
    lemma_two_digit_round_trip(date.day);
}

/// Reading the token of a date in the years 0 to 9999 gives the date back.
pub proof fn lemma_token_round_trip(date: DateView)
    requires
        date.valid(),
        0 <= date.year <= 9999,
    ensures
        token_date(date_token(date)) == Some(date),
{
    lemma_four_digit_round_trip(date.year);
    lemma_two_digit_round_trip(date.month);
    lemma_two_digit_round_trip(date.day);
    let token = date_token(date);
    assert(four_digit_value(token, 0) == four_digit_value(four_digit_text(date.year), 0));
    assert(two_digit_value(token, 4) == two_digit_value(two_digit_text(date.month), 0));
    assert(two_digit_value(token, 6) == two_digit_value(two_digit_text(date.day), 0));
}

/// A token that names a date is the token of that date.
pub proof fn lemma_token_canonical(token: Seq<char>)
    requires
        token_date(token) is Some,
    ensures
        date_token(token_date(token)->0) == token,
{
    lemma_four_digit_canonical(token, 0);
    lemma_two_digit_canonical(token, 4);
    lemma_two_digit_canonical(token, 6);
    assert(token =~= token.subrange(0, 4) + token.subrange(4, 6) + token.subrange(6, 8));
}

} // verus!
