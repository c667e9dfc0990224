//! Products of the endpoint: what a request asks for, what answers it, and
//! the decoders for the fields that the endpoint writes as strings.

pub mod predictions;

use vstd::prelude::*;
use vstd::string::*;
use crate::ascii::{ascii_len, byte_at, COLON, MINUS, SPACE};
use crate::calendar::{DateTimeView, DateView, NaiveDate, NaiveDateTime};
use crate::digits::{
    four_digit_value, four_digits, four_digits_at, two_digit_value, two_digits, two_digits_at,
};
use crate::json::{Json, JsonView};
use crate::numeric::{is_numeric, is_numeric_text};
use crate::parameters::pairs_view;

verus! {

/// A request for one product of the endpoint.
///
/// A request knows the name of its product, its own parameters, and how a
/// document decodes to its response. The three spec functions say what the
/// three methods return, and a verified implementation states them. One that
/// is written outside the verifier can leave them out; nothing is then known
/// of what it returns.
pub trait NoaaTideProduct {
    /// What the endpoint answers a request of this kind with.
    type Response;

    /// The name of the product in a query.
    open spec fn spec_product_name(&self) -> Seq<char> {
        arbitrary()
    }

    /// The request's own parameters, in the order in which they are sent.
    open spec fn spec_parameters(&self) -> Seq<(Seq<char>, Seq<char>)> {
        arbitrary()
    }

    /// Whether `response` is what `document` decodes to, where `None` stands
    /// for a document that does not have the shape of a response.
    open spec fn decodes_to(document: JsonView, response: Option<Self::Response>) -> bool {
        arbitrary()
    }

    fn product_name(&self) -> (name: &'static str)
        ensures
            name@ == self.spec_product_name(),
    ;

    fn parameters(&self) -> (pairs: Vec<(String, String)>)
        ensures
            pairs_view(pairs@) == self.spec_parameters(),
    ;

    fn decode(document: &Json) -> (response: Option<Self::Response>)
        ensures
            Self::decodes_to(document@, response),
    ;
}

/// The magnitude that a JSON value holds: the text of a string value that
/// is the text of a number.
pub open spec fn decoded_number(value: JsonView) -> Option<Seq<char>> {
    match value.as_str() {
        Some(text) => if is_numeric_text(text) {
            Some(text)
        } else {
            None
        },
        None => None,
    }
}

/// Decodes a magnitude that the endpoint writes as a string. The result is
/// the text itself, known to be the text of a number.
pub fn de_string_to_number(value: &Json) -> (number: Option<String>)
    ensures
        number is Some <==> decoded_number(value@) is Some,
        number matches Some(text) ==> decoded_number(value@) == Some(text@),
{
    match value.as_str() {
        Some(text) => if is_numeric(text) {
            Some(text.to_owned())
        } else {
            None
        },
        None => None,
    }
}

/// Whether `s` has the form `YYYY-MM-DD HH:MM`: digits and separators, each
/// in its place, and nothing else.
pub open spec fn is_compact_form(s: Seq<char>) -> bool {
    &&& s.len() == 16
    &&& four_digits(s, 0)
    &&& s[4] == '-'
    &&& two_digits(s, 5)
    &&& s[7] == '-'
    &&& two_digits(s, 8)
    &&& s[10] == ' '
    &&& two_digits(s, 11)
    &&& s[13] == ':'
    &&& two_digits(s, 14)
}

/// The date and time that a text of the form `YYYY-MM-DD HH:MM` names, at
/// second 0 of its minute, if its numbers name one.
pub open spec fn compact_datetime(s: Seq<char>) -> Option<DateTimeView> {
    if is_compact_form(s) {
        let datetime = DateTimeView {
            date: DateView {
                year: four_digit_value(s, 0),
                month: two_digit_value(s, 5),
                day: two_digit_value(s, 8),
            },
            hour: two_digit_value(s, 11),
            minute: two_digit_value(s, 14),
            second: 0,
        };
        if datetime.valid() {
            Some(datetime)
        } else {
            None
        }
    } else {
        None
    }
}

/// The date and time that a JSON value holds: what the text of a string
/// value names.
pub open spec fn decoded_datetime(value: JsonView) -> Option<DateTimeView> {
    match value.as_str() {
        Some(text) => compact_datetime(text),
        None => None,
    }
}

/// Reads a text with chrono: `NaiveDateTime::parse_from_str` with the
/// pattern `%Y-%m-%d %H:%M`, then the year, month, day, hour and minute of
/// what it found.
///
/// Trusted, for a text of the form `YYYY-MM-DD HH:MM` only: chrono accepts
/// it exactly when its numbers name a day of the calendar and a time of that
/// day, and then hands back those numbers.
#[verifier::external_body]
fn parse_compact(text: &str) -> (fields: Option<(i32, u32, u32, u32, u32)>)
    requires
        is_compact_form(text@),
    ensures
        fields is Some <==> compact_datetime(text@) is Some,
        fields matches Some(f) ==> compact_datetime(text@) == Some(
            (DateTimeView {
                date: DateView { year: f.0 as int, month: f.1 as int, day: f.2 as int },
                hour: f.3 as int,
                minute: f.4 as int,
                second: 0,
            }),
        ),
{
    let time = chrono::NaiveDateTime::parse_from_str(text, "%Y-%m-%d %H:%M").ok()?;
    let date = time.date();
    Some((
        chrono::Datelike::year(&date),
        chrono::Datelike::month(&date),
        chrono::Datelike::day(&date),
        chrono::Timelike::hour(&time),
        chrono::Timelike::minute(&time),
    ))
}

/// Whether `text` has the form `YYYY-MM-DD HH:MM`.
fn has_compact_form(text: &str) -> (compact: bool)
    ensures
        compact == is_compact_form(text@),
{
    if !text.is_ascii() {
        return false;
    }
    if ascii_len(text) != 16 {
        return false;
    }
    let separators = byte_at(text, 4) == MINUS && byte_at(text, 7) == MINUS && byte_at(text, 10)
        == SPACE && byte_at(text, 13) == COLON;
    let date = four_digits_at(text, 0).is_some() && two_digits_at(text, 5).is_some()
        && two_digits_at(text, 8).is_some();
    let time = two_digits_at(text, 11).is_some() && two_digits_at(text, 14).is_some();
    separators && date && time
}

/// Decodes a date and time that the endpoint writes as a string of the form
/// `YYYY-MM-DD HH:MM`. Any other text, and one whose numbers name no date
/// and time, gives `None`.
pub fn de_string_to_native_datetime(value: &Json) -> (datetime: Option<NaiveDateTime>)
    ensures
        datetime is Some <==> decoded_datetime(value@) is Some,
        datetime matches Some(t) ==> decoded_datetime(value@) == Some(t@),
{
    let text = match value.as_str() {
        Some(text) => text,
        None => {
            return None;
        },
    };
    if !has_compact_form(text) {
        return None;
    }
    match parse_compact(text) {
        Some((year, month, day, hour, minute)) => {
            match NaiveDate::from_ymd_opt(year, month, day) {
                Some(date) => date.and_hms_opt(hour, minute, 0),
                None => None,
            }
        },
        None => None,
    }
}

} // verus!
