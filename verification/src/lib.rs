//! Typed requests and responses for the NOAA CO-OPS tides and currents
//! data endpoint.
//!
//! The endpoint is a single address that serves several products, each
//! asked for with its own combination of query parameters. This crate is
//! the pure part of a client for it: it maps a request to the parameters of
//! the query, and it decodes the body of a response into typed records or
//! a typed error. Sending the request is left to the caller.
//!
//! The "predictions" product is supported: predicted heights of the tide
//! for a station and a range of days.
//!
//! # Example
//!
//! High and low tides at the San Francisco Golden Gate station for January
//! 2026. The caller sends `pairs` as the query of a GET request to
//! [`BASE_URL`] and hands the body of the response to [`decode_body`].
//!
//! ```
//! use noaa_tides::{
//!     decode_body, query, DateRange, Datum, Interval, NaiveDate, PredictionsRequest, TideType,
//!     Timezone, Units,
//! };
//!
//! let request = PredictionsRequest {
//!     station: "9414290".into(),
//!     date_range: DateRange {
//!         begin_date: NaiveDate::from_ymd_opt(2026, 1, 1).unwrap(),
//!         end_date: NaiveDate::from_ymd_opt(2026, 1, 31).unwrap(),
//!     },
//!     datum: Datum::MLLW,
//!     time_zone: Timezone::LST_LDT,
//!     interval: Interval::HighLow,
//!     units: Units::English,
//! };
//! let pairs = query(&request);
//! assert_eq!(pairs[0], ("station".to_string(), "9414290".to_string()));
//!
//! let body = br#"{"predictions": [{"t": "2026-01-01 04:12", "v": "2.9", "type": "L"}]}"#;
//! let data = decode_body::<PredictionsRequest>(body).unwrap();
//! assert_eq!(data.predictions[0].tide_type, Some(TideType::Low));
//! ```

mod ascii;
pub mod calendar;
pub mod digits;
pub mod json;
pub mod numeric;
pub mod parameters;
pub mod products;
pub mod yyyymmdd;

pub use crate::calendar::{NaiveDate, NaiveDateTime};
pub use crate::json::{Json, JsonView};
pub use crate::parameters::{DateRange, Datum, Interval, Timezone, Units};
pub use crate::products::predictions::{
    Prediction, PredictionsRequest, PredictionsResponse, TideType,
};
pub use crate::products::NoaaTideProduct;

use vstd::prelude::*;
use vstd::string::*;
use crate::json::json_document;
use crate::parameters::pairs_view;

verus! {

/// Address of the endpoint.
pub const BASE_URL: &'static str = "https://api.tidesandcurrents.noaa.gov/api/prod/datagetter";

/// An error with its message, as the endpoint reports it.
#[derive(Debug)]
pub struct ApiError {
    pub message: String,
}

/// The body with which the endpoint reports an error.
#[derive(Debug)]
pub struct ErrorWrapper {
    pub error: ApiError,
}

/// Possible errors when fetching data from the endpoint.
#[derive(Debug)]
pub enum NoaaTideError {
    /// The request did not complete; the text says why.
    HttpError(String),
    /// The endpoint answered with an error of its own.
    ApiError(String),
    /// The body is neither a response of the product nor a reported error.
    DecodeError,
    /// Anything else.
    Unknown,
}

/// The message of a reported error: the string under `error.message`.
/// `None` stands for a document that is no reported error.
pub open spec fn error_message(document: JsonView) -> Option<Seq<char>> {
    match document.get("error"@) {
        Some(error) => match error.get("message"@) {
            Some(JsonView::String(message)) => Some(message),
            _ => None,
        },
        None => None,
    }
}

impl ApiError {
    /// Decodes a value of the form `{"message": "..."}`.
    pub fn decode(value: &Json) -> (error: Option<ApiError>)
        ensures
            error is Some <==> value@.get("message"@) matches Some(JsonView::String(_)),
            error matches Some(e) ==> value@.get("message"@) == Some(
                JsonView::String(e.message@),
            ),
    {
        match value.get("message") {
            Some(Json::String(message)) => Some(ApiError { message: message.clone() }),
            _ => None,
        }
    }
}

impl ErrorWrapper {
    /// Decodes a document of the form `{"error": {"message": "..."}}`.
    pub fn decode(document: &Json) -> (wrapper: Option<ErrorWrapper>)
        ensures
            wrapper is Some <==> error_message(document@) is Some,
            wrapper matches Some(w) ==> error_message(document@) == Some(w.error.message@),
    {
        match document.get("error") {
            Some(value) => match ApiError::decode(value) {
                Some(error) => Some(ErrorWrapper { error }),
                None => None,
            },
            None => None,
        }
    }
}

impl NoaaTideError {
    /// The error in words.
    pub open spec fn spec_message(self) -> Seq<char> {
        match self {
            NoaaTideError::HttpError(detail) => "Network error: "@ + detail@,
            NoaaTideError::ApiError(message) => "NOAA API returned an error: "@ + message@,
            NoaaTideError::DecodeError => "Response could not be decoded"@,
            NoaaTideError::Unknown => "Unknown error occurred"@,
        }
    }

    pub fn message(&self) -> (text: String)
        ensures
            text@ == self.spec_message(),
    {
        match self {
            NoaaTideError::HttpError(detail) => "Network error: ".to_owned().concat(
                detail.as_str(),
            ),
            NoaaTideError::ApiError(message) => "NOAA API returned an error: ".to_owned().concat(
                message.as_str(),
            ),
            NoaaTideError::DecodeError => "Response could not be decoded".to_owned(),
            NoaaTideError::Unknown => "Unknown error occurred".to_owned(),
        }
    }
}

/// The parameters of a whole query: those of the request, then the name of
/// the product and the format of the response.
pub open spec fn query_of(parameters: Seq<(Seq<char>, Seq<char>)>, product: Seq<char>) -> Seq<
    (Seq<char>, Seq<char>),
> {
    parameters + seq![("product"@, product), ("format"@, "json"@)]
}

/// The parameters to send for `request`, in order.
pub fn query<P: NoaaTideProduct>(request: &P) -> (pairs: Vec<(String, String)>)
    ensures
        pairs_view(pairs@) == query_of(request.spec_parameters(), request.spec_product_name()),
{
    let mut pairs = request.parameters();
    let ghost own = pairs@;
    pairs.push(("product".to_owned(), request.product_name().to_owned()));
    pairs.push(("format".to_owned(), "json".to_owned()));
    assert(pairs_view(pairs@) =~= pairs_view(own) + seq![
        ("product"@, request.spec_product_name()),
        ("format"@, "json"@),
    ]);
    pairs
}

/// Settles what a document is, given what it decodes to as the response of
/// a product. A document that decodes is that response. Any other document
/// is the error that it reports, or a decode failure when it reports none.
pub fn resolve<T>(success: Option<T>, document: &Json) -> (result: Result<T, NoaaTideError>)
    ensures
        match result {
            Ok(response) => success == Some(response),
            Err(NoaaTideError::ApiError(message)) => success is None && error_message(document@)
                == Some(message@),
            Err(NoaaTideError::DecodeError) => success is None && error_message(document@) is None,
            Err(_) => false,
        },
{
    match success {
        Some(response) => Ok(response),
        None => match ErrorWrapper::decode(document) {
            Some(wrapper) => Err(NoaaTideError::ApiError(wrapper.error.message)),
            None => Err(NoaaTideError::DecodeError),
        },
    }
}

/// Whether `result` is what `document` comes to as the answer to a request
/// for the product `P`.
pub open spec fn answers<P: NoaaTideProduct>(
    document: JsonView,
    result: Result<P::Response, NoaaTideError>,
) -> bool {
    match result {
        Ok(response) => P::decodes_to(document, Some(response)),
        Err(NoaaTideError::ApiError(message)) => P::decodes_to(document, None) && error_message(
            document,
        ) == Some(message@),
        Err(NoaaTideError::DecodeError) => P::decodes_to(document, None) && error_message(document)
            is None,
        Err(_) => false,
    }
}

/// Decodes a document as the answer to a request for the product `P`: the
/// response of the product first, the reported error second.
pub fn decode<P: NoaaTideProduct>(document: &Json) -> (result: Result<P::Response, NoaaTideError>)
    ensures
        answers::<P>(document@, result),
{
    resolve(P::decode(document), document)
}

/// Decodes the body of a response as the answer to a request for the
/// product `P`. A body that is not JSON is a decode failure.
pub fn decode_body<P: NoaaTideProduct>(body: &[u8]) -> (result: Result<
    P::Response,
    NoaaTideError,
>)
    ensures
        match json_document(body@) {
            Some(document) => answers::<P>(document, result),
            None => result matches Err(NoaaTideError::DecodeError),
        },
{
    match Json::parse(body) {
        Some(document) => decode::<P>(&document),
        None => Err(NoaaTideError::DecodeError),
    }
}

} // verus!
