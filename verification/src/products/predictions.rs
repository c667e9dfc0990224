//! Tide predictions: heights of the water at a station over a range of days.

use vstd::prelude::*;
use vstd::string::*;
use crate::ascii::{ascii_len, byte_at, CAPITAL_H, CAPITAL_L};
use crate::calendar::{DateTimeView, NaiveDateTime};
use crate::json::{Json, JsonView};
use crate::numeric::is_numeric_text;
use crate::parameters::{pairs_view, DateRange, Datum, Interval, Timezone, Units};
use crate::products::{
    de_string_to_native_datetime, de_string_to_number, decoded_datetime, decoded_number,
    NoaaTideProduct,
};

verus! {

/// Request parameters for tide predictions.
#[derive(Debug)]
pub struct PredictionsRequest {
    pub station: String,
    pub datum: Datum,
    pub time_zone: Timezone,
    pub interval: Interval,
    pub units: Units,
    pub date_range: DateRange,
}

/// The predictions that answer a request, in the order of the response.
#[derive(Debug)]
pub struct PredictionsResponse {
    pub predictions: Vec<Prediction>,
}

/// One predicted height of the water.
#[derive(Debug)]
pub struct Prediction {
    /// When the height is predicted for, in the time zone of the request.
    pub datetime: NaiveDateTime,
    /// The height as the endpoint wrote it: the text of a number.
    pub height: String,
    /// The kind of tide; only a request for high and low tides has it.
    pub tide_type: Option<TideType>,
}

/// Variants of all possible tide types in prediction responses.
#[derive(Debug, Clone, Copy, PartialEq, Eq, Structural)]
pub enum TideType {
    High,
    Low,
    HigherHigh,
    LowerLow,
}

/// A prediction as the contracts see it.
pub struct PredictionView {
    pub datetime: DateTimeView,
    pub height: Seq<char>,
    pub tide_type: Option<TideType>,
}

impl PredictionView {
    /// What holds of every decoded prediction: its date and time exist, and
    /// its height is the text of a number.
    pub open spec fn well_formed(self) -> bool {
        self.datetime.valid() && is_numeric_text(self.height)
    }
}

impl View for Prediction {
    type V = PredictionView;

    open spec fn view(&self) -> PredictionView {
        PredictionView {
            datetime: self.datetime@,
            height: self.height@,
            tide_type: self.tide_type,
        }
    }
}

impl View for PredictionsResponse {
    type V = Seq<PredictionView>;

    open spec fn view(&self) -> Seq<PredictionView> {
        self.predictions@.map_values(|prediction: Prediction| prediction@)
    }
}

impl TideType {
    /// The token that stands for this tide type in a response.
    pub open spec fn spec_token(self) -> Seq<char> {
        match self {
            TideType::High => "H"@,
            TideType::Low => "L"@,
            TideType::HigherHigh => "HH"@,
            TideType::LowerLow => "LL"@,
        }
    }

    /// The tide type that a token stands for, if it stands for one.
    pub open spec fn spec_from_token(token: Seq<char>) -> Option<TideType> {
        if token == TideType::High.spec_token() {
            Some(TideType::High)
        } else if token == TideType::Low.spec_token() {
            Some(TideType::Low)
        } else if token == TideType::HigherHigh.spec_token() {
            Some(TideType::HigherHigh)
        } else if token == TideType::LowerLow.spec_token() {
            Some(TideType::LowerLow)
        } else {
            None
        }
    }

    pub fn from_token(token: &str) -> (tide_type: Option<TideType>)
        ensures
            tide_type == TideType::spec_from_token(token@),
    {
        proof {
            TideType::lemma_tokens();
        }
        if !token.is_ascii() {
            return None;
        }
        let len = ascii_len(token);
        if len == 1 {
            let only = byte_at(token, 0);
            if only == CAPITAL_H {
                assert(token@ =~= seq!['H']);
                Some(TideType::High)
            } else if only == CAPITAL_L {
                assert(token@ =~= seq!['L']);
                Some(TideType::Low)
            } else {
                None
            }
        } else if len == 2 {
            let first = byte_at(token, 0);
            let second = byte_at(token, 1);
            if first == CAPITAL_H && second == CAPITAL_H {
                assert(token@ =~= seq!['H', 'H']);
                Some(TideType::HigherHigh)
            } else if first == CAPITAL_L && second == CAPITAL_L {
                assert(token@ =~= seq!['L', 'L']);
                Some(TideType::LowerLow)
            } else {
                None
            }
        } else {
            None
        }
    }

    /// The four tokens, character by character.
    proof fn lemma_tokens()
        ensures
            "H"@ == seq!['H'],
            "L"@ == seq!['L'],
            "HH"@ == seq!['H', 'H'],
            "LL"@ == seq!['L', 'L'],
    {
        reveal_strlit("H");
        reveal_strlit("L");
        reveal_strlit("HH");
        reveal_strlit("LL");
    }

    /// Each tide type is the one that its token stands for, so no two tide
    /// types share a token.
    pub proof fn lemma_token_round_trip(tide_type: TideType)
        ensures
            TideType::spec_from_token(tide_type.spec_token()) == Some(tide_type),
    {
        TideType::lemma_tokens();
        assert(seq!['H'].len() == 1 && seq!['H', 'H'].len() == 2);
        assert(seq!['L'].len() == 1 && seq!['L', 'L'].len() == 2);
        assert(seq!['H'][0] == 'H' && seq!['L'][0] == 'L');
    }
}

/// The tide type of a record. The member `type` may be missing or null,
/// and the record then has no tide type; `None` stands for a member that is
/// neither that nor the token of a tide type.
pub open spec fn decoded_tide_type(record: JsonView) -> Option<Option<TideType>> {
    match record.get("type"@) {
        None => Some(None),
        Some(JsonView::Null) => Some(None),
        Some(JsonView::String(token)) => match TideType::spec_from_token(token) {
            Some(tide_type) => Some(Some(tide_type)),
            None => None,
        },
        Some(_) => None,
    }
}

/// The prediction that a record holds: its member `t` as date and time, its
/// member `v` as height and its member `type` as tide type. `None` stands
/// for a record that lacks `t` or `v` or in which one of the three does not
/// decode.
pub open spec fn decoded_prediction(record: JsonView) -> Option<PredictionView> {
    match (record.get("t"@), record.get("v"@)) {
        (Some(t), Some(v)) => match (
            decoded_datetime(t),
            decoded_number(v),
            decoded_tide_type(record),
        ) {
            (Some(datetime), Some(height), Some(tide_type)) => Some(
                PredictionView { datetime, height, tide_type },
            ),
            _ => None,
        },
        _ => None,
    }
}

/// The predictions that a document holds: the records of the array under
/// its member `predictions`, in their order. `None` stands for a document
/// without such an array or with a record that does not decode.
pub open spec fn decoded_predictions(document: JsonView) -> Option<Seq<PredictionView>> {
    match document.get("predictions"@) {
        Some(JsonView::Array(records)) => if forall|i: int|
            0 <= i < records.len() ==> decoded_prediction(#[trigger] records[i]) is Some {
            Some(records.map_values(|record: JsonView| decoded_prediction(record)->0))
        } else {
            None
        },
        _ => None,
    }
}

/// Every decoded prediction is well formed.
pub proof fn lemma_decoded_prediction_well_formed(record: JsonView)
    requires
        decoded_prediction(record) is Some,
    ensures
        decoded_prediction(record)->0.well_formed(),
{
}

impl Prediction {
    fn decode_tide_type(record: &Json) -> (tide_type: Option<Option<TideType>>)
        ensures
            tide_type == decoded_tide_type(record@),
    {
        match record.get("type") {
            None => Some(None),
            Some(Json::Null) => Some(None),
            Some(Json::String(token)) => match TideType::from_token(token.as_str()) {
                Some(tide_type) => Some(Some(tide_type)),
                None => None,
            },
            Some(_) => None,
        }
    }

    /// Decodes one record of a response.
    pub fn decode(record: &Json) -> (prediction: Option<Prediction>)
        ensures
            prediction is Some <==> decoded_prediction(record@) is Some,
            prediction matches Some(p) ==> decoded_prediction(record@) == Some(p@),
    {
        let (t, v) = match (record.get("t"), record.get("v")) {
            (Some(t), Some(v)) => (t, v),
            _ => {
                return None;
            },
        };
        match (
            de_string_to_native_datetime(t),
            de_string_to_number(v),
            Prediction::decode_tide_type(record),
        ) {
            (Some(datetime), Some(height), Some(tide_type)) => Some(
                Prediction { datetime, height, tide_type },
            ),
            _ => None,
        }
    }
}

impl PredictionsResponse {
    /// Decodes a document of the form `{"predictions": [...]}`.
    pub fn decode(document: &Json) -> (response: Option<PredictionsResponse>)
        ensures
            response is Some <==> decoded_predictions(document@) is Some,
            response matches Some(r) ==> decoded_predictions(document@) == Some(r@),
    {
        let records = match document.get("predictions") {
            Some(value) => match value.as_array() {
                Some(records) => records,
                None => {
                    return None;
                },
            },
            None => {
                return None;
            },
        };
        let ghost views = document@.get("predictions"@)->0->Array_0;
        let mut predictions: Vec<Prediction> = Vec::new();
        let mut at: usize = 0;
        while at < records.len()
            invariant
                at <= records.len(),
                predictions@.len() == at,
                document@.get("predictions"@) == Some(JsonView::Array(views)),
                views.len() == records@.len(),
                forall|i: int| 0 <= i < records@.len() ==> views[i] == records@[i]@,
                forall|i: int|
                    0 <= i < at ==> decoded_prediction(#[trigger] views[i]) == Some(
                        predictions@[i]@,
                    ),
            decreases records.len() - at,
        {
            match Prediction::decode(&records[at]) {
                Some(prediction) => {
                    predictions.push(prediction);
                },
                None => {
                    assert(decoded_prediction(views[at as int]) is None);
                    return None;
                },
            }
            at += 1;
        }
        let response = PredictionsResponse { predictions };
        Some(response)
    }
}

impl PredictionsRequest {
    /// The name of this product in a query.
    pub open spec fn product() -> Seq<char> {
        "predictions"@
    }
}

impl NoaaTideProduct for PredictionsRequest {
    type Response = PredictionsResponse;

    open spec fn spec_product_name(&self) -> Seq<char> {
        PredictionsRequest::product()
    }

    open spec fn spec_parameters(&self) -> Seq<(Seq<char>, Seq<char>)> {
        seq![
            ("station"@, self.station@),
            ("datum"@, self.datum.spec_token()),
            ("time_zone"@, self.time_zone.spec_token()),
            ("interval"@, self.interval.spec_token()),
            ("units"@, self.units.spec_token()),
        ] + self.date_range.spec_parameters()
    }

    open spec fn decodes_to(document: JsonView, response: Option<PredictionsResponse>) -> bool {
        match response {
            Some(r) => decoded_predictions(document) == Some(r@),
            None => decoded_predictions(document) is None,
        }
    }

    fn product_name(&self) -> (name: &'static str) {
        "predictions"
    }

    fn parameters(&self) -> (pairs: Vec<(String, String)>) {
        let mut pairs: Vec<(String, String)> = Vec::new();
        pairs.push(("station".to_owned(), self.station.clone()));
        pairs.push(("datum".to_owned(), self.datum.token().to_owned()));
        pairs.push(("time_zone".to_owned(), self.time_zone.token().to_owned()));
        pairs.push(("interval".to_owned(), self.interval.token().to_owned()));
        pairs.push(("units".to_owned(), self.units.token().to_owned()));
        let ghost own = pairs@;
        let mut range = self.date_range.parameters();
        let ghost dates = range@;
        pairs.append(&mut range);
        assert(pairs_view(pairs@) =~= pairs_view(own) + pairs_view(dates));
        assert(pairs_view(own) =~= seq![
            ("station"@, self.station@),
            ("datum"@, self.datum.spec_token()),
            ("time_zone"@, self.time_zone.spec_token()),
            ("interval"@, self.interval.spec_token()),
            ("units"@, self.units.spec_token()),
        ]);
        pairs
    }

    fn decode(document: &Json) -> (response: Option<PredictionsResponse>) {
        PredictionsResponse::decode(document)
    }
}

} // verus!
