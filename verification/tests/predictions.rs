use noaa_tides::json::Json;
use noaa_tides::numeric::is_numeric;
use noaa_tides::products::{de_string_to_native_datetime, de_string_to_number};
use noaa_tides::{
    decode, decode_body, query, resolve, ApiError, DateRange, Datum, ErrorWrapper, Interval,
    NaiveDate, NaiveDateTime, NoaaTideError, NoaaTideProduct, Prediction, PredictionsRequest,
    PredictionsResponse, TideType, Timezone, Units, BASE_URL,
};

fn january_request() -> PredictionsRequest {
    PredictionsRequest {
        station: "1234567".to_string(),
        date_range: DateRange {
            begin_date: NaiveDate::from_ymd_opt(2026, 1, 1).unwrap(),
            end_date: NaiveDate::from_ymd_opt(2026, 1, 31).unwrap(),
        },
        datum: Datum::MLLW,
        time_zone: Timezone::LST_LDT,
        interval: Interval::HighLow,
        units: Units::English,
    }
}

fn decode_predictions(body: &str) -> Result<PredictionsResponse, NoaaTideError> {
    decode_body::<PredictionsRequest>(body.as_bytes())
}

fn datetime(year: i32, month: u32, day: u32, hour: u32, minute: u32) -> NaiveDateTime {
    NaiveDate::from_ymd_opt(year, month, day).unwrap().and_hms_opt(hour, minute, 0).unwrap()
}

fn text(value: &str) -> Json {
    Json::String(value.to_string())
}

fn is_decode_error<T>(result: Result<T, NoaaTideError>) -> bool {
    matches!(result, Err(NoaaTideError::DecodeError))
}

#[test]
fn request_query() {
    let request = january_request();

    let query = serde_urlencoded::to_string(request.parameters()).unwrap();

    let expected = "station=1234567&datum=MLLW&time_zone=lst_ldt&interval=hilo&\
            units=english&begin_date=20260101&end_date=20260131";
    assert_eq!(query, expected);
}

#[test]
fn request_query_ends_with_product_and_format() {
    let pairs = query(&january_request());
    assert_eq!(pairs.len(), 9);
    assert_eq!(pairs[7], ("product".to_string(), "predictions".to_string()));
    assert_eq!(pairs[8], ("format".to_string(), "json".to_string()));
    assert_eq!(
        serde_urlencoded::to_string(pairs).unwrap(),
        "station=1234567&datum=MLLW&time_zone=lst_ldt&interval=hilo&units=english&\
            begin_date=20260101&end_date=20260131&product=predictions&format=json"
    );
}

#[test]
fn request_names_its_product() {
    assert_eq!(january_request().product_name(), "predictions");
}

#[test]
fn station_is_sent_as_given() {
    let mut request = january_request();
    request.station = "no such station".to_string();
    request.interval = Interval::Hourly;
    request.units = Units::Metric;
    request.time_zone = Timezone::GMT;
    request.datum = Datum::STND;
    assert_eq!(
        serde_urlencoded::to_string(request.parameters()).unwrap(),
        "station=no+such+station&datum=STND&time_zone=gmt&interval=h&units=metric&\
            begin_date=20260101&end_date=20260131"
    );
}

#[test]
fn response_deserialization_success() {
    let data = r#"
        {
            "predictions": [{
                "t": "2026-01-01 12:34",
                "v": "3.5",
                "type": "H"
            }]
        }   
        "#;
    let predictions_resp = decode_predictions(data).unwrap();

    let expected_datetime = chrono::NaiveDateTime::new(
        chrono::NaiveDate::from_ymd_opt(2026, 1, 1).unwrap(),
        chrono::NaiveTime::from_hms_opt(12, 34, 0).unwrap(),
    );
    let expected_height: f32 = 3.5;
    let expected_tide_type = Some(TideType::High);

    let predictions = predictions_resp.predictions;
    assert_eq!(predictions.len(), 1);
    let prediction = &predictions[0];
    let date = prediction.datetime.date();
    let found_datetime = chrono::NaiveDate::from_ymd_opt(date.year(), date.month(), date.day())
        .unwrap()
        .and_hms_opt(
            prediction.datetime.hour(),
            prediction.datetime.minute(),
            prediction.datetime.second(),
        )
        .unwrap();
    assert_eq!(found_datetime, expected_datetime);
    assert_eq!(prediction.height.parse::<f32>().unwrap(), expected_height);
    assert_eq!(prediction.tide_type, expected_tide_type);
}

#[test]
fn single_line_body_decodes_to_one_prediction() {
    let body = r#"{"predictions": [{"t": "2026-01-01 12:34", "v": "3.5", "type": "H"}]}"#;
    let response = decode_predictions(body).unwrap();
    assert_eq!(response.predictions.len(), 1);
    let prediction = &response.predictions[0];
    assert_eq!(prediction.datetime, datetime(2026, 1, 1, 12, 34));
    assert_eq!(prediction.datetime.second(), 0);
    assert_eq!(prediction.height, "3.5");
    assert_eq!(prediction.tide_type, Some(TideType::High));
}

#[test]
fn predictions_keep_the_order_of_the_response() {
    let body = r#"{"predictions": [
        {"t": "2026-01-02 06:00", "v": "-0.412", "type": "LL"},
        {"t": "2026-01-01 23:59", "v": "5.1", "type": "HH"},
        {"t": "2026-01-03 00:00", "v": "1", "type": "L"}
    ]}"#;
    let predictions = decode_predictions(body).unwrap().predictions;
    let found: Vec<(NaiveDateTime, &str, Option<TideType>)> =
        predictions.iter().map(|p| (p.datetime, p.height.as_str(), p.tide_type)).collect();
    assert_eq!(
        found,
        vec![
            (datetime(2026, 1, 2, 6, 0), "-0.412", Some(TideType::LowerLow)),
            (datetime(2026, 1, 1, 23, 59), "5.1", Some(TideType::HigherHigh)),
            (datetime(2026, 1, 3, 0, 0), "1", Some(TideType::Low)),
        ]
    );
}

#[test]
fn missing_tide_type_is_not_present() {
    let body = r#"{"predictions": [{"t": "2026-01-01 01:00", "v": "2.25"}]}"#;
    let predictions = decode_predictions(body).unwrap().predictions;
    assert_eq!(predictions[0].tide_type, None);

    let body = r#"{"predictions": [{"t": "2026-01-01 01:00", "v": "2.25", "type": null}]}"#;
    let predictions = decode_predictions(body).unwrap().predictions;
    assert_eq!(predictions[0].tide_type, None);
}

#[test]
fn unknown_tide_type_is_a_decode_failure() {
    for tide_type in [r#""X""#, r#""h""#, r#""HL""#, r#""""#, r#""HHH""#, "1", "true", "[]"] {
        let body = format!(
            r#"{{"predictions": [{{"t": "2026-01-01 01:00", "v": "2.25", "type": {tide_type}}}]}}"#
        );
        assert!(is_decode_error(decode_predictions(&body)), "{body}");
    }
}

#[test]
fn no_predictions_is_an_empty_response() {
    let response = decode_predictions(r#"{"predictions": []}"#).unwrap();
    assert!(response.predictions.is_empty());
}

#[test]
fn other_members_are_passed_over() {
    let body = r#"{"units": "feet", "predictions": [
        {"t": "2026-01-01 12:34", "v": "3.5", "type": "H", "flag": [1, 2]}
    ]}"#;
    let response = decode_predictions(body).unwrap();
    assert_eq!(response.predictions.len(), 1);
    assert_eq!(response.predictions[0].height, "3.5");
}

#[test]
fn api_error_carries_the_message() {
    let body = r#"{"error": {"message": "No data was found."}}"#;
    match decode_predictions(body) {
        Err(NoaaTideError::ApiError(message)) => assert_eq!(message, "No data was found."),
        other => panic!("{other:?}"),
    }
}

#[test]
fn success_comes_before_a_reported_error() {
    let body = r#"{"error": {"message": "ignored"}, "predictions": []}"#;
    assert!(decode_predictions(body).unwrap().predictions.is_empty());

    let body = r#"{"error": {"message": "reported"}, "predictions": [{"t": "x", "v": "1"}]}"#;
    match decode_predictions(body) {
        Err(NoaaTideError::ApiError(message)) => assert_eq!(message, "reported"),
        other => panic!("{other:?}"),
    }
}

#[test]
fn non_numeric_height_is_a_decode_failure() {
    let body = r#"{"predictions": [{"t": "2026-01-01 12:34", "v": "abc", "type": "H"}]}"#;
    assert!(is_decode_error(decode_predictions(body)));
    assert_eq!(de_string_to_number(&text("abc")), None);
}

#[test]
fn one_bad_record_fails_the_whole_response() {
    let body = r#"{"predictions": [
        {"t": "2026-01-01 12:34", "v": "3.5"},
        {"t": "2026-01-01 12:40", "v": "three"}
    ]}"#;
    assert!(is_decode_error(decode_predictions(body)));
}

#[test]
fn bodies_of_neither_shape_are_decode_failures() {
    for body in [
        "",
        "not json",
        "{",
        r#"{"predictions": [] } trailing"#,
        "null",
        "[]",
        "{}",
        r#"{"predictions": {}}"#,
        r#"{"predictions": "none"}"#,
        r#"{"predictions": [[]]}"#,
        r#"{"predictions": [{"t": "2026-01-01 12:34"}]}"#,
        r#"{"predictions": [{"v": "3.5"}]}"#,
        r#"{"predictions": [{"t": "2026-01-01 12:34", "v": 3}]}"#,
        r#"{"predictions": [{"t": 20260101, "v": "3.5"}]}"#,
        r#"{"error": "No data was found."}"#,
        r#"{"error": {"message": 5}}"#,
        r#"{"error": {"text": "No data was found."}}"#,
        r#"{"message": "No data was found."}"#,
    ] {
        assert!(is_decode_error(decode_predictions(body)), "{body}");
    }
}

struct MockProductRequest {
    station: String,
}

#[derive(Debug)]
struct MockProductResponse {
    value: i32,
}

impl NoaaTideProduct for MockProductRequest {
    type Response = MockProductResponse;

    fn product_name(&self) -> &'static str {
        "some_product"
    }

    fn parameters(&self) -> Vec<(String, String)> {
        vec![("station".to_string(), self.station.clone())]
    }

    fn decode(document: &Json) -> Option<MockProductResponse> {
        match document.get("value") {
            Some(Json::Number(number)) => {
                number.parse().ok().map(|value| MockProductResponse { value })
            }
            _ => None,
        }
    }
}

#[test]
fn another_product_decodes_its_own_shape() {
    let request = MockProductRequest { station: "1234567".to_string() };
    assert_eq!(
        serde_urlencoded::to_string(query(&request)).unwrap(),
        "station=1234567&product=some_product&format=json"
    );

    let result = decode_body::<MockProductRequest>(r#"{"value": 10}"#.as_bytes());
    assert!(result.is_ok());
    assert_eq!(result.unwrap().value, 10);

    assert!(is_decode_error(decode_predictions(r#"{"value": 10}"#)));
    match decode_body::<MockProductRequest>(br#"{"error": {"message": "Wrong station"}}"#) {
        Err(NoaaTideError::ApiError(message)) => assert_eq!(message, "Wrong station"),
        other => panic!("{other:?}"),
    }
    assert!(is_decode_error(decode_body::<MockProductRequest>(br#"{"value": "ten"}"#)));
}

#[test]
fn resolve_takes_any_success() {
    let document = Json::parse(br#"{"error": {"message": "No data was found."}}"#).unwrap();
    assert_eq!(resolve(Some(10), &document).unwrap(), 10);
    match resolve::<i32>(None, &document) {
        Err(NoaaTideError::ApiError(message)) => assert_eq!(message, "No data was found."),
        other => panic!("{other:?}"),
    }
    assert!(is_decode_error(resolve::<i32>(None, &Json::Null)));
    assert!(decode::<PredictionsRequest>(&Json::parse(br#"{"predictions": []}"#).unwrap()).is_ok());
}

#[test]
fn error_wrapper_shapes() {
    let document = Json::parse(br#"{"error": {"message": "No data was found."}}"#).unwrap();
    assert_eq!(ErrorWrapper::decode(&document).unwrap().error.message, "No data was found.");
    assert!(ErrorWrapper::decode(&Json::Null).is_none());
    let inner = Json::Object(vec![("message".to_string(), text("gone"))]);
    assert_eq!(ApiError::decode(&inner).unwrap().message, "gone");
    assert!(ApiError::decode(&Json::Object(vec![("message".to_string(), Json::Null)])).is_none());
    assert!(ApiError::decode(&Json::Object(Vec::new())).is_none());
}

#[test]
fn error_messages() {
    assert_eq!(
        NoaaTideError::HttpError("connection refused".to_string()).message(),
        "Network error: connection refused"
    );
    assert_eq!(
        NoaaTideError::ApiError("No data was found.".to_string()).message(),
        "NOAA API returned an error: No data was found."
    );
    assert_eq!(NoaaTideError::DecodeError.message(), "Response could not be decoded");
    assert_eq!(NoaaTideError::Unknown.message(), "Unknown error occurred");
}

#[test]
fn endpoint_address() {
    assert_eq!(BASE_URL, "https://api.tidesandcurrents.noaa.gov/api/prod/datagetter");
}

#[test]
fn compact_datetime_has_one_form() {
    assert_eq!(
        de_string_to_native_datetime(&text("2026-01-01 12:34")),
        Some(datetime(2026, 1, 1, 12, 34))
    );
    assert_eq!(
        de_string_to_native_datetime(&text("2024-02-29 23:59")),
        Some(datetime(2024, 2, 29, 23, 59))
    );
    assert_eq!(
        de_string_to_native_datetime(&text("0000-01-01 00:00")),
        Some(datetime(0, 1, 1, 0, 0))
    );
    for other in [
        "",
        "2026-01-01",
        "2026-01-01 12:34:00",
        "2026-01-01T12:34",
        "2026-01-01 12:34Z",
        "2026-01-01  12:34",
        " 2026-01-01 12:34",
        "2026-01-01 12:34 ",
        "2026-1-1 12:34",
        "2026-01-01 1:34",
        "2026/01/01 12:34",
        "2026-01-01 12.34",
        "+026-01-01 12:34",
        "2026-01-01 12:3４",
        "2026-02-29 12:34",
        "2026-13-01 12:34",
        "2026-00-10 12:34",
        "2026-01-00 12:34",
        "2026-01-32 12:34",
        "2026-01-01 24:00",
        "2026-01-01 12:60",
    ] {
        assert_eq!(de_string_to_native_datetime(&text(other)), None, "{other}");
    }
    assert_eq!(de_string_to_native_datetime(&Json::Number("20260101".to_string())), None);
    assert_eq!(de_string_to_native_datetime(&Json::Null), None);
}

#[test]
fn compact_datetime_is_what_chrono_reads() {
    for value in ["2026-01-01 12:34", "1999-12-31 23:59", "2024-02-29 00:00", "2023-02-29 00:00"] {
        let theirs = chrono::NaiveDateTime::parse_from_str(value, "%Y-%m-%d %H:%M").ok();
        let ours = de_string_to_native_datetime(&text(value)).map(|t| {
            chrono::NaiveDate::from_ymd_opt(t.date().year(), t.date().month(), t.date().day())
                .unwrap()
                .and_hms_opt(t.hour(), t.minute(), t.second())
                .unwrap()
        });
        assert_eq!(ours, theirs, "{value}");
    }
}

#[test]
fn numeric_strings() {
    assert_eq!(de_string_to_number(&text("3.5")), Some("3.5".to_string()));
    assert_eq!(de_string_to_number(&Json::Number("3.5".to_string())), None);
    assert_eq!(de_string_to_number(&Json::Null), None);
    for number in [
        "3.5", "0", "-0.25", "+1", ".5", "5.", "-.5", "007", "1e5", "1E5", "1.5e-3", "2.e+10",
        ".5E0", "-0", "00", "1e000", "0e0", "-.1e1", "+.1E+1", "9999999999999999999999",
    ] {
        assert!(is_numeric(number), "{number}");
        assert_eq!(de_string_to_number(&text(number)), Some(number.to_string()));
    }
    for other in [
        "", "abc", ".", "+", "-", "+.", "1e", "e5", "1e+", "1.e", ".e1", "1,5", " 1", "1 ", "1.2.3",
        "1e5.0", "1e5e5", "--1", "+-1", "0x10", "1_000", "1f", "a", "1a", "a1", "\t1", "1\n",
        "３", "1．5", "١",
    ] {
        assert!(!is_numeric(other), "{other}");
        assert_eq!(de_string_to_number(&text(other)), None);
    }
}

#[test]
fn words_are_no_numbers() {
    for word in [
        "nan", "NaN", "NAN", "+nan", "-nan", "inf", "Inf", "INF", "+inf", "-inf", "infinity",
        "Infinity", "INFINITY", "iNfInItY", "+Infinity", "-infinity", "in", "infinit", "infinityy",
        "na", "nann", "nane", "i", "e", "E", "null", "none",
    ] {
        assert!(!is_numeric(word), "{word}");
        assert_eq!(de_string_to_number(&text(word)), None, "{word}");
        let record = format!(r#"{{"t": "2026-01-01 12:34", "v": "{word}", "type": "H"}}"#);
        let body = format!(r#"{{"predictions": [{record}]}}"#);
        assert!(is_decode_error(decode_predictions(&body)), "{body}");
    }
}

#[test]
fn numeric_strings_convert_to_numbers() {
    for candidate in [
        "3.5", "-3.5", "+3.5", "3.", ".3", ".", "", "1e10", "1e", "e", "E1", "1E-2", "1e+2", "1e-",
        "1.e5", "+.", "-", "1e+", ".e5", "5.e", "1.5e", "1E+05", "0.0.", "..", "+e1", "1e1.", "1.e",
        "++1", "1+", "1.0.0", "١", "1 ", "\t1", "1\n", "00", "-0", "1e000", "0e0", "1e9999", "a",
        "1a", "a1", ".e", "-.e1", "-.1e1", "+.1E+1", "9999999999999999999999",
    ] {
        let converted = candidate.parse::<f32>();
        assert_eq!(is_numeric(candidate), converted.is_ok(), "{candidate:?}");
        if let Ok(height) = converted {
            assert!(!height.is_nan(), "{candidate:?}");
        }
    }
    for word in ["nan", "NaN", "inf", "-inf", "infinity", "+Infinity"] {
        assert!(word.parse::<f32>().is_ok());
        assert!(!is_numeric(word));
    }
}

#[test]
fn decoded_heights_convert() {
    let body = r#"{"predictions": [
        {"t": "2026-01-01 00:00", "v": "-1.234"},
        {"t": "2026-01-01 01:00", "v": "1e1"},
        {"t": "2026-01-01 02:00", "v": ".5"}
    ]}"#;
    let heights: Vec<f32> = decode_predictions(body)
        .unwrap()
        .predictions
        .iter()
        .map(|p| p.height.parse().unwrap())
        .collect();
    assert_eq!(heights, vec![-1.234, 10.0, 0.5]);
}

#[test]
fn tide_type_tokens() {
    assert_eq!(TideType::from_token("H"), Some(TideType::High));
    assert_eq!(TideType::from_token("L"), Some(TideType::Low));
    assert_eq!(TideType::from_token("HH"), Some(TideType::HigherHigh));
    assert_eq!(TideType::from_token("LL"), Some(TideType::LowerLow));
    for other in ["", "h", "l", "HL", "LH", "HHH", "High", " H", "Ｈ"] {
        assert_eq!(TideType::from_token(other), None, "{other}");
    }
}

#[test]
fn record_decodes_alone() {
    let record = Json::Object(vec![
        ("t".to_string(), text("2026-01-01 12:34")),
        ("v".to_string(), text("3.5")),
        ("type".to_string(), text("LL")),
    ]);
    let prediction = Prediction::decode(&record).unwrap();
    assert_eq!(prediction.datetime, datetime(2026, 1, 1, 12, 34));
    assert_eq!(prediction.height, "3.5");
    assert_eq!(prediction.tide_type, Some(TideType::LowerLow));
    assert!(Prediction::decode(&Json::Array(Vec::new())).is_none());
    assert!(PredictionsResponse::decode(&record).is_none());
}

#[test]
fn golden_gate_low_tide() {
    let mut request = january_request();
    request.station = "9414290".into();
    let pairs = query(&request);
    assert_eq!(pairs[0], ("station".to_string(), "9414290".to_string()));

    let body = br#"{"predictions": [{"t": "2026-01-01 04:12", "v": "2.9", "type": "L"}]}"#;
    let data = decode_body::<PredictionsRequest>(body).unwrap();
    assert_eq!(data.predictions[0].tide_type, Some(TideType::Low));
    assert_eq!(data.predictions[0].datetime, datetime(2026, 1, 1, 4, 12));
}

#[test]
fn compact_datetime_accepts_exactly_the_times_that_exist() {
    let mut accepted = 0;
    for year in [0, 1900, 2024, 2026, 9999] {
        for month in 0..=13 {
            for day in [0, 1, 28, 29, 30, 31, 32] {
                for (hour, minute) in [(0, 0), (12, 34), (23, 59), (24, 0), (0, 60), (99, 99)] {
                    let value = format!("{year:04}-{month:02}-{day:02} {hour:02}:{minute:02}");
                    let expected = NaiveDate::from_ymd_opt(year, month, day)
                        .and_then(|date| date.and_hms_opt(hour, minute, 0));
                    assert_eq!(de_string_to_native_datetime(&text(&value)), expected, "{value}");
                    if expected.is_some() {
                        accepted += 1;
                    }
                }
            }
        }
    }
    assert_eq!(accepted, 801);
}
