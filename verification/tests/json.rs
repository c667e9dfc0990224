use noaa_tides::json::Json;

fn text(value: &str) -> Json {
    Json::String(value.to_string())
}

#[test]
fn parse_reads_every_kind_of_value() {
    let body = br#"{"a": null, "b": true, "c": 10, "d": "x", "e": [1, "two"], "f": {"g": false}}"#;
    let document = Json::parse(body).unwrap();
    assert_eq!(document.get("a"), Some(&Json::Null));
    assert_eq!(document.get("b"), Some(&Json::Bool(true)));
    assert_eq!(document.get("c"), Some(&Json::Number("10".to_string())));
    assert_eq!(document.get("d"), Some(&text("x")));
    assert_eq!(
        document.get("e"),
        Some(&Json::Array(vec![Json::Number("1".to_string()), text("two")]))
    );
    assert_eq!(
        document.get("f"),
        Some(&Json::Object(vec![("g".to_string(), Json::Bool(false))]))
    );
    assert_eq!(document.get("g"), None);
}

#[test]
fn parse_rejects_what_is_not_one_document() {
    for body in ["", " ", "{", "[1,]", "{\"a\": 1} 2", "nul", "'a'", "{a: 1}"] {
        assert_eq!(Json::parse(body.as_bytes()), None, "{body}");
    }
    assert_eq!(Json::parse(b"\xff"), None);
    assert_eq!(Json::parse(b" \"a\\u00e9\" "), Some(text("a\u{e9}")));
}

#[test]
fn get_finds_the_first_member_of_that_name() {
    let object = Json::Object(vec![
        ("a".to_string(), text("first")),
        ("b".to_string(), Json::Null),
        ("a".to_string(), text("second")),
    ]);
    assert_eq!(object.get("a"), Some(&text("first")));
    assert_eq!(object.get("b"), Some(&Json::Null));
    assert_eq!(object.get("c"), None);
    assert_eq!(object.get(""), None);
    assert_eq!(text("a").get("a"), None);
    assert_eq!(Json::Array(vec![text("a")]).get("a"), None);
}

#[test]
fn as_str_and_as_array() {
    assert_eq!(text("a").as_str(), Some("a"));
    assert_eq!(Json::Number("1".to_string()).as_str(), None);
    assert_eq!(Json::Null.as_str(), None);
    assert_eq!(Json::Array(vec![Json::Null]).as_array(), Some(&vec![Json::Null]));
    assert_eq!(text("a").as_array(), None);
}
