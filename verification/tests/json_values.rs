use jp_dict_bridge::json::{parse_bytes, parse_text, Json, Member};

fn member(name: &str, value: Json) -> Member {
    Member { name: name.to_string(), value }
}

#[test]
fn parses_every_kind_of_value() {
    let parsed = parse_text("[null, true, 12, -1.5, \"a\\nb\", [], {\"k\": [false]}]").unwrap();
    let expected = Json::List(vec![
        Json::Null,
        Json::Bool(true),
        Json::Number("12".to_string()),
        Json::Number("-1.5".to_string()),
        Json::Text("a\nb".to_string()),
        Json::List(vec![]),
        Json::Record(vec![member("k", Json::List(vec![Json::Bool(false)]))]),
    ]);
    assert_eq!(parsed, expected);
}

#[test]
fn parses_bytes_as_it_parses_text() {
    let text = "{\"audioContent\":\"QUJD\",\"n\":3}";
    assert_eq!(parse_bytes(text.as_bytes()).unwrap(), parse_text(text).unwrap());
}

#[test]
fn a_repeated_name_keeps_its_last_value() {
    let parsed = parse_text("{\"a\":1,\"a\":2}").unwrap();
    assert_eq!(parsed, Json::Record(vec![member("a", Json::Number("2".to_string()))]));
}

#[test]
fn refuses_what_is_no_json() {
    assert!(parse_text("").is_err());
    assert!(parse_text("{\"a\":}").is_err());
    assert!(parse_text("{} trailing").is_err());
    assert!(parse_bytes(&[0xff, 0xfe]).is_err());
    let diagnostic = parse_text("{\"a\":}").unwrap_err();
    assert_eq!(diagnostic, "expected value at line 1 column 6");
}

#[test]
fn looks_up_members_and_items() {
    let value = Json::Record(vec![
        member("a", Json::Text("first".to_string())),
        member("b", Json::List(vec![Json::Null, Json::Bool(true)])),
        member("a", Json::Text("second".to_string())),
    ]);
    assert_eq!(value.get("a"), Some(&Json::Text("first".to_string())));
    assert_eq!(value.get("c"), None);
    assert_eq!(value.get(""), None);
    assert_eq!(value.at(0), None);
    let list = value.get("b").unwrap();
    assert_eq!(list.at(1), Some(&Json::Bool(true)));
    assert_eq!(list.at(2), None);
    assert_eq!(list.get("a"), None);
    assert_eq!(value.get("a").unwrap().as_text(), Some("first"));
    assert_eq!(list.as_text(), None);
    assert_eq!(Json::Number("1".to_string()).as_text(), None);
}

#[test]
fn builds_values() {
    assert_eq!(Json::text("猫"), Json::Text("猫".to_string()));
    assert_eq!(Json::list_of(Json::Null), Json::List(vec![Json::Null]));
    assert_eq!(
        Json::record_of("k", Json::Bool(true)),
        Json::Record(vec![member("k", Json::Bool(true))])
    );
    assert_eq!(Member::new("k", Json::Null), member("k", Json::Null));
    assert_eq!(Json::list(vec![]), Json::List(vec![]));
    assert_eq!(Json::record(vec![]), Json::Record(vec![]));
}
