use fetch_core::json::{parse_json, JsonValue};

#[test]
fn parses_scalars() {
    assert_eq!(parse_json("null"), Some(JsonValue::Null));
    assert_eq!(parse_json("true"), Some(JsonValue::Bool(true)));
    assert_eq!(parse_json("false"), Some(JsonValue::Bool(false)));
    assert_eq!(parse_json("42"), Some(JsonValue::Int(42)));
    assert_eq!(parse_json("-7"), Some(JsonValue::Int(-7)));
    assert_eq!(
        parse_json("\"hi\""),
        Some(JsonValue::Str("hi".to_string()))
    );
}

#[test]
fn parses_nested_structure() {
    let got = parse_json(" { \"a\" : [ 1 , {\"b\": \"c\"} ] } ");
    let want = JsonValue::Obj(vec![(
        "a".to_string(),
        JsonValue::Arr(vec![
            JsonValue::Int(1),
            JsonValue::Obj(vec![("b".to_string(), JsonValue::Str("c".to_string()))]),
        ]),
    )]);
    assert_eq!(got, Some(want));
}

#[test]
fn parses_empty_containers() {
    assert_eq!(parse_json("{}"), Some(JsonValue::Obj(vec![])));
    assert_eq!(parse_json("[]"), Some(JsonValue::Arr(vec![])));
    assert_eq!(parse_json("[ ]"), Some(JsonValue::Arr(vec![])));
}

#[test]
fn keeps_object_field_order() {
    let got = parse_json("{\"b\":1,\"a\":2}");
    let want = JsonValue::Obj(vec![
        ("b".to_string(), JsonValue::Int(1)),
        ("a".to_string(), JsonValue::Int(2)),
    ]);
    assert_eq!(got, Some(want));
}

#[test]
fn rejects_malformed_text() {
    assert_eq!(parse_json(""), None);
    assert_eq!(parse_json("   "), None);
    assert_eq!(parse_json("{"), None);
    assert_eq!(parse_json("{\"a\":}"), None);
    assert_eq!(parse_json("[1,]"), None);
    assert_eq!(parse_json("{\"a\" 1}"), None);
    assert_eq!(parse_json("tru"), None);
    assert_eq!(parse_json("\"unterminated"), None);
}

#[test]
fn rejects_trailing_input() {
    assert_eq!(parse_json("1 2"), None);
    assert_eq!(parse_json("{} {}"), None);
}

#[test]
fn decodes_string_escapes() {
    assert_eq!(
        parse_json("\"a\\nb\""),
        Some(JsonValue::Str("a\nb".to_string()))
    );
    assert_eq!(
        parse_json("\"quote \\\" backslash \\\\ slash \\/\""),
        Some(JsonValue::Str("quote \" backslash \\ slash /".to_string()))
    );
    assert_eq!(
        parse_json("\"tab\\there\\r\""),
        Some(JsonValue::Str("tab\there\r".to_string()))
    );
    assert_eq!(
        parse_json("{\"title\":\"line one\\nline two\"}"),
        Some(JsonValue::Obj(vec![(
            "title".to_string(),
            JsonValue::Str("line one\nline two".to_string())
        )]))
    );
}

#[test]
fn rejects_what_the_subset_leaves_out() {
    // Unicode escapes and non-integer numbers are outside the accepted
    // subset; such a body is an invalid response, not a partial success.
    assert_eq!(parse_json("\"a\\u0041b\""), None);
    assert_eq!(parse_json("\"bad escape \\x\""), None);
    assert_eq!(parse_json("1.5"), None);
    assert_eq!(parse_json("9223372036854775808"), None);
}

#[test]
fn rejects_superfluous_leading_zeros() {
    assert_eq!(parse_json("007"), None);
    assert_eq!(parse_json("-01"), None);
    assert_eq!(parse_json("0"), Some(JsonValue::Int(0)));
    assert_eq!(parse_json("-0"), Some(JsonValue::Int(0)));
    assert_eq!(parse_json("10"), Some(JsonValue::Int(10)));
}

#[test]
fn accepts_surrounding_whitespace() {
    assert_eq!(parse_json("  \t\r\n 5 \n"), Some(JsonValue::Int(5)));
}

#[test]
fn parses_min_and_max_integers() {
    assert_eq!(
        parse_json("9223372036854775807"),
        Some(JsonValue::Int(i64::MAX))
    );
}
