use mcd_client::json::Json;
use mcd_client::numbers::{i64_to_string, parse_i64};

#[test]
fn scalars_print_canonically() {
    assert_eq!(Json::Null.to_text(), "null");
    assert_eq!(Json::Bool(true).to_text(), "true");
    assert_eq!(Json::Bool(false).to_text(), "false");
    assert_eq!(Json::Int(0).to_text(), "0");
    assert_eq!(Json::Int(-42).to_text(), "-42");
    assert_eq!(Json::Str("hi".to_string()).to_text(), "\"hi\"");
}

#[test]
fn integer_extremes_print_and_parse() {
    assert_eq!(i64_to_string(i64::MAX), "9223372036854775807");
    assert_eq!(i64_to_string(i64::MIN), "-9223372036854775808");
    assert_eq!(parse_i64("9223372036854775807"), Some(i64::MAX));
    assert_eq!(parse_i64("-9223372036854775808"), Some(i64::MIN));
    assert_eq!(parse_i64("9223372036854775808"), None);
    assert_eq!(parse_i64("-9223372036854775809"), None);
}

#[test]
fn integer_literals_accept_signs_and_reject_junk() {
    assert_eq!(parse_i64("+7"), Some(7));
    assert_eq!(parse_i64("-0"), Some(0));
    assert_eq!(parse_i64("007"), Some(7));
    assert_eq!(parse_i64(""), None);
    assert_eq!(parse_i64("-"), None);
    assert_eq!(parse_i64("12x"), None);
    assert_eq!(parse_i64(" 12"), None);
}

#[test]
fn strings_escape_quotes_and_backslashes() {
    let j = Json::Str("a\"b\\c".to_string());
    assert_eq!(j.to_text(), "\"a\\\"b\\\\c\"");
    let back = Json::parse_text(&j.to_text()).expect("round trip");
    assert_eq!(back, j);
}

#[test]
fn parser_understands_the_usual_escapes() {
    let j = Json::parse_text("\"a\\n\\t\\r\\/\\\"\"").expect("escapes parse");
    assert_eq!(j, Json::Str("a\n\t\r/\"".to_string()));
    assert_eq!(Json::parse_text("\"\\q\""), None, "unknown escape");
    assert_eq!(Json::parse_text("\"unterminated"), None);
}

#[test]
fn arrays_and_objects_round_trip() {
    let j = Json::Obj(vec![
        (
            "a".to_string(),
            Json::Arr(vec![Json::Int(1), Json::Int(2), Json::Int(3)]),
        ),
        ("b".to_string(), Json::Null),
        (
            "c".to_string(),
            Json::Obj(vec![("d".to_string(), Json::Bool(false))]),
        ),
        ("e".to_string(), Json::Arr(vec![])),
    ]);
    let text = j.to_text();
    assert_eq!(
        text,
        "{\"a\":[1,2,3],\"b\":null,\"c\":{\"d\":false},\"e\":[]}"
    );
    assert_eq!(Json::parse_text(&text), Some(j));
}

#[test]
fn parser_skips_whitespace_between_tokens() {
    let j = Json::parse_text(" { \"a\" : [ 1 , 2 ] , \"b\" : \"x\" } ").expect("parses");
    assert_eq!(j.to_text(), "{\"a\":[1,2],\"b\":\"x\"}");
}

#[test]
fn parser_rejects_malformed_texts() {
    assert_eq!(Json::parse_text(""), None);
    assert_eq!(Json::parse_text("tru"), None);
    assert_eq!(Json::parse_text("nulll"), None, "trailing characters");
    assert_eq!(Json::parse_text("[1,]"), None);
    assert_eq!(Json::parse_text("{\"a\"}"), None);
    assert_eq!(Json::parse_text("{a:1}"), None);
    assert_eq!(Json::parse_text("[1 2]"), None);
    assert_eq!(Json::parse_text("1.5"), None, "no fractional numbers");
    assert_eq!(Json::parse_text("{}{}"), None);
}

#[test]
fn parser_accepts_only_integers_in_range() {
    assert_eq!(Json::parse_text("9223372036854775807"), Some(Json::Int(i64::MAX)));
    assert_eq!(Json::parse_text("-9223372036854775808"), Some(Json::Int(i64::MIN)));
    assert_eq!(Json::parse_text("9223372036854775808"), None);
}

#[test]
fn object_lookup_returns_the_first_match() {
    let j = Json::Obj(vec![
        ("k".to_string(), Json::Int(1)),
        ("k".to_string(), Json::Int(2)),
    ]);
    assert_eq!(j.get("k"), Some(&Json::Int(1)));
    assert_eq!(j.get("missing"), None);
    assert_eq!(Json::Int(3).get("k"), None, "not an object");
}

#[test]
fn deep_clone_is_equal_and_independent() {
    let j = Json::Obj(vec![(
        "a".to_string(),
        Json::Arr(vec![Json::Str("x".to_string())]),
    )]);
    let copy = j.deep_clone();
    assert_eq!(copy, j);
    assert_eq!(copy.to_text(), j.to_text());
}
