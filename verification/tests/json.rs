use space_traders::decode::JsonKind;
use space_traders::json::Json;

fn text(s: &str) -> Json {
    Json::Str(s.to_string())
}

#[test]
fn parse_reads_the_scalars() {
    assert_eq!(Json::parse("null"), Some(Json::Null));
    assert_eq!(Json::parse("true"), Some(Json::Bool(true)));
    assert_eq!(Json::parse("false"), Some(Json::Bool(false)));
    assert_eq!(Json::parse("\"abc\""), Some(text("abc")));
    assert_eq!(Json::parse("\"\""), Some(text("")));
}

#[test]
fn parse_reads_integers_exactly() {
    assert_eq!(Json::parse("0"), Some(Json::Int(0)));
    assert_eq!(Json::parse("-0"), Some(Json::Fraction));
    assert_eq!(Json::parse("4214"), Some(Json::Int(4214)));
    assert_eq!(Json::parse("-17"), Some(Json::Int(-17)));
    assert_eq!(Json::parse("9223372036854775807"), Some(Json::Int(9223372036854775807)));
    assert_eq!(Json::parse("9223372036854775808"), Some(Json::Int(9223372036854775808)));
    assert_eq!(Json::parse("18446744073709551615"), Some(Json::Int(18446744073709551615)));
    assert_eq!(Json::parse("-9223372036854775808"), Some(Json::Int(-9223372036854775808)));
}

#[test]
fn parse_keeps_other_numbers_as_fractions() {
    assert_eq!(Json::parse("1.5"), Some(Json::Fraction));
    assert_eq!(Json::parse("1.0"), Some(Json::Fraction));
    assert_eq!(Json::parse("1e3"), Some(Json::Fraction));
    assert_eq!(Json::parse("18446744073709551616"), Some(Json::Fraction));
    assert_eq!(Json::parse("-9223372036854775809"), Some(Json::Fraction));
}

#[test]
fn parse_reads_escapes() {
    assert_eq!(Json::parse("\"a\\nb\\u0041\\\"\""), Some(text("a\nbA\"")));
}

#[test]
fn parse_reads_arrays_in_order() {
    assert_eq!(Json::parse("[]"), Some(Json::Array(vec![])));
    assert_eq!(
        Json::parse("[3, \"x\", null, [true]]"),
        Some(Json::Array(vec![Json::Int(3), text("x"), Json::Null, Json::Array(vec![Json::Bool(true)])]))
    );
}

#[test]
fn parse_reads_objects() {
    assert_eq!(Json::parse("{}"), Some(Json::Object(vec![])));
    assert_eq!(
        Json::parse("{\"data\": {\"token\": \"abc123\"}}"),
        Some(Json::Object(vec![("data".to_string(), Json::Object(vec![("token".to_string(), text("abc123"))]))]))
    );
}

#[test]
fn parse_hands_out_keys_in_the_order_of_the_map() {
    assert_eq!(
        Json::parse("{\"b\": 1, \"a\": 2, \"c\": 3}"),
        Some(Json::Object(vec![
            ("a".to_string(), Json::Int(2)),
            ("b".to_string(), Json::Int(1)),
            ("c".to_string(), Json::Int(3)),
        ]))
    );
}

#[test]
fn parse_keeps_the_last_of_a_repeated_key() {
    assert_eq!(Json::parse("{\"a\": 1, \"a\": 2}"), Some(Json::Object(vec![("a".to_string(), Json::Int(2))])));
}

#[test]
fn parse_allows_space_around_the_value() {
    assert_eq!(Json::parse("  \n\t[ 1 ,2 ]  "), Some(Json::Array(vec![Json::Int(1), Json::Int(2)])));
}

#[test]
fn parse_refuses_what_is_not_json() {
    assert_eq!(Json::parse(""), None);
    assert_eq!(Json::parse("not json"), None);
    assert_eq!(Json::parse("{"), None);
    assert_eq!(Json::parse("{\"a\": }"), None);
    assert_eq!(Json::parse("[1, 2,]"), None);
    assert_eq!(Json::parse("{} {}"), None);
    assert_eq!(Json::parse("'a'"), None);
    assert_eq!(Json::parse("01"), None);
}

#[test]
fn parse_refuses_nesting_beyond_the_limit() {
    let deep = "[".repeat(200) + &"]".repeat(200);
    assert_eq!(Json::parse(&deep), None);
    let shallow = "[".repeat(100) + &"]".repeat(100);
    assert!(Json::parse(&shallow).is_some());
}

#[test]
fn kind_names_the_root() {
    assert_eq!(Json::Null.kind(), JsonKind::Null);
    assert_eq!(Json::Bool(false).kind(), JsonKind::Bool);
    assert_eq!(Json::Int(1).kind(), JsonKind::Int);
    assert_eq!(Json::Fraction.kind(), JsonKind::Fraction);
    assert_eq!(text("x").kind(), JsonKind::Str);
    assert_eq!(Json::Array(vec![]).kind(), JsonKind::Array);
    assert_eq!(Json::Object(vec![]).kind(), JsonKind::Object);
}

#[test]
fn get_finds_the_value_under_a_key() {
    let j = Json::Object(vec![("a".to_string(), Json::Int(1)), ("b".to_string(), Json::Int(2))]);
    assert_eq!(j.get("a"), Some(&Json::Int(1)));
    assert_eq!(j.get("b"), Some(&Json::Int(2)));
    assert_eq!(j.get("c"), None);
    assert_eq!(j.get("A"), None);
    assert_eq!(j.get(""), None);
}

#[test]
fn get_takes_the_first_of_a_repeated_key() {
    let j = Json::Object(vec![("a".to_string(), Json::Int(1)), ("a".to_string(), Json::Int(2))]);
    assert_eq!(j.get("a"), Some(&Json::Int(1)));
}

#[test]
fn get_finds_nothing_outside_an_object() {
    assert_eq!(Json::Null.get("a"), None);
    assert_eq!(Json::Array(vec![Json::Int(1)]).get("0"), None);
    assert_eq!(text("a").get("a"), None);
}
