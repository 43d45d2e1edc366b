use serde_json::Value;
use service_schema::json::{read_field, read_value};
use service_schema::FieldValue;

fn parse(text: &str) -> Value {
    serde_json::from_str(text).unwrap()
}

#[test]
fn read_value_tells_the_literals_apart() {
    assert!(matches!(read_value(&parse("true")), FieldValue::Bool(true)));
    assert!(matches!(read_value(&parse("false")), FieldValue::Bool(false)));
    assert!(matches!(read_value(&parse("0")), FieldValue::Unsigned(0)));
    assert!(matches!(
        read_value(&parse("18446744073709551615")),
        FieldValue::Unsigned(18446744073709551615)
    ));
    assert!(matches!(read_value(&parse("-1")), FieldValue::Signed(-1)));
    assert!(matches!(
        read_value(&parse("-9223372036854775808")),
        FieldValue::Signed(-9223372036854775808)
    ));
    assert!(matches!(read_value(&parse("1.5")), FieldValue::Float));
    assert!(matches!(read_value(&parse("1e3")), FieldValue::Float));
    assert!(matches!(read_value(&parse("\"abc\"")), FieldValue::Text("abc")));
    assert!(matches!(read_value(&parse("\"\"")), FieldValue::Text("")));
    assert!(matches!(read_value(&parse("null")), FieldValue::Other));
    assert!(matches!(read_value(&parse("[]")), FieldValue::Other));
    assert!(matches!(read_value(&parse("{}")), FieldValue::Other));
}

#[test]
fn read_field_finds_top_level_fields_only() {
    let document = parse(r#"{"a": 1, "b": {"c": true}, "d": null}"#);
    assert!(matches!(read_field(&document, "a"), Some(FieldValue::Unsigned(1))));
    assert!(matches!(read_field(&document, "b"), Some(FieldValue::Other)));
    assert!(matches!(read_field(&document, "d"), Some(FieldValue::Other)));
    assert!(read_field(&document, "c").is_none());
    assert!(read_field(&document, "A").is_none());
    assert!(read_field(&document, "").is_none());
}

#[test]
fn read_field_of_what_is_no_object() {
    assert!(read_field(&parse("[1, 2]"), "0").is_none());
    assert!(read_field(&parse("\"a\""), "a").is_none());
    assert!(read_field(&parse("null"), "a").is_none());
}
