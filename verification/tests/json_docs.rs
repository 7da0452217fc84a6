use noodle::json::{parse_json, str_eq, JsonValue};

#[test]
fn parse_simple_object() {
    let v = parse_json("{\"a\": true, \"b\": \"x\", \"c\": null}").unwrap();
    let expected = JsonValue::Obj(vec![
        ("a".to_string(), JsonValue::Bool(true)),
        ("b".to_string(), JsonValue::Str("x".to_string())),
        ("c".to_string(), JsonValue::Null),
    ]);
    assert_eq!(v, expected);
}

#[test]
fn parse_keeps_number_literals() {
    let v = parse_json("{\"confidence\": 0.85, \"n\": 3}").unwrap();
    assert_eq!(v.get("confidence"), Some(&JsonValue::Num("0.85".to_string())));
    assert_eq!(v.get("n"), Some(&JsonValue::Num("3".to_string())));
}

#[test]
fn parse_nested_arrays() {
    let v = parse_json("{\"xs\": [1, \"two\", [false]]}").unwrap();
    let expected = JsonValue::Obj(vec![(
        "xs".to_string(),
        JsonValue::Arr(vec![
            JsonValue::Num("1".to_string()),
            JsonValue::Str("two".to_string()),
            JsonValue::Arr(vec![JsonValue::Bool(false)]),
        ]),
    )]);
    assert_eq!(v, expected);
}

#[test]
fn parse_rejects_invalid_json() {
    assert_eq!(parse_json("not json at all"), None);
    assert_eq!(parse_json("{\"a\":"), None);
    assert_eq!(parse_json(""), None);
}

#[test]
fn get_on_missing_field_and_non_object() {
    let v = parse_json("{\"a\": 1}").unwrap();
    assert_eq!(v.get("b"), None);
    assert_eq!(JsonValue::Bool(true).get("a"), None);
}

#[test]
fn str_eq_agrees_with_equality() {
    assert!(str_eq("", ""));
    assert!(str_eq("abc", "abc"));
    assert!(!str_eq("abc", "abd"));
    assert!(!str_eq("abc", "ab"));
    assert!(str_eq("naïve", "naïve"));
    assert!(!str_eq("naïve", "naive"));
}
