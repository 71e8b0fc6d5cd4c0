use rengo::json::{JsonNumber, JsonValue};

fn s(t: &str) -> JsonValue {
    JsonValue::String(t.to_string())
}

fn obj(entries: Vec<(&str, JsonValue)>) -> JsonValue {
    JsonValue::Object(entries.into_iter().map(|(k, v)| (k.to_string(), v)).collect())
}

#[test]
fn get_finds_entries_of_objects_only() {
    let v = obj(vec![("a", s("x")), ("b", JsonValue::Null)]);
    assert!(matches!(v.get("a"), Some(JsonValue::String(t)) if t == "x"));
    assert!(matches!(v.get("b"), Some(JsonValue::Null)));
    assert!(v.get("c").is_none());
    assert!(s("a").get("a").is_none());
    assert!(JsonValue::Array(vec![]).get("a").is_none());
}

#[test]
fn as_i64_follows_serde_json() {
    assert_eq!(JsonValue::Number(JsonNumber::PosInt(5)).as_i64(), Some(5));
    assert_eq!(JsonValue::Number(JsonNumber::PosInt(i64::MAX as u64)).as_i64(), Some(i64::MAX));
    assert_eq!(JsonValue::Number(JsonNumber::PosInt(i64::MAX as u64 + 1)).as_i64(), None);
    assert_eq!(JsonValue::Number(JsonNumber::NegInt(-3)).as_i64(), Some(-3));
    assert_eq!(JsonValue::Number(JsonNumber::Float).as_i64(), None);
    assert_eq!(s("5").as_i64(), None);
}

#[test]
fn as_str_and_as_array() {
    assert_eq!(s("abc").as_str(), Some("abc"));
    assert_eq!(JsonValue::Bool(true).as_str(), None);
    assert_eq!(JsonValue::Array(vec![s("a"), s("b")]).as_array().map(|a| a.len()), Some(2));
    assert!(JsonValue::Null.as_array().is_none());
}

#[test]
fn typed_lookups() {
    let v = obj(vec![("id", JsonValue::Number(JsonNumber::PosInt(20))), ("t", s("Naruto"))]);
    assert_eq!(v.i64_at("id"), Some(20));
    assert_eq!(v.i64_at("t"), None);
    assert_eq!(v.string_at("t"), Some("Naruto".to_string()));
    assert_eq!(v.string_at("missing"), None);
    assert!(v.at("missing").is_none());
}
