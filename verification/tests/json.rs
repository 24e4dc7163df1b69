use cc_switch_web::json::{entries_set, find_key, JsonValue};

fn s(x: &str) -> JsonValue {
    JsonValue::String(x.to_string())
}

#[test]
fn get_and_as_str_read_object_fields() {
    let v = JsonValue::Object(vec![("a".to_string(), s("1")), ("b".to_string(), JsonValue::Null)]);
    assert_eq!(v.get("a").and_then(JsonValue::as_str), Some("1"));
    assert_eq!(v.get("b"), Some(&JsonValue::Null));
    assert_eq!(v.get("c"), None);
    assert_eq!(s("x").get("a"), None);
    assert_eq!(s("x").as_str(), Some("x"));
    assert_eq!(JsonValue::Bool(true).as_str(), None);
}

#[test]
fn at_reads_array_elements() {
    let v = JsonValue::Array(vec![s("x"), s("y")]);
    assert_eq!(v.at(1), Some(&s("y")));
    assert_eq!(v.at(2), None);
    assert_eq!(s("x").at(0), None);
}

#[test]
fn entries_set_replaces_or_appends() {
    let mut es = vec![("a".to_string(), s("1")), ("b".to_string(), s("2"))];
    entries_set(&mut es, "a".to_string(), s("3"));
    assert_eq!(es, vec![("a".to_string(), s("3")), ("b".to_string(), s("2"))]);
    entries_set(&mut es, "c".to_string(), JsonValue::Null);
    assert_eq!(es.len(), 3);
    assert_eq!(find_key(&es, "c"), 2);
    assert_eq!(find_key(&es, "z"), 3);
}

#[test]
fn deep_clone_is_equal() {
    let v = JsonValue::Object(vec![(
        "k".to_string(),
        JsonValue::Array(vec![JsonValue::Number("12".to_string()), JsonValue::Bool(false)]),
    )]);
    assert_eq!(v.deep_clone(), v);
    assert_eq!(v.clone(), v);
}
