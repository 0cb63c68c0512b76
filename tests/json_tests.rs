use zzyl_auth::json::{JsonMember, JsonPathError, JsonUtils, JsonValue};

fn num(n: &str) -> JsonValue {
    JsonValue::Number(n.to_string())
}

fn obj(members: Vec<(&str, JsonValue)>) -> JsonValue {
    JsonValue::Object(members.into_iter().map(|(k, v)| JsonMember { key: k.to_string(), value: v }).collect())
}

fn text(v: &JsonValue) -> String {
    match v {
        JsonValue::Null => "null".to_string(),
        JsonValue::Bool(b) => b.to_string(),
        JsonValue::Number(n) => n.clone(),
        JsonValue::Text(t) => format!("{:?}", t),
        JsonValue::Array(xs) => format!("[{}]", xs.iter().map(text).collect::<Vec<_>>().join(",")),
        JsonValue::Object(ms) => format!(
            "{{{}}}",
            ms.iter().map(|m| format!("{:?}:{}", m.key, text(&m.value))).collect::<Vec<_>>().join(",")
        ),
    }
}

fn sample() -> JsonValue {
    obj(vec![
        ("a", obj(vec![("b", num("1")), ("list", JsonValue::Array(vec![num("10"), num("20")]))])),
        ("c", JsonValue::Text("x".to_string())),
    ])
}

#[test]
fn get_by_path() {
    let doc = sample();
    assert_eq!(JsonUtils::get_field_value(&doc, "a.b").map(text), Some("1".to_string()));
    assert_eq!(JsonUtils::get_field_value(&doc, "a.list.1").map(text), Some("20".to_string()));
    assert!(JsonUtils::get_field_value(&doc, "a.list.2").is_none());
    assert!(JsonUtils::get_field_value(&doc, "a.list.x").is_none());
    assert!(JsonUtils::get_field_value(&doc, "c.d").is_none());
    assert!(JsonUtils::get_field_value(&doc, "missing").is_none());
}

#[test]
fn set_by_path() {
    let mut doc = sample();
    assert_eq!(JsonUtils::set_field_value(&mut doc, "a.b", num("2")), Ok(()));
    assert_eq!(JsonUtils::set_field_value(&mut doc, "x.y.z", JsonValue::Bool(true)), Ok(()));
    assert_eq!(
        text(&doc),
        r#"{"a":{"b":2,"list":[10,20]},"c":"x","x":{"y":{"z":true}}}"#
    );
    assert_eq!(JsonUtils::set_field_value(&mut doc, "c.d", JsonValue::Null), Err(JsonPathError::SetOnNonObject));
    assert_eq!(
        JsonUtils::set_field_value(&mut doc, "c.d.e", JsonValue::Null),
        Err(JsonPathError::NavigateThroughNonObject)
    );
}

#[test]
fn remove_by_path() {
    let mut doc = sample();
    assert_eq!(JsonUtils::remove_field(&mut doc, "a.b"), Ok(()));
    assert_eq!(JsonUtils::remove_field(&mut doc, "nope.b"), Ok(()));
    assert_eq!(text(&doc), r#"{"a":{"list":[10,20]},"c":"x"}"#);
    assert_eq!(JsonUtils::remove_field(&mut doc, "c.d"), Err(JsonPathError::RemoveFromNonObject));
}

#[test]
fn merge_objects() {
    let mut target = sample();
    let source = obj(vec![("a", obj(vec![("b", num("5")), ("n", JsonValue::Null)])), ("d", num("4"))]);
    JsonUtils::merge_values(&mut target, &source);
    assert_eq!(text(&target), r#"{"a":{"b":5,"list":[10,20],"n":null},"c":"x","d":4}"#);
    let mut scalar = num("1");
    JsonUtils::merge_values(&mut scalar, &source);
    assert_eq!(text(&scalar), text(&source));
}

#[test]
fn flatten() {
    let flat = JsonUtils::flatten_json(&sample());
    let pairs: Vec<(String, String)> = flat.iter().map(|m| (m.key.clone(), text(&m.value))).collect();
    assert_eq!(
        pairs,
        vec![
            ("a.b".to_string(), "1".to_string()),
            ("a.list[0]".to_string(), "10".to_string()),
            ("a.list[1]".to_string(), "20".to_string()),
            ("c".to_string(), "\"x\"".to_string()),
        ]
    );
    assert!(JsonUtils::flatten_json(&obj(vec![])).is_empty());
}

#[test]
fn schema_keys_and_length() {
    let doc = sample();
    assert!(JsonUtils::validate_json_schema(&doc, &["a".to_string(), "c".to_string()]));
    assert!(!JsonUtils::validate_json_schema(&doc, &["a".to_string(), "z".to_string()]));
    assert!(!JsonUtils::validate_json_schema(&num("1"), &[]));
    assert_eq!(JsonUtils::get_json_keys(&doc), vec!["a".to_string(), "c".to_string()]);
    assert!(JsonUtils::get_json_keys(&num("1")).is_empty());
    assert_eq!(JsonUtils::get_json_array_length(&JsonValue::Array(vec![num("1"), num("2")])), 2);
    assert_eq!(JsonUtils::get_json_array_length(&doc), 0);
    let copy = doc.deep_clone();
    assert_eq!(text(&copy), text(&doc));
}
