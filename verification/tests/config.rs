use klyx_extension_api::config::{config_reply, serialize_config, serialized_or_absent};
use serde_json::{Number, Value};

fn failure() -> serde_json::Error {
    match serde_json::from_str::<Value>("{") {
        Ok(_) => unreachable!(),
        Err(error) => error,
    }
}

#[test]
fn absent_config_serializes_to_absent() {
    assert_eq!(serialize_config(None), None);
}

#[test]
fn null_config_is_present_text() {
    assert_eq!(serialize_config(Some(Value::Null)), Some("null".to_string()));
}

#[test]
fn scalar_configs_serialize_as_json() {
    assert_eq!(serialize_config(Some(Value::Bool(true))), Some("true".to_string()));
    assert_eq!(
        serialize_config(Some(Value::Number(Number::from(42)))),
        Some("42".to_string())
    );
    assert_eq!(
        serialize_config(Some(Value::String("a\"b".to_string()))),
        Some("\"a\\\"b\"".to_string())
    );
}

#[test]
fn structured_config_serializes_as_json() {
    let mut inner = serde_json::Map::new();
    inner.insert("enable".to_string(), Value::Bool(false));
    let mut outer = serde_json::Map::new();
    outer.insert("checkOnSave".to_string(), Value::Object(inner));
    outer.insert(
        "targets".to_string(),
        Value::Array(vec![Value::String("x86".to_string()), Value::Null]),
    );
    assert_eq!(
        serialize_config(Some(Value::Object(outer))),
        Some("{\"checkOnSave\":{\"enable\":false},\"targets\":[\"x86\",null]}".to_string())
    );
}

#[test]
fn failed_serialization_is_absent() {
    assert_eq!(serialized_or_absent(Err(failure())), None);
}

#[test]
fn successful_serialization_is_its_text() {
    assert_eq!(
        serialized_or_absent(Ok("{\"a\":1}".to_string())),
        Some("{\"a\":1}".to_string())
    );
    assert_eq!(serialized_or_absent(Ok(String::new())), Some(String::new()));
}

#[test]
fn declined_config_hands_on_the_message() {
    assert_eq!(
        config_reply(Err("no such server".to_string())),
        Err("no such server".to_string())
    );
    assert_eq!(config_reply(Err(String::new())), Err(String::new()));
}

#[test]
fn config_reply_without_value_is_absent() {
    assert_eq!(config_reply(Ok(None)), Ok(None));
}

#[test]
fn config_reply_with_value_is_its_json() {
    let mut settings = serde_json::Map::new();
    settings.insert("tabSize".to_string(), Value::Number(Number::from(4)));
    assert_eq!(
        config_reply(Ok(Some(Value::Object(settings)))),
        Ok(Some("{\"tabSize\":4}".to_string()))
    );
}
