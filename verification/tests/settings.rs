use midoku::settings::{Number, Settings, Value};

#[test]
fn settings_get_and_insert() {
    let mut settings = Settings::new();
    assert!(settings.is_empty());
    assert!(settings.get(&"ua".to_string()).is_none());

    settings.insert("ua".to_string(), Value::String("midoku/1.0".to_string()));
    assert!(!settings.is_empty());
    assert_eq!(
        settings.get(&"ua".to_string()),
        Some(&Value::String("midoku/1.0".to_string()))
    );
    assert!(settings.get(&"missing".to_string()).is_none());
}

#[test]
fn settings_overwrite_key() {
    let mut settings = Settings::new();
    settings.insert("n".to_string(), Value::Number(Number::U64(1)));
    settings.insert("n".to_string(), Value::Number(Number::U64(2)));

    assert_eq!(
        settings.get(&"n".to_string()),
        Some(&Value::Number(Number::U64(2)))
    );
}

#[test]
fn settings_hold_every_variant() {
    let mut settings = Settings::new();
    settings.insert("b".to_string(), Value::Bool(true));
    settings.insert("s".to_string(), Value::Number(Number::S64(-4)));
    settings.insert(
        "a".to_string(),
        Value::Array(vec!["x".to_string(), "y".to_string()]),
    );
    settings.insert(
        "m".to_string(),
        Value::StringMap(vec![("k".to_string(), "v".to_string())]),
    );

    assert_eq!(settings.get(&"b".to_string()), Some(&Value::Bool(true)));
    assert_eq!(
        settings.get(&"s".to_string()),
        Some(&Value::Number(Number::S64(-4)))
    );
    assert_eq!(
        settings.get(&"a".to_string()),
        Some(&Value::Array(vec!["x".to_string(), "y".to_string()]))
    );
    assert_eq!(
        settings.get(&"m".to_string()),
        Some(&Value::StringMap(vec![("k".to_string(), "v".to_string())]))
    );
}

#[test]
fn value_clone_preserves_contents() {
    let value = Value::Array(vec!["one".to_string(), "two".to_string()]);
    assert_eq!(value.clone(), value);

    let map = Value::StringMap(vec![("k".to_string(), "v".to_string())]);
    assert_eq!(map.clone(), map);
}
