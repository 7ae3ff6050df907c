use player_windows::payload::PayloadCache;
use serde_json::Value;

#[test]
fn take_after_set_returns_the_value_once() {
    let mut cache = PayloadCache::new();
    let v = Value::String("now-playing".to_string());
    cache.set("mini-player", v.clone());
    assert_eq!(cache.take("mini-player"), Some(v));
    assert_eq!(cache.take("mini-player"), None);
}

#[test]
fn take_without_set_is_safe() {
    let mut cache = PayloadCache::new();
    assert_eq!(cache.take("main"), None);
}

#[test]
fn peek_does_not_consume() {
    let mut cache = PayloadCache::new();
    let v = Value::from(42i64);
    cache.set("settings", v.clone());
    assert_eq!(cache.peek("settings"), Some(v.clone()));
    assert_eq!(cache.peek("settings"), Some(v.clone()));
    assert_eq!(cache.take("settings"), Some(v));
    assert_eq!(cache.peek("settings"), None);
}

#[test]
fn set_overwrites_unconditionally() {
    let mut cache = PayloadCache::new();
    cache.set("main", Value::Bool(false));
    cache.set("main", Value::Bool(true));
    assert_eq!(cache.take("main"), Some(Value::Bool(true)));
}

#[test]
fn labels_are_independent() {
    let mut cache = PayloadCache::new();
    cache.set("main", Value::from(1i64));
    cache.set("about", Value::from(2i64));
    assert_eq!(cache.take("main"), Some(Value::from(1i64)));
    assert_eq!(cache.peek("about"), Some(Value::from(2i64)));
}

#[test]
fn clear_empties_the_cache() {
    let mut cache = PayloadCache::new();
    cache.set("main", Value::Null);
    cache.set("about", Value::Null);
    cache.clear();
    assert_eq!(cache.take("main"), None);
    assert_eq!(cache.take("about"), None);
}
