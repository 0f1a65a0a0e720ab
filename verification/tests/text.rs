use modular_agent_mattermost::json::JsonValue;
use modular_agent_mattermost::text::{
    chars_of, concat3, contains, decimal_text, ends_with, join_lines, same_text,
    signed_decimal_text, starts_with, trim_end_slashes,
};
use modular_agent_mattermost::text_map::TextMap;
use modular_agent_mattermost::value::{AgentArray, AgentObject, AgentValue};

#[test]
fn numbers_as_text() {
    assert_eq!(decimal_text(0), "0");
    assert_eq!(decimal_text(10), "10");
    assert_eq!(decimal_text(u64::MAX), "18446744073709551615");
    assert_eq!(signed_decimal_text(-7), "-7");
    assert_eq!(signed_decimal_text(i64::MIN), "-9223372036854775808");
}

#[test]
fn texts_in_one() {
    assert_eq!(concat3("a", "", "c"), "ac");
    assert_eq!(join_lines(&vec![]), "");
    assert_eq!(join_lines(&vec!["a".to_string()]), "a");
    assert_eq!(join_lines(&vec!["a".to_string(), "".to_string(), "b".to_string()]), "a\n\nb");
}

#[test]
fn parts_of_texts() {
    assert!(starts_with("image/png", "image/"));
    assert!(!starts_with("image", "image/"));
    assert!(ends_with("x/api/v4", "/api/v4"));
    assert!(!ends_with("v4", "/api/v4"));
    assert!(contains("an HTTP 401 error", "HTTP 401"));
    assert!(contains("x", ""));
    assert!(!contains("HTTP 40", "HTTP 401"));
    assert!(same_text("ü", "ü"));
    assert!(!same_text("u", "ü"));
    assert_eq!(chars_of("aü"), vec!['a', 'ü']);
}

#[test]
fn slashes_at_the_end() {
    assert_eq!(trim_end_slashes("a/b//"), "a/b");
    assert_eq!(trim_end_slashes("///"), "");
    assert_eq!(trim_end_slashes("ü/"), "ü");
}

#[test]
fn maps_with_text_keys() {
    let mut map: TextMap<u32> = TextMap::new();
    map.insert("a".to_string(), 1);
    map.insert("b".to_string(), 2);
    map.insert("a".to_string(), 3);
    assert_eq!(map.get("a"), Some(&3));
    assert_eq!(map.remove("a"), Some(3));
    assert_eq!(map.remove("a"), None);
    assert_eq!(map.get("b"), Some(&2));
    assert_eq!(map.get("c"), None);
}

#[test]
fn members_of_documents() {
    let one = ("a".to_string(), JsonValue::String("x".to_string()));
    let document = JsonValue::Object(vec![one]);
    assert_eq!(document.get("a").and_then(|value| value.as_str()), Some("x"));
    assert!(document.get("b").is_none());
    assert!(JsonValue::Null.get("a").is_none());
    assert!(JsonValue::Bool(true).as_str().is_none());
}

#[test]
fn objects_and_arrays_as_values() {
    let mut object = AgentObject::new();
    object.insert("a", AgentValue::Integer(1));
    let copy = object.clone();
    object.insert("a", AgentValue::Integer(2));
    assert!(matches!(object.get("a"), Some(AgentValue::Integer(2))));
    assert!(matches!(copy.get("a"), Some(AgentValue::Integer(1))));
    assert_eq!(object.keys(), vec!["a".to_string()]);
    let mut array = AgentArray::new();
    array.push(AgentValue::Object(object));
    let copy = array.clone();
    array.push(AgentValue::Unit);
    assert_eq!((array.len(), copy.len()), (2, 1));
    assert!(array.get(2).is_none());
}
