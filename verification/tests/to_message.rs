use std::sync::Arc;

use modular_agent_mattermost::error::AgentError;
use modular_agent_mattermost::to_message::{to_message, value_to_message};
use modular_agent_mattermost::value::{AgentArray, AgentObject, AgentValue, Message};

fn text(text: &str) -> AgentValue {
    AgentValue::String(text.to_string())
}

fn message(content: &str) -> AgentValue {
    let mut message = Message::user(content.to_string());
    message.role = "assistant".to_string();
    message.id = Some("m1".to_string());
    AgentValue::Message(Arc::new(message))
}

fn object(key: &str, value: AgentValue) -> AgentValue {
    let mut object = AgentObject::new();
    object.insert(key, value);
    AgentValue::Object(object)
}

#[test]
fn strings_become_user_messages() {
    let made = value_to_message(&text("hello")).unwrap();
    assert_eq!(made.role, "user");
    assert_eq!(made.content, "hello");
    assert_eq!(made.id, None);
    assert!(made.tool_calls.is_none());
    assert!(!made.streaming);
}

#[test]
fn messages_stay_as_they_are() {
    let made = value_to_message(&message("hello")).unwrap();
    assert_eq!(made.role, "assistant");
    assert_eq!(made.id, Some("m1".to_string()));
}

#[test]
fn objects_give_their_message() {
    let made = value_to_message(&object("message", message("inner"))).unwrap();
    assert_eq!(made.role, "assistant");
    assert_eq!(made.content, "inner");
}

#[test]
fn objects_without_a_message_give_their_text() {
    let made = value_to_message(&object("text", text("hello"))).unwrap();
    assert_eq!((made.role.as_str(), made.content.as_str()), ("user", "hello"));
    let made = value_to_message(&object("message", text("no message"))).unwrap();
    assert_eq!((made.role.as_str(), made.content.as_str()), ("user", ""));
    let made = value_to_message(&AgentValue::Object(AgentObject::new())).unwrap();
    assert_eq!(made.content, "");
}

#[test]
fn other_values_are_no_messages() {
    let array = AgentValue::Array(AgentArray::new());
    for value in [AgentValue::Unit, AgentValue::Integer(1), AgentValue::Boolean(true), array] {
        match value_to_message(&value) {
            Err(AgentError::InvalidValue(text)) => {
                assert_eq!(text, "Expected string, message, or object for Mattermost message");
            }
            _ => panic!("expected an error"),
        }
    }
}

#[test]
fn single_values() {
    match to_message(&text("hello")) {
        Ok(AgentValue::Message(made)) => assert_eq!(made.content, "hello"),
        _ => panic!("expected a message"),
    }
    assert!(to_message(&AgentValue::Unit).is_err());
}

#[test]
fn arrays_keep_their_messages() {
    let mut array = AgentArray::new();
    array.push(text("one"));
    array.push(AgentValue::Integer(2));
    array.push(message("three"));
    array.push(object("text", text("four")));
    match to_message(&AgentValue::Array(array)) {
        Ok(AgentValue::Array(made)) => {
            assert_eq!(made.len(), 3);
            let content = |i: usize| made.get(i).unwrap().as_message().unwrap().content.clone();
            assert_eq!((content(0), content(1)), ("one".to_string(), "three".to_string()));
            assert_eq!(content(2), "four");
        }
        _ => panic!("expected an array"),
    }
}
