use modular_agent_mattermost::api::{MattermostPost, PostList};
use modular_agent_mattermost::history::{page_size, post_to_agent_value, posts_to_agent_value};
use modular_agent_mattermost::post::extract_message_content;
use modular_agent_mattermost::text_map::TextMap;
use modular_agent_mattermost::to_message::{to_message, value_to_message};
use modular_agent_mattermost::value::{AgentObject, AgentValue};

fn post(id: &str, root_id: &str) -> MattermostPost {
    MattermostPost {
        id: id.to_string(),
        message: format!("text of {}", id),
        user_id: "u1".to_string(),
        channel_id: "c1".to_string(),
        root_id: root_id.to_string(),
        create_at: 1700000000123,
        file_ids: vec![],
        metadata: None,
    }
}

fn object(value: AgentValue) -> AgentObject {
    match value {
        AgentValue::Object(object) => object,
        _ => panic!("expected an object"),
    }
}

fn list(order: Vec<&str>, there: Vec<&str>) -> PostList {
    let mut posts = TextMap::new();
    for id in there {
        posts.insert(id.to_string(), post(id, ""));
    }
    PostList { order: order.iter().map(|id| id.to_string()).collect(), posts }
}

fn ids(posts: &Vec<MattermostPost>) -> Vec<&str> {
    posts.iter().map(|post| post.id.as_str()).collect()
}

#[test]
fn ten_posts_by_default() {
    assert_eq!(page_size(0), 10);
    assert_eq!(page_size(-1), 10);
    assert_eq!(page_size(i64::MIN), 10);
}

#[test]
fn limits_that_are_set() {
    assert_eq!(page_size(1), 1);
    assert_eq!(page_size(200), 200);
    assert_eq!(page_size(65535), 65535);
}

#[test]
fn limits_beyond_sixteen_bits() {
    assert_eq!(page_size(65536), 65535);
    assert_eq!(page_size(65537), 65535);
    assert_eq!(page_size(i64::MAX), 65535);
}

#[test]
fn posts_come_in_the_order_of_the_list() {
    let posts = list(vec!["c", "a", "b"], vec!["a", "b", "c"]).into_ordered();
    assert_eq!(ids(&posts), vec!["c", "a", "b"]);
}

#[test]
fn posts_that_are_missing_or_listed_twice() {
    let posts = list(vec!["a", "x", "b", "a"], vec!["b", "a", "z"]).into_ordered();
    assert_eq!(ids(&posts), vec!["a", "b"]);
    assert!(list(vec![], vec!["a"]).into_ordered().is_empty());
}

#[test]
fn posts_as_values() {
    let object = object(post_to_agent_value(&post("p1", "r1")));
    assert_eq!(object.keys().len(), 5);
    assert_eq!(object.get_str("text"), Some("text of p1"));
    assert_eq!(object.get_str("user"), Some("u1"));
    assert_eq!(object.get_str("post_id"), Some("p1"));
    assert_eq!(object.get_str("root_id"), Some("r1"));
    assert!(matches!(object.get("create_at"), Some(AgentValue::Integer(1700000000123))));
}

#[test]
fn posts_outside_threads_as_values() {
    let object = object(post_to_agent_value(&post("p1", "")));
    assert_eq!(object.keys().len(), 4);
    assert!(object.get("root_id").is_none());
}

#[test]
fn histories_as_values() {
    match posts_to_agent_value(&vec![post("p2", ""), post("p1", "")]) {
        AgentValue::Array(array) => {
            assert_eq!(array.len(), 2);
            let first = object(array.get(0).unwrap().clone());
            assert_eq!(first.get_str("post_id"), Some("p2"));
            assert!(array.get(2).is_none());
        }
        _ => panic!("expected an array"),
    }
}

#[test]
fn history_becomes_user_messages() {
    let value = post_to_agent_value(&post("p1", "r1"));
    let message = value_to_message(&value).unwrap();
    assert_eq!(message.role, "user");
    assert_eq!(message.content, "text of p1");
    assert!(message.image.is_none());
}

#[test]
fn whole_history_becomes_messages() {
    let history = posts_to_agent_value(&vec![post("p2", ""), post("p1", "r1")]);
    match to_message(&history) {
        Ok(AgentValue::Array(array)) => {
            assert_eq!(array.len(), 2);
            assert_eq!(array.get(0).unwrap().as_message().unwrap().content, "text of p2");
            assert_eq!(array.get(1).unwrap().as_message().unwrap().content, "text of p1");
        }
        _ => panic!("expected an array"),
    }
}

#[test]
fn history_posts_again_as_it_was() {
    let value = post_to_agent_value(&post("p1", "r1"));
    let expected = ("text of p1".to_string(), Some("r1".to_string()));
    assert_eq!(extract_message_content(&value), expected);
    let value = post_to_agent_value(&post("p1", ""));
    assert_eq!(extract_message_content(&value), ("text of p1".to_string(), None));
}
