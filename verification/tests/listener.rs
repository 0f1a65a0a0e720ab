use std::sync::Arc;

use modular_agent_mattermost::api::{FileInfo, MattermostPost, WsEvent};
use modular_agent_mattermost::image::Image;
use modular_agent_mattermost::image_search::{Answer, ImageSearch, SearchStep};
use modular_agent_mattermost::json::JsonValue;
use modular_agent_mattermost::listener::{
    post_to_listener_output, posted_post, Incoming, IncomingAction, IncomingEvent, ListenerState,
};
use modular_agent_mattermost::to_message::value_to_message;
use modular_agent_mattermost::value::{AgentObject, AgentValue};

fn post(user_id: &str, channel_id: &str) -> MattermostPost {
    MattermostPost {
        id: "p1".to_string(),
        message: "hello".to_string(),
        user_id: user_id.to_string(),
        channel_id: channel_id.to_string(),
        root_id: String::new(),
        create_at: 1,
        file_ids: vec!["f1".to_string(), "f2".to_string()],
        metadata: None,
    }
}

fn event(kind: &str, data: Option<JsonValue>) -> WsEvent {
    WsEvent { event: Some(kind.to_string()), data, status: None, seq_reply: None }
}

fn announcement(text: &str) -> Option<JsonValue> {
    let post = ("post".to_string(), JsonValue::String(text.to_string()));
    let other = ("channel_name".to_string(), JsonValue::Null);
    Some(JsonValue::Object(vec![other, post]))
}

fn everywhere() -> ListenerState {
    ListenerState::new("bot".to_string(), String::new())
}

fn only(channel: &str) -> ListenerState {
    ListenerState::new("bot".to_string(), channel.to_string())
}

fn object(value: AgentValue) -> AgentObject {
    match value {
        AgentValue::Object(object) => object,
        _ => panic!("expected an object"),
    }
}

fn pixel() -> Image {
    Image { raw_pixels: vec![1, 2, 3, 4], width: 1, height: 1 }
}

fn info(mime_type: &str) -> Answer {
    Answer::Info(Some(FileInfo {
        id: "f".to_string(),
        name: String::new(),
        mime_type: mime_type.to_string(),
    }))
}

fn files() -> Vec<String> {
    vec!["a".to_string(), "b".to_string(), "c".to_string()]
}

#[test]
fn posted_events_announce_posts() {
    assert_eq!(posted_post(&event("posted", announcement("{}"))), Some("{}".to_string()));
}

#[test]
fn other_events_announce_nothing() {
    assert_eq!(posted_post(&event("typing", announcement("{}"))), None);
    assert_eq!(posted_post(&event("posted", None)), None);
    assert_eq!(posted_post(&event("posted", Some(JsonValue::Null))), None);
    assert_eq!(posted_post(&event("posted", Some(JsonValue::Object(vec![])))), None);
    let number = ("post".to_string(), JsonValue::Number("1".to_string()));
    assert_eq!(posted_post(&event("posted", Some(JsonValue::Object(vec![number])))), None);
    let unnamed = WsEvent {
        event: None,
        data: announcement("{}"),
        status: None,
        seq_reply: None,
    };
    assert_eq!(posted_post(&unnamed), None);
}

#[test]
fn no_filter_means_all_channels() {
    assert!(everywhere().channel_filter.is_none());
    assert!(everywhere().accepts(&post("u1", "c1")));
    assert!(everywhere().accepts(&post("u1", "c2")));
}

#[test]
fn a_filter_keeps_to_its_channel() {
    assert!(only("c1").accepts(&post("u1", "c1")));
    assert!(!only("c1").accepts(&post("u1", "c2")));
    assert!(!only("c1").accepts(&post("u1", "c1x")));
}

#[test]
fn own_posts_are_skipped() {
    assert!(!everywhere().accepts(&post("bot", "c1")));
    assert!(!only("c1").accepts(&post("bot", "c1")));
}

#[test]
fn posts_as_output() {
    let output = object(post_to_listener_output(&post("u1", "c1"), None).unwrap());
    assert_eq!(output.keys().len(), 4);
    assert_eq!(output.get_str("user"), Some("u1"));
    assert_eq!(output.get_str("channel"), Some("c1"));
    assert_eq!(output.get_str("post_id"), Some("p1"));
    assert!(output.get("root_id").is_none());
    let message = output.get("message").unwrap().as_message().unwrap();
    assert_eq!(message.role, "user");
    assert_eq!(message.content, "hello");
    assert!(message.image.is_none());
}

#[test]
fn posts_in_threads_as_output() {
    let mut reply = post("u1", "c1");
    reply.root_id = "r1".to_string();
    let output = object(post_to_listener_output(&reply, None).unwrap());
    assert_eq!(output.keys().len(), 5);
    assert_eq!(output.get_str("root_id"), Some("r1"));
}

#[test]
fn output_becomes_its_message() {
    let image = Some(Arc::new(pixel()));
    let output = post_to_listener_output(&post("u1", "c1"), image).unwrap();
    let message = value_to_message(&output).unwrap();
    assert_eq!(message.content, "hello");
    assert_eq!(message.image.as_ref().unwrap().raw_pixels, vec![1, 2, 3, 4]);
}

#[test]
fn a_wanted_post_on_its_way() {
    let listener = only("c1");
    let announced = event("posted", announcement("the post"));
    let state = Incoming::new();
    let (state, action) = state.step(&listener, IncomingEvent::Event(Some(announced)));
    match action {
        IncomingAction::ReadPost(text) => assert_eq!(text, "the post"),
        _ => panic!("expected a post to read"),
    }
    let (state, action) = state.step(&listener, IncomingEvent::Post(Some(post("u1", "c1"))));
    match action {
        IncomingAction::FindImage(ids) => {
            assert_eq!(ids, vec!["f1".to_string(), "f2".to_string()]);
        }
        _ => panic!("expected a search"),
    }
    let (state, action) = state.step(&listener, IncomingEvent::Image(Some(pixel())));
    assert!(matches!(state, Incoming::Finished));
    match action {
        IncomingAction::Output(value) => {
            let message = value_to_message(&value).unwrap();
            assert_eq!(message.content, "hello");
            assert!(message.image.is_some());
        }
        _ => panic!("expected a value"),
    }
}

#[test]
fn messages_that_are_passed_over() {
    let listener = only("c1");
    let first = |event| Incoming::new().step(&listener, event).1;
    assert!(matches!(first(IncomingEvent::Event(None)), IncomingAction::Drop));
    let typing = event("typing", None);
    assert!(matches!(first(IncomingEvent::Event(Some(typing))), IncomingAction::Drop));
    assert!(matches!(first(IncomingEvent::Image(None)), IncomingAction::Drop));
    let second = |post| Incoming::ReadingPost.step(&listener, IncomingEvent::Post(post)).1;
    assert!(matches!(second(Some(post("bot", "c1"))), IncomingAction::Drop));
    assert!(matches!(second(Some(post("u1", "c2"))), IncomingAction::Drop));
    assert!(matches!(second(None), IncomingAction::ReportBadPost));
}

#[test]
fn the_first_image_is_found() {
    let mut search = ImageSearch::new(files());
    assert!(matches!(search.next(), SearchStep::GetInfo(id) if id == "a"));
    let step = search.step(info("text/plain"));
    assert!(matches!(step, SearchStep::GetInfo(id) if id == "b"));
    let step = search.step(info("image/png"));
    assert!(matches!(step, SearchStep::Download(id) if id == "b"));
    let step = search.step(Answer::Bytes(Some(vec![7])));
    assert!(matches!(step, SearchStep::Found(bytes) if bytes == vec![7]));
    assert!(matches!(search.next(), SearchStep::NotFound));
}

#[test]
fn files_that_fail_are_passed_over() {
    let mut search = ImageSearch::new(files());
    let step = search.step(Answer::Info(None));
    assert!(matches!(step, SearchStep::GetInfo(id) if id == "b"));
    search.step(info("image/gif"));
    let step = search.step(Answer::Bytes(None));
    assert!(matches!(step, SearchStep::GetInfo(id) if id == "c"));
    let step = search.step(info("images/"));
    assert!(matches!(step, SearchStep::NotFound));
}

#[test]
fn no_files_no_image() {
    assert!(matches!(ImageSearch::new(vec![]).next(), SearchStep::NotFound));
}

#[test]
fn answers_that_were_not_asked_for() {
    let mut search = ImageSearch::new(files());
    let step = search.step(Answer::Bytes(Some(vec![7])));
    assert!(matches!(step, SearchStep::GetInfo(id) if id == "a"));
}
