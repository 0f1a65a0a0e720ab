use std::sync::Arc;

use modular_agent_mattermost::api::{FileInfo, FileUploadResponse, MattermostPost};
use modular_agent_mattermost::client::{Body, MattermostClient};
use modular_agent_mattermost::error::AgentError;
use modular_agent_mattermost::image::{read_image, Image};
use modular_agent_mattermost::post::{
    check_channel_id, code_block_of, extract_message_content, post_result, quote, upload_image,
    upload_image_at, uploaded_post, PostAction, PostEvent, PostFlow,
};
use modular_agent_mattermost::value::{AgentArray, AgentObject, AgentValue, Message};

fn text(text: &str) -> AgentValue {
    AgentValue::String(text.to_string())
}

fn array(items: Vec<AgentValue>) -> AgentValue {
    let mut array = AgentArray::new();
    for item in items {
        array.push(item);
    }
    AgentValue::Array(array)
}

fn pixel() -> Image {
    Image { raw_pixels: vec![10, 20, 30, 255], width: 1, height: 1 }
}

fn message_with_image(content: &str) -> AgentValue {
    let mut message = Message::user(content.to_string());
    message.image = Some(Arc::new(pixel()));
    AgentValue::Message(Arc::new(message))
}

fn made_post() -> MattermostPost {
    MattermostPost {
        id: "p1".to_string(),
        message: "hello".to_string(),
        user_id: "u1".to_string(),
        channel_id: "c1".to_string(),
        root_id: String::new(),
        create_at: 5,
        file_ids: vec![],
        metadata: None,
    }
}

fn two_files() -> FileUploadResponse {
    let file = |id: &str| FileInfo {
        id: id.to_string(),
        name: String::new(),
        mime_type: String::new(),
    };
    FileUploadResponse { file_infos: vec![file("f2"), file("f1")] }
}

fn object_text(object: &AgentObject, key: &str) -> String {
    object.get_str(key).unwrap().to_string()
}

fn client() -> MattermostClient {
    MattermostClient::new("https://host", "secret").unwrap()
}

#[test]
fn text_is_posted_as_it_is() {
    let markdown = "# Title\n*bold* `code`";
    assert_eq!(extract_message_content(&text(markdown)), (markdown.to_string(), None));
    let message = AgentValue::Message(Arc::new(Message::user(markdown.to_string())));
    assert_eq!(extract_message_content(&message), (markdown.to_string(), None));
}

#[test]
fn objects_name_text_and_thread() {
    let mut object = AgentObject::new();
    object.insert("text", text("reply"));
    object.insert("root_id", text("r1"));
    let content = extract_message_content(&AgentValue::Object(object));
    assert_eq!(content, ("reply".to_string(), Some("r1".to_string())));
}

#[test]
fn objects_without_text_say_nothing() {
    let empty = AgentValue::Object(AgentObject::new());
    assert_eq!(extract_message_content(&empty), (String::new(), None));
    let mut object = AgentObject::new();
    object.insert("text", AgentValue::Integer(1));
    object.insert("root_id", AgentValue::Unit);
    let content = extract_message_content(&AgentValue::Object(object));
    assert_eq!(content, (String::new(), None));
}

#[test]
fn an_empty_thread_is_still_named() {
    let mut object = AgentObject::new();
    object.insert("root_id", text(""));
    let content = extract_message_content(&AgentValue::Object(object));
    assert_eq!(content, (String::new(), Some(String::new())));
}

#[test]
fn arrays_are_posted_line_by_line() {
    let message = AgentValue::Message(Arc::new(Message::user("two".to_string())));
    let items = array(vec![text("one"), AgentValue::Integer(7), message, text("")]);
    assert_eq!(extract_message_content(&items), ("one\ntwo\n".to_string(), None));
    assert_eq!(extract_message_content(&array(vec![])), (String::new(), None));
    let all = array(vec![text("a"), text("b"), text("c")]);
    assert_eq!(extract_message_content(&all), ("a\nb\nc".to_string(), None));
}

#[test]
fn other_values_are_posted_as_json() {
    let content = |value: &AgentValue| extract_message_content(value).0;
    assert_eq!(content(&AgentValue::Unit), "```\nnull\n```");
    assert_eq!(content(&AgentValue::Boolean(true)), "```\ntrue\n```");
    assert_eq!(content(&AgentValue::Boolean(false)), "```\nfalse\n```");
    assert_eq!(content(&AgentValue::Integer(-42)), "```\n-42\n```");
    assert_eq!(content(&AgentValue::Integer(i64::MIN)), "```\n-9223372036854775808\n```");
    assert_eq!(content(&AgentValue::Integer(i64::MAX)), "```\n9223372036854775807\n```");
}

#[test]
fn json_is_spread_over_lines() {
    let value = AgentValue::Json("{\"a\":[1,2.5]}".to_string());
    let expected = "```\n{\n  \"a\": [\n    1,\n    2.5\n  ]\n}\n```";
    assert_eq!(extract_message_content(&value).0, expected);
    let broken = AgentValue::Json("{".to_string());
    assert_eq!(extract_message_content(&broken).0, "```\n\n```");
}

#[test]
fn an_image_in_words_is_a_data_url() {
    let value = AgentValue::Image(Arc::new(pixel()));
    let content = extract_message_content(&value).0;
    assert!(content.starts_with("```\n\"data:image/png;base64,iVBOR"));
    assert!(content.ends_with("\"\n```"));
}

#[test]
fn quotations() {
    assert_eq!(quote("x"), "\"x\"");
}

#[test]
fn code_blocks() {
    assert_eq!(code_block_of(Some("x".to_string())), "```\nx\n```");
    assert_eq!(code_block_of(None), "```\n\n```");
}

#[test]
fn a_channel_must_be_configured() {
    assert!(check_channel_id("c1").is_ok());
    match check_channel_id("") {
        Err(AgentError::InvalidValue(text)) => assert_eq!(text, "Channel ID not configured"),
        _ => panic!("expected an error"),
    }
}

#[test]
fn without_a_channel_nothing_is_posted() {
    match PostFlow::begin("", &text("hello")) {
        (PostFlow::Finished, PostAction::Fail(AgentError::InvalidValue(text))) => {
            assert_eq!(text, "Channel ID not configured");
        }
        _ => panic!("expected an error"),
    }
}

#[test]
fn a_text_on_its_way() {
    let (state, action) = PostFlow::begin("c1", &text("hello"));
    match action {
        PostAction::Create(request) => {
            assert_eq!(request.channel_id, "c1");
            assert_eq!(request.message, "hello");
            assert_eq!(request.root_id, None);
            assert!(request.file_ids.is_empty());
        }
        _ => panic!("expected a post"),
    }
    let (state, action) = state.step(PostEvent::Created(made_post()));
    assert!(matches!(state, PostFlow::Finished));
    match action {
        PostAction::Output(AgentValue::Object(object)) => {
            assert!(matches!(object.get("ok"), Some(AgentValue::Boolean(true))));
            assert_eq!(object_text(&object, "post_id"), "p1");
            assert_eq!(object_text(&object, "channel"), "c1");
        }
        _ => panic!("expected a value"),
    }
}

#[test]
fn a_reply_on_its_way() {
    let mut object = AgentObject::new();
    object.insert("text", text("reply"));
    object.insert("root_id", text("r1"));
    match PostFlow::begin("c1", &AgentValue::Object(object)).1 {
        PostAction::Create(request) => {
            assert_eq!(request.message, "reply");
            assert_eq!(request.root_id, Some("r1".to_string()));
        }
        _ => panic!("expected a post"),
    }
}

#[test]
fn an_image_on_its_way() {
    let (state, action) = PostFlow::begin("c1", &message_with_image("look"));
    match action {
        PostAction::Upload(image) => assert_eq!(image.raw_pixels, pixel().raw_pixels),
        _ => panic!("expected an upload"),
    }
    let (state, action) = state.step(PostEvent::Uploaded(two_files()));
    match action {
        PostAction::Create(request) => {
            assert_eq!(request.channel_id, "c1");
            assert_eq!(request.message, "look");
            assert_eq!(request.root_id, None);
            assert_eq!(request.file_ids, vec!["f2".to_string(), "f1".to_string()]);
        }
        _ => panic!("expected a post"),
    }
    assert!(matches!(state, PostFlow::Creating));
}

#[test]
fn an_image_without_text_on_its_way() {
    for value in [AgentValue::Image(Arc::new(pixel())), message_with_image("")] {
        let (state, action) = PostFlow::begin("c1", &value);
        assert!(matches!(action, PostAction::Upload(_)));
        match state.step(PostEvent::Uploaded(two_files())).1 {
            PostAction::Create(request) => assert_eq!(request.message, ""),
            _ => panic!("expected a post"),
        }
    }
}

#[test]
fn failures_end_the_way() {
    let failed = || PostEvent::Failed(AgentError::IoError("down".to_string()));
    for value in [text("hello"), message_with_image("look")] {
        match PostFlow::begin("c1", &value).0.step(failed()) {
            (PostFlow::Finished, PostAction::Fail(error)) => {
                assert_eq!(error.to_text(), "IO error: down");
            }
            _ => panic!("expected an error"),
        }
    }
}

#[test]
fn events_that_cannot_come_change_nothing() {
    let (state, _) = PostFlow::begin("c1", &text("hello"));
    let (state, action) = state.step(PostEvent::Uploaded(two_files()));
    assert!(matches!(state, PostFlow::Creating));
    assert!(matches!(action, PostAction::Nothing));
    let (state, action) = PostFlow::Finished.step(PostEvent::Created(made_post()));
    assert!(matches!(state, PostFlow::Finished));
    assert!(matches!(action, PostAction::Nothing));
}

#[test]
fn results_name_the_post() {
    match post_result(&made_post()) {
        AgentValue::Object(object) => {
            assert_eq!(object.keys().len(), 3);
            assert_eq!(object_text(&object, "post_id"), "p1");
        }
        _ => panic!("expected an object"),
    }
}

#[test]
fn uploads_are_png_files() {
    let client = client();
    let request = upload_image_at(&client, &pixel(), "c1", 1700000000123);
    assert_eq!(request.url, "https://host/api/v4/files");
    match request.body {
        Body::Form(form) => {
            assert_eq!(form.channel_id, "c1");
            assert_eq!(form.file_name, "image_1700000000123.png");
            assert_eq!(form.content_type, "image/png");
            assert_eq!(form.bytes[..4], [0x89, 0x50, 0x4e, 0x47]);
            let shown = read_image(&form.bytes).unwrap();
            assert_eq!(shown.raw_pixels, vec![10, 20, 30, 255]);
            assert_eq!((shown.width, shown.height), (1, 1));
        }
        _ => panic!("expected a form"),
    }
}

#[test]
fn bytes_behind_the_last_pixel_are_not_uploaded() {
    let client = client();
    let image = Image { raw_pixels: vec![10, 20, 30, 255, 7], width: 1, height: 1 };
    assert!(image.is_writable());
    match upload_image_at(&client, &image, "c1", 0).body {
        Body::Form(form) => {
            assert_eq!(form.file_name, "image_0.png");
            assert_eq!(read_image(&form.bytes).unwrap().raw_pixels, vec![10, 20, 30, 255]);
        }
        _ => panic!("expected a form"),
    }
}

#[test]
fn uploads_are_named_by_the_time() {
    let client = client();
    let before = chrono::Utc::now().timestamp_millis();
    let request = upload_image(&client, &pixel(), "c1");
    let after = chrono::Utc::now().timestamp_millis();
    match request.body {
        Body::Form(form) => {
            let name = form.file_name.strip_prefix("image_").unwrap();
            let millis: i64 = name.strip_suffix(".png").unwrap().parse().unwrap();
            assert!(before <= millis && millis <= after);
        }
        _ => panic!("expected a form"),
    }
}

#[test]
fn uploaded_files_in_a_thread() {
    let request = uploaded_post(&two_files(), "c1", None, Some("r1".to_string()));
    assert_eq!(request.message, "");
    assert_eq!(request.root_id, Some("r1".to_string()));
    assert_eq!(request.file_ids.len(), 2);
}

#[test]
fn images_that_can_be_written() {
    assert!(pixel().is_writable());
    let flat = Image { raw_pixels: vec![], width: 0, height: 4 };
    assert!(!flat.is_writable());
    let short = Image { raw_pixels: vec![0; 15], width: 2, height: 2 };
    assert!(!short.is_writable());
    let huge = Image { raw_pixels: vec![0; 16], width: u32::MAX, height: u32::MAX };
    assert!(!huge.is_writable());
}

#[test]
fn files_that_are_no_images() {
    assert!(read_image(&vec![1, 2, 3]).is_none());
    assert!(read_image(&vec![]).is_none());
}
