use modular_agent_mattermost::api::CreatePostRequest;
use modular_agent_mattermost::client::{
    check_auth_reply, connect_error, is_auth_failure, status_failure, websocket_url_of, AuthReply, Body,
    HttpRequest, MattermostClient, Method, ServerUrl, Step,
};
use modular_agent_mattermost::error::AgentError;

fn client(server_url: &str) -> MattermostClient {
    MattermostClient::new(server_url, "secret").unwrap()
}

fn no_query(request: &HttpRequest) {
    assert!(request.query.is_empty());
    assert_eq!(request.authorization, "Bearer secret");
}

#[test]
fn base_url_names_the_api() {
    let expected = "https://chat.example.com/api/v4/x";
    assert_eq!(client("https://chat.example.com").url("/x"), expected);
    assert_eq!(client("https://chat.example.com/").url("/x"), expected);
    assert_eq!(client("https://chat.example.com///").url("/x"), expected);
    assert_eq!(client("https://chat.example.com/api/v4").url("/x"), expected);
    assert_eq!(client("https://chat.example.com/api/v4/").url("/x"), expected);
}

#[test]
fn base_url_of_a_server_in_a_directory() {
    assert_eq!(client("http://host/chat/").url(""), "http://host/chat/api/v4");
    assert_eq!(client("").url(""), "/api/v4");
    assert_eq!(client("http://host/api/v4x").url(""), "http://host/api/v4x/api/v4");
}

#[test]
fn token_is_kept() {
    let client = client("https://chat.example.com");
    assert_eq!(client.token(), "secret");
    assert_eq!(client.auth_header(), "Bearer secret");
}

#[test]
fn copies_ask_the_same_server() {
    let copy = client("https://chat.example.com").clone();
    assert_eq!(copy.token(), "secret");
    assert_eq!(copy.url("/x"), "https://chat.example.com/api/v4/x");
}

#[test]
fn missing_http_client_is_an_error() {
    let made = MattermostClient::with_http(Err("no TLS".to_string()), "https://host", "t");
    match made {
        Err(AgentError::IoError(text)) => assert_eq!(text, "Failed to create HTTP client: no TLS"),
        _ => panic!("expected an error"),
    }
}

#[test]
fn requests_for_the_user() {
    let client = client("https://host");
    let request = client.get_me();
    no_query(&request);
    assert!(matches!(request.method, Method::Get));
    assert!(matches!(request.body, Body::Empty));
    assert_eq!(request.url, "https://host/api/v4/users/me");
    assert_eq!(request.send_failure, "GET /users/me failed");
    assert_eq!(request.read_failure, "Failed to parse user response");
    let request = client.get_user_teams();
    no_query(&request);
    assert_eq!(request.url, "https://host/api/v4/users/me/teams");
    assert_eq!(request.send_failure, "GET /users/me/teams failed");
    assert_eq!(request.read_failure, "Failed to parse teams response");
}

#[test]
fn request_for_a_new_post() {
    let client = client("https://host");
    let post = CreatePostRequest {
        channel_id: "c".to_string(),
        message: "hello".to_string(),
        root_id: None,
        file_ids: vec![],
    };
    let request = client.create_post(&post);
    no_query(&request);
    assert!(matches!(request.method, Method::Post));
    assert_eq!(request.url, "https://host/api/v4/posts");
    match request.body {
        Body::Json(body) => assert_eq!(body.message, "hello"),
        _ => panic!("expected JSON"),
    }
    assert_eq!(request.send_failure, "POST /posts failed");
    assert_eq!(request.read_failure, "Failed to parse post response");
}

#[test]
fn request_for_posts() {
    let client = client("https://host");
    let request = client.get_channel_posts("c1", 25);
    assert!(matches!(request.method, Method::Get));
    assert_eq!(request.url, "https://host/api/v4/channels/c1/posts");
    assert_eq!(request.query, vec![("per_page".to_string(), "25".to_string())]);
    assert_eq!(request.send_failure, "GET /channels/c1/posts failed");
    assert_eq!(request.read_failure, "Failed to parse post list response");
    let request = client.get_channel_posts("c1", 65535);
    assert_eq!(request.query[0].1, "65535");
}

#[test]
fn request_for_channels() {
    let client = client("https://host");
    let request = client.get_user_channels("u", "t");
    no_query(&request);
    assert_eq!(request.url, "https://host/api/v4/users/u/teams/t/channels");
    assert_eq!(request.send_failure, "GET user channels failed");
    assert_eq!(request.read_failure, "Failed to parse channels response");
}

#[test]
fn requests_for_files() {
    let client = client("https://host");
    let request = client.download_file("f");
    no_query(&request);
    assert_eq!(request.url, "https://host/api/v4/files/f");
    assert_eq!(request.send_failure, "GET /files/f failed");
    assert_eq!(request.read_failure, "Failed to read file bytes");
    let request = client.get_file_info("f");
    no_query(&request);
    assert_eq!(request.url, "https://host/api/v4/files/f/info");
    assert_eq!(request.send_failure, "GET /files/f/info failed");
    assert_eq!(request.read_failure, "Failed to parse file info response");
}

#[test]
fn request_for_an_upload() {
    let client = client("https://host");
    let request = client.upload_file("c", "a.txt", vec![1, 2, 3], "text/plain");
    no_query(&request);
    assert!(matches!(request.method, Method::Post));
    assert_eq!(request.url, "https://host/api/v4/files");
    match request.body {
        Body::Form(form) => {
            assert_eq!(form.channel_id, "c");
            assert_eq!(form.file_name, "a.txt");
            assert_eq!(form.content_type, "text/plain");
            assert_eq!(form.bytes, vec![1, 2, 3]);
        }
        _ => panic!("expected a form"),
    }
    assert_eq!(request.send_failure, "POST /files failed");
    assert_eq!(request.read_failure, "Failed to parse file upload response");
}

#[test]
fn failed_requests_say_why() {
    let client = client("https://host");
    let request = client.get_me();
    let sent = request.send_error("timed out");
    assert_eq!(sent.to_text(), "IO error: GET /users/me failed: timed out");
    let read = request.read_error("end of file");
    assert_eq!(read.to_text(), "IO error: Failed to parse user response: end of file");
}

#[test]
fn successes_are_accepted() {
    assert!(MattermostClient::check_response(200).is_ok());
    assert!(MattermostClient::check_response(201).is_ok());
    assert!(MattermostClient::check_response(299).is_ok());
}

#[test]
fn other_statuses_are_errors() {
    let error = MattermostClient::check_response(404).unwrap_err();
    assert_eq!(error.to_text(), "IO error: Mattermost API error: HTTP 404 Not Found");
    assert!(!is_auth_failure(&error));
    assert!(MattermostClient::check_response(199).is_err());
    assert!(MattermostClient::check_response(300).is_err());
}

#[test]
fn statuses_are_written_into_errors() {
    assert_eq!(status_failure("418").to_text(), "IO error: Mattermost API error: HTTP 418");
}

#[test]
fn unauthorized_is_an_authentication_failure() {
    let error = MattermostClient::check_response(401).unwrap_err();
    assert_eq!(error.to_text(), "IO error: Mattermost API error: HTTP 401 Unauthorized");
    assert!(is_auth_failure(&error));
}

#[test]
fn authentication_failures_are_told_by_their_text() {
    let failed = AgentError::IoError("WebSocket authentication failed".to_string());
    assert!(is_auth_failure(&failed));
    let other = AgentError::IoError("authentication".to_string());
    assert!(!is_auth_failure(&other));
}

#[test]
fn websocket_addresses() {
    let address = |server: &str| client(server).websocket_url().unwrap();
    assert_eq!(address("https://chat.example.com"), "wss://chat.example.com/api/v4/websocket");
    assert_eq!(address("http://localhost:8065/"), "ws://localhost:8065/api/v4/websocket");
    assert_eq!(address("https://host:443"), "wss://host/api/v4/websocket");
    assert_eq!(address("https://HOST/chat"), "wss://host/api/v4/websocket");
}

#[test]
fn websocket_address_of_no_url() {
    match client("chat.example.com").websocket_url() {
        Err(AgentError::InvalidConfig(text)) => {
            assert_eq!(text, "Invalid server URL: relative URL without a base");
        }
        _ => panic!("expected an error"),
    }
}

#[test]
fn websocket_address_of_another_scheme() {
    match client("ftp://host").websocket_url() {
        Err(AgentError::InvalidConfig(text)) => assert_eq!(text, "Unsupported URL scheme: ftp"),
        _ => panic!("expected an error"),
    }
}

#[test]
fn websocket_address_without_host() {
    let url = ServerUrl { scheme: "https".to_string(), host: None, port: None };
    match websocket_url_of(Ok(url)) {
        Err(AgentError::InvalidConfig(text)) => assert_eq!(text, "Missing host in server URL"),
        _ => panic!("expected an error"),
    }
}

#[test]
fn encryption_is_kept() {
    let url = |scheme: &str| ServerUrl {
        scheme: scheme.to_string(),
        host: Some("h".to_string()),
        port: Some(80),
    };
    assert_eq!(websocket_url_of(Ok(url("https"))).unwrap(), "wss://h:80/api/v4/websocket");
    assert_eq!(websocket_url_of(Ok(url("http"))).unwrap(), "ws://h:80/api/v4/websocket");
}

#[test]
fn the_token_is_shown() {
    let challenge = client("https://host").auth_challenge();
    assert_eq!(challenge.seq, 1);
    assert_eq!(challenge.action, "authentication_challenge");
    assert_eq!(challenge.data.token, "secret");
}

#[test]
fn replies_that_let_the_listener_go_on() {
    assert!(check_auth_reply(&AuthReply::Other).is_ok());
    assert!(check_auth_reply(&AuthReply::Text(None)).is_ok());
}

#[test]
fn no_reply_is_an_error() {
    let error = check_auth_reply(&AuthReply::Ended).unwrap_err();
    assert!(matches!(error, AgentError::IoError(_)));
    assert_eq!(error.to_text(), "IO error: WebSocket read error: stream ended");
    assert!(!is_auth_failure(&error));
}

#[test]
fn broken_reply_is_an_error() {
    let error = check_auth_reply(&AuthReply::Failed("reset".to_string())).unwrap_err();
    assert_eq!(error.to_text(), "IO error: WebSocket read error: reset");
}

#[test]
fn failed_steps_say_what_failed() {
    let text = |step: Step| step.error("why").to_text();
    assert_eq!(text(Step::WriteForm), "IO error: Failed to create multipart part: why");
    assert_eq!(text(Step::WriteAuth), "IO error: Failed to serialize auth: why");
    assert_eq!(text(Step::SendAuth), "IO error: Failed to send auth challenge: why");
}

#[test]
fn refused_connections() {
    let refused = connect_error(Some(401), "HTTP error: 401 Unauthorized");
    assert_eq!(refused.to_text(), "IO error: WebSocket connection failed: HTTP 401 Unauthorized");
    assert!(is_auth_failure(&refused));
    let down = connect_error(Some(503), "HTTP error: 503 Service Unavailable");
    let expected = "IO error: WebSocket connection failed: HTTP error: 503 Service Unavailable";
    assert_eq!(down.to_text(), expected);
    assert!(!is_auth_failure(&down));
    let lost = connect_error(None, "connection refused");
    assert_eq!(lost.to_text(), "IO error: WebSocket connection failed: connection refused");
}

#[test]
fn errors_as_text() {
    let value = AgentError::InvalidValue("x".to_string());
    assert_eq!(value.to_text(), "Invalid x value");
    let config = AgentError::InvalidConfig("x".to_string());
    assert_eq!(config.to_text(), "Configuration error: x");
    let io = AgentError::IoError("x".to_string());
    assert_eq!(io.to_text(), "IO error: x");
}
