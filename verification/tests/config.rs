use modular_agent_mattermost::client::MattermostClient;
use modular_agent_mattermost::config::{get_server_url, get_token, ClientCache};
use modular_agent_mattermost::error::AgentError;

fn some(text: &str) -> Option<String> {
    Some(text.to_string())
}

#[test]
fn global_settings_come_first() {
    assert_eq!(get_token(some("g"), some("e")).unwrap(), "g");
    assert_eq!(get_token(some(""), some("e")).unwrap(), "e");
    assert_eq!(get_token(None, some("e")).unwrap(), "e");
    assert_eq!(get_token(some("g"), None).unwrap(), "g");
    assert_eq!(get_server_url(some("g"), some("e")).unwrap(), "g");
    assert_eq!(get_server_url(None, some("e")).unwrap(), "e");
}

#[test]
fn an_empty_variable_is_set() {
    assert_eq!(get_token(None, some("")).unwrap(), "");
}

#[test]
fn settings_that_are_missing() {
    match get_token(some(""), None) {
        Err(AgentError::InvalidValue(text)) => assert_eq!(text, "MATTERMOST_TOKEN not set"),
        _ => panic!("expected an error"),
    }
    match get_server_url(None, None) {
        Err(AgentError::InvalidValue(text)) => assert_eq!(text, "MATTERMOST_URL not set"),
        _ => panic!("expected an error"),
    }
}

#[test]
fn clients_are_kept_by_server_and_token() {
    let mut cache = ClientCache::new();
    assert!(cache.find("https://a", "t").is_none());
    let made = cache.get_cached_client("https://a", "t").unwrap();
    assert_eq!(made.url(""), "https://a/api/v4");
    let found = cache.find("https://a", "t").unwrap();
    assert_eq!(found.url(""), made.url(""));
    assert_eq!(found.token(), "t");
    assert!(cache.find("https://b", "t").is_none());
    assert!(cache.find("https://a", "u").is_none());
    let other = cache.get_cached_client("https://a", "u").unwrap();
    assert_eq!(other.token(), "u");
    assert_eq!(cache.get_cached_client("https://a", "t").unwrap().token(), "t");
}

#[test]
fn no_two_pairs_share_a_client() {
    let mut cache = ClientCache::new();
    cache.get_cached_client("a\0b", "c").unwrap();
    let client = cache.get_cached_client("a", "b\0c").unwrap();
    assert_eq!(client.url(""), "a/api/v4");
    assert_eq!(client.token(), "b\0c");
}

#[test]
fn a_failed_client_is_not_kept() {
    let mut cache = ClientCache::new();
    let failed = MattermostClient::with_http(Err("no TLS".to_string()), "https://a", "t");
    assert!(cache.keep("https://a", "t", failed).is_err());
    assert!(cache.find("https://a", "t").is_none());
}

#[test]
fn clients_from_settings() {
    let mut cache = ClientCache::new();
    let client = cache.build_client(some("t"), None, None, some("https://a/")).unwrap();
    assert_eq!(client.token(), "t");
    assert_eq!(client.url("/x"), "https://a/api/v4/x");
    assert!(cache.find("https://a/", "t").is_some());
}

#[test]
fn the_token_is_looked_for_first() {
    let mut cache = ClientCache::new();
    match cache.build_client(None, None, None, None) {
        Err(AgentError::InvalidValue(text)) => assert_eq!(text, "MATTERMOST_TOKEN not set"),
        _ => panic!("expected an error"),
    }
    match cache.build_client(some("t"), None, some(""), None) {
        Err(AgentError::InvalidValue(text)) => assert_eq!(text, "MATTERMOST_URL not set"),
        _ => panic!("expected an error"),
    }
}
