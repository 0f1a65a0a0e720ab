use modular_agent_mattermost::api::{MattermostChannel, MattermostTeam};
use modular_agent_mattermost::channels::{
    channel_count, channel_to_agent_value, channels_to_agent_value, first_team, own_channels,
    ChannelsAction, ChannelsEvent, ChannelsFlow,
};
use modular_agent_mattermost::client::MattermostClient;
use modular_agent_mattermost::error::AgentError;
use modular_agent_mattermost::value::{AgentObject, AgentValue};

fn channel(id: &str) -> MattermostChannel {
    MattermostChannel {
        id: id.to_string(),
        name: "town-square".to_string(),
        display_name: "Town Square".to_string(),
        channel_type: "O".to_string(),
        header: String::new(),
        purpose: String::new(),
        delete_at: 0,
    }
}

fn team(id: &str) -> MattermostTeam {
    MattermostTeam {
        id: id.to_string(),
        name: "team".to_string(),
        display_name: "Team".to_string(),
    }
}

fn object(value: AgentValue) -> AgentObject {
    match value {
        AgentValue::Object(object) => object,
        _ => panic!("expected an object"),
    }
}

fn ids(value: AgentValue) -> Vec<String> {
    match value {
        AgentValue::Array(array) => (0..array.len())
            .map(|i| object(array.get(i).unwrap().clone()).get_str("id").unwrap().to_string())
            .collect(),
        _ => panic!("expected an array"),
    }
}

#[test]
fn a_hundred_channels_by_default() {
    assert_eq!(channel_count(0), 100);
    assert_eq!(channel_count(-5), 100);
    assert_eq!(channel_count(3), 3);
    assert_eq!(channel_count(100000), 100000);
    assert_eq!(channel_count(i64::MAX), usize::try_from(i64::MAX).unwrap_or(usize::MAX));
}

#[test]
fn channels_as_values() {
    let object = object(channel_to_agent_value(&channel("c1")));
    assert_eq!(object.keys().len(), 4);
    assert_eq!(object.get_str("id"), Some("c1"));
    assert_eq!(object.get_str("name"), Some("town-square"));
    assert!(matches!(object.get("is_private"), Some(AgentValue::Boolean(false))));
    assert!(matches!(object.get("is_archived"), Some(AgentValue::Boolean(false))));
    assert!(object.get("topic").is_none());
    assert!(object.get("purpose").is_none());
}

#[test]
fn private_and_archived_channels() {
    let mut private = channel("c1");
    private.channel_type = "P".to_string();
    private.delete_at = 1;
    private.header = "About".to_string();
    private.purpose = "Talk".to_string();
    let object = object(channel_to_agent_value(&private));
    assert_eq!(object.keys().len(), 6);
    assert!(matches!(object.get("is_private"), Some(AgentValue::Boolean(true))));
    assert!(matches!(object.get("is_archived"), Some(AgentValue::Boolean(true))));
    assert_eq!(object.get_str("topic"), Some("About"));
    assert_eq!(object.get_str("purpose"), Some("Talk"));
}

#[test]
fn no_more_channels_than_the_limit() {
    let all = vec![channel("a"), channel("b"), channel("c")];
    assert_eq!(ids(channels_to_agent_value(&all, 2)), vec!["a", "b"]);
    assert_eq!(ids(channels_to_agent_value(&all, 3)), vec!["a", "b", "c"]);
    assert_eq!(ids(channels_to_agent_value(&all, 100)), vec!["a", "b", "c"]);
    assert!(ids(channels_to_agent_value(&all, 0)).is_empty());
}

#[test]
fn the_first_team_is_taken() {
    assert_eq!(first_team(&vec![team("t1"), team("t2")]).unwrap(), "t1");
}

#[test]
fn a_user_without_teams() {
    match first_team(&vec![]) {
        Err(AgentError::InvalidValue(text)) => assert_eq!(text, "No teams found for user"),
        _ => panic!("expected an error"),
    }
    let (state, _) = ChannelsFlow::begin(0, String::new());
    match state.step(ChannelsEvent::Teams(vec![])) {
        (ChannelsFlow::Finished, ChannelsAction::Fail(error)) => {
            assert_eq!(error.to_text(), "Invalid No teams found for user value");
        }
        _ => panic!("expected an error"),
    }
}

#[test]
fn channels_of_the_token_s_user() {
    let client = MattermostClient::new("https://host", "secret").unwrap();
    let request = own_channels(&client, "t1");
    assert_eq!(request.url, "https://host/api/v4/users/me/teams/t1/channels");
}

#[test]
fn listing_a_configured_team() {
    let (state, action) = ChannelsFlow::begin(1, "t9".to_string());
    match action {
        ChannelsAction::AskChannels(team) => assert_eq!(team, "t9"),
        _ => panic!("expected a question"),
    }
    let (state, action) = state.step(ChannelsEvent::Channels(vec![channel("a"), channel("b")]));
    assert!(matches!(state, ChannelsFlow::Finished));
    match action {
        ChannelsAction::Output(value) => assert_eq!(ids(value), vec!["a"]),
        _ => panic!("expected a value"),
    }
}

#[test]
fn listing_the_first_team() {
    let (state, action) = ChannelsFlow::begin(0, String::new());
    assert!(matches!(action, ChannelsAction::AskTeams));
    let (state, action) = state.step(ChannelsEvent::Teams(vec![team("t1"), team("t2")]));
    match action {
        ChannelsAction::AskChannels(team) => assert_eq!(team, "t1"),
        _ => panic!("expected a question"),
    }
    assert!(matches!(state, ChannelsFlow::AskingChannels(100)));
}

#[test]
fn failures_end_the_listing() {
    for team_id in ["", "t1"] {
        let (state, _) = ChannelsFlow::begin(0, team_id.to_string());
        let failed = ChannelsEvent::Failed(AgentError::IoError("down".to_string()));
        match state.step(failed) {
            (ChannelsFlow::Finished, ChannelsAction::Fail(error)) => {
                assert_eq!(error.to_text(), "IO error: down");
            }
            _ => panic!("expected an error"),
        }
    }
}

#[test]
fn channels_that_were_not_asked_for() {
    let (state, _) = ChannelsFlow::begin(0, String::new());
    let (state, action) = state.step(ChannelsEvent::Channels(vec![channel("a")]));
    assert!(matches!(state, ChannelsFlow::AskingTeams(100)));
    assert!(matches!(action, ChannelsAction::Nothing));
}
