use modular_agent_mattermost::api::WsEvent;
use modular_agent_mattermost::client::{is_auth_failure, AuthReply, MattermostClient, Step};
use modular_agent_mattermost::connect::{Handshake, HandshakeAction, HandshakeEvent};
use modular_agent_mattermost::error::AgentError;
use modular_agent_mattermost::reconnect::{Action, Event, ListenerLoop, Phase};

fn client() -> MattermostClient {
    MattermostClient::new("https://host", "secret").unwrap()
}

fn status(status: Option<&str>) -> AuthReply {
    AuthReply::Text(Some(WsEvent {
        event: None,
        data: None,
        status: status.map(str::to_string),
        seq_reply: Some(1),
    }))
}

fn down() -> Event {
    Event::ConnectFailed(AgentError::IoError("connection refused".to_string()))
}

fn waits(action: Action) -> u64 {
    match action {
        Action::Wait(ms) => ms,
        _ => panic!("expected a wait"),
    }
}

fn failure(action: HandshakeAction) -> AgentError {
    match action {
        HandshakeAction::Fail(error) => error,
        _ => panic!("expected an error"),
    }
}

#[test]
fn a_websocket_is_opened() {
    let client = client();
    let (state, action) = client.connect_websocket();
    assert!(matches!(action, HandshakeAction::Dial(url) if url == "wss://host/api/v4/websocket"));
    let (state, action) = state.step(&client, HandshakeEvent::Dialed);
    match action {
        HandshakeAction::Send(challenge) => {
            assert_eq!(challenge.seq, 1);
            assert_eq!(challenge.action, "authentication_challenge");
            assert_eq!(challenge.data.token, "secret");
        }
        _ => panic!("expected a message"),
    }
    let (state, action) = state.step(&client, HandshakeEvent::Sent);
    assert!(matches!(action, HandshakeAction::ReadReply));
    let (state, action) = state.step(&client, HandshakeEvent::Reply(status(Some("OK"))));
    assert!(matches!(action, HandshakeAction::Finish));
    assert_eq!(state, Handshake::Open);
}

#[test]
fn an_address_that_cannot_be_called() {
    let client = MattermostClient::new("host", "secret").unwrap();
    let (state, action) = client.connect_websocket();
    assert_eq!(state, Handshake::Closed);
    assert!(matches!(failure(action), AgentError::InvalidConfig(_)));
}

#[test]
fn answers_that_let_the_listener_go_on() {
    let replies = vec![AuthReply::Other, AuthReply::Text(None), status(None)];
    for reply in replies {
        let (state, action) =
            Handshake::Replying.step(&client(), HandshakeEvent::Reply(reply));
        assert_eq!(state, Handshake::Open);
        assert!(matches!(action, HandshakeAction::Finish));
    }
}

#[test]
fn a_listener_without_an_answer_tries_again() {
    let mut listener = ListenerLoop::new();
    let mut seen: Vec<u64> = Vec::new();
    for _ in 0..3 {
        let silence = HandshakeEvent::Reply(AuthReply::Ended);
        let (state, action) = Handshake::Replying.step(&client(), silence);
        assert_eq!(state, Handshake::Closed);
        let error = failure(action);
        assert_eq!(error.to_text(), "IO error: WebSocket read error: stream ended");
        seen.push(waits(listener.step(Event::ConnectFailed(error))));
        assert!(matches!(listener.step(Event::Waited), Action::Connect));
    }
    assert_eq!(seen, vec![1000, 2000, 4000]);
}

#[test]
fn a_refused_token_stops_the_listener() {
    let reply = HandshakeEvent::Reply(status(Some("FAIL")));
    let (state, action) = Handshake::Replying.step(&client(), reply);
    assert_eq!(state, Handshake::Closed);
    let error = failure(action);
    assert_eq!(error.to_text(), "IO error: WebSocket authentication failed");
    let mut listener = ListenerLoop::new();
    assert!(matches!(listener.step(Event::ConnectFailed(error)), Action::Stop));
    assert_eq!(listener.phase(), Phase::Stopped);
}

#[test]
fn a_refused_call_stops_the_listener() {
    let refused = HandshakeEvent::NotDialed(Some(401), "HTTP error".to_string());
    let (state, action) = Handshake::Dialing.step(&client(), refused);
    assert_eq!(state, Handshake::Closed);
    let error = failure(action);
    assert!(is_auth_failure(&error));
    let mut listener = ListenerLoop::new();
    assert!(matches!(listener.step(Event::ConnectFailed(error)), Action::Stop));
}

#[test]
fn other_failures_close_the_connection() {
    let lost = HandshakeEvent::NotDialed(None, "no route".to_string());
    let (_, action) = Handshake::Dialing.step(&client(), lost);
    assert_eq!(failure(action).to_text(), "IO error: WebSocket connection failed: no route");
    let unsent = HandshakeEvent::NotSent(Step::SendAuth, "reset".to_string());
    let (state, action) = Handshake::Sending.step(&client(), unsent);
    assert_eq!(state, Handshake::Closed);
    assert_eq!(failure(action).to_text(), "IO error: Failed to send auth challenge: reset");
    let broken = HandshakeEvent::Reply(AuthReply::Failed("reset".to_string()));
    let (_, action) = Handshake::Replying.step(&client(), broken);
    assert_eq!(failure(action).to_text(), "IO error: WebSocket read error: reset");
}

#[test]
fn a_handshake_takes_its_steps_in_order() {
    let reply = HandshakeEvent::Reply(status(Some("OK")));
    let (state, action) = Handshake::Dialing.step(&client(), reply);
    assert_eq!(state, Handshake::Dialing);
    assert!(matches!(action, HandshakeAction::Nothing));
    let (state, _) = Handshake::Closed.step(&client(), HandshakeEvent::Dialed);
    assert_eq!(state, Handshake::Closed);
}

#[test]
fn the_wait_doubles_up_to_thirty_seconds() {
    let mut listener = ListenerLoop::new();
    let mut seen: Vec<u64> = Vec::new();
    for _ in 0..8 {
        seen.push(waits(listener.step(down())));
        assert!(matches!(listener.step(Event::Waited), Action::Connect));
    }
    assert_eq!(seen, vec![1000, 2000, 4000, 8000, 16000, 30000, 30000, 30000]);
}

#[test]
fn a_connection_resets_the_wait() {
    let mut listener = ListenerLoop::new();
    for _ in 0..4 {
        listener.step(down());
        listener.step(Event::Waited);
    }
    assert!(matches!(listener.step(Event::Connected), Action::Read));
    assert_eq!(waits(listener.step(Event::Ended)), 1000);
    listener.step(Event::Waited);
    listener.step(Event::Connected);
    assert_eq!(waits(listener.step(Event::ReadFailed)), 1000);
}

#[test]
fn the_wait_doubles_again_after_a_lost_connection() {
    let mut listener = ListenerLoop::new();
    listener.step(Event::Connected);
    let mut seen = vec![waits(listener.step(Event::Ended))];
    for _ in 0..6 {
        listener.step(Event::Waited);
        seen.push(waits(listener.step(down())));
    }
    assert_eq!(seen, vec![1000, 2000, 4000, 8000, 16000, 30000, 30000]);
}

#[test]
fn texts_are_handled() {
    let mut listener = ListenerLoop::new();
    listener.step(Event::Connected);
    let action = listener.step(Event::Text("hello".to_string()));
    assert!(matches!(action, Action::Deliver(text) if text == "hello"));
    assert!(matches!(listener.step(Event::OtherFrame), Action::Read));
    assert_eq!(listener.phase(), Phase::Reading);
}

#[test]
fn being_told_to_stops_the_listener() {
    let mut reading = ListenerLoop::new();
    reading.step(Event::Connected);
    assert!(matches!(reading.step(Event::Shutdown), Action::Stop));
    let mut waiting = ListenerLoop::new();
    waiting.step(down());
    assert!(matches!(waiting.step(Event::Shutdown), Action::Stop));
}

#[test]
fn a_connecting_listener_stops_after_its_attempt() {
    let mut connected = ListenerLoop::new();
    assert!(matches!(connected.step(Event::Shutdown), Action::Connect));
    connected.step(Event::Connected);
    assert!(matches!(connected.step(Event::Shutdown), Action::Stop));
    let mut failed = ListenerLoop::new();
    failed.step(down());
    assert!(matches!(failed.step(Event::Shutdown), Action::Stop));
    assert!(matches!(failed.step(Event::Waited), Action::Stop));
}

#[test]
fn a_stopped_listener_stays_stopped() {
    let mut listener = ListenerLoop::new();
    listener.step(Event::Connected);
    listener.step(Event::Shutdown);
    assert!(matches!(listener.step(Event::Connected), Action::Stop));
    assert!(matches!(listener.step(Event::Waited), Action::Stop));
    assert_eq!(listener.phase(), Phase::Stopped);
}
