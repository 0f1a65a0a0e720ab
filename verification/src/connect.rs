//! How a WebSocket is opened: the server is called, the token is shown, and the
//! first answer is read.
use vstd::prelude::*;

use crate::api::WsAuthChallenge;
use crate::client::{
    auth_failure, check_auth_reply, connect_error, io_failure, not_opened, parsed_url, unanswered,
    websocket_address, AuthReply, MattermostClient, Step,
};
use crate::error::AgentError;
use crate::reconnect::{after, Event, LoopView, Phase};
use crate::text::contains_text;

verus! {

/// How far the opening of a WebSocket is.
#[derive(Clone, Copy, Debug, PartialEq, Eq, Structural)]
pub enum Handshake {
    /// The server is called.
    Dialing,
    /// The token is shown.
    Sending,
    /// The first answer is awaited.
    Replying,
    /// The WebSocket is open.
    Open,
    /// The WebSocket could not be opened.
    Closed,
}

/// What happens while a WebSocket is opened.
#[derive(Debug)]
pub enum HandshakeEvent {
    /// The server has taken the call.
    Dialed,
    /// It has not: it refused with a status, or something else went wrong.
    NotDialed(Option<u16>, String),
    /// The token was shown.
    Sent,
    /// It was not, because a step failed.
    NotSent(Step, String),
    /// The first answer came, or none.
    Reply(AuthReply),
}

/// What is done next to open a WebSocket.
#[derive(Debug)]
pub enum HandshakeAction {
    /// Call the server at this address.
    Dial(String),
    /// Send this message.
    Send(WsAuthChallenge),
    /// Read the first answer.
    ReadReply,
    /// Go on with the open WebSocket.
    Finish,
    /// Give up with this error.
    Fail(AgentError),
    /// Do nothing.
    Nothing,
}

/// The answer lets the listener go on: it came, and it does not refuse the
/// token. A message that says nothing about the token does too.
pub open spec fn accepted(reply: AuthReply) -> bool {
    !(reply is Ended) && !(reply is Failed) && !reply.refused()
}

/// How far the opening is after an event. An event that cannot come changes
/// nothing.
pub open spec fn handshake_after(state: Handshake, event: HandshakeEvent) -> Handshake {
    match (state, event) {
        (Handshake::Dialing, HandshakeEvent::Dialed) => Handshake::Sending,
        (Handshake::Dialing, HandshakeEvent::NotDialed(_, _)) => Handshake::Closed,
        (Handshake::Sending, HandshakeEvent::Sent) => Handshake::Replying,
        (Handshake::Sending, HandshakeEvent::NotSent(_, _)) => Handshake::Closed,
        (Handshake::Replying, HandshakeEvent::Reply(reply)) => if accepted(reply) {
            Handshake::Open
        } else {
            Handshake::Closed
        },
        _ => state,
    }
}

/// `error` is the error for an event that ends the opening.
pub open spec fn handshake_error(event: HandshakeEvent, error: AgentError) -> bool {
    match event {
        HandshakeEvent::NotDialed(refusal, reason) => not_opened(error, refusal, reason@),
        HandshakeEvent::NotSent(step, reason) => io_failure(error, step.failure(), reason@),
        HandshakeEvent::Reply(AuthReply::Ended) => unanswered(error),
        HandshakeEvent::Reply(AuthReply::Failed(reason)) => io_failure(
            error,
            "WebSocket read error"@,
            reason@,
        ),
        HandshakeEvent::Reply(_) => auth_failure(error) && (error matches AgentError::IoError(text)
            && text@ == "WebSocket authentication failed"@),
        _ => false,
    }
}

/// `challenge` shows a token to the server.
pub open spec fn shows_token(challenge: WsAuthChallenge, token: Seq<char>) -> bool {
    &&& challenge.seq == 1
    &&& challenge.action@ == "authentication_challenge"@
    &&& challenge.data.token@ == token
}

/// `action` is what follows an event, for a client with the given token.
pub open spec fn handshake_follows(
    token: Seq<char>,
    state: Handshake,
    event: HandshakeEvent,
    action: HandshakeAction,
) -> bool {
    let next = handshake_after(state, event);
    if next == state {
        action is Nothing
    } else {
        match next {
            Handshake::Dialing => false,
            Handshake::Sending => action matches HandshakeAction::Send(challenge) && shows_token(
                challenge,
                token,
            ),
            Handshake::Replying => action is ReadReply,
            Handshake::Open => action is Finish,
            Handshake::Closed => action matches HandshakeAction::Fail(error) && handshake_error(
                event,
                error,
            ),
        }
    }
}

impl MattermostClient {
    /// Begins to open the server's WebSocket.
    pub fn connect_websocket(&self) -> (begun: (Handshake, HandshakeAction))
        ensures
            match begun {
                (Handshake::Dialing, HandshakeAction::Dial(address)) => websocket_address(
                    parsed_url(self.base()),
                    Ok(address),
                ),
                (Handshake::Closed, HandshakeAction::Fail(error)) => websocket_address(
                    parsed_url(self.base()),
                    Err(error),
                ),
                _ => false,
            },
    {
        match self.websocket_url() {
            Ok(address) => (Handshake::Dialing, HandshakeAction::Dial(address)),
            Err(error) => (Handshake::Closed, HandshakeAction::Fail(error)),
        }
    }
}

impl Handshake {
    /// Takes an event in, and says what is to be done next.
    pub fn step(self, client: &MattermostClient, event: HandshakeEvent) -> (next: (
        Handshake,
        HandshakeAction,
    ))
        ensures
            next.0 == handshake_after(self, event),
            handshake_follows(client.secret(), self, event, next.1),
    {
        match self {
            Handshake::Dialing => match event {
                HandshakeEvent::Dialed => (
                    Handshake::Sending,
                    HandshakeAction::Send(client.auth_challenge()),
                ),
                HandshakeEvent::NotDialed(status, reason) => (
                    Handshake::Closed,
                    HandshakeAction::Fail(connect_error(status, reason.as_str())),
                ),
                _ => (self, HandshakeAction::Nothing),
            },
            Handshake::Sending => match event {
                HandshakeEvent::Sent => (Handshake::Replying, HandshakeAction::ReadReply),
                HandshakeEvent::NotSent(step, reason) => (
                    Handshake::Closed,
                    HandshakeAction::Fail(step.error(reason.as_str())),
                ),
                _ => (self, HandshakeAction::Nothing),
            },
            Handshake::Replying => match event {
                HandshakeEvent::Reply(reply) => match check_auth_reply(&reply) {
                    Ok(()) => (Handshake::Open, HandshakeAction::Finish),
                    Err(error) => (Handshake::Closed, HandshakeAction::Fail(error)),
                },
                _ => (self, HandshakeAction::Nothing),
            },
            _ => (self, HandshakeAction::Nothing),
        }
    }
}

/// How far the opening is after several events.
pub open spec fn handshake_after_all(state: Handshake, events: Seq<HandshakeEvent>) -> Handshake
    decreases events.len(),
{
    if events.len() == 0 {
        state
    } else {
        handshake_after(handshake_after_all(state, events.drop_last()), events.last())
    }
}

/// The listener stops for good where the server refuses the token, be it with
/// status 401 when it is called or in its first answer.
pub proof fn law_refusal_stops_the_listener(
    token: Seq<char>,
    state: Handshake,
    event: HandshakeEvent,
    action: HandshakeAction,
    listener: LoopView,
)
    requires
        handshake_follows(token, state, event, action),
        ({
            ||| state == Handshake::Dialing && event is NotDialed && event->NotDialed_0 == Some(
                401u16,
            )
            ||| state == Handshake::Replying && event is Reply && event->Reply_0.refused()
        }),
        listener.phase == Phase::Connecting,
    ensures
        action is Fail,
        after(listener, Event::ConnectFailed(action->Fail_0)).phase == Phase::Stopped,
{
}

/// The listener tries again where the server closes the connection before it
/// has answered.
pub proof fn law_no_answer_is_tried_again(
    token: Seq<char>,
    event: HandshakeEvent,
    action: HandshakeAction,
    listener: LoopView,
)
    requires
        handshake_follows(token, Handshake::Replying, event, action),
        event is Reply && event->Reply_0 is Ended,
        listener.phase == Phase::Connecting,
    ensures
        handshake_after(Handshake::Replying, event) == Handshake::Closed,
        action is Fail,
        after(listener, Event::ConnectFailed(action->Fail_0)).phase == Phase::Waiting,
{
}

/// No WebSocket is open before the token was shown and an answer came that lets
/// the listener go on.
pub proof fn law_open_means_accepted(events: Seq<HandshakeEvent>)
    requires
        handshake_after_all(Handshake::Dialing, events) == Handshake::Open,
    ensures
        exists|i: int, j: int|
            0 <= i < j < events.len() && #[trigger] events[i] is Sent
                && #[trigger] events[j] is Reply && accepted(events[j]->Reply_0),
    decreases events.len(),
{
    let earlier = events.drop_last();
    let state = handshake_after_all(Handshake::Dialing, earlier);
    if state == Handshake::Open {
        law_open_means_accepted(earlier);
        let (i, j) = choose|i: int, j: int|
            0 <= i < j < earlier.len() && #[trigger] earlier[i] is Sent
                && #[trigger] earlier[j] is Reply && accepted(earlier[j]->Reply_0);
        assert(events[i] is Sent && events[j] is Reply);
    } else {
        lemma_replying_means_sent(earlier);
        let i = choose|i: int| 0 <= i < earlier.len() && #[trigger] earlier[i] is Sent;
        assert(events[i] is Sent);
        assert(events[events.len() - 1] is Reply);
    }
}

proof fn lemma_replying_means_sent(events: Seq<HandshakeEvent>)
    requires
        handshake_after_all(Handshake::Dialing, events) == Handshake::Replying,
    ensures
        exists|i: int| 0 <= i < events.len() && #[trigger] events[i] is Sent,
    decreases events.len(),
{
    let earlier = events.drop_last();
    if handshake_after_all(Handshake::Dialing, earlier) == Handshake::Replying {
        lemma_replying_means_sent(earlier);
        let i = choose|i: int| 0 <= i < earlier.len() && #[trigger] earlier[i] is Sent;
        assert(events[i] is Sent);
    } else {
        assert(events[events.len() - 1] is Sent);
    }
}

/// An opening goes from the call to the token to the answer, and is open after an
/// answer that came and does not say "FAIL". What fails closes it, and an event
/// that cannot come changes nothing.
pub proof fn law_opening_goes_step_by_step(state: Handshake, event: HandshakeEvent)
    ensures
        ({
            let next = handshake_after(state, event);
            &&& state == Handshake::Dialing ==> {
                &&& next == Handshake::Sending <==> event is Dialed
                &&& next == Handshake::Closed <==> event is NotDialed
                &&& next == state <==> !(event is Dialed || event is NotDialed)
            }
            &&& state == Handshake::Sending ==> {
                &&& next == Handshake::Replying <==> event is Sent
                &&& next == Handshake::Closed <==> event is NotSent
                &&& next == state <==> !(event is Sent || event is NotSent)
            }
            &&& state == Handshake::Replying && !(event is Reply) ==> next == state
            &&& state == Handshake::Replying && event is Reply ==> (match event->Reply_0 {
                AuthReply::Ended => next == Handshake::Closed,
                AuthReply::Failed(_) => next == Handshake::Closed,
                AuthReply::Other => next == Handshake::Open,
                AuthReply::Text(None) => next == Handshake::Open,
                AuthReply::Text(Some(answer)) => if answer.status is Some && answer.status->0@
                    == "FAIL"@ {
                    next == Handshake::Closed
                } else {
                    next == Handshake::Open
                },
            })
            &&& state == Handshake::Open || state == Handshake::Closed ==> next == state
        }),
{
}

/// After the call the token is sent, in the first message, as a challenge; after
/// the token the answer is read; an open WebSocket is gone on with; and a failure
/// is reported for what failed and for its reason.
pub proof fn law_each_step_does_its_part(
    token: Seq<char>,
    state: Handshake,
    event: HandshakeEvent,
    action: HandshakeAction,
)
    requires
        handshake_follows(token, state, event, action),
    ensures
        handshake_after(state, event) == state ==> action is Nothing,
        state == Handshake::Dialing && event is Dialed ==> {
            &&& action is Send
            &&& action->Send_0.seq == 1
            &&& action->Send_0.action@ == "authentication_challenge"@
            &&& action->Send_0.data.token@ == token
        },
        state == Handshake::Sending && event is Sent ==> action is ReadReply,
        state != Handshake::Open && handshake_after(state, event) == Handshake::Open
            ==> action is Finish,
        state != Handshake::Closed && handshake_after(state, event) == Handshake::Closed ==> {
            &&& action is Fail
            &&& action->Fail_0 is IoError
            &&& ({
                let said = action->Fail_0->IoError_0@;
                match event {
                    HandshakeEvent::NotDialed(refusal, reason) => if refusal == Some(401u16) {
                        contains_text(action->Fail_0.text(), "HTTP 401"@) || contains_text(
                            action->Fail_0.text(),
                            "authentication failed"@,
                        )
                    } else {
                        said == "WebSocket connection failed"@ + ": "@ + reason@
                    },
                    HandshakeEvent::NotSent(Step::WriteAuth, reason) => said
                        == "Failed to serialize auth"@ + ": "@ + reason@,
                    HandshakeEvent::NotSent(Step::SendAuth, reason) => said
                        == "Failed to send auth challenge"@ + ": "@ + reason@,
                    HandshakeEvent::Reply(AuthReply::Failed(reason)) => said
                        == "WebSocket read error"@ + ": "@ + reason@,
                    HandshakeEvent::Reply(AuthReply::Ended) => said == "WebSocket read error"@
                        + ": "@ + "stream ended"@,
                    HandshakeEvent::Reply(_) => said == "WebSocket authentication failed"@,
                    _ => true,
                }
            })
        },
{
}

} // verus!
