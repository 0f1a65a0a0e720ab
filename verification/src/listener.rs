//! The listener: which events it passes on, and as what.
use std::sync::Arc;

use vstd::prelude::*;

use crate::api::{MattermostPost, WsEvent};
use crate::image::Image;
use crate::text::same_text;
use crate::value::{
    no_members, object_members, user_message, AgentObject, AgentValue, Message, MessageView,
};

verus! {

/// The JSON text of the post that an event announces; nothing for an event
/// that announces none.
pub open spec fn announced_post(event: WsEvent) -> Option<Seq<char>> {
    match (event.event, event.data) {
        (Some(kind), Some(data)) => if kind@ == "posted"@ {
            match data.member("post"@) {
                Some(post) => post.string(),
                None => None,
            }
        } else {
            None
        },
        _ => None,
    }
}

/// The JSON text of the post that an event announces; nothing for an event
/// that announces none.
pub fn posted_post(event: &WsEvent) -> (post: Option<String>)
    ensures
        post.deep_view() == announced_post(*event),
{
    let kind = match &event.event {
        Some(kind) => kind,
        None => {
            return None;
        },
    };
    let data = match &event.data {
        Some(data) => data,
        None => {
            return None;
        },
    };
    if !same_text(kind.as_str(), "posted") {
        return None;
    }
    match data.get("post") {
        Some(post) => match post.as_str() {
            Some(text) => Some(text.to_owned()),
            None => None,
        },
        None => None,
    }
}

/// What the listener listens for.
#[derive(Debug)]
pub struct ListenerState {
    /// The one channel to listen to; nothing for all channels.
    pub channel_filter: Option<String>,
    /// The user that the listener itself is.
    pub bot_user_id: String,
}

impl ListenerState {
    /// A listener for the user `bot_user_id`, to the channel `channel_id`, or to
    /// all channels where that is empty.
    pub fn new(bot_user_id: String, channel_id: String) -> (state: Self)
        ensures
            state.is_for(bot_user_id@, channel_id@),
            state.bot_user_id == bot_user_id,
            state.channel_filter == if channel_id@.len() == 0 {
                None
            } else {
                Some(channel_id)
            },
    {
        let channel_filter = if channel_id.as_str().is_empty() {
            None
        } else {
            Some(channel_id)
        };
        ListenerState { channel_filter, bot_user_id }
    }

    /// The listener is that of the user `bot_user_id`, for the channel `channel_id`,
    /// or for all channels where that is empty.
    pub open spec fn is_for(&self, bot_user_id: Seq<char>, channel_id: Seq<char>) -> bool {
        &&& self.bot_user_id@ == bot_user_id
        &&& match self.channel_filter {
            Some(channel) => channel_id.len() > 0 && channel@ == channel_id,
            None => channel_id.len() == 0,
        }
    }

    /// The listener passes the post on: it is not its own, and it is in the
    /// channel listened to.
    pub open spec fn wants(&self, post: MattermostPost) -> bool {
        &&& post.user_id@ != self.bot_user_id@
        &&& self.channel_filter matches Some(channel) ==> post.channel_id@ == channel@
    }

    /// Whether the listener passes the post on.
    pub fn accepts(&self, post: &MattermostPost) -> (accepted: bool)
        ensures
            accepted == self.wants(*post),
            accepted <==> post.user_id@ != self.bot_user_id@ && (self.channel_filter is None
                || self.channel_filter->0@ == post.channel_id@),
    {
        if same_text(post.user_id.as_str(), self.bot_user_id.as_str()) {
            return false;
        }
        match &self.channel_filter {
            Some(channel) => same_text(post.channel_id.as_str(), channel.as_str()),
            None => true,
        }
    }
}

/// The chat message for a post, with an image or without.
pub open spec fn listener_message(post: MattermostPost, image: Option<Arc<Image>>) -> MessageView {
    MessageView { image, ..user_message(post.message@) }
}

/// The members of what the listener gives out for a post.
pub open spec fn listener_members(post: MattermostPost, message: Arc<Message>) -> Map<
    Seq<char>,
    AgentValue,
> {
    let members = no_members().insert("message"@, AgentValue::Message(message)).insert(
        "user"@,
        AgentValue::String(post.user_id),
    ).insert("channel"@, AgentValue::String(post.channel_id)).insert(
        "post_id"@,
        AgentValue::String(post.id),
    );
    if post.root_id@.len() > 0 {
        members.insert("root_id"@, AgentValue::String(post.root_id))
    } else {
        members
    }
}

/// `value` is what the listener gives out for a post.
pub open spec fn listener_output(
    post: MattermostPost,
    image: Option<Arc<Image>>,
    value: AgentValue,
) -> bool {
    value matches AgentValue::Object(object) && exists|message: Arc<Message>|
        message@ == listener_message(post, image) && object_members(object)
            == #[trigger] listener_members(post, message)
}

/// What the listener gives out for a post: the chat message, who wrote it,
/// where, the post's id, and the thread's, where there is a thread.
pub fn post_to_listener_output(post: &MattermostPost, image: Option<Arc<Image>>) -> (output: Option<
    AgentValue,
>)
    ensures
        output matches Some(value) && listener_output(*post, image, value),
{
    let mut message = Message::user(post.message.clone());
    message.image = image;
    let message = Arc::new(message);
    let ghost shown = message;
    let mut object = AgentObject::new();
    object.insert("message", AgentValue::Message(message));
    object.insert("user", AgentValue::String(post.user_id.clone()));
    object.insert("channel", AgentValue::String(post.channel_id.clone()));
    object.insert("post_id", AgentValue::String(post.id.clone()));
    if !post.root_id.as_str().is_empty() {
        object.insert("root_id", AgentValue::String(post.root_id.clone()));
    }
    assert(shown@ == listener_message(*post, image));
    assert(object_members(object) == listener_members(*post, shown));
    Some(AgentValue::Object(object))
}

// ---------------------------------------------------------------------------
// The way of a message through the listener
// ---------------------------------------------------------------------------

/// How far a message from the server is on its way through the listener.
#[derive(Debug)]
pub enum Incoming {
    /// It is read as an event.
    ReadingEvent,
    /// The post that it announces is read.
    ReadingPost,
    /// An image is looked for among the files of the post.
    FindingImage(MattermostPost),
    /// It is over.
    Finished,
}

/// What happens to a message on its way through the listener.
#[derive(Debug)]
pub enum IncomingEvent {
    /// The message was read; nothing where it is no event.
    Event(Option<WsEvent>),
    /// The post was read; nothing where the text is no post.
    Post(Option<MattermostPost>),
    /// The search for an image is over; nothing where there is none.
    Image(Option<Image>),
}

/// What is done next with a message on its way through the listener.
pub enum IncomingAction {
    /// Read this text as a post.
    ReadPost(String),
    /// Look for the first image among these files.
    FindImage(Vec<String>),
    /// Give this value out.
    Output(AgentValue),
    /// Report that the post could not be read.
    ReportBadPost,
    /// Pass the message over.
    Drop,
}

/// The image in a shared place.
pub open spec fn shared_image(image: Option<Image>) -> Option<Arc<Image>> {
    match image {
        Some(found) => Some(Arc::new(found)),
        None => None,
    }
}

/// How a message goes on after an event: the post that it announces is read,
/// one that the listener wants is given out with its image, and all else is
/// passed over. So is a message after an event that cannot come.
pub open spec fn message_goes_on(
    listener: ListenerState,
    before: Incoming,
    event: IncomingEvent,
    state: Incoming,
    action: IncomingAction,
) -> bool {
    match (before, event) {
        (Incoming::ReadingEvent, IncomingEvent::Event(Some(message))) => match announced_post(
            message,
        ) {
            Some(post) => {
                &&& state is ReadingPost
                &&& action matches IncomingAction::ReadPost(text) && text@ == post
            },
            None => state is Finished && action is Drop,
        },
        (Incoming::ReadingPost, IncomingEvent::Post(Some(post))) => if listener.wants(post) {
            &&& state == Incoming::FindingImage(post)
            &&& action matches IncomingAction::FindImage(file_ids) && file_ids@.map_values(
                |id: String| id@,
            ) == post.file_ids@.map_values(|id: String| id@)
        } else {
            state is Finished && action is Drop
        },
        (Incoming::ReadingPost, IncomingEvent::Post(None)) => state is Finished
            && action is ReportBadPost,
        (Incoming::FindingImage(post), IncomingEvent::Image(image)) => {
            &&& state is Finished
            &&& action matches IncomingAction::Output(value) && listener_output(
                post,
                shared_image(image),
                value,
            )
        },
        _ => state is Finished && action is Drop,
    }
}

/// Copies of texts.
fn copies(texts: &Vec<String>) -> (copied: Vec<String>)
    ensures
        copied@.map_values(|text: String| text@) == texts@.map_values(|text: String| text@),
{
    let mut copied: Vec<String> = Vec::new();
    let mut i: usize = 0;
    while i < texts.len()
        invariant
            i <= texts@.len(),
            copied@.len() == i,
            forall|j: int| 0 <= j < i ==> copied@[j]@ == texts@[j]@,
        decreases texts@.len() - i,
    {
        copied.push(texts[i].clone());
        i = i + 1;
    }
    assert(copied@.map_values(|text: String| text@) =~= texts@.map_values(|text: String| text@));
    copied
}

impl Incoming {
    /// A message that has just come.
    pub fn new() -> (state: Incoming)
        ensures
            state is ReadingEvent,
    {
        Incoming::ReadingEvent
    }

    /// Takes an event in, and says what is to be done next.
    pub fn step(self, listener: &ListenerState, event: IncomingEvent) -> (next: (
        Incoming,
        IncomingAction,
    ))
        ensures
            message_goes_on(*listener, self, event, next.0, next.1),
    {
        match (self, event) {
            (Incoming::ReadingEvent, IncomingEvent::Event(Some(message))) => match posted_post(
                &message,
            ) {
                Some(post) => (Incoming::ReadingPost, IncomingAction::ReadPost(post)),
                None => (Incoming::Finished, IncomingAction::Drop),
            },
            (Incoming::ReadingPost, IncomingEvent::Post(Some(post))) => {
                if listener.accepts(&post) {
                    let file_ids = copies(&post.file_ids);
                    (Incoming::FindingImage(post), IncomingAction::FindImage(file_ids))
                } else {
                    (Incoming::Finished, IncomingAction::Drop)
                }
            },
            (Incoming::ReadingPost, IncomingEvent::Post(None)) => (
                Incoming::Finished,
                IncomingAction::ReportBadPost,
            ),
            (Incoming::FindingImage(post), IncomingEvent::Image(image)) => {
                let shared = match image {
                    Some(found) => Some(Arc::new(found)),
                    None => None,
                };
                match post_to_listener_output(&post, shared) {
                    Some(value) => (Incoming::Finished, IncomingAction::Output(value)),
                    None => (Incoming::Finished, IncomingAction::Drop),
                }
            },
            _ => (Incoming::Finished, IncomingAction::Drop),
        }
    }
}

// ---------------------------------------------------------------------------
// Laws
// ---------------------------------------------------------------------------

/// A post that an event announces is given out, with the first image of its
/// files, exactly where the listener wants it.
pub proof fn law_wanted_posts_are_given_out(
    listener: ListenerState,
    message: WsEvent,
    post: MattermostPost,
    image: Option<Image>,
    states: (Incoming, Incoming, Incoming),
    actions: (IncomingAction, IncomingAction, IncomingAction),
)
    requires
        announced_post(message) is Some,
        message_goes_on(
            listener,
            Incoming::ReadingEvent,
            IncomingEvent::Event(Some(message)),
            states.0,
            actions.0,
        ),
        message_goes_on(
            listener,
            states.0,
            IncomingEvent::Post(Some(post)),
            states.1,
            actions.1,
        ),
        message_goes_on(listener, states.1, IncomingEvent::Image(image), states.2, actions.2),
    ensures
        actions.0 matches IncomingAction::ReadPost(text) && text@ == announced_post(
            message,
        )->Some_0,
        actions.2 is Output <==> listener.wants(post),
        actions.2 matches IncomingAction::Output(value) ==> listener_output(
            post,
            shared_image(image),
            value,
        ),
{
}

/// Whatever the filter, the listener passes none of its own posts on.
pub proof fn law_own_posts_are_skipped(state: ListenerState, post: MattermostPost)
    requires
        post.user_id@ == state.bot_user_id@,
    ensures
        !state.wants(post),
{
}

/// The listener passes a post on exactly where another user wrote it and either
/// no channel is filtered for or the post stands in that channel. Nothing else
/// about the post matters: not its text, nor its thread, files or time.
pub proof fn law_only_author_and_channel_decide(state: ListenerState, post: MattermostPost)
    ensures
        state.wants(post) <==> post.user_id@ != state.bot_user_id@ && (
        state.channel_filter is None || state.channel_filter->0@ == post.channel_id@),
{
}

/// Two posts by the same user in the same channel fare alike.
pub proof fn law_posts_of_one_author_fare_alike(
    state: ListenerState,
    one: MattermostPost,
    other: MattermostPost,
)
    requires
        one.user_id@ == other.user_id@,
        one.channel_id@ == other.channel_id@,
    ensures
        state.wants(one) == state.wants(other),
{
}

/// Without a filter every post of another user is passed on. With one, those in
/// its channel are, and no others.
pub proof fn law_a_filter_keeps_its_channel(
    open: ListenerState,
    filtered: ListenerState,
    post: MattermostPost,
)
    requires
        open.channel_filter is None,
        filtered.channel_filter is Some,
        filtered.bot_user_id@ == open.bot_user_id@,
        post.user_id@ != open.bot_user_id@,
    ensures
        open.wants(post),
        filtered.wants(post) <==> filtered.channel_filter->0@ == post.channel_id@,
{
}

/// What the listener gives out for a post names its author, its channel and
/// itself, and its thread exactly where it stands in one, and holds a message of
/// the user with the post's text and the image that was found. It holds nothing
/// else.
pub proof fn law_listener_output_tells_of_the_post(
    post: MattermostPost,
    image: Option<Arc<Image>>,
    value: AgentValue,
)
    requires
        listener_output(post, image, value),
    ensures
        value is Object,
        ({
            let members = object_members(value->Object_0);
            &&& members.contains_key("user"@)
            &&& members["user"@] == AgentValue::String(post.user_id)
            &&& members.contains_key("channel"@)
            &&& members["channel"@] == AgentValue::String(post.channel_id)
            &&& members.contains_key("post_id"@)
            &&& members["post_id"@] == AgentValue::String(post.id)
            &&& members.contains_key("root_id"@) <==> post.root_id@.len() > 0
            &&& post.root_id@.len() > 0 ==> members["root_id"@] == AgentValue::String(post.root_id)
            &&& members.contains_key("message"@)
            &&& members["message"@] is Message
            &&& members["message"@]->Message_0.content@ == post.message@
            &&& members["message"@]->Message_0.role@ == "user"@
            &&& members["message"@]->Message_0.image == image
            &&& members["message"@]->Message_0.id is None
            &&& members["message"@]->Message_0.tokens is None
            &&& members["message"@]->Message_0.thinking is None
            &&& !members["message"@]->Message_0.streaming
            &&& members["message"@]->Message_0.tool_calls is None
            &&& members["message"@]->Message_0.tool_name is None
            &&& forall|key: Seq<char>| #[trigger]
                members.contains_key(key) ==> key == "message"@ || key == "user"@ || key
                    == "channel"@ || key == "post_id"@ || key == "root_id"@
        }),
{
    reveal_strlit("message");
    reveal_strlit("user");
    reveal_strlit("channel");
    reveal_strlit("post_id");
    reveal_strlit("root_id");
    assert("message"@[0] == 'm' && "user"@[0] == 'u' && "channel"@[0] == 'c' && "post_id"@[0] == 'p'
        && "root_id"@[0] == 'r');
    let message = choose|message: Arc<Message>|
        message@ == listener_message(post, image) && object_members(value->Object_0)
            == #[trigger] listener_members(post, message);
    let members = object_members(value->Object_0);
    assert(members["message"@] == AgentValue::Message(message));
    assert(message@.content == message.content@);
    assert(message@.id is None && message@.thinking is None && message@.tool_name is None);
}

/// An event announces a post exactly where it is called "posted" and the member
/// "post" of its data is a string, and what it announces is that string.
pub proof fn law_posted_events_announce_their_post(event: WsEvent)
    ensures
        announced_post(event) is Some <==> {
            &&& event.event is Some
            &&& event.event->0@ == "posted"@
            &&& event.data is Some
            &&& event.data->0.member("post"@) is Some
            &&& event.data->0.member("post"@)->0 is String
        },
        announced_post(event) is Some ==> announced_post(event)->0 == event.data->0.member(
            "post"@,
        )->0->String_0@,
{
}

/// A message goes its way step by step: the post that it announces is read; a
/// post of another user, in the channel filtered for if any, is searched for an
/// image among all its files, in their order; and whatever the search brings, the
/// post is given out with it. A post that cannot be read is reported, and all else
/// is passed over.
pub proof fn law_message_goes_its_way(
    listener: ListenerState,
    before: Incoming,
    event: IncomingEvent,
    state: Incoming,
    action: IncomingAction,
)
    requires
        message_goes_on(listener, before, event, state, action),
    ensures
        before is ReadingEvent ==> (match event {
            IncomingEvent::Event(Some(message)) if announced_post(message) is Some => {
                &&& state is ReadingPost
                &&& action is ReadPost
                &&& action->ReadPost_0@ == announced_post(message)->0
            },
            _ => state is Finished && action is Drop,
        }),
        before is ReadingPost ==> (match event {
            IncomingEvent::Post(Some(post)) if post.user_id@ != listener.bot_user_id@ && (
            listener.channel_filter is None || listener.channel_filter->0@ == post.channel_id@) => {
                &&& state == Incoming::FindingImage(post)
                &&& action is FindImage
                &&& action->FindImage_0@.len() == post.file_ids@.len()
                &&& forall|i: int|
                    0 <= i < post.file_ids@.len() ==> #[trigger] action->FindImage_0@[i]@
                        == post.file_ids@[i]@
            },
            IncomingEvent::Post(None) => state is Finished && action is ReportBadPost,
            _ => state is Finished && action is Drop,
        }),
        before is FindingImage ==> (match event {
            IncomingEvent::Image(image) => {
                let post = before->FindingImage_0;
                &&& state is Finished
                &&& action is Output
                &&& action->Output_0 is Object
                &&& ({
                    let members = object_members(action->Output_0->Object_0);
                    &&& members.contains_key("user"@)
                    &&& members["user"@] == AgentValue::String(post.user_id)
                    &&& members.contains_key("channel"@)
                    &&& members["channel"@] == AgentValue::String(post.channel_id)
                    &&& members.contains_key("post_id"@)
                    &&& members["post_id"@] == AgentValue::String(post.id)
                    &&& members.contains_key("root_id"@) <==> post.root_id@.len() > 0
                    &&& post.root_id@.len() > 0 ==> members["root_id"@] == AgentValue::String(
                        post.root_id,
                    )
                    &&& members.contains_key("message"@)
                    &&& members["message"@] is Message
                    &&& members["message"@]->Message_0.content@ == post.message@
                    &&& members["message"@]->Message_0.role@ == "user"@
                    &&& members["message"@]->Message_0.image is Some <==> image is Some
                    &&& image is Some ==> *members["message"@]->Message_0.image->0 == image->0
                })
            },
            _ => state is Finished && action is Drop,
        }),
        before is Finished ==> state is Finished && action is Drop,
{
    match (before, event) {
        (Incoming::ReadingPost, IncomingEvent::Post(Some(post))) => {
            if listener.wants(post) {
                let asked = action->FindImage_0@.map_values(|id: String| id@);
                let files = post.file_ids@.map_values(|id: String| id@);
                assert(asked == files);
                assert(asked.len() == action->FindImage_0@.len());
                assert forall|i: int| 0 <= i < post.file_ids@.len() implies #[trigger] action->FindImage_0@[i]@
                    == post.file_ids@[i]@ by {
                    assert(asked[i] == files[i]);
                }
            }
        },
        (Incoming::FindingImage(post), IncomingEvent::Image(image)) => {
            law_listener_output_tells_of_the_post(post, shared_image(image), action->Output_0);
        },
        _ => {},
    }
}

/// A listener for a channel passes on the posts of others in that channel, all of
/// them and no others. A listener for no channel passes on all posts of others.
pub proof fn law_listener_hears_its_channel(
    state: ListenerState,
    bot_user_id: Seq<char>,
    channel_id: Seq<char>,
    post: MattermostPost,
)
    requires
        state.is_for(bot_user_id, channel_id),
    ensures
        channel_id.len() == 0 ==> (state.wants(post) <==> post.user_id@ != bot_user_id),
        channel_id.len() > 0 ==> (state.wants(post) <==> post.user_id@ != bot_user_id
            && post.channel_id@ == channel_id),
{
}

} // verus!
