//! Turning Mattermost messages into chat messages.
use std::sync::Arc;

use vstd::prelude::*;

use crate::api::MattermostPost;
use crate::error::AgentError;
use crate::image::Image;
use crate::listener::{listener_members, listener_message, listener_output};
use crate::post::{invalid_value, or_empty};
use crate::sequences::{lemma_filter_map_places, lemma_filter_map_total};
use crate::value::{
    array_items, member_text, object_members, user_message, AgentArray, AgentValue, Message,
    MessageView,
};

verus! {

/// The chat message for a value: a message as it is, a string as a message of
/// the user, and an object by its message or else by its text. Nothing for any
/// other value.
pub open spec fn message_of(value: AgentValue) -> Option<MessageView> {
    match value {
        AgentValue::String(text) => Some(user_message(text@)),
        AgentValue::Message(message) => Some(message@),
        AgentValue::Object(object) => {
            let members = object_members(object);
            if members.contains_key("message"@) && members["message"@].message() is Some {
                Some(members["message"@].message()->Some_0@)
            } else {
                Some(user_message(or_empty(member_text(object, "text"@))))
            }
        },
        _ => None,
    }
}

/// The chat messages for the items of an array, in order; items that are no
/// message left out.
pub open spec fn messages_of(items: Seq<AgentValue>) -> Seq<MessageView> {
    items.filter_map(|item: AgentValue| message_of(item))
}

/// The error for a value that is no message.
pub open spec fn no_message(error: AgentError) -> bool {
    invalid_value(error, "Expected string, message, or object for Mattermost message"@)
}

/// The chat message for a value; an error where it is no message.
pub fn value_to_message(value: &AgentValue) -> (message: Result<Arc<Message>, AgentError>)
    ensures
        match message {
            Ok(found) => message_of(*value) == Some(found@),
            Err(error) => message_of(*value) is None && no_message(error),
        },
{
    match value {
        AgentValue::String(text) => Ok(Arc::new(Message::user(text.clone()))),
        AgentValue::Message(message) => Ok(message.clone()),
        AgentValue::Object(object) => {
            if let Some(member) = object.get("message") {
                if let Some(message) = member.as_message() {
                    return Ok(message.clone());
                }
            }
            let text = match object.get_str("text") {
                Some(text) => text.to_owned(),
                None => String::new(),
            };
            Ok(Arc::new(Message::user(text)))
        },
        _ => Err(
            AgentError::InvalidValue(
                "Expected string, message, or object for Mattermost message".to_owned(),
            ),
        ),
    }
}

/// The array holds exactly these messages, in this order.
pub open spec fn holds_messages(array: AgentArray, messages: Seq<MessageView>) -> bool {
    &&& array_items(array).len() == messages.len()
    &&& forall|i: int|
        0 <= i < messages.len() ==> #[trigger] array_items(array)[i] is Message
            && array_items(array)[i]->Message_0@ == messages[i]
}

/// The chat messages for the items of an array; items that are no message left
/// out.
fn array_to_messages(array: &AgentArray) -> (messages: AgentArray)
    ensures
        holds_messages(messages, messages_of(array_items(*array))),
{
    let ghost items = array_items(*array);
    let ghost as_message = |item: AgentValue| message_of(item);
    let mut messages = AgentArray::new();
    let len: usize = array.len();
    let mut i: usize = 0;
    while i < len
        invariant
            i <= len,
            len == items.len(),
            items == array_items(*array),
            as_message == (|item: AgentValue| message_of(item)),
            holds_messages(messages, items.take(i as int).filter_map(as_message)),
        decreases len - i,
    {
        proof {
            Seq::lemma_filter_map_take_succ(items, as_message, i as int);
        }
        match array.get(i) {
            Some(item) => {
                if let Ok(message) = value_to_message(item) {
                    messages.push(AgentValue::Message(message));
                }
            },
            None => {},
        }
        i = i + 1;
    }
    assert(items.take(i as int) =~= items);
    messages
}

/// `output` is the chat message for a value, or the chat messages for the items of
/// an array; an error where a value that is no array is no message.
pub open spec fn becomes_messages(value: AgentValue, output: Result<AgentValue, AgentError>) -> bool {
    match value {
        AgentValue::Array(array) => output matches Ok(AgentValue::Array(messages))
            && holds_messages(messages, messages_of(array_items(array))),
        _ => match output {
            Ok(AgentValue::Message(message)) => message_of(value) == Some(message@),
            Ok(_) => false,
            Err(error) => message_of(value) is None && no_message(error),
        },
    }
}

/// The chat message for a value, or the chat messages for the items of an
/// array; an error where a value that is no array is no message.
pub fn to_message(value: &AgentValue) -> (output: Result<AgentValue, AgentError>)
    ensures
        becomes_messages(*value, output),
        match *value {
            AgentValue::Array(array) => output matches Ok(AgentValue::Array(messages))
                && holds_messages(messages, messages_of(array_items(array))),
            _ => match output {
                Ok(AgentValue::Message(message)) => message_of(*value) == Some(message@),
                Ok(_) => false,
                Err(error) => message_of(*value) is None && no_message(error),
            },
        },
{
    match value {
        AgentValue::Array(array) => Ok(AgentValue::Array(array_to_messages(array))),
        _ => match value_to_message(value) {
            Ok(message) => Ok(AgentValue::Message(message)),
            Err(error) => Err(error),
        },
    }
}

/// What the listener gives out becomes the chat message in it, image included.
pub proof fn law_listener_output_becomes_its_message(
    post: MattermostPost,
    image: Option<Arc<Image>>,
    value: AgentValue,
)
    requires
        listener_output(post, image, value),
    ensures
        message_of(value) == Some(listener_message(post, image)),
{
    reveal_strlit("message");
    reveal_strlit("user");
    reveal_strlit("channel");
    reveal_strlit("post_id");
    reveal_strlit("root_id");
    let message = choose|message: Arc<Message>|
        message@ == listener_message(post, image) && object_members(value->Object_0)
            == #[trigger] listener_members(post, message);
    assert("message"@[0] == 'm' && "user"@[0] == 'u' && "channel"@[0] == 'c' && "post_id"@[0] == 'p'
        && "root_id"@[0] == 'r');
    assert(object_members(value->Object_0)["message"@] == AgentValue::Message(message));
}

/// A chat message stays as it is.
pub proof fn law_message_stays_as_it_is(value: AgentValue, message: Arc<Message>)
    requires
        value == AgentValue::Message(message),
    ensures
        message_of(value) == Some(message@),
{
}

/// Where every item of an array is a message, none is left out, and each keeps
/// its place.
pub proof fn law_no_message_is_lost(items: Seq<AgentValue>)
    requires
        forall|i: int| 0 <= i < items.len() ==> message_of(#[trigger] items[i]) is Some,
    ensures
        messages_of(items) == items.map_values(|item: AgentValue| message_of(item)->Some_0),
{
    let as_message = |item: AgentValue| message_of(item);
    lemma_filter_map_total(items, as_message);
    assert(messages_of(items) =~= items.map_values(
        |item: AgentValue| message_of(item)->Some_0,
    ));
}

/// A string becomes a message of the user that says it.
pub proof fn law_string_becomes_a_user_message(value: AgentValue)
    requires
        value is String,
    ensures
        message_of(value) is Some,
        message_of(value)->0.content == value->String_0@,
        message_of(value)->0.role == "user"@,
        message_of(value)->0.image is None,
        message_of(value)->0 == user_message(value->String_0@),
{
}

/// An object becomes the message at its member "message", where that is one, and
/// otherwise a message of the user that says what its member "text" says, or
/// nothing where that is no string.
pub proof fn law_object_becomes_its_message(value: AgentValue)
    requires
        value is Object,
    ensures
        ({
            let members = object_members(value->Object_0);
            &&& message_of(value) is Some
            &&& if members.contains_key("message"@) && members["message"@] is Message {
                message_of(value)->0 == members["message"@]->Message_0@
            } else {
                &&& message_of(value)->0 == user_message(message_of(value)->0.content)
                &&& if members.contains_key("text"@) && members["text"@] is String {
                    message_of(value)->0.content == members["text"@]->String_0@
                } else {
                    message_of(value)->0.content.len() == 0
                }
            }
        }),
{
}

/// A value becomes a message exactly where it is a string, a message or an
/// object.
pub proof fn law_only_three_kinds_become_messages(value: AgentValue)
    ensures
        message_of(value) is Some <==> value is String || value is Message || value is Object,
{
}

/// The messages for an array are those of its strings, messages and objects, all
/// of them, in the order in which they stand in the array; other items are left
/// out.
pub proof fn law_array_becomes_its_messages(items: Seq<AgentValue>, array: AgentArray) -> (places:
    Seq<int>)
    requires
        holds_messages(array, messages_of(items)),
    ensures
        places.len() == array_items(array).len(),
        forall|k: int|
            0 <= k < places.len() ==> 0 <= #[trigger] places[k] < items.len() && array_items(
                array,
            )[k] is Message && message_of(items[places[k]]) == Some(
                array_items(array)[k]->Message_0@,
            ),
        forall|k: int, l: int| 0 <= k < l < places.len() ==> places[k] < places[l],
        forall|i: int|
            0 <= i < items.len() && (#[trigger] items[i] is String || items[i] is Message
                || items[i] is Object) ==> places.contains(i),
{
    let as_message = |item: AgentValue| message_of(item);
    let places = lemma_filter_map_places(items, as_message);
    let messages = messages_of(items);
    assert forall|k: int| 0 <= k < places.len() implies 0 <= #[trigger] places[k] < items.len()
        && array_items(array)[k] is Message && message_of(items[places[k]]) == Some(
        array_items(array)[k]->Message_0@,
    ) by {
        assert(as_message(items[places[k]]) == Some(messages[k]));
        assert(array_items(array)[k] is Message);
    }
    assert forall|i: int|
        0 <= i < items.len() && (#[trigger] items[i] is String || items[i] is Message
            || items[i] is Object) implies places.contains(i) by {
        assert(as_message(items[i]) is Some);
    }
    places
}

/// The error for a value that is no message says what was expected.
pub proof fn law_error_says_what_was_expected(error: AgentError)
    requires
        no_message(error),
    ensures
        error is InvalidValue,
        error->InvalidValue_0@ == "Expected string, message, or object for Mattermost message"@,
{
}

/// A string, a message and an object come out as one message: the string as its
/// content, the message as itself, the object as the message in it or as its text.
/// An array comes out as an array. Any other value is an error.
pub proof fn law_values_come_out_as_messages(
    value: AgentValue,
    output: Result<AgentValue, AgentError>,
)
    requires
        becomes_messages(value, output),
    ensures
        output is Ok <==> value is String || value is Message || value is Object || value is Array,
        value is Array <==> output is Ok && output->Ok_0 is Array,
        value is Array ==> array_items(output->Ok_0->Array_0).len() <= array_items(
            value->Array_0,
        ).len(),
        value is String || value is Message || value is Object ==> output->Ok_0 is Message,
        value is String ==> {
            &&& output->Ok_0->Message_0.content@ == value->String_0@
            &&& output->Ok_0->Message_0.role@ == "user"@
            &&& output->Ok_0->Message_0.image is None
        },
        value is Message ==> output->Ok_0->Message_0@ == value->Message_0@,
        value is Object ==> {
            let members = object_members(value->Object_0);
            let message = output->Ok_0->Message_0;
            if members.contains_key("message"@) && members["message"@] is Message {
                message@ == members["message"@]->Message_0@
            } else {
                &&& message.role@ == "user"@
                &&& message.image is None
                &&& if members.contains_key("text"@) && members["text"@] is String {
                    message.content@ == members["text"@]->String_0@
                } else {
                    message.content@.len() == 0
                }
            }
        },
        output is Err ==> output->Err_0 is InvalidValue && output->Err_0->InvalidValue_0@
            == "Expected string, message, or object for Mattermost message"@,
{
    if value is Array {
        let items = array_items(value->Array_0);
        let as_message = |item: AgentValue| message_of(item);
        let places = lemma_filter_map_places(items, as_message);
        lemma_increasing_within(places, items.len());
    }
}

/// Places that increase are no more than there are.
proof fn lemma_increasing_within(places: Seq<int>, count: nat)
    requires
        forall|k: int| 0 <= k < places.len() ==> 0 <= #[trigger] places[k] < count,
        forall|k: int, l: int| 0 <= k < l < places.len() ==> places[k] < places[l],
    ensures
        places.len() <= count,
    decreases places.len(),
{
    if places.len() > 0 {
        let rest = places.drop_last();
        let last = places[places.len() - 1];
        assert forall|k: int| 0 <= k < rest.len() implies 0 <= #[trigger] rest[k] < last by {
            assert(places[k] < places[places.len() - 1]);
        }
        lemma_increasing_within(rest, last as nat);
    }
}

} // verus!
