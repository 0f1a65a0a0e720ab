//! The values that pass between the agents of a workflow.
use std::sync::Arc;

use vstd::prelude::*;

use crate::image::Image;
use crate::json::JsonValue;

verus! {

/// A call of a tool that a chat message asks for.
#[derive(Debug)]
pub struct ToolCall {
    pub name: String,
    pub parameters: JsonValue,
    pub id: Option<String>,
}

/// A chat message.
#[derive(Debug)]
pub struct Message {
    pub id: Option<String>,
    /// Who speaks: "user", "assistant", "system" or "tool".
    pub role: String,
    pub content: String,
    pub tokens: Option<usize>,
    pub thinking: Option<String>,
    pub streaming: bool,
    pub tool_calls: Option<Vec<ToolCall>>,
    pub tool_name: Option<String>,
    pub image: Option<Arc<Image>>,
}

/// What a chat message says.
#[verifier::ext_equal]
pub struct MessageView {
    pub id: Option<Seq<char>>,
    pub role: Seq<char>,
    pub content: Seq<char>,
    pub tokens: Option<usize>,
    pub thinking: Option<Seq<char>>,
    pub streaming: bool,
    pub tool_calls: Option<Seq<ToolCall>>,
    pub tool_name: Option<Seq<char>>,
    pub image: Option<Arc<Image>>,
}

/// A message of the user with the given content and nothing else.
pub open spec fn user_message(content: Seq<char>) -> MessageView {
    MessageView {
        id: None,
        role: "user"@,
        content,
        tokens: None,
        thinking: None,
        streaming: false,
        tool_calls: None,
        tool_name: None,
        image: None,
    }
}

impl View for Message {
    type V = MessageView;

    open spec fn view(&self) -> MessageView {
        MessageView {
            id: self.id.deep_view(),
            role: self.role@,
            content: self.content@,
            tokens: self.tokens,
            thinking: self.thinking.deep_view(),
            streaming: self.streaming,
            tool_calls: match self.tool_calls {
                Some(calls) => Some(calls@),
                None => None,
            },
            tool_name: self.tool_name.deep_view(),
            image: self.image,
        }
    }
}

impl Message {
    /// A message of the user with the given content and nothing else.
    pub fn user(content: String) -> (message: Message)
        ensures
            message@ == user_message(content@),
    {
        Message {
            id: None,
            role: "user".to_owned(),
            content,
            tokens: None,
            thinking: None,
            streaming: false,
            tool_calls: None,
            tool_name: None,
            image: None,
        }
    }
}

/// A value that an agent takes or gives.
pub enum AgentValue {
    Unit,
    Boolean(bool),
    Integer(i64),
    String(String),
    Image(Arc<Image>),
    Array(AgentArray),
    Object(AgentObject),
    Message(Arc<Message>),
    /// Any other value (a number, a tensor, an error), as JSON text.
    Json(String),
}

impl Clone for AgentValue {
    fn clone(&self) -> (copy: Self)
        ensures
            copy == *self,
    {
        match self {
            AgentValue::Unit => AgentValue::Unit,
            AgentValue::Boolean(flag) => AgentValue::Boolean(*flag),
            AgentValue::Integer(number) => AgentValue::Integer(*number),
            AgentValue::String(text) => AgentValue::String(text.clone()),
            AgentValue::Image(image) => AgentValue::Image(image.clone()),
            AgentValue::Array(array) => AgentValue::Array(array.clone()),
            AgentValue::Object(object) => AgentValue::Object(object.clone()),
            AgentValue::Message(message) => AgentValue::Message(message.clone()),
            AgentValue::Json(text) => AgentValue::Json(text.clone()),
        }
    }
}

impl AgentValue {
    /// The text of a string; nothing for any other value.
    pub open spec fn text(&self) -> Option<Seq<char>> {
        match *self {
            AgentValue::String(text) => Some(text@),
            _ => None,
        }
    }

    /// The message that this value is; nothing for any other value.
    pub open spec fn message(&self) -> Option<Arc<Message>> {
        match *self {
            AgentValue::Message(message) => Some(message),
            _ => None,
        }
    }

    /// The text of a string; nothing for any other value.
    pub fn as_str(&self) -> (found: Option<&str>)
        ensures
            match found {
                Some(text) => self.text() == Some(text@),
                None => self.text() is None,
            },
    {
        match self {
            AgentValue::String(text) => Some(text.as_str()),
            _ => None,
        }
    }

    /// The message that this value is; nothing for any other value.
    pub fn as_message(&self) -> (found: Option<&Arc<Message>>)
        ensures
            match found {
                Some(message) => self.message() == Some(*message),
                None => self.message() is None,
            },
    {
        match self {
            AgentValue::Message(message) => Some(message),
            _ => None,
        }
    }
}

/// The members of an object, by their keys.
#[verifier::external_body]
pub struct AgentObject {
    map: im::HashMap<String, AgentValue>,
}

/// What an object holds.
pub uninterp spec fn object_members(object: AgentObject) -> Map<Seq<char>, AgentValue>;

/// No members.
pub open spec fn no_members() -> Map<Seq<char>, AgentValue> {
    Map::empty()
}

/// The text of the member `key`; nothing where there is no such member or it is
/// no string.
pub open spec fn member_text(object: AgentObject, key: Seq<char>) -> Option<Seq<char>> {
    if object_members(object).contains_key(key) {
        object_members(object)[key].text()
    } else {
        None
    }
}

/// An object without members, made by `im::HashMap::new`.
///
/// Trusted: it holds nothing.
#[verifier::external_body]
fn object_new() -> (object: AgentObject)
    ensures
        object_members(object) == no_members(),
{
    AgentObject { map: im::HashMap::new() }
}

/// Puts a member into an object, with `im::HashMap::insert`.
///
/// Trusted: afterwards the object holds `value` at `key`, and at every other
/// key what it held before.
#[verifier::external_body]
fn object_insert(object: &mut AgentObject, key: &str, value: AgentValue)
    ensures
        object_members(*final(object)) == object_members(*old(object)).insert(key@, value),
{
    object.map.insert(key.to_string(), value);
}

/// Looks a member up, with `im::HashMap::get`.
///
/// Trusted: what comes back is what the object holds at `key`.
#[verifier::external_body]
fn object_get<'a>(object: &'a AgentObject, key: &str) -> (found: Option<&'a AgentValue>)
    ensures
        match found {
            Some(value) => object_members(*object).contains_key(key@) && *value == object_members(
                *object,
            )[key@],
            None => !object_members(*object).contains_key(key@),
        },
{
    object.map.get(key)
}

/// The keys of an object, from `im::HashMap::keys`.
///
/// Trusted: each key of the object comes once, and no other. In which order
/// they come stays unsaid: it changes from run to run.
#[verifier::external_body]
fn object_keys(object: &AgentObject) -> (keys: Vec<String>)
    ensures
        forall|i: int|
            0 <= i < keys@.len() ==> object_members(*object).contains_key(#[trigger] keys@[i]@),
        forall|key: Seq<char>| #[trigger]
            object_members(*object).contains_key(key) ==> exists|i: int|
                0 <= i < keys@.len() && keys@[i]@ == key,
        forall|i: int, j: int| 0 <= i < j < keys@.len() ==> keys@[i]@ != keys@[j]@,
{
    object.map.keys().cloned().collect()
}

impl Clone for AgentObject {
    /// A copy, made by `im::HashMap::clone`.
    ///
    /// Trusted: the copy is the same object.
    #[verifier::external_body]
    fn clone(&self) -> (copy: Self)
        ensures
            copy == *self,
    {
        AgentObject { map: self.map.clone() }
    }
}

impl AgentObject {
    /// An object without members.
    pub fn new() -> (object: AgentObject)
        ensures
            object_members(object) == no_members(),
    {
        object_new()
    }

    /// Puts `value` at `key`, in place of what is there, if anything.
    pub fn insert(&mut self, key: &str, value: AgentValue)
        ensures
            object_members(*final(self)) == object_members(*old(self)).insert(key@, value),
    {
        object_insert(self, key, value);
    }

    /// The member at `key`, if there is one.
    pub fn get(&self, key: &str) -> (found: Option<&AgentValue>)
        ensures
            match found {
                Some(value) => object_members(*self).contains_key(key@) && *value
                    == object_members(*self)[key@],
                None => !object_members(*self).contains_key(key@),
            },
    {
        object_get(self, key)
    }

    /// The text of the member `key`; nothing where there is no such member or it
    /// is no string.
    pub fn get_str(&self, key: &str) -> (found: Option<&str>)
        ensures
            match found {
                Some(text) => member_text(*self, key@) == Some(text@),
                None => member_text(*self, key@) is None,
            },
    {
        match self.get(key) {
            Some(value) => value.as_str(),
            None => None,
        }
    }

    /// The keys of the members, each once, in some order.
    pub fn keys(&self) -> (keys: Vec<String>)
        ensures
            forall|i: int|
                0 <= i < keys@.len() ==> object_members(*self).contains_key(#[trigger] keys@[i]@),
            forall|key: Seq<char>| #[trigger]
                object_members(*self).contains_key(key) ==> exists|i: int|
                    0 <= i < keys@.len() && keys@[i]@ == key,
            forall|i: int, j: int| 0 <= i < j < keys@.len() ==> keys@[i]@ != keys@[j]@,
    {
        object_keys(self)
    }
}

/// The items of an array, in order.
#[verifier::external_body]
pub struct AgentArray {
    items: im::Vector<AgentValue>,
}

/// What an array holds.
pub uninterp spec fn array_items(array: AgentArray) -> Seq<AgentValue>;

/// An array without items, made by `im::Vector::new`.
///
/// Trusted: it holds nothing.
#[verifier::external_body]
fn array_new() -> (array: AgentArray)
    ensures
        array_items(array) == Seq::<AgentValue>::empty(),
{
    AgentArray { items: im::Vector::new() }
}

/// Puts an item behind the others, with `im::Vector::push_back`.
///
/// Trusted: afterwards the array holds what it held, and then `value`.
#[verifier::external_body]
fn array_push(array: &mut AgentArray, value: AgentValue)
    ensures
        array_items(*final(array)) == array_items(*old(array)).push(value),
{
    array.items.push_back(value);
}

/// The number of items, from `im::Vector::len`.
///
/// Trusted: it is the number of items that the array holds.
#[verifier::external_body]
fn array_len(array: &AgentArray) -> (len: usize)
    ensures
        len == array_items(*array).len(),
{
    array.items.len()
}

/// The item at a position, from `im::Vector::get`.
///
/// Trusted: what comes back is what the array holds at `index`, and nothing
/// behind its end.
#[verifier::external_body]
fn array_get(array: &AgentArray, index: usize) -> (found: Option<&AgentValue>)
    ensures
        match found {
            Some(value) => index < array_items(*array).len() && *value == array_items(
                *array,
            )[index as int],
            None => index >= array_items(*array).len(),
        },
{
    array.items.get(index)
}

impl Clone for AgentArray {
    /// A copy, made by `im::Vector::clone`.
    ///
    /// Trusted: the copy is the same array.
    #[verifier::external_body]
    fn clone(&self) -> (copy: Self)
        ensures
            copy == *self,
    {
        AgentArray { items: self.items.clone() }
    }
}

impl AgentArray {
    /// An array without items.
    pub fn new() -> (array: AgentArray)
        ensures
            array_items(array) == Seq::<AgentValue>::empty(),
    {
        array_new()
    }

    /// Puts `value` behind the other items.
    pub fn push(&mut self, value: AgentValue)
        ensures
            array_items(*final(self)) == array_items(*old(self)).push(value),
    {
        array_push(self, value);
    }

    /// The number of items.
    pub fn len(&self) -> (len: usize)
        ensures
            len == array_items(*self).len(),
    {
        array_len(self)
    }

    /// The item at `index`; nothing behind the end of the array.
    pub fn get(&self, index: usize) -> (found: Option<&AgentValue>)
        ensures
            match found {
                Some(value) => index < array_items(*self).len() && *value
                    == array_items(*self)[index as int],
                None => index >= array_items(*self).len(),
            },
    {
        array_get(self, index)
    }
}

/// What a message shows is all of it: each part comes from its own field.
pub proof fn law_message_shows_all_its_parts(message: Message)
    ensures
        message@.role == message.role@,
        message@.content == message.content@,
        message@.tokens == message.tokens,
        message@.streaming == message.streaming,
        message@.image == message.image,
        message@.id == (match message.id {
            Some(id) => Some(id@),
            None => None,
        }),
        message@.thinking == (match message.thinking {
            Some(thinking) => Some(thinking@),
            None => None,
        }),
        message@.tool_name == (match message.tool_name {
            Some(name) => Some(name@),
            None => None,
        }),
        message@.tool_calls == (match message.tool_calls {
            Some(calls) => Some(calls@),
            None => None,
        }),
{
}

/// A message of the user says what it is given, in the role of the user, and
/// nothing else.
pub proof fn law_user_message_says_its_content(content: Seq<char>)
    ensures
        user_message(content).content == content,
        user_message(content).role == seq!['u', 's', 'e', 'r'],
        user_message(content).image is None,
        user_message(content).id is None,
        user_message(content).tokens is None,
        user_message(content).thinking is None,
        user_message(content).tool_calls is None,
        user_message(content).tool_name is None,
        !user_message(content).streaming,
{
    reveal_strlit("user");
    assert("user"@ =~= seq!['u', 's', 'e', 'r']);
}

/// Of all values only a string has a text, its own, and only a message is a
/// message, itself.
pub proof fn law_values_are_read_by_their_kind(value: AgentValue)
    ensures
        value.text() is Some <==> value is String,
        value matches AgentValue::String(text) ==> value.text() == Some(text@),
        value.message() is Some <==> value is Message,
        value matches AgentValue::Message(message) ==> value.message() == Some(message),
{
}

/// A member has a text exactly where it is there and is a string, and then it is
/// that string's.
pub proof fn law_member_text_is_the_strings(object: AgentObject, key: Seq<char>)
    ensures
        member_text(object, key) is Some <==> object_members(object).contains_key(key)
            && object_members(object)[key] is String,
        member_text(object, key) is Some ==> member_text(object, key)->0 == object_members(
            object,
        )[key]->String_0@,
{
}

/// A new object has no members.
pub proof fn law_no_members_are_none()
    ensures
        forall|key: Seq<char>| !#[trigger] no_members().contains_key(key),
{
}

} // verus!
