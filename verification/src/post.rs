//! Posting: what a value says as a post, and the requests that post it.
use std::sync::Arc;

use vstd::prelude::*;

use crate::api::{CreatePostRequest, FileInfo, FileUploadResponse, MattermostPost};
use crate::client::{HttpRequest, MattermostClient, RequestView};
use crate::error::AgentError;
use crate::image::{data_url, image_data_url, png_bytes, png_file, Image, ImageView};
use crate::json::{pretty_json, pretty_json_text};
use crate::sequences::{lemma_filter_map_places, lemma_filter_map_total};
use crate::text::{concat3, join_lines, joined_lines, signed_decimal, signed_decimal_text};
use crate::value::{
    array_items, member_text, no_members, object_members, AgentArray, AgentObject, AgentValue,
};

verus! {

// ---------------------------------------------------------------------------
// What a value says
// ---------------------------------------------------------------------------

/// What an item of an array says; nothing where it is neither a string nor a
/// message.
pub open spec fn item_text(item: AgentValue) -> Option<Seq<char>> {
    match item {
        AgentValue::String(text) => Some(text@),
        AgentValue::Message(message) => Some(message.content@),
        _ => None,
    }
}

/// What the items of an array say, in order; those that say nothing left out.
pub open spec fn item_texts(items: Seq<AgentValue>) -> Seq<Seq<char>> {
    items.filter_map(|item: AgentValue| item_text(item))
}

/// A text as a block of code.
pub open spec fn code_block(text: Seq<char>) -> Seq<char> {
    "```\n"@ + text + "\n```"@
}

/// A text, or the empty text where there is none.
pub open spec fn or_empty(text: Option<Seq<char>>) -> Seq<char> {
    match text {
        Some(found) => found,
        None => Seq::empty(),
    }
}

/// The text in quotation marks.
pub open spec fn quoted(text: Seq<char>) -> Seq<char> {
    "\""@ + text + "\""@
}

/// What a value says as a post: a text as it is, the lines of an array, and any
/// other value as a block of JSON.
pub open spec fn message_text(value: AgentValue) -> Seq<char> {
    match value {
        AgentValue::String(text) => text@,
        AgentValue::Message(message) => message.content@,
        AgentValue::Object(object) => or_empty(member_text(object, "text"@)),
        AgentValue::Array(array) => joined_lines(item_texts(array_items(array))),
        AgentValue::Unit => code_block("null"@),
        AgentValue::Boolean(flag) => code_block(
            if flag {
                "true"@
            } else {
                "false"@
            },
        ),
        AgentValue::Integer(number) => code_block(signed_decimal(number as int)),
        AgentValue::Image(image) => code_block(
            or_empty(pretty_json_text(quoted(data_url(image@)))),
        ),
        AgentValue::Json(text) => code_block(or_empty(pretty_json_text(text@))),
    }
}

/// The thread that a value answers in; nothing where it names none.
pub open spec fn thread_root(value: AgentValue) -> Option<Seq<char>> {
    match value {
        AgentValue::Object(object) => member_text(object, "root_id"@),
        _ => None,
    }
}

/// What the items of an array say, in order; those that say nothing left out.
fn texts_of(array: &AgentArray) -> (texts: Vec<String>)
    ensures
        texts@.map_values(|text: String| text@) == item_texts(array_items(*array)),
{
    let ghost items = array_items(*array);
    let ghost says = |item: AgentValue| item_text(item);
    let mut texts: Vec<String> = Vec::new();
    let len: usize = array.len();
    let mut i: usize = 0;
    assert(items.take(0).filter_map(says) =~= Seq::empty()) by {
        reveal(Seq::filter_map);
    }
    while i < len
        invariant
            i <= len,
            len == items.len(),
            items == array_items(*array),
            says == (|item: AgentValue| item_text(item)),
            texts@.map_values(|text: String| text@) == items.take(i as int).filter_map(says),
        decreases len - i,
    {
        let ghost before = texts@.map_values(|text: String| text@);
        proof {
            Seq::lemma_filter_map_take_succ(items, says, i as int);
        }
        match array.get(i) {
            Some(item) => {
                if let Some(text) = item.as_str() {
                    texts.push(text.to_owned());
                    assert(texts@.map_values(|text: String| text@) =~= before.push(text@));
                } else if let Some(message) = item.as_message() {
                    texts.push(message.content.clone());
                    assert(texts@.map_values(|text: String| text@) =~= before.push(
                        message.content@,
                    ));
                }
            },
            None => {},
        }
        i = i + 1;
    }
    assert(items.take(i as int) =~= items);
    texts
}

/// A document as a block of code; an empty block where there is none.
pub fn code_block_of(document: Option<String>) -> (block: String)
    ensures
        block@ == code_block(or_empty(document.deep_view())),
{
    let text = match document {
        Some(text) => text,
        None => String::new(),
    };
    concat3("```\n", text.as_str(), "\n```")
}

/// The text in quotation marks.
pub fn quote(text: &str) -> (quotation: String)
    ensures
        quotation@ == quoted(text@),
{
    concat3("\"", text, "\"")
}

/// The JSON text of a value that is shown as a block of JSON.
fn json_text(value: &AgentValue) -> (text: Option<String>)
    requires
        value matches AgentValue::Image(image) ==> image.writable(),
    ensures
        match *value {
            AgentValue::Unit => text matches Some(json) && json@ == "null"@,
            AgentValue::Boolean(flag) => text matches Some(json) && json@ == if flag {
                "true"@
            } else {
                "false"@
            },
            AgentValue::Integer(number) => text matches Some(json) && json@ == signed_decimal(
                number as int,
            ),
            AgentValue::Image(image) => text matches Some(json) && json@ == quoted(
                data_url(image@),
            ),
            AgentValue::Json(document) => text matches Some(json) && json@ == document@,
            _ => text is None,
        },
{
    match value {
        AgentValue::Unit => Some("null".to_owned()),
        AgentValue::Boolean(flag) => if *flag {
            Some("true".to_owned())
        } else {
            Some("false".to_owned())
        },
        AgentValue::Integer(number) => Some(signed_decimal_text(*number)),
        AgentValue::Image(image) => {
            let url = image_data_url(image);
            Some(quote(url.as_str()))
        },
        AgentValue::Json(document) => Some(document.clone()),
        _ => None,
    }
}

/// What a value says as a post, and the thread that it answers in.
pub fn extract_message_content(value: &AgentValue) -> (content: (String, Option<String>))
    requires
        value matches AgentValue::Image(image) ==> image.writable(),
    ensures
        content.0@ == message_text(*value),
        content.1.deep_view() == thread_root(*value),
{
    match value {
        AgentValue::String(text) => (text.clone(), None),
        AgentValue::Message(message) => (message.content.clone(), None),
        AgentValue::Object(object) => {
            let text = match object.get_str("text") {
                Some(text) => text.to_owned(),
                None => String::new(),
            };
            let root_id = match object.get_str("root_id") {
                Some(root_id) => Some(root_id.to_owned()),
                None => None,
            };
            (text, root_id)
        },
        AgentValue::Array(array) => {
            let texts = texts_of(array);
            (join_lines(&texts), None)
        },
        _ => {
            let document = match json_text(value) {
                Some(json) => pretty_json(json.as_str()),
                None => None,
            };
            (code_block_of(document), None)
        },
    }
}

// ---------------------------------------------------------------------------
// Posts
// ---------------------------------------------------------------------------

/// The error for a setting or a value that cannot be used.
pub open spec fn invalid_value(error: AgentError, reason: Seq<char>) -> bool {
    error matches AgentError::InvalidValue(text) && text@ == reason
}

/// Whether a channel is configured; the error where none is.
pub fn check_channel_id(channel_id: &str) -> (checked: Result<(), AgentError>)
    ensures
        match checked {
            Ok(()) => channel_id@.len() > 0,
            Err(error) => channel_id@.len() == 0 && invalid_value(
                error,
                "Channel ID not configured"@,
            ),
        },
{
    if channel_id.is_empty() {
        Err(AgentError::InvalidValue("Channel ID not configured".to_owned()))
    } else {
        Ok(())
    }
}

/// The image of a value that is posted as an image; nothing for any other.
pub open spec fn posted_image(value: AgentValue) -> Option<Arc<Image>> {
    match value {
        AgentValue::Image(image) => Some(image),
        AgentValue::Message(message) => message.image,
        _ => None,
    }
}

/// The message that goes with the image of a value; nothing for an empty one.
pub open spec fn caption(value: AgentValue) -> Option<Seq<char>> {
    match value {
        AgentValue::Message(message) => if message.content@.len() > 0 {
            Some(message.content@)
        } else {
            None
        },
        _ => None,
    }
}

/// `request` posts `text` to a channel, in the thread `root_id` where there is
/// one, with the given files.
pub open spec fn posts(
    request: CreatePostRequest,
    channel_id: Seq<char>,
    text: Seq<char>,
    root_id: Option<Seq<char>>,
    file_ids: Seq<Seq<char>>,
) -> bool {
    &&& request.channel_id@ == channel_id
    &&& request.message@ == text
    &&& request.root_id.deep_view() == root_id
    &&& request.file_ids@.map_values(|id: String| id@) == file_ids
}

/// The name of the file for an image that is uploaded `millis` milliseconds
/// after the beginning of 1970.
pub open spec fn image_file_name(millis: i64) -> Seq<char> {
    "image_"@ + signed_decimal(millis as int) + ".png"@
}

/// The time in milliseconds since the beginning of 1970, from `chrono::Utc::now`
/// and `chrono::DateTime::timestamp_millis`.
///
/// Trusted: nothing. The time is what the machine's clock says. The call panics
/// where that clock stands before 1970.
#[verifier::external_body]
fn now_millis() -> (millis: i64) {
    chrono::Utc::now().timestamp_millis()
}

/// The request that uploads an image to a channel, under a name with the time
/// `millis`.
pub open spec fn image_upload(
    client: MattermostClient,
    image: ImageView,
    channel_id: Seq<char>,
    millis: i64,
) -> RequestView {
    client.upload_view(channel_id, image_file_name(millis), png_file(image), "image/png"@)
}

/// Uploads an image to a channel, under a name with the time `millis`.
pub fn upload_image_at<'a>(
    client: &MattermostClient,
    image: &Image,
    channel_id: &str,
    millis: i64,
) -> (request: HttpRequest<'a>)
    requires
        image.writable(),
    ensures
        request@ == image_upload(*client, image@, channel_id@, millis),
        request@ == client.upload_view(
            channel_id@,
            image_file_name(millis),
            png_file(image@),
            "image/png"@,
        ),
{
    let bytes = png_bytes(image);
    let number = signed_decimal_text(millis);
    let file_name = concat3("image_", number.as_str(), ".png");
    client.upload_file(channel_id, file_name.as_str(), bytes, "image/png")
}

/// Uploads an image to a channel, under a name with the present time.
pub fn upload_image<'a>(client: &MattermostClient, image: &Image, channel_id: &str) -> (request:
    HttpRequest<'a>)
    requires
        image.writable(),
    ensures
        exists|millis: i64|
            request@ == client.upload_view(
                channel_id@,
                #[trigger] image_file_name(millis),
                png_file(image@),
                "image/png"@,
            ),
{
    let millis: i64 = now_millis();
    upload_image_at(client, image, channel_id, millis)
}

/// The ids of files that were uploaded, in their order.
pub open spec fn file_ids_of(uploaded: FileUploadResponse) -> Seq<Seq<char>> {
    uploaded.file_infos@.map_values(|info: FileInfo| info.id@)
}

/// The post for files that were uploaded, with all of them in their order.
pub fn uploaded_post(
    uploaded: &FileUploadResponse,
    channel_id: &str,
    message: Option<String>,
    root_id: Option<String>,
) -> (request: CreatePostRequest)
    ensures
        posts(
            request,
            channel_id@,
            or_empty(message.deep_view()),
            root_id.deep_view(),
            file_ids_of(*uploaded),
        ),
        request.file_ids@.len() == uploaded.file_infos@.len(),
        forall|i: int|
            0 <= i < uploaded.file_infos@.len() ==> #[trigger] request.file_ids@[i]@
                == uploaded.file_infos@[i].id@,
{
    let mut file_ids: Vec<String> = Vec::new();
    let mut i: usize = 0;
    while i < uploaded.file_infos.len()
        invariant
            i <= uploaded.file_infos@.len(),
            file_ids@.len() == i,
            forall|j: int| 0 <= j < i ==> file_ids@[j]@ == uploaded.file_infos@[j].id@,
        decreases uploaded.file_infos@.len() - i,
    {
        file_ids.push(uploaded.file_infos[i].id.clone());
        i = i + 1;
    }
    let message = match message {
        Some(text) => text,
        None => String::new(),
    };
    let request = CreatePostRequest {
        channel_id: channel_id.to_owned(),
        message,
        root_id,
        file_ids,
    };
    assert(request.file_ids@.map_values(|id: String| id@) =~= file_ids_of(*uploaded));
    request
}

/// The members of what is given out for a post that was made.
pub open spec fn result_members(post: MattermostPost) -> Map<Seq<char>, AgentValue> {
    no_members().insert("ok"@, AgentValue::Boolean(true)).insert(
        "post_id"@,
        AgentValue::String(post.id),
    ).insert("channel"@, AgentValue::String(post.channel_id))
}

/// What is given out for a post that was made: that it was, its id and its
/// channel.
pub fn post_result(post: &MattermostPost) -> (result: AgentValue)
    ensures
        result matches AgentValue::Object(object) && object_members(object) == result_members(
            *post,
        ),
{
    let mut object = AgentObject::new();
    object.insert("ok", AgentValue::Boolean(true));
    object.insert("post_id", AgentValue::String(post.id.clone()));
    object.insert("channel", AgentValue::String(post.channel_id.clone()));
    AgentValue::Object(object)
}

// ---------------------------------------------------------------------------
// The way of a value into a channel
// ---------------------------------------------------------------------------

/// How far a value is on its way into a channel.
#[derive(Debug)]
pub enum PostFlow {
    /// Its image is uploaded to the channel; the message, if any, goes with it.
    Uploading { channel_id: String, message: Option<String> },
    /// The post is made.
    Creating,
    /// It is over.
    Finished,
}

/// What happens to a value on its way into a channel.
#[derive(Debug)]
pub enum PostEvent {
    /// The image was uploaded.
    Uploaded(FileUploadResponse),
    /// The post was made.
    Created(MattermostPost),
    /// What was tried failed.
    Failed(AgentError),
}

/// What is done next with a value on its way into a channel.
pub enum PostAction {
    /// Upload this image.
    Upload(Arc<Image>),
    /// Make this post.
    Create(CreatePostRequest),
    /// Give this value out.
    Output(AgentValue),
    /// Give up with this error.
    Fail(AgentError),
    /// Do nothing.
    Nothing,
}

/// How a value sets out for a channel: as an image where it is one or has one,
/// else as what it says; and not at all where no channel is configured.
pub open spec fn post_begins(
    channel_id: Seq<char>,
    value: AgentValue,
    state: PostFlow,
    action: PostAction,
) -> bool {
    if channel_id.len() == 0 {
        &&& state is Finished
        &&& action matches PostAction::Fail(error) && invalid_value(
            error,
            "Channel ID not configured"@,
        )
    } else {
        match posted_image(value) {
            Some(image) => {
                &&& state matches PostFlow::Uploading { channel_id: channel, message }
                    && channel@ == channel_id && message.deep_view() == caption(value)
                &&& action == PostAction::Upload(image)
            },
            None => {
                &&& state is Creating
                &&& action matches PostAction::Create(request) && posts(
                    request,
                    channel_id,
                    message_text(value),
                    thread_root(value),
                    Seq::empty(),
                )
            },
        }
    }
}

/// How a value goes on after an event: an image that was uploaded goes into a
/// post, what is given out for a post that was made names it, and an error ends
/// the way. An event that cannot come changes nothing.
pub open spec fn post_goes_on(
    before: PostFlow,
    event: PostEvent,
    state: PostFlow,
    action: PostAction,
) -> bool {
    match (before, event) {
        (PostFlow::Uploading { channel_id, message }, PostEvent::Uploaded(uploaded)) => {
            &&& state is Creating
            &&& action matches PostAction::Create(request) && posts(
                request,
                channel_id@,
                or_empty(message.deep_view()),
                None,
                file_ids_of(uploaded),
            )
        },
        (PostFlow::Creating, PostEvent::Created(post)) => {
            &&& state is Finished
            &&& action matches PostAction::Output(AgentValue::Object(object)) && object_members(
                object,
            ) == result_members(post)
        },
        (PostFlow::Uploading { .. }, PostEvent::Failed(error)) => state is Finished && action
            == PostAction::Fail(error),
        (PostFlow::Creating, PostEvent::Failed(error)) => state is Finished && action
            == PostAction::Fail(error),
        _ => state == before && action is Nothing,
    }
}

impl PostFlow {
    /// Sends a value on its way into a channel.
    pub fn begin(channel_id: &str, value: &AgentValue) -> (begun: (PostFlow, PostAction))
        ensures
            post_begins(channel_id@, *value, begun.0, begun.1),
    {
        if let Err(error) = check_channel_id(channel_id) {
            return (PostFlow::Finished, PostAction::Fail(error));
        }
        match value {
            AgentValue::Image(image) => {
                let state = PostFlow::Uploading {
                    channel_id: channel_id.to_owned(),
                    message: None,
                };
                return (state, PostAction::Upload(image.clone()));
            },
            AgentValue::Message(message) => {
                if let Some(image) = &message.image {
                    let caption = if message.content.as_str().is_empty() {
                        None
                    } else {
                        Some(message.content.clone())
                    };
                    let state = PostFlow::Uploading {
                        channel_id: channel_id.to_owned(),
                        message: caption,
                    };
                    return (state, PostAction::Upload(image.clone()));
                }
            },
            _ => {},
        }
        let (message, root_id) = extract_message_content(value);
        let request = CreatePostRequest {
            channel_id: channel_id.to_owned(),
            message,
            root_id,
            file_ids: Vec::new(),
        };
        assert(request.file_ids@.map_values(|id: String| id@) =~= Seq::empty());
        (PostFlow::Creating, PostAction::Create(request))
    }

    /// Takes an event in, and says what is to be done next.
    pub fn step(self, event: PostEvent) -> (next: (PostFlow, PostAction))
        ensures
            post_goes_on(self, event, next.0, next.1),
    {
        match (self, event) {
            (PostFlow::Uploading { channel_id, message }, PostEvent::Uploaded(uploaded)) => {
                let request = uploaded_post(&uploaded, channel_id.as_str(), message, None);
                (PostFlow::Creating, PostAction::Create(request))
            },
            (PostFlow::Creating, PostEvent::Created(post)) => (
                PostFlow::Finished,
                PostAction::Output(post_result(&post)),
            ),
            (PostFlow::Uploading { .. }, PostEvent::Failed(error)) => (
                PostFlow::Finished,
                PostAction::Fail(error),
            ),
            (PostFlow::Creating, PostEvent::Failed(error)) => (
                PostFlow::Finished,
                PostAction::Fail(error),
            ),
            (state, _) => (state, PostAction::Nothing),
        }
    }
}

// ---------------------------------------------------------------------------
// Laws
// ---------------------------------------------------------------------------

/// Text goes into a post as it is, Markdown included: that of a string, of a
/// message, and of an object with a text.
pub proof fn law_text_is_posted_as_it_is(value: AgentValue, text: Seq<char>)
    requires
        ({
            ||| value.text() == Some(text)
            ||| value matches AgentValue::Message(message) && message.content@ == text
            ||| value matches AgentValue::Object(object) && member_text(object, "text"@) == Some(
                text,
            )
        }),
    ensures
        message_text(value) == text,
{
}

/// An image, alone or in a message, ends up in a post of the same channel, with
/// every file of its upload and with the text of the message, in no thread.
pub proof fn law_image_is_attached_to_its_post(
    channel_id: Seq<char>,
    value: AgentValue,
    state: PostFlow,
    action: PostAction,
    uploaded: FileUploadResponse,
    next: PostFlow,
    last_action: PostAction,
)
    requires
        channel_id.len() > 0,
        posted_image(value) is Some,
        post_begins(channel_id, value, state, action),
        post_goes_on(state, PostEvent::Uploaded(uploaded), next, last_action),
    ensures
        action == PostAction::Upload(posted_image(value)->Some_0),
        last_action is Create,
        posts(
            last_action->Create_0,
            channel_id,
            match value {
                AgentValue::Message(message) => message.content@,
                _ => Seq::empty(),
            },
            None,
            file_ids_of(uploaded),
        ),
{
    if let AgentValue::Message(message) = value {
        assert(message.content@.len() == 0 ==> message.content@ =~= Seq::empty());
    }
}

/// What is given out for a post that was made says that it was, and names it
/// and its channel.
pub proof fn law_result_names_the_post(post: MattermostPost)
    ensures
        result_members(post).contains_key("ok"@),
        result_members(post)["ok"@] == AgentValue::Boolean(true),
        result_members(post).contains_key("post_id"@),
        result_members(post)["post_id"@] == AgentValue::String(post.id),
        result_members(post).contains_key("channel"@),
        result_members(post)["channel"@] == AgentValue::String(post.channel_id),
{
    reveal_strlit("ok");
    reveal_strlit("post_id");
    reveal_strlit("channel");
    assert("ok"@[0] == 'o' && "post_id"@[0] == 'p' && "channel"@[0] == 'c');
}

/// The lines of a post from an array are what its strings and messages say:
/// where all items are such, each has its place, in order.
pub proof fn law_array_posts_every_text(array: AgentArray)
    requires
        forall|i: int|
            0 <= i < array_items(array).len() ==> item_text(#[trigger] array_items(array)[i])
                is Some,
    ensures
        message_text(AgentValue::Array(array)) == joined_lines(
            array_items(array).map_values(|item: AgentValue| item_text(item)->Some_0),
        ),
{
    let items = array_items(array);
    let says = |item: AgentValue| item_text(item);
    lemma_filter_map_total(items, says);
    assert(item_texts(items) =~= items.map_values(|item: AgentValue| item_text(item)->Some_0));
}

/// The post for an upload names every file of the upload, each at its place, and
/// no other.
pub proof fn law_post_names_every_uploaded_file(
    before: PostFlow,
    uploaded: FileUploadResponse,
    state: PostFlow,
    action: PostAction,
)
    requires
        before is Uploading,
        post_goes_on(before, PostEvent::Uploaded(uploaded), state, action),
    ensures
        state is Creating,
        action is Create,
        action->Create_0.file_ids@.len() == uploaded.file_infos@.len(),
        forall|i: int|
            0 <= i < uploaded.file_infos@.len() ==> #[trigger] action->Create_0.file_ids@[i]@
                == uploaded.file_infos@[i].id@,
        action->Create_0.channel_id@ == before->Uploading_channel_id@,
        action->Create_0.message@ == (match before->Uploading_message {
            Some(text) => text@,
            None => Seq::empty(),
        }),
        action->Create_0.root_id is None,
{
    let named = action->Create_0.file_ids@.map_values(|id: String| id@);
    assert(named == uploaded.file_infos@.map_values(|info: FileInfo| info.id@));
    assert(action->Create_0.file_ids@.len() == named.len());
    assert forall|i: int| 0 <= i < uploaded.file_infos@.len() implies #[trigger] action->Create_0.file_ids@[i]@
        == uploaded.file_infos@[i].id@ by {
        assert(named[i] == action->Create_0.file_ids@[i]@);
    }
}

/// A value answers in a thread exactly where it is an object whose member
/// "root_id" is a string, and then in that thread.
pub proof fn law_only_root_ids_name_a_thread(value: AgentValue)
    ensures
        thread_root(value) is Some <==> {
            &&& value is Object
            &&& object_members(value->Object_0).contains_key("root_id"@)
            &&& object_members(value->Object_0)["root_id"@] is String
        },
        thread_root(value) is Some ==> thread_root(value)->0 == object_members(
            value->Object_0,
        )["root_id"@]->String_0@,
{
}

/// An object says what its member "text" says, and nothing where that is no
/// string or is not there.
pub proof fn law_object_says_its_text(object: AgentObject)
    ensures
        ({
            let members = object_members(object);
            let said = message_text(AgentValue::Object(object));
            if members.contains_key("text"@) && members["text"@] is String {
                said == members["text"@]->String_0@
            } else {
                said.len() == 0
            }
        }),
{
}

/// A value that is neither text nor a collection is posted as its JSON text
/// between two fences, each on a line of its own.
pub proof fn law_other_values_stand_between_fences(value: AgentValue)
    ensures
        value is Unit ==> message_text(value) == "```\n"@ + "null"@ + "\n```"@,
        value == AgentValue::Boolean(true) ==> message_text(value) == "```\n"@ + "true"@
            + "\n```"@,
        value == AgentValue::Boolean(false) ==> message_text(value) == "```\n"@ + "false"@
            + "\n```"@,
        value matches AgentValue::Integer(number) ==> message_text(value) == "```\n"@
            + signed_decimal(number as int) + "\n```"@,
        value matches AgentValue::Json(text) ==> message_text(value) == "```\n"@ + (
        match pretty_json_text(text@) {
            Some(pretty) => pretty,
            None => Seq::empty(),
        }) + "\n```"@,
        value matches AgentValue::Image(image) ==> message_text(value) == "```\n"@ + (
        match pretty_json_text("\""@ + data_url(image@) + "\""@) {
            Some(pretty) => pretty,
            None => Seq::empty(),
        }) + "\n```"@,
{
}

/// A string, and a message, is posted as it is.
pub proof fn law_strings_and_messages_say_themselves(value: AgentValue)
    ensures
        value matches AgentValue::String(text) ==> message_text(value) == text@,
        value matches AgentValue::Message(message) ==> message_text(value) == message.content@,
{
}

/// A document stands between two fences as it is, and none leaves them empty; a
/// quoted text stands between two quotation marks as it is.
pub proof fn law_fences_and_quotes_keep_their_text(text: Seq<char>)
    ensures
        code_block(text).len() == text.len() + 8,
        code_block(text).subrange(4, code_block(text).len() - 4) == text,
        "```\n"@.is_prefix_of(code_block(text)),
        "\n```"@.is_suffix_of(code_block(text)),
        quoted(text).len() == text.len() + 2,
        quoted(text)[0] == '"',
        quoted(text).last() == '"',
        quoted(text).subrange(1, quoted(text).len() - 1) == text,
        or_empty(Some(text)) == text,
        or_empty(None).len() == 0,
{
    reveal_strlit("```\n");
    reveal_strlit("\n```");
    reveal_strlit("\"");
    let block = code_block(text);
    assert(block.subrange(0, 4) =~= "```\n"@);
    assert(block.subrange(block.len() - 4, block.len() as int) =~= "\n```"@);
    assert(block.subrange(4, code_block(text).len() - 4) =~= text);
    assert(quoted(text).subrange(1, quoted(text).len() - 1) =~= text);
}

/// The lines of a post from an array are the texts of its strings and the
/// contents of its messages, all of them, in the order in which they stand in the
/// array; other items have no line.
pub proof fn law_array_lines_are_its_texts(array: AgentArray) -> (lines: (
    Seq<int>,
    Seq<Seq<char>>,
))
    ensures
        message_text(AgentValue::Array(array)) == joined_lines(lines.1),
        lines.0.len() == lines.1.len(),
        forall|k: int|
            0 <= k < lines.0.len() ==> 0 <= #[trigger] lines.0[k] < array_items(array).len() && (
            match array_items(array)[lines.0[k]] {
                AgentValue::String(text) => lines.1[k] == text@,
                AgentValue::Message(message) => lines.1[k] == message.content@,
                _ => false,
            }),
        forall|k: int, l: int| 0 <= k < l < lines.0.len() ==> lines.0[k] < lines.0[l],
        forall|i: int|
            0 <= i < array_items(array).len() && (#[trigger] array_items(array)[i] is String
                || array_items(array)[i] is Message) ==> lines.0.contains(i),
{
    let items = array_items(array);
    let says = |item: AgentValue| item_text(item);
    let places = lemma_filter_map_places(items, says);
    let texts = item_texts(items);
    assert forall|k: int| 0 <= k < places.len() implies 0 <= #[trigger] places[k] < items.len() && (
    match items[places[k]] {
        AgentValue::String(text) => texts[k] == text@,
        AgentValue::Message(message) => texts[k] == message.content@,
        _ => false,
    }) by {
        assert(says(items[places[k]]) == Some(texts[k]));
    }
    assert forall|i: int|
        0 <= i < items.len() && (#[trigger] items[i] is String || items[i]
            is Message) implies places.contains(i) by {
        assert(says(items[i]) is Some);
    }
    (places, texts)
}

/// A value sets out as its image where it is one or is a message with one, with
/// the message's text where that is not empty. Any other sets out as a post of
/// what it says, to the channel, in the thread it names, without files. Where no
/// channel is configured, none sets out.
pub proof fn law_value_sets_out(
    channel_id: Seq<char>,
    value: AgentValue,
    state: PostFlow,
    action: PostAction,
)
    requires
        post_begins(channel_id, value, state, action),
    ensures
        channel_id.len() == 0 ==> {
            &&& state is Finished
            &&& action is Fail
            &&& action->Fail_0 is InvalidValue
            &&& action->Fail_0->InvalidValue_0@ == "Channel ID not configured"@
        },
        channel_id.len() > 0 ==> (match value {
            AgentValue::Image(image) => {
                &&& state is Uploading
                &&& state->Uploading_channel_id@ == channel_id
                &&& state->Uploading_message is None
                &&& action == PostAction::Upload(image)
            },
            AgentValue::Message(message) if message.image is Some => {
                &&& state is Uploading
                &&& state->Uploading_channel_id@ == channel_id
                &&& state->Uploading_message is Some <==> message.content@.len() > 0
                &&& message.content@.len() > 0 ==> state->Uploading_message->0@
                    == message.content@
                &&& action == PostAction::Upload(message.image->0)
            },
            _ => {
                &&& state is Creating
                &&& action is Create
                &&& action->Create_0.channel_id@ == channel_id
                &&& action->Create_0.message@ == message_text(value)
                &&& action->Create_0.root_id is Some <==> thread_root(value) is Some
                &&& action->Create_0.root_id is Some ==> action->Create_0.root_id->0@
                    == thread_root(value)->0
                &&& action->Create_0.file_ids@.len() == 0
            },
        }),
{
    if action is Create {
        let named = action->Create_0.file_ids@.map_values(|id: String| id@);
        assert(named.len() == action->Create_0.file_ids@.len());
    }
}

/// What is given out for a post that was made names it and its channel, says that
/// it was made, and says nothing else; an error is given out as it came; and
/// nothing else ends the way.
pub proof fn law_value_arrives(
    before: PostFlow,
    event: PostEvent,
    state: PostFlow,
    action: PostAction,
)
    requires
        post_goes_on(before, event, state, action),
    ensures
        before is Creating && event is Created ==> {
            let post = event->Created_0;
            let members = object_members(action->Output_0->Object_0);
            &&& state is Finished
            &&& action is Output
            &&& action->Output_0 is Object
            &&& members.contains_key("ok"@)
            &&& members["ok"@] == AgentValue::Boolean(true)
            &&& members.contains_key("post_id"@)
            &&& members["post_id"@] == AgentValue::String(post.id)
            &&& members.contains_key("channel"@)
            &&& members["channel"@] == AgentValue::String(post.channel_id)
            &&& forall|key: Seq<char>| #[trigger]
                members.contains_key(key) ==> key == "ok"@ || key == "post_id"@ || key
                    == "channel"@
        },
        !(before is Finished) && event is Failed ==> state is Finished && action
            == PostAction::Fail(event->Failed_0),
        before is Finished || (before is Uploading && event is Created) || (before is Creating
            && event is Uploaded) ==> state == before && action is Nothing,
{
    if event is Created {
        law_result_names_the_post(event->Created_0);
    }
}

/// The name of the file for an image is the time between "image_" and ".png".
pub proof fn law_file_name_tells_the_time(millis: i64)
    ensures
        image_file_name(millis).len() == 10 + signed_decimal(millis as int).len(),
        "image_"@.is_prefix_of(image_file_name(millis)),
        ".png"@.is_suffix_of(image_file_name(millis)),
        image_file_name(millis).subrange(6, image_file_name(millis).len() - 4) == signed_decimal(
            millis as int,
        ),
{
    reveal_strlit("image_");
    reveal_strlit(".png");
    let name = image_file_name(millis);
    assert(name.subrange(0, 6) =~= "image_"@);
    assert(name.subrange(name.len() - 4, name.len() as int) =~= ".png"@);
    assert(name.subrange(6, name.len() - 4) =~= signed_decimal(millis as int));
}

/// The error for what cannot be used gives the reason, and is of that kind.
pub proof fn law_invalid_value_gives_the_reason(error: AgentError, reason: Seq<char>)
    ensures
        invalid_value(error, reason) <==> error is InvalidValue && error->InvalidValue_0@ == reason,
{
}

/// An image is uploaded as a PNG file of itself, to its channel, under the name
/// that tells the time.
pub proof fn law_image_is_uploaded_as_png(
    client: MattermostClient,
    image: ImageView,
    channel_id: Seq<char>,
    millis: i64,
)
    ensures
        ({
            let request = image_upload(client, image, channel_id, millis);
            &&& request.url == client.base() + "/files"@
            &&& request.authorization == "Bearer "@ + client.secret()
            &&& request.body is Form
            &&& request.body->bytes == png_file(image)
            &&& request.body->content_type == "image/png"@
            &&& request.body->channel_id == channel_id
            &&& request.body->file_name == "image_"@ + signed_decimal(millis as int) + ".png"@
        }),
{
}

} // verus!
