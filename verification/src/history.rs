//! A channel's history: how many posts are asked for, and what they are given
//! out as.
use vstd::prelude::*;

use crate::api::MattermostPost;
use crate::post::{message_text, thread_root};
use crate::to_message::{law_no_message_is_lost, message_of, messages_of};
use crate::value::{
    array_items, no_members, object_members, user_message, AgentArray, AgentObject, AgentValue,
};

verus! {

/// How many posts are asked for: 10 where no limit is set, else the limit, up to
/// the largest number of 16 bits.
pub open spec fn history_limit(limit: i64) -> int {
    if limit <= 0 {
        10
    } else if limit > 65535 {
        65535
    } else {
        limit as int
    }
}

/// How many posts are asked for.
pub fn page_size(limit: i64) -> (size: u16)
    ensures
        size == history_limit(limit),
{
    if limit <= 0 {
        10
    } else if limit > 65535 {
        65535
    } else {
        limit as u16
    }
}

/// The members of what a post is given out as.
pub open spec fn post_members(post: MattermostPost) -> Map<Seq<char>, AgentValue> {
    let members = no_members().insert("text"@, AgentValue::String(post.message)).insert(
        "user"@,
        AgentValue::String(post.user_id),
    ).insert("post_id"@, AgentValue::String(post.id));
    let members = if post.root_id@.len() > 0 {
        members.insert("root_id"@, AgentValue::String(post.root_id))
    } else {
        members
    };
    members.insert("create_at"@, AgentValue::Integer(post.create_at))
}

/// `value` is what a post is given out as.
pub open spec fn post_output(post: MattermostPost, value: AgentValue) -> bool {
    value matches AgentValue::Object(object) && object_members(object) == post_members(post)
}

/// What a post is given out as: its text, who wrote it, its id, the thread's,
/// where there is a thread, and when it was made.
pub fn post_to_agent_value(post: &MattermostPost) -> (value: AgentValue)
    ensures
        post_output(*post, value),
{
    let mut object = AgentObject::new();
    object.insert("text", AgentValue::String(post.message.clone()));
    object.insert("user", AgentValue::String(post.user_id.clone()));
    object.insert("post_id", AgentValue::String(post.id.clone()));
    if !post.root_id.as_str().is_empty() {
        object.insert("root_id", AgentValue::String(post.root_id.clone()));
    }
    object.insert("create_at", AgentValue::Integer(post.create_at));
    AgentValue::Object(object)
}

/// `value` is what posts are given out as: an array of them, in their order.
pub open spec fn history_output(posts: Seq<MattermostPost>, value: AgentValue) -> bool {
    value matches AgentValue::Array(array) && array_items(array).len() == posts.len() && (
    forall|i: int|
        0 <= i < posts.len() ==> post_output(posts[i], #[trigger] array_items(array)[i]))
}

/// What posts are given out as: an array of them, in their order.
pub fn posts_to_agent_value(posts: &Vec<MattermostPost>) -> (value: AgentValue)
    ensures
        history_output(posts@, value),
        value matches AgentValue::Array(array) && array_items(array).len() == posts@.len() && (
        forall|i: int|
            0 <= i < posts@.len() ==> post_output(posts@[i], #[trigger] array_items(array)[i])),
{
    let mut array = AgentArray::new();
    let mut i: usize = 0;
    while i < posts.len()
        invariant
            i <= posts@.len(),
            array_items(array).len() == i,
            forall|j: int|
                0 <= j < i ==> post_output(posts@[j], #[trigger] array_items(array)[j]),
        decreases posts@.len() - i,
    {
        array.push(post_to_agent_value(&posts[i]));
        i = i + 1;
    }
    AgentValue::Array(array)
}

/// As many posts are asked for as a limit that is set allows, up to 65535, and 10
/// where none is.
pub proof fn law_limit_is_kept(limit: i64)
    ensures
        limit > 0 ==> 0 < history_limit(limit) <= limit,
        0 < limit <= 65535 ==> history_limit(limit) == limit,
        limit >= 65535 ==> history_limit(limit) == 65535,
        limit <= 0 ==> history_limit(limit) == 10,
{
}

/// The keys of what a post is given out as are all different.
proof fn lemma_keys_differ()
    ensures
        "text"@ != "user"@,
        "text"@ != "post_id"@,
        "text"@ != "root_id"@,
        "text"@ != "create_at"@,
        "text"@ != "message"@,
        "message"@ != "user"@,
        "message"@ != "post_id"@,
        "message"@ != "root_id"@,
        "message"@ != "create_at"@,
        "root_id"@ != "user"@,
        "root_id"@ != "post_id"@,
        "root_id"@ != "create_at"@,
        "user"@ != "post_id"@,
        "user"@ != "create_at"@,
        "post_id"@ != "create_at"@,
{
    reveal_strlit("text");
    reveal_strlit("user");
    reveal_strlit("post_id");
    reveal_strlit("root_id");
    reveal_strlit("create_at");
    reveal_strlit("message");
    assert("text"@[0] == 't' && "user"@[0] == 'u' && "post_id"@[0] == 'p' && "root_id"@[0] == 'r'
        && "create_at"@[0] == 'c' && "message"@[0] == 'm');
}

/// What a post of the history is given out as becomes a message of the user
/// with the post's text.
pub proof fn law_history_becomes_user_messages(post: MattermostPost, value: AgentValue)
    requires
        post_output(post, value),
    ensures
        message_of(value) == Some(user_message(post.message@)),
{
    lemma_keys_differ();
}

/// What a post of the history is given out as, posted again, says the same in
/// the same thread.
pub proof fn law_history_posts_again_as_it_was(post: MattermostPost, value: AgentValue)
    requires
        post_output(post, value),
    ensures
        message_text(value) == post.message@,
        thread_root(value) == if post.root_id@.len() > 0 {
            Some(post.root_id@)
        } else {
            None
        },
{
    lemma_keys_differ();
}

/// What a whole history is given out as becomes messages of the user with the
/// posts' texts, in the posts' order.
pub proof fn law_whole_history_becomes_messages(posts: Seq<MattermostPost>, array: AgentArray)
    requires
        array_items(array).len() == posts.len(),
        forall|i: int|
            0 <= i < posts.len() ==> post_output(posts[i], #[trigger] array_items(array)[i]),
    ensures
        messages_of(array_items(array)) == posts.map_values(
            |post: MattermostPost| user_message(post.message@),
        ),
{
    let items = array_items(array);
    assert forall|i: int| 0 <= i < items.len() implies #[trigger] message_of(items[i]) == Some(
        user_message(posts[i].message@),
    ) by {
        law_history_becomes_user_messages(posts[i], items[i]);
    }
    law_no_message_is_lost(items);
    assert(messages_of(items) =~= posts.map_values(
        |post: MattermostPost| user_message(post.message@),
    ));
}

/// What a post of the history is given out as holds the post's text, its author,
/// its id and its time, in a thread or not, the thread exactly where there is
/// one, and nothing else.
pub proof fn law_history_tells_of_the_post(post: MattermostPost, value: AgentValue)
    requires
        post_output(post, value),
    ensures
        value is Object,
        ({
            let members = object_members(value->Object_0);
            &&& members.contains_key("text"@)
            &&& members["text"@] == AgentValue::String(post.message)
            &&& members.contains_key("user"@)
            &&& members["user"@] == AgentValue::String(post.user_id)
            &&& members.contains_key("post_id"@)
            &&& members["post_id"@] == AgentValue::String(post.id)
            &&& members.contains_key("create_at"@)
            &&& members["create_at"@] == AgentValue::Integer(post.create_at)
            &&& members.contains_key("root_id"@) <==> post.root_id@.len() > 0
            &&& post.root_id@.len() > 0 ==> members["root_id"@] == AgentValue::String(post.root_id)
            &&& forall|key: Seq<char>| #[trigger]
                members.contains_key(key) ==> key == "text"@ || key == "user"@ || key
                    == "post_id"@ || key == "create_at"@ || key == "root_id"@
        }),
{
    lemma_keys_differ();
}

/// Every post of a history is given out, at its place, with its text, its author,
/// its id and its time, and its thread where there is one.
pub proof fn law_every_post_is_given_out(
    posts: Seq<MattermostPost>,
    value: AgentValue,
    at: int,
)
    requires
        history_output(posts, value),
    ensures
        value is Array,
        array_items(value->Array_0).len() == posts.len(),
        0 <= at < posts.len() ==> {
            let item = array_items(value->Array_0)[at];
            let members = object_members(item->Object_0);
            &&& item is Object
            &&& members.contains_key("text"@)
            &&& members["text"@] == AgentValue::String(posts[at].message)
            &&& members.contains_key("user"@)
            &&& members["user"@] == AgentValue::String(posts[at].user_id)
            &&& members.contains_key("post_id"@)
            &&& members["post_id"@] == AgentValue::String(posts[at].id)
            &&& members.contains_key("create_at"@)
            &&& members["create_at"@] == AgentValue::Integer(posts[at].create_at)
            &&& members.contains_key("root_id"@) <==> posts[at].root_id@.len() > 0
            &&& posts[at].root_id@.len() > 0 ==> members["root_id"@] == AgentValue::String(
                posts[at].root_id,
            )
        },
{
    if 0 <= at < posts.len() {
        let item = array_items(value->Array_0)[at];
        assert(post_output(posts[at], item));
        law_history_tells_of_the_post(posts[at], item);
    }
}

} // verus!
