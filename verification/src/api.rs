//! What a Mattermost server and its client send each other.
use vstd::prelude::*;

use crate::json::JsonValue;
use crate::text_map::TextMap;

verus! {

// ---------------------------------------------------------------------------
// What the server sends
// ---------------------------------------------------------------------------

/// A post in a channel.
#[derive(Debug)]
pub struct MattermostPost {
    pub id: String,
    pub message: String,
    pub user_id: String,
    pub channel_id: String,
    /// The post that opened the thread; empty outside a thread.
    pub root_id: String,
    /// When the post was made, in milliseconds.
    pub create_at: i64,
    pub file_ids: Vec<String>,
    pub metadata: Option<JsonValue>,
}

/// Posts, and the order in which they are to be read.
#[derive(Debug)]
pub struct PostList {
    pub order: Vec<String>,
    pub posts: TextMap<MattermostPost>,
}

/// A channel.
#[derive(Debug)]
pub struct MattermostChannel {
    pub id: String,
    pub name: String,
    pub display_name: String,
    /// "P" for a private channel.
    pub channel_type: String,
    pub header: String,
    pub purpose: String,
    /// When the channel was archived, in milliseconds; zero for a channel in use.
    pub delete_at: i64,
}

/// A user.
#[derive(Debug)]
pub struct MattermostUser {
    pub id: String,
    pub username: String,
}

/// A team.
#[derive(Debug)]
pub struct MattermostTeam {
    pub id: String,
    pub name: String,
    pub display_name: String,
}

/// The answer to an upload.
#[derive(Debug)]
pub struct FileUploadResponse {
    pub file_infos: Vec<FileInfo>,
}

/// A file on the server.
#[derive(Debug)]
pub struct FileInfo {
    pub id: String,
    pub name: String,
    pub mime_type: String,
}

/// An event from the server's WebSocket.
#[derive(Debug)]
pub struct WsEvent {
    pub event: Option<String>,
    pub data: Option<JsonValue>,
    pub status: Option<String>,
    pub seq_reply: Option<i64>,
}

// ---------------------------------------------------------------------------
// What the client sends
// ---------------------------------------------------------------------------

/// A post to be made.
#[derive(Debug)]
pub struct CreatePostRequest {
    pub channel_id: String,
    pub message: String,
    /// The post that opened the thread, for an answer in a thread.
    pub root_id: Option<String>,
    pub file_ids: Vec<String>,
}

/// The first message on a WebSocket: who is there.
#[derive(Debug)]
pub struct WsAuthChallenge {
    pub seq: i64,
    pub action: String,
    pub data: WsAuthData,
}

/// The proof that a [`WsAuthChallenge`] carries.
#[derive(Debug)]
pub struct WsAuthData {
    pub token: String,
}

// ---------------------------------------------------------------------------
// Posts in order
// ---------------------------------------------------------------------------

/// `id` is listed in `order`.
pub open spec fn listed(order: Seq<String>, id: Seq<char>) -> bool {
    exists|i: int| 0 <= i < order.len() && #[trigger] order[i]@ == id
}

/// The posts that `order` lists, each where its id comes first.
pub open spec fn ordered_posts(
    order: Seq<String>,
    posts: Map<Seq<char>, MattermostPost>,
) -> Seq<MattermostPost>
    decreases order.len(),
{
    if order.len() == 0 {
        Seq::empty()
    } else {
        let earlier = ordered_posts(order.drop_last(), posts);
        let id = order.last()@;
        if posts.contains_key(id) && !listed(order.drop_last(), id) {
            earlier.push(posts[id])
        } else {
            earlier
        }
    }
}

impl PostList {
    /// The posts in their order. An id that stands in the order a second time,
    /// or for which there is no post, is passed over.
    pub fn into_ordered(self) -> (ordered: Vec<MattermostPost>)
        ensures
            ordered@ == ordered_posts(self.order@, self.posts@),
    {
        let order = self.order;
        let mut posts = self.posts;
        let ghost all = posts@;
        let mut ordered: Vec<MattermostPost> = Vec::new();
        let mut i: usize = 0;
        assert(order@.take(0) =~= Seq::empty());
        while i < order.len()
            invariant
                i <= order@.len(),
                ordered@ == ordered_posts(order@.take(i as int), all),
                forall|id: Seq<char>| #[trigger]
                    posts@.contains_key(id) <==> all.contains_key(id) && !listed(
                        order@.take(i as int),
                        id,
                    ),
                forall|id: Seq<char>| #[trigger] posts@.contains_key(id) ==> posts@[id] == all[id],
            decreases order@.len() - i,
        {
            let ghost earlier = order@.take(i as int);
            let ghost next = order@.take(i + 1);
            let ghost id = order@[i as int]@;
            proof {
                assert(next.drop_last() =~= earlier);
                assert(next.last()@ == id);
                assert forall|other: Seq<char>| #[trigger]
                    listed(next, other) <==> listed(earlier, other) || other == id by {
                    if listed(next, other) {
                        let j = choose|j: int| 0 <= j < next.len() && #[trigger] next[j]@ == other;
                        if j < i {
                            assert(earlier[j]@ == other);
                        }
                    }
                    if listed(earlier, other) {
                        let j = choose|j: int|
                            0 <= j < earlier.len() && #[trigger] earlier[j]@ == other;
                        assert(next[j]@ == other);
                    }
                    if other == id {
                        assert(next[i as int]@ == other);
                    }
                }
            }
            match posts.remove(order[i].as_str()) {
                Some(post) => {
                    ordered.push(post);
                },
                None => {},
            }
            i = i + 1;
        }
        assert(order@.take(i as int) =~= order@);
        ordered
    }
}

/// Where every listed id has a post and none is listed twice, the posts come
/// in the very order of the list.
pub proof fn law_posts_keep_the_order(
    order: Seq<String>,
    posts: Map<Seq<char>, MattermostPost>,
)
    requires
        forall|i: int| 0 <= i < order.len() ==> posts.contains_key(#[trigger] order[i]@),
        forall|i: int, j: int| 0 <= i < j < order.len() ==> order[i]@ != order[j]@,
    ensures
        ordered_posts(order, posts) == order.map_values(|id: String| posts[id@]),
    decreases order.len(),
{
    if order.len() > 0 {
        let earlier = order.drop_last();
        law_posts_keep_the_order(earlier, posts);
        assert(!listed(earlier, order.last()@));
        assert(posts.contains_key(order[order.len() - 1]@));
        assert(order.map_values(|id: String| posts[id@]) =~= earlier.map_values(
            |id: String| posts[id@],
        ).push(posts[order.last()@]));
    } else {
        assert(order.map_values(|id: String| posts[id@]) =~= Seq::empty());
    }
}

/// Every post that is both listed and there is among the ordered posts.
pub proof fn law_no_listed_post_is_lost(
    order: Seq<String>,
    posts: Map<Seq<char>, MattermostPost>,
    id: Seq<char>,
)
    requires
        listed(order, id),
        posts.contains_key(id),
    ensures
        ordered_posts(order, posts).contains(posts[id]),
    decreases order.len(),
{
    let earlier = order.drop_last();
    if listed(earlier, id) {
        law_no_listed_post_is_lost(earlier, posts, id);
        let before = ordered_posts(earlier, posts);
        let at = choose|at: int| 0 <= at < before.len() && before[at] == posts[id];
        assert(ordered_posts(order, posts)[at] == posts[id]);
    } else {
        let i = choose|i: int| 0 <= i < order.len() && #[trigger] order[i]@ == id;
        if i < earlier.len() {
            assert(earlier[i]@ == id);
        }
        assert(ordered_posts(order, posts).last() == posts[id]);
    }
}

/// The ids of the posts that `order` lists and that are there, each once.
pub open spec fn ordered_ids(
    order: Seq<String>,
    posts: Map<Seq<char>, MattermostPost>,
) -> Seq<Seq<char>>
    decreases order.len(),
{
    if order.len() == 0 {
        Seq::empty()
    } else {
        let earlier = ordered_ids(order.drop_last(), posts);
        let id = order.last()@;
        if posts.contains_key(id) && !listed(order.drop_last(), id) {
            earlier.push(id)
        } else {
            earlier
        }
    }
}

/// No post comes twice, however often it is listed, and none comes that is not
/// listed.
pub proof fn law_no_post_comes_twice(order: Seq<String>, posts: Map<Seq<char>, MattermostPost>)
    ensures
        ordered_posts(order, posts) == ordered_ids(order, posts).map_values(
            |id: Seq<char>| posts[id],
        ),
        ordered_ids(order, posts).no_duplicates(),
        forall|i: int|
            0 <= i < ordered_ids(order, posts).len() ==> listed(
                order,
                #[trigger] ordered_ids(order, posts)[i],
            ),
    decreases order.len(),
{
    let of = |id: Seq<char>| posts[id];
    if order.len() > 0 {
        let earlier = order.drop_last();
        law_no_post_comes_twice(earlier, posts);
        let before = ordered_ids(earlier, posts);
        let ids = ordered_ids(order, posts);
        let id = order.last()@;
        assert(order[order.len() - 1]@ == id);
        assert forall|i: int| 0 <= i < ids.len() implies listed(order, #[trigger] ids[i]) by {
            if i < before.len() {
                assert(listed(earlier, before[i]));
                let j = choose|j: int|
                    0 <= j < earlier.len() && #[trigger] earlier[j]@ == before[i];
                assert(order[j]@ == ids[i]);
            }
        }
        assert(before.push(id).map_values(of) =~= before.map_values(of).push(posts[id]));
    } else {
        assert(ordered_posts(order, posts) =~= ordered_ids(order, posts).map_values(of));
    }
}

/// The ordered posts are the posts at certain places of the order, in the order
/// of these places: every place whose id has a post and does not stand at an
/// earlier place, and no other.
pub proof fn law_ordered_posts_stand_at_their_first_places(
    order: Seq<String>,
    posts: Map<Seq<char>, MattermostPost>,
) -> (places: Seq<int>)
    ensures
        places.len() == ordered_posts(order, posts).len(),
        forall|k: int|
            0 <= k < places.len() ==> 0 <= #[trigger] places[k] < order.len() && posts.contains_key(
                order[places[k]]@,
            ) && ordered_posts(order, posts)[k] == posts[order[places[k]]@],
        forall|k: int, l: int| 0 <= k < l < places.len() ==> places[k] < places[l],
        forall|k: int, i: int|
            0 <= k < places.len() && 0 <= i < places[k] ==> (#[trigger] order[i])@
                != order[#[trigger] places[k]]@,
        forall|i: int|
            0 <= i < order.len() && posts.contains_key((#[trigger] order[i])@) && (forall|j: int|
                0 <= j < i ==> (#[trigger] order[j])@ != order[i]@) ==> places.contains(i),
    decreases order.len(),
{
    if order.len() == 0 {
        Seq::empty()
    } else {
        let earlier = order.drop_last();
        let before = law_ordered_posts_stand_at_their_first_places(earlier, posts);
        let last = order.len() - 1;
        let id = order.last()@;
        let takes = posts.contains_key(id) && !listed(earlier, id);
        let places = if takes {
            before.push(last)
        } else {
            before
        };
        assert forall|k: int, i: int|
            0 <= k < places.len() && 0 <= i < places[k] implies (#[trigger] order[i])@
            != order[#[trigger] places[k]]@ by {
            assert(earlier[i] == order[i]);
            if k < before.len() {
                assert(earlier[before[k]] == order[places[k]]);
            }
        }
        assert forall|i: int|
            0 <= i < order.len() && posts.contains_key((#[trigger] order[i])@) && (forall|j: int|
                0 <= j < i ==> (#[trigger] order[j])@ != order[i]@) implies places.contains(i) by {
            if i < last {
                assert(earlier[i] == order[i]);
                assert forall|j: int| 0 <= j < i implies (#[trigger] earlier[j])@
                    != earlier[i]@ by {
                    assert(earlier[j] == order[j]);
                }
                assert(before.contains(i));
                let k = choose|k: int| 0 <= k < before.len() && before[k] == i;
                assert(places[k] == i);
            } else {
                if listed(earlier, id) {
                    let j = choose|j: int| 0 <= j < earlier.len() && #[trigger] earlier[j]@ == id;
                    assert(order[j] == earlier[j]);
                }
                assert(places[places.len() - 1] == i);
            }
        }
        assert forall|k: int| 0 <= k < places.len() implies 0 <= #[trigger] places[k] < order.len()
            && posts.contains_key(order[places[k]]@) && ordered_posts(order, posts)[k]
            == posts[order[places[k]]@] by {
            if k < before.len() {
                assert(earlier[before[k]] == order[places[k]]);
            }
        }
        places
    }
}

} // verus!
