//! Listing channels: of which team, how many, and what they are given out as.
use vstd::prelude::*;

use crate::api::{MattermostChannel, MattermostTeam};
use crate::client::{HttpRequest, MattermostClient, Method};
use crate::error::AgentError;
use crate::post::invalid_value;
use crate::text::same_text;
use crate::value::{array_items, no_members, object_members, AgentArray, AgentObject, AgentValue};

verus! {

/// How many channels are given out at most: 100 where no limit is set, else the
/// limit, up to the largest number that the machine counts to.
pub open spec fn channels_limit(limit: i64) -> usize {
    if limit <= 0 {
        100
    } else if limit > usize::MAX {
        usize::MAX
    } else {
        limit as usize
    }
}

/// How many channels are given out at most.
pub fn channel_count(limit: i64) -> (count: usize)
    ensures
        count == channels_limit(limit),
{
    if limit <= 0 {
        100
    } else if limit as u64 > usize::MAX as u64 {
        usize::MAX
    } else {
        limit as usize
    }
}

/// The first of the user's teams; an error where the user has none.
pub fn first_team(teams: &Vec<MattermostTeam>) -> (team: Result<String, AgentError>)
    ensures
        match team {
            Ok(id) => teams@.len() > 0 && id == teams@[0].id,
            Err(error) => teams@.len() == 0 && invalid_value(error, "No teams found for user"@),
        },
{
    if teams.len() == 0 {
        Err(AgentError::InvalidValue("No teams found for user".to_owned()))
    } else {
        Ok(teams[0].id.clone())
    }
}

/// Asks for the channels of a team that the token's user belongs to.
pub fn own_channels<'a>(client: &MattermostClient, team_id: &str) -> (request: HttpRequest<'a>)
    ensures
        request@ == client.channels_view("me"@, team_id@),
        request@ == client.request_view(
            Method::Get,
            "/users/"@ + "me"@ + "/teams/"@ + team_id@ + "/channels"@,
            "GET user channels failed"@,
            "Failed to parse channels response"@,
        ),
{
    client.get_user_channels("me", team_id)
}

/// The members of what a channel is given out as.
pub open spec fn channel_members(channel: MattermostChannel) -> Map<Seq<char>, AgentValue> {
    let members = no_members().insert("id"@, AgentValue::String(channel.id)).insert(
        "name"@,
        AgentValue::String(channel.name),
    ).insert("is_private"@, AgentValue::Boolean(channel.channel_type@ == "P"@)).insert(
        "is_archived"@,
        AgentValue::Boolean(channel.delete_at > 0),
    );
    let members = if channel.header@.len() > 0 {
        members.insert("topic"@, AgentValue::String(channel.header))
    } else {
        members
    };
    if channel.purpose@.len() > 0 {
        members.insert("purpose"@, AgentValue::String(channel.purpose))
    } else {
        members
    }
}

/// `value` is what a channel is given out as.
pub open spec fn channel_output(channel: MattermostChannel, value: AgentValue) -> bool {
    value matches AgentValue::Object(object) && object_members(object) == channel_members(channel)
}

/// What a channel is given out as: its id and name, whether it is private and
/// whether it is archived, and its topic and purpose, where it has them.
pub fn channel_to_agent_value(channel: &MattermostChannel) -> (value: AgentValue)
    ensures
        channel_output(*channel, value),
{
    let mut object = AgentObject::new();
    object.insert("id", AgentValue::String(channel.id.clone()));
    object.insert("name", AgentValue::String(channel.name.clone()));
    let is_private = same_text(channel.channel_type.as_str(), "P");
    object.insert("is_private", AgentValue::Boolean(is_private));
    object.insert("is_archived", AgentValue::Boolean(channel.delete_at > 0));
    if !channel.header.as_str().is_empty() {
        object.insert("topic", AgentValue::String(channel.header.clone()));
    }
    if !channel.purpose.as_str().is_empty() {
        object.insert("purpose", AgentValue::String(channel.purpose.clone()));
    }
    AgentValue::Object(object)
}

/// `value` is what channels are given out as: an array of the first `limit` of
/// them, in their order.
pub open spec fn channels_output(
    channels: Seq<MattermostChannel>,
    limit: usize,
    value: AgentValue,
) -> bool {
    value matches AgentValue::Array(array) && array_items(array).len() == (if limit
        < channels.len() {
        limit as nat
    } else {
        channels.len()
    }) && (forall|i: int|
        0 <= i < array_items(array).len() ==> channel_output(
            channels[i],
            #[trigger] array_items(array)[i],
        ))
}

/// What channels are given out as: an array of the first `limit` of them, in
/// their order.
pub fn channels_to_agent_value(channels: &Vec<MattermostChannel>, limit: usize) -> (value:
    AgentValue)
    ensures
        channels_output(channels@, limit, value),
{
    let mut array = AgentArray::new();
    let mut i: usize = 0;
    while i < channels.len() && i < limit
        invariant
            i <= channels@.len(),
            i <= limit,
            array_items(array).len() == i,
            forall|j: int|
                0 <= j < i ==> channel_output(channels@[j], #[trigger] array_items(array)[j]),
        decreases channels@.len() - i,
    {
        array.push(channel_to_agent_value(&channels[i]));
        i = i + 1;
    }
    AgentValue::Array(array)
}

/// How far the listing of channels is.
#[derive(Debug)]
pub enum ChannelsFlow {
    /// The user's teams are asked for.
    AskingTeams(usize),
    /// The channels are asked for.
    AskingChannels(usize),
    /// It is over.
    Finished,
}

/// What happens while channels are listed.
#[derive(Debug)]
pub enum ChannelsEvent {
    /// The user's teams came.
    Teams(Vec<MattermostTeam>),
    /// The channels came.
    Channels(Vec<MattermostChannel>),
    /// What was tried failed.
    Failed(AgentError),
}

/// What is done next to list channels.
pub enum ChannelsAction {
    /// Ask for the user's teams.
    AskTeams,
    /// Ask for the channels of this team.
    AskChannels(String),
    /// Give this value out.
    Output(AgentValue),
    /// Give up with this error.
    Fail(AgentError),
    /// Do nothing.
    Nothing,
}

/// How the listing goes on after an event: with the first of the user's teams,
/// and to its end with the channels; an error ends it. An event that cannot come
/// changes nothing.
pub open spec fn listing_goes_on(
    before: ChannelsFlow,
    event: ChannelsEvent,
    state: ChannelsFlow,
    action: ChannelsAction,
) -> bool {
    match (before, event) {
        (ChannelsFlow::AskingTeams(limit), ChannelsEvent::Teams(teams)) => if teams@.len() > 0 {
            &&& state == ChannelsFlow::AskingChannels(limit)
            &&& action == ChannelsAction::AskChannels(teams@[0].id)
        } else {
            &&& state is Finished
            &&& action matches ChannelsAction::Fail(error) && invalid_value(
                error,
                "No teams found for user"@,
            )
        },
        (ChannelsFlow::AskingChannels(limit), ChannelsEvent::Channels(channels)) => {
            &&& state is Finished
            &&& action matches ChannelsAction::Output(value) && channels_output(
                channels@,
                limit,
                value,
            )
        },
        (ChannelsFlow::AskingTeams(_), ChannelsEvent::Failed(error)) => state is Finished && action
            == ChannelsAction::Fail(error),
        (ChannelsFlow::AskingChannels(_), ChannelsEvent::Failed(error)) => state is Finished
            && action == ChannelsAction::Fail(error),
        _ => state == before && action is Nothing,
    }
}

/// How a listing begins: with the channels of the team that is configured, or
/// with the user's teams where none is.
pub open spec fn listing_begins(
    limit: i64,
    team_id: String,
    state: ChannelsFlow,
    action: ChannelsAction,
) -> bool {
    if team_id@.len() > 0 {
        state == ChannelsFlow::AskingChannels(channels_limit(limit)) && action
            == ChannelsAction::AskChannels(team_id)
    } else {
        state == ChannelsFlow::AskingTeams(channels_limit(limit)) && action is AskTeams
    }
}

impl ChannelsFlow {
    /// Begins to list channels: those of the team that is configured; where
    /// none is, the user's teams are asked for.
    pub fn begin(limit: i64, team_id: String) -> (begun: (ChannelsFlow, ChannelsAction))
        ensures
            listing_begins(limit, team_id, begun.0, begun.1),
            if team_id@.len() > 0 {
                &&& begun.0 == ChannelsFlow::AskingChannels(channels_limit(limit))
                &&& begun.1 == ChannelsAction::AskChannels(team_id)
            } else {
                &&& begun.0 == ChannelsFlow::AskingTeams(channels_limit(limit))
                &&& begun.1 is AskTeams
            },
    {
        let count: usize = channel_count(limit);
        if team_id.as_str().is_empty() {
            (ChannelsFlow::AskingTeams(count), ChannelsAction::AskTeams)
        } else {
            (ChannelsFlow::AskingChannels(count), ChannelsAction::AskChannels(team_id))
        }
    }

    /// Takes an event in, and says what is to be done next.
    pub fn step(self, event: ChannelsEvent) -> (next: (ChannelsFlow, ChannelsAction))
        ensures
            listing_goes_on(self, event, next.0, next.1),
    {
        match (self, event) {
            (ChannelsFlow::AskingTeams(limit), ChannelsEvent::Teams(teams)) => match first_team(
                &teams,
            ) {
                Ok(team_id) => (
                    ChannelsFlow::AskingChannels(limit),
                    ChannelsAction::AskChannels(team_id),
                ),
                Err(error) => (ChannelsFlow::Finished, ChannelsAction::Fail(error)),
            },
            (ChannelsFlow::AskingChannels(limit), ChannelsEvent::Channels(channels)) => (
                ChannelsFlow::Finished,
                ChannelsAction::Output(channels_to_agent_value(&channels, limit)),
            ),
            (ChannelsFlow::AskingTeams(_), ChannelsEvent::Failed(error)) => (
                ChannelsFlow::Finished,
                ChannelsAction::Fail(error),
            ),
            (ChannelsFlow::AskingChannels(_), ChannelsEvent::Failed(error)) => (
                ChannelsFlow::Finished,
                ChannelsAction::Fail(error),
            ),
            (state, _) => (state, ChannelsAction::Nothing),
        }
    }
}

/// A limit that is set is never exceeded: it is the limit, as far as the machine
/// can count. Where none is set, 100 is.
pub proof fn law_channel_limit(limit: i64)
    ensures
        limit > 0 ==> 0 < channels_limit(limit) <= limit,
        0 < limit <= usize::MAX ==> channels_limit(limit) == limit,
        limit >= usize::MAX ==> channels_limit(limit) == usize::MAX,
        limit <= 0 ==> channels_limit(limit) == 100,
{
}

/// What a channel is given out as holds its id and its name, that it is private
/// exactly where its type is "P", that it is archived exactly where it has been
/// deleted at some time, its header as the topic and its purpose, each exactly
/// where it is not empty, and nothing else. Each depends on its own field alone.
pub proof fn law_channel_is_told_member_by_member(channel: MattermostChannel, value: AgentValue)
    requires
        channel_output(channel, value),
    ensures
        value is Object,
        ({
            let members = object_members(value->Object_0);
            &&& members.contains_key("id"@)
            &&& members["id"@] == AgentValue::String(channel.id)
            &&& members.contains_key("name"@)
            &&& members["name"@] == AgentValue::String(channel.name)
            &&& members.contains_key("is_private"@)
            &&& members["is_private"@] is Boolean
            &&& members["is_private"@]->Boolean_0 <==> channel.channel_type@ == "P"@
            &&& members.contains_key("is_archived"@)
            &&& members["is_archived"@] is Boolean
            &&& members["is_archived"@]->Boolean_0 <==> channel.delete_at > 0
            &&& members.contains_key("topic"@) <==> channel.header@.len() > 0
            &&& channel.header@.len() > 0 ==> members["topic"@] == AgentValue::String(
                channel.header,
            )
            &&& members.contains_key("purpose"@) <==> channel.purpose@.len() > 0
            &&& channel.purpose@.len() > 0 ==> members["purpose"@] == AgentValue::String(
                channel.purpose,
            )
            &&& forall|key: Seq<char>| #[trigger]
                members.contains_key(key) ==> key == "id"@ || key == "name"@ || key
                    == "is_private"@ || key == "is_archived"@ || key == "topic"@ || key
                    == "purpose"@
        }),
{
    reveal_strlit("id");
    reveal_strlit("name");
    reveal_strlit("is_private");
    reveal_strlit("is_archived");
    reveal_strlit("topic");
    reveal_strlit("purpose");
    assert("id"@[0] == 'i' && "name"@[0] == 'n' && "is_private"@[0] == 'i' && "is_archived"@[0]
        == 'i' && "topic"@[0] == 't' && "purpose"@[0] == 'p');
    assert("id"@.len() == 2 && "is_private"@.len() == 10 && "is_archived"@.len() == 11);
}

/// What channels are given out as is an array of the first of them, as many as
/// the limit allows and no fewer, each at its place.
pub proof fn law_first_channels_are_given_out(
    channels: Seq<MattermostChannel>,
    limit: usize,
    value: AgentValue,
    at: int,
)
    requires
        channels_output(channels, limit, value),
    ensures
        value is Array,
        array_items(value->Array_0).len() <= limit,
        array_items(value->Array_0).len() <= channels.len(),
        array_items(value->Array_0).len() == limit || array_items(value->Array_0).len()
            == channels.len(),
        0 <= at < array_items(value->Array_0).len() ==> {
            let item = array_items(value->Array_0)[at];
            let members = object_members(item->Object_0);
            &&& item is Object
            &&& members.contains_key("id"@)
            &&& members["id"@] == AgentValue::String(channels[at].id)
            &&& members.contains_key("name"@)
            &&& members["name"@] == AgentValue::String(channels[at].name)
            &&& members.contains_key("is_private"@)
            &&& members["is_private"@] == AgentValue::Boolean(channels[at].channel_type@ == "P"@)
            &&& members.contains_key("is_archived"@)
            &&& members["is_archived"@] == AgentValue::Boolean(channels[at].delete_at > 0)
            &&& members.contains_key("topic"@) <==> channels[at].header@.len() > 0
            &&& members.contains_key("purpose"@) <==> channels[at].purpose@.len() > 0
        },
{
    let items = array_items(value->Array_0);
    if 0 <= at < items.len() {
        assert(channel_output(channels[at], items[at]));
        law_channel_is_told_member_by_member(channels[at], items[at]);
    }
}

/// The listing goes on with the first of the user's teams, fails where the user
/// has none, ends with the channels that come, and gives an error out as it came.
/// The limit stays the same on the way.
pub proof fn law_listing_goes_its_way(
    before: ChannelsFlow,
    event: ChannelsEvent,
    state: ChannelsFlow,
    action: ChannelsAction,
)
    requires
        listing_goes_on(before, event, state, action),
    ensures
        before is AskingTeams && event is Teams && event->Teams_0@.len() > 0 ==> {
            &&& state is AskingChannels
            &&& state->AskingChannels_0 == before->AskingTeams_0
            &&& action is AskChannels
            &&& action->AskChannels_0 == event->Teams_0@[0].id
        },
        before is AskingTeams && event is Teams && event->Teams_0@.len() == 0 ==> {
            &&& state is Finished
            &&& action is Fail
            &&& action->Fail_0 is InvalidValue
            &&& action->Fail_0->InvalidValue_0@ == "No teams found for user"@
        },
        before is AskingChannels && event is Channels ==> {
            &&& state is Finished
            &&& action is Output
            &&& channels_output(event->Channels_0@, before->AskingChannels_0, action->Output_0)
        },
        !(before is Finished) && event is Failed ==> state is Finished && action
            == ChannelsAction::Fail(event->Failed_0),
        before is Finished || (before is AskingTeams && event is Channels) || (
        before is AskingChannels && event is Teams) ==> state == before && action is Nothing,
{
}

/// Where a team is configured, its channels are listed: the first of those that
/// come, as many as the limit that is set, or a hundred. Where none is, those of
/// the first of the user's teams are.
pub proof fn law_listing_comes_to_its_end(
    limit: i64,
    team_id: String,
    teams: Vec<MattermostTeam>,
    channels: Vec<MattermostChannel>,
    states: (ChannelsFlow, ChannelsFlow, ChannelsFlow),
    actions: (ChannelsAction, ChannelsAction, ChannelsAction),
)
    requires
        listing_begins(limit, team_id, states.0, actions.0),
        team_id@.len() > 0 ==> states.1 == states.0 && actions.1 == actions.0,
        team_id@.len() == 0 ==> teams@.len() > 0 && listing_goes_on(
            states.0,
            ChannelsEvent::Teams(teams),
            states.1,
            actions.1,
        ),
        listing_goes_on(states.1, ChannelsEvent::Channels(channels), states.2, actions.2),
    ensures
        actions.1 is AskChannels,
        team_id@.len() > 0 ==> actions.1->AskChannels_0 == team_id,
        team_id@.len() == 0 ==> actions.0 is AskTeams && actions.1->AskChannels_0 == teams@[0].id,
        states.2 is Finished,
        actions.2 is Output,
        actions.2->Output_0 is Array,
        ({
            let given = array_items(actions.2->Output_0->Array_0).len();
            &&& given <= channels@.len()
            &&& limit > 0 ==> given <= limit
            &&& limit <= 0 ==> given <= 100
            &&& given < channels@.len() ==> given == (if limit <= 0 {
                100
            } else if limit > usize::MAX {
                usize::MAX as int
            } else {
                limit as int
            })
        }),
{
}

} // verus!
