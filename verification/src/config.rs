//! Settings, and the clients that are made from them.
use vstd::prelude::*;

use crate::client::{api_base, no_http_client, MattermostClient};
use crate::error::AgentError;
use crate::post::invalid_value;
use crate::text_map::TextMap;

verus! {

// ---------------------------------------------------------------------------
// Settings
// ---------------------------------------------------------------------------

/// A setting: the global one, where there is one that is not empty, else that
/// of the environment, empty or not.
pub open spec fn chosen_setting(global: Option<String>, environment: Option<String>) -> Option<
    String,
> {
    match global {
        Some(text) => if text@.len() > 0 {
            Some(text)
        } else {
            environment
        },
        None => environment,
    }
}

/// `chosen` is the setting, or an error that says `missing` where it is set
/// nowhere.
pub open spec fn setting_result(
    global: Option<String>,
    environment: Option<String>,
    missing: Seq<char>,
    chosen: Result<String, AgentError>,
) -> bool {
    match chosen {
        Ok(text) => chosen_setting(global, environment) == Some(text),
        Err(error) => chosen_setting(global, environment) is None && invalid_value(error, missing),
    }
}

fn setting(global: Option<String>, environment: Option<String>, missing: &str) -> (chosen: Result<
    String,
    AgentError,
>)
    ensures
        setting_result(global, environment, missing@, chosen),
{
    if let Some(text) = global {
        if !text.as_str().is_empty() {
            return Ok(text);
        }
    }
    match environment {
        Some(text) => Ok(text),
        None => Err(AgentError::InvalidValue(missing.to_owned())),
    }
}

/// The token, from the global settings or from `MATTERMOST_TOKEN` in the
/// environment.
pub fn get_token(global: Option<String>, environment: Option<String>) -> (token: Result<
    String,
    AgentError,
>)
    ensures
        setting_result(global, environment, "MATTERMOST_TOKEN not set"@, token),
{
    setting(global, environment, "MATTERMOST_TOKEN not set")
}

/// The address of the server, from the global settings or from `MATTERMOST_URL`
/// in the environment.
pub fn get_server_url(global: Option<String>, environment: Option<String>) -> (server_url: Result<
    String,
    AgentError,
>)
    ensures
        setting_result(global, environment, "MATTERMOST_URL not set"@, server_url),
{
    setting(global, environment, "MATTERMOST_URL not set")
}

// ---------------------------------------------------------------------------
// Clients
// ---------------------------------------------------------------------------

/// The clients made so far, by server and token, so that each is made once.
pub struct ClientCache {
    /// By the address of the server, and then by the token.
    clients: TextMap<TextMap<MattermostClient>>,
}

impl View for ClientCache {
    type V = Map<(Seq<char>, Seq<char>), MattermostClient>;

    closed spec fn view(&self) -> Map<(Seq<char>, Seq<char>), MattermostClient> {
        by_pair(self.clients)
    }
}

/// The clients in a map of maps, by server and token.
spec fn by_pair(clients: TextMap<TextMap<MattermostClient>>) -> Map<
    (Seq<char>, Seq<char>),
    MattermostClient,
> {
    Map::new(
        |pair: (Seq<char>, Seq<char>)|
            clients@.contains_key(pair.0) && clients@[pair.0]@.contains_key(pair.1),
        |pair: (Seq<char>, Seq<char>)| clients@[pair.0]@[pair.1],
    )
}

/// Each client is that of its server for its token.
pub open spec fn each_serves_its_pair(
    clients: Map<(Seq<char>, Seq<char>), MattermostClient>,
) -> bool {
    forall|server_url: Seq<char>, token: Seq<char>| #[trigger]
        clients.contains_key((server_url, token)) ==> clients[(server_url, token)].serves(
            server_url,
            token,
        )
}

impl ClientCache {
    #[verifier::type_invariant]
    spec fn wf(self) -> bool {
        each_serves_its_pair(by_pair(self.clients))
    }

    /// No client yet.
    pub fn new() -> (cache: ClientCache)
        ensures
            cache@.dom() =~= Set::empty(),
    {
        ClientCache { clients: TextMap::new() }
    }

    /// The client of a server for a token, where there is one already.
    pub fn find(&self, server_url: &str, token: &str) -> (found: Option<MattermostClient>)
        ensures
            match found {
                Some(client) => self@.contains_key((server_url@, token@)) && client == self@[(
                    server_url@,
                    token@,
                )] && client.serves(server_url@, token@),
                None => !self@.contains_key((server_url@, token@)),
            },
    {
        proof {
            use_type_invariant(self);
        }
        match self.clients.get(server_url) {
            Some(of_server) => match of_server.get(token) {
                Some(client) => {
                    assert(self@.contains_key((server_url@, token@)));
                    Some(client.clone())
                },
                None => None,
            },
            None => None,
        }
    }

    /// Keeps the client that was made for a server and a token, if one was.
    pub fn keep(
        &mut self,
        server_url: &str,
        token: &str,
        made: Result<MattermostClient, AgentError>,
    ) -> (kept: Result<MattermostClient, AgentError>)
        requires
            made matches Ok(client) ==> client.serves(server_url@, token@),
        ensures
            kept == made,
            match made {
                Ok(client) => final(self)@ == old(self)@.insert((server_url@, token@), client),
                Err(_) => final(self)@ == old(self)@,
            },
    {
        match made {
            Ok(client) => {
                proof {
                    use_type_invariant(&*self);
                }
                let mut clients: TextMap<TextMap<MattermostClient>> = TextMap::new();
                std::mem::swap(&mut clients, &mut self.clients);
                let ghost before = clients;
                let mut of_server = match clients.remove(server_url) {
                    Some(found) => found,
                    None => TextMap::new(),
                };
                of_server.insert(token.to_owned(), client.clone());
                clients.insert(server_url.to_owned(), of_server);
                assert(by_pair(clients) =~= by_pair(before).insert((server_url@, token@), client));
                self.clients = clients;
                Ok(client)
            },
            Err(error) => Err(error),
        }
    }

    /// The client of a server for a token: the one that was made before, else a
    /// new one.
    pub fn get_cached_client(&mut self, server_url: &str, token: &str) -> (client: Result<
        MattermostClient,
        AgentError,
    >)
        ensures
            cached_client(old(self)@, final(self)@, server_url@, token@, client),
    {
        match self.find(server_url, token) {
            Some(client) => Ok(client),
            None => {
                let made = MattermostClient::new(server_url, token);
                self.keep(server_url, token, made)
            },
        }
    }

    /// The client for the settings: the token is looked for first, then the
    /// address of the server.
    pub fn build_client(
        &mut self,
        global_token: Option<String>,
        environment_token: Option<String>,
        global_url: Option<String>,
        environment_url: Option<String>,
    ) -> (client: Result<MattermostClient, AgentError>)
        ensures
            built_client(
                old(self)@,
                final(self)@,
                (global_token, environment_token),
                (global_url, environment_url),
                client,
            ),
            match (
                chosen_setting(global_token, environment_token),
                chosen_setting(global_url, environment_url),
            ) {
                (Some(token), Some(server_url)) => cached_client(
                    old(self)@,
                    final(self)@,
                    server_url@,
                    token@,
                    client,
                ),
                (None, _) => final(self)@ == old(self)@ && client is Err && invalid_value(
                    client->Err_0,
                    "MATTERMOST_TOKEN not set"@,
                ),
                (Some(_), None) => final(self)@ == old(self)@ && client is Err && invalid_value(
                    client->Err_0,
                    "MATTERMOST_URL not set"@,
                ),
            },
    {
        let token = match get_token(global_token, environment_token) {
            Ok(token) => token,
            Err(error) => {
                return Err(error);
            },
        };
        let server_url = match get_server_url(global_url, environment_url) {
            Ok(server_url) => server_url,
            Err(error) => {
                return Err(error);
            },
        };
        self.get_cached_client(server_url.as_str(), token.as_str())
    }
}

/// What asking for the client of a server for a token gives, and what it leaves
/// behind: a client that is there already is given out and nothing changes; a
/// client that is not is made and kept, unless it cannot be made. Either way it
/// is the client of that server for that token.
pub open spec fn cached_client(
    before: Map<(Seq<char>, Seq<char>), MattermostClient>,
    after: Map<(Seq<char>, Seq<char>), MattermostClient>,
    server_url: Seq<char>,
    token: Seq<char>,
    client: Result<MattermostClient, AgentError>,
) -> bool {
    let pair = (server_url, token);
    match client {
        Ok(found) => {
            &&& found.serves(server_url, token)
            &&& if before.contains_key(pair) {
                found == before[pair] && after == before
            } else {
                after == before.insert(pair, found)
            }
        },
        Err(error) => {
            &&& !before.contains_key(pair)
            &&& after == before
            &&& exists|reason: Seq<char>| no_http_client(error, reason)
        },
    }
}

/// What asking for the client for the settings gives, and what it leaves behind.
/// Each setting is the global one and that of the environment.
pub open spec fn built_client(
    before: Map<(Seq<char>, Seq<char>), MattermostClient>,
    after: Map<(Seq<char>, Seq<char>), MattermostClient>,
    token: (Option<String>, Option<String>),
    server_url: (Option<String>, Option<String>),
    client: Result<MattermostClient, AgentError>,
) -> bool {
    match (chosen_setting(token.0, token.1), chosen_setting(server_url.0, server_url.1)) {
        (Some(secret), Some(address)) => cached_client(before, after, address@, secret@, client),
        (None, _) => after == before && client is Err && invalid_value(
            client->Err_0,
            "MATTERMOST_TOKEN not set"@,
        ),
        (Some(_), None) => after == before && client is Err && invalid_value(
            client->Err_0,
            "MATTERMOST_URL not set"@,
        ),
    }
}

// ---------------------------------------------------------------------------
// Laws
// ---------------------------------------------------------------------------

/// Asked twice for the same server and token, the cache gives the same client
/// twice, once it could make one, however often it was asked for others in
/// between.
pub proof fn law_each_client_is_made_once(
    before: Map<(Seq<char>, Seq<char>), MattermostClient>,
    between: Map<(Seq<char>, Seq<char>), MattermostClient>,
    later: Map<(Seq<char>, Seq<char>), MattermostClient>,
    after: Map<(Seq<char>, Seq<char>), MattermostClient>,
    server_url: Seq<char>,
    token: Seq<char>,
    first: Result<MattermostClient, AgentError>,
    second: Result<MattermostClient, AgentError>,
)
    requires
        cached_client(before, between, server_url, token, first),
        first is Ok,
        between.submap_of(later),
        cached_client(later, after, server_url, token, second),
    ensures
        second == first,
        after == later,
{
    assert(between.dom().contains((server_url, token)));
    assert(later.dom().contains((server_url, token)));
}

/// No client that was made is ever dropped or replaced.
pub proof fn law_clients_stay(
    before: Map<(Seq<char>, Seq<char>), MattermostClient>,
    after: Map<(Seq<char>, Seq<char>), MattermostClient>,
    server_url: Seq<char>,
    token: Seq<char>,
    client: Result<MattermostClient, AgentError>,
)
    requires
        cached_client(before, after, server_url, token, client),
    ensures
        before.submap_of(after),
{
}

/// A global setting that is not empty decides. Where there is none, the
/// environment does, and where that has none either, the setting is missing and
/// the error says which.
pub proof fn law_global_setting_comes_first(
    global: Option<String>,
    environment: Option<String>,
    missing: Seq<char>,
    chosen: Result<String, AgentError>,
)
    requires
        setting_result(global, environment, missing, chosen),
    ensures
        global is Some && global->0@.len() > 0 ==> chosen is Ok && chosen->Ok_0 == global->0,
        (global is None || global->0@.len() == 0) && environment is Some ==> chosen is Ok
            && chosen->Ok_0 == environment->0,
        (global is None || global->0@.len() == 0) && environment is None ==> chosen is Err
            && chosen->Err_0 is InvalidValue && chosen->Err_0->InvalidValue_0@ == missing,
        chosen_setting(global, environment) is Some <==> chosen is Ok,
        chosen is Ok ==> chosen_setting(global, environment) == Some(chosen->Ok_0),
{
}

/// A client that is asked for shows the token that it was asked for, to the server
/// that it was asked for, and is kept for that pair. The clients for all other
/// pairs stay as they are, and no pair gets one unasked.
pub proof fn law_client_is_that_of_its_pair(
    before: Map<(Seq<char>, Seq<char>), MattermostClient>,
    after: Map<(Seq<char>, Seq<char>), MattermostClient>,
    server_url: Seq<char>,
    token: Seq<char>,
    client: Result<MattermostClient, AgentError>,
)
    requires
        cached_client(before, after, server_url, token, client),
    ensures
        client is Ok ==> {
            &&& client->Ok_0.secret() == token
            &&& client->Ok_0.base() == api_base(server_url)
            &&& after.contains_key((server_url, token))
            &&& after[(server_url, token)] == client->Ok_0
            &&& before.contains_key((server_url, token)) ==> client->Ok_0 == before[(
                server_url,
                token,
            )]
        },
        client is Err ==> after == before && !before.contains_key((server_url, token))
            && client->Err_0 is IoError,
        forall|other: (Seq<char>, Seq<char>)|
            other != (server_url, token) ==> (#[trigger] after.contains_key(other)
                <==> before.contains_key(other)),
        forall|other: (Seq<char>, Seq<char>)|
            other != (server_url, token) && #[trigger] before.contains_key(other) ==> after[other]
                == before[other],
{
}

/// Each client in a cache shows the token of its pair to the server of its pair.
pub proof fn law_each_client_has_its_token(
    clients: Map<(Seq<char>, Seq<char>), MattermostClient>,
    server_url: Seq<char>,
    token: Seq<char>,
)
    requires
        each_serves_its_pair(clients),
        clients.contains_key((server_url, token)),
    ensures
        clients[(server_url, token)].secret() == token,
        clients[(server_url, token)].base() == api_base(server_url),
{
}

/// The client for the settings shows the token that is set to the server that is
/// set, a global setting that is not empty before one of the environment. A token
/// that is set nowhere is reported, and else a server that is set nowhere, and
/// nothing is made then.
pub proof fn law_settings_make_the_client(
    before: Map<(Seq<char>, Seq<char>), MattermostClient>,
    after: Map<(Seq<char>, Seq<char>), MattermostClient>,
    token: (Option<String>, Option<String>),
    server_url: (Option<String>, Option<String>),
    client: Result<MattermostClient, AgentError>,
)
    requires
        built_client(before, after, token, server_url, client),
    ensures
        ({
            let has_token = token.0 is Some && token.0->0@.len() > 0;
            let has_url = server_url.0 is Some && server_url.0->0@.len() > 0;
            &&& client is Ok ==> {
                &&& client->Ok_0.secret() == if has_token {
                    token.0->0@
                } else {
                    token.1->0@
                }
                &&& client->Ok_0.base() == api_base(
                    if has_url {
                        server_url.0->0@
                    } else {
                        server_url.1->0@
                    },
                )
                &&& has_token || token.1 is Some
                &&& has_url || server_url.1 is Some
            }
            &&& client is Err ==> after == before
            &&& !has_token && token.1 is None ==> client is Err && client->Err_0 is InvalidValue
                && client->Err_0->InvalidValue_0@ == "MATTERMOST_TOKEN not set"@
            &&& (has_token || token.1 is Some) && !has_url && server_url.1 is None ==> client is Err
                && client->Err_0 is InvalidValue && client->Err_0->InvalidValue_0@
                == "MATTERMOST_URL not set"@
        }),
{
}

} // verus!
