//! The client of a Mattermost server: which requests it sends, and what it
//! makes of the replies.
use vstd::prelude::*;

use crate::api::{CreatePostRequest, WsAuthChallenge, WsAuthData, WsEvent};
use crate::error::AgentError;
use crate::text::{
    concat, concat3, contains, contains_text, decimal, decimal_text, ends_with, same_text,
    law_occurs_between_two_parts, trim_end_slashes, without_end_slashes,
};

verus! {

// ---------------------------------------------------------------------------
// The client
// ---------------------------------------------------------------------------

/// The HTTP client of `reqwest`: a handle on a pool of connections.
#[verifier::external_type_specification]
#[verifier::external_body]
pub struct ExHttpClient(reqwest::Client);

/// Trusted: a copy of a `reqwest::Client` is a handle on the same client.
pub assume_specification[ <reqwest::Client as Clone>::clone ](client: &reqwest::Client) -> (copy:
    reqwest::Client)
    ensures
        copy == *client,
;

/// Makes an HTTP client, with `reqwest::Client::builder` and
/// `reqwest::ClientBuilder::build`, or says why it cannot.
///
/// Trusted: nothing. Whether there is a client depends on the machine.
#[verifier::external_body]
fn build_http_client() -> (built: Result<reqwest::Client, String>) {
    match reqwest::Client::builder().build() {
        Ok(client) => Ok(client),
        Err(error) => Err(error.to_string()),
    }
}

/// The client of one server, for one token.
#[derive(Debug)]
pub struct MattermostClient {
    http: reqwest::Client,
    base_url: String,
    token: String,
}

/// The address of the API of the server at `server_url`.
pub open spec fn api_base(server_url: Seq<char>) -> Seq<char> {
    let server = without_end_slashes(server_url);
    if "/api/v4"@.is_suffix_of(server) {
        server
    } else {
        server + "/api/v4"@
    }
}

/// The error for an HTTP client that could not be made.
pub open spec fn no_http_client(error: AgentError, reason: Seq<char>) -> bool {
    error matches AgentError::IoError(text) && text@ == "Failed to create HTTP client: "@ + reason
}

impl Clone for MattermostClient {
    fn clone(&self) -> (copy: Self)
        ensures
            copy == *self,
    {
        MattermostClient {
            http: self.http.clone(),
            base_url: self.base_url.clone(),
            token: self.token.clone(),
        }
    }
}

impl MattermostClient {
    /// The address of the server's API.
    pub closed spec fn base(&self) -> Seq<char> {
        self.base_url@
    }

    /// The token that the client shows the server.
    pub closed spec fn secret(&self) -> Seq<char> {
        self.token@
    }

    /// The HTTP client that carries the requests.
    pub closed spec fn carrier(&self) -> reqwest::Client {
        self.http
    }

    /// This is the client of the server at `server_url` for `token`.
    pub open spec fn serves(&self, server_url: Seq<char>, token: Seq<char>) -> bool {
        self.base() == api_base(server_url) && self.secret() == token
    }

    /// A client on the HTTP client that was made, or the error for none.
    pub fn with_http(
        built: Result<reqwest::Client, String>,
        server_url: &str,
        token: &str,
    ) -> (client: Result<Self, AgentError>)
        ensures
            match (built, client) {
                (Ok(http), Ok(made)) => made.serves(server_url@, token@) && made.carrier() == http,
                (Err(reason), Err(error)) => no_http_client(error, reason@),
                _ => false,
            },
    {
        match built {
            Ok(http) => {
                let server = trim_end_slashes(server_url);
                let base_url = if ends_with(server.as_str(), "/api/v4") {
                    server
                } else {
                    concat(server.as_str(), "/api/v4")
                };
                Ok(MattermostClient { http, base_url, token: token.to_owned() })
            },
            Err(reason) => Err(
                AgentError::IoError(concat("Failed to create HTTP client: ", reason.as_str())),
            ),
        }
    }

    /// The client of the server at `server_url` for `token`. `server_url` may
    /// end in slashes, and may name the API or not.
    pub fn new(server_url: &str, token: &str) -> (client: Result<Self, AgentError>)
        ensures
            match client {
                Ok(made) => made.serves(server_url@, token@),
                Err(error) => exists|reason: Seq<char>| no_http_client(error, reason),
            },
    {
        let built = build_http_client();
        let client = Self::with_http(built, server_url, token);
        assert(client is Err ==> no_http_client(client->Err_0, built->Err_0@));
        client
    }

    /// The token that the client shows the server.
    pub fn token(&self) -> (token: &str)
        ensures
            token@ == self.secret(),
    {
        self.token.as_str()
    }

    /// The HTTP client that carries the requests.
    pub fn http(&self) -> (http: &reqwest::Client)
        ensures
            *http == self.carrier(),
    {
        &self.http
    }

    /// The address of `path` in the server's API.
    pub fn url(&self, path: &str) -> (url: String)
        ensures
            url@ == self.base() + path@,
    {
        concat(self.base_url.as_str(), path)
    }

    /// The value of the `Authorization` header.
    pub fn auth_header(&self) -> (header: String)
        ensures
            header@ == "Bearer "@ + self.secret(),
    {
        concat("Bearer ", self.token.as_str())
    }
}

// ---------------------------------------------------------------------------
// Requests
// ---------------------------------------------------------------------------

/// The method of a request.
#[derive(Debug)]
pub enum Method {
    Get,
    Post,
}

/// A file, as a form that uploads it.
#[derive(Debug)]
pub struct FileForm {
    pub channel_id: String,
    pub file_name: String,
    pub content_type: String,
    pub bytes: Vec<u8>,
}

/// What a request carries.
#[derive(Debug)]
pub enum Body<'a> {
    Empty,
    Json(&'a CreatePostRequest),
    Form(FileForm),
}

/// A request to the server, and what to say where it fails.
#[derive(Debug)]
pub struct HttpRequest<'a> {
    pub method: Method,
    pub url: String,
    /// The value of the `Authorization` header.
    pub authorization: String,
    pub query: Vec<(String, String)>,
    pub body: Body<'a>,
    /// What to say where the request could not be sent.
    pub send_failure: String,
    /// What to say where the reply could not be read.
    pub read_failure: String,
}

/// What a request carries.
#[verifier::ext_equal]
pub enum BodyView {
    Empty,
    Json(CreatePostRequest),
    Form {
        channel_id: Seq<char>,
        file_name: Seq<char>,
        content_type: Seq<char>,
        bytes: Seq<u8>,
    },
}

/// A request to the server, and what to say where it fails.
#[verifier::ext_equal]
pub struct RequestView {
    pub method: Method,
    pub url: Seq<char>,
    pub authorization: Seq<char>,
    pub query: Seq<(Seq<char>, Seq<char>)>,
    pub body: BodyView,
    pub send_failure: Seq<char>,
    pub read_failure: Seq<char>,
}

impl<'a> View for HttpRequest<'a> {
    type V = RequestView;

    open spec fn view(&self) -> RequestView {
        RequestView {
            method: self.method,
            url: self.url@,
            authorization: self.authorization@,
            query: self.query@.map_values(|pair: (String, String)| (pair.0@, pair.1@)),
            body: match self.body {
                Body::Empty => BodyView::Empty,
                Body::Json(request) => BodyView::Json(*request),
                Body::Form(form) => BodyView::Form {
                    channel_id: form.channel_id@,
                    file_name: form.file_name@,
                    content_type: form.content_type@,
                    bytes: form.bytes@,
                },
            },
            send_failure: self.send_failure@,
            read_failure: self.read_failure@,
        }
    }
}

/// `error` says that `what` failed for `reason`.
pub open spec fn io_failure(error: AgentError, what: Seq<char>, reason: Seq<char>) -> bool {
    error matches AgentError::IoError(text) && text@ == what + ": "@ + reason
}

/// The error that says that `what` failed for `reason`.
pub(crate) fn io_error(what: &str, reason: &str) -> (error: AgentError)
    ensures
        io_failure(error, what@, reason@),
{
    AgentError::IoError(concat3(what, ": ", reason))
}

impl<'a> HttpRequest<'a> {
    /// The error for a request that could not be sent.
    pub fn send_error(&self, reason: &str) -> (error: AgentError)
        ensures
            io_failure(error, self@.send_failure, reason@),
    {
        io_error(self.send_failure.as_str(), reason)
    }

    /// The error for a reply that could not be read.
    pub fn read_error(&self, reason: &str) -> (error: AgentError)
        ensures
            io_failure(error, self@.read_failure, reason@),
    {
        io_error(self.read_failure.as_str(), reason)
    }
}

impl MattermostClient {
    /// A request without query and body.
    pub open spec fn request_view(
        &self,
        method: Method,
        path: Seq<char>,
        send_failure: Seq<char>,
        read_failure: Seq<char>,
    ) -> RequestView {
        RequestView {
            method,
            url: self.base() + path,
            authorization: "Bearer "@ + self.secret(),
            query: Seq::empty(),
            body: BodyView::Empty,
            send_failure,
            read_failure,
        }
    }

    /// A request without query and body.
    fn request<'a>(
        &self,
        method: Method,
        path: &str,
        send_failure: &str,
        read_failure: &str,
    ) -> (request: HttpRequest<'a>)
        ensures
            request@ == self.request_view(method, path@, send_failure@, read_failure@),
            request.query@.len() == 0,
            request.body is Empty,
    {
        let request = HttpRequest {
            method,
            url: self.url(path),
            authorization: self.auth_header(),
            query: Vec::new(),
            body: Body::Empty,
            send_failure: send_failure.to_owned(),
            read_failure: read_failure.to_owned(),
        };
        assert(request@.query =~= Seq::empty());
        request
    }

    /// The request for the user that the token belongs to.
    pub open spec fn own_user_view(&self) -> RequestView {
        self.request_view(
            Method::Get,
            "/users/me"@,
            "GET /users/me failed"@,
            "Failed to parse user response"@,
        )
    }

    /// The request for the teams of that user.
    pub open spec fn own_teams_view(&self) -> RequestView {
        self.request_view(
            Method::Get,
            "/users/me/teams"@,
            "GET /users/me/teams failed"@,
            "Failed to parse teams response"@,
        )
    }

    /// The request that makes a post.
    pub open spec fn post_view(&self, post: CreatePostRequest) -> RequestView {
        RequestView {
            body: BodyView::Json(post),
            ..self.request_view(
                Method::Post,
                "/posts"@,
                "POST /posts failed"@,
                "Failed to parse post response"@,
            )
        }
    }

    /// The request for the newest posts of a channel.
    pub open spec fn posts_view(&self, channel_id: Seq<char>, per_page: u16) -> RequestView {
        RequestView {
            query: seq![("per_page"@, decimal(per_page as nat))],
            ..self.request_view(
                Method::Get,
                "/channels/"@ + channel_id + "/posts"@,
                "GET "@ + ("/channels/"@ + channel_id + "/posts"@) + " failed"@,
                "Failed to parse post list response"@,
            )
        }
    }

    /// The request for the channels of a team that a user belongs to.
    pub open spec fn channels_view(&self, user_id: Seq<char>, team_id: Seq<char>) -> RequestView {
        self.request_view(
            Method::Get,
            "/users/"@ + user_id + "/teams/"@ + team_id + "/channels"@,
            "GET user channels failed"@,
            "Failed to parse channels response"@,
        )
    }

    /// The request for the bytes of a file.
    pub open spec fn file_view(&self, file_id: Seq<char>) -> RequestView {
        self.request_view(
            Method::Get,
            "/files/"@ + file_id,
            "GET "@ + ("/files/"@ + file_id) + " failed"@,
            "Failed to read file bytes"@,
        )
    }

    /// The request for the kind of a file.
    pub open spec fn file_info_view(&self, file_id: Seq<char>) -> RequestView {
        self.request_view(
            Method::Get,
            "/files/"@ + file_id + "/info"@,
            "GET "@ + ("/files/"@ + file_id + "/info"@) + " failed"@,
            "Failed to parse file info response"@,
        )
    }

    /// Asks for the user that the token belongs to.
    pub fn get_me<'a>(&self) -> (request: HttpRequest<'a>)
        ensures
            request@ == self.own_user_view(),
            request@ == self.request_view(
                Method::Get,
                "/users/me"@,
                "GET /users/me failed"@,
                "Failed to parse user response"@,
            ),
    {
        self.request(
            Method::Get,
            "/users/me",
            "GET /users/me failed",
            "Failed to parse user response",
        )
    }

    /// Asks for the teams of that user.
    pub fn get_user_teams<'a>(&self) -> (request: HttpRequest<'a>)
        ensures
            request@ == self.own_teams_view(),
            request@ == self.request_view(
                Method::Get,
                "/users/me/teams"@,
                "GET /users/me/teams failed"@,
                "Failed to parse teams response"@,
            ),
    {
        self.request(
            Method::Get,
            "/users/me/teams",
            "GET /users/me/teams failed",
            "Failed to parse teams response",
        )
    }

    /// Makes a post.
    pub fn create_post<'a>(&self, post: &'a CreatePostRequest) -> (request: HttpRequest<'a>)
        ensures
            request@ == self.post_view(*post),
            request@ == (RequestView {
                body: BodyView::Json(*post),
                ..self.request_view(
                    Method::Post,
                    "/posts"@,
                    "POST /posts failed"@,
                    "Failed to parse post response"@,
                )
            }),
    {
        let mut request = self.request(
            Method::Post,
            "/posts",
            "POST /posts failed",
            "Failed to parse post response",
        );
        request.body = Body::Json(post);
        request
    }

    /// Asks for the newest posts of a channel, at most `per_page` of them.
    pub fn get_channel_posts<'a>(&self, channel_id: &str, per_page: u16) -> (request: HttpRequest<
        'a,
    >)
        ensures
            request@ == self.posts_view(channel_id@, per_page),
            request@ == (RequestView {
                query: seq![("per_page"@, decimal(per_page as nat))],
                ..self.request_view(
                    Method::Get,
                    "/channels/"@ + channel_id@ + "/posts"@,
                    "GET "@ + ("/channels/"@ + channel_id@ + "/posts"@) + " failed"@,
                    "Failed to parse post list response"@,
                )
            }),
    {
        let path = concat3("/channels/", channel_id, "/posts");
        let send_failure = concat3("GET ", path.as_str(), " failed");
        let mut request = self.request(
            Method::Get,
            path.as_str(),
            send_failure.as_str(),
            "Failed to parse post list response",
        );
        request.query.push(("per_page".to_owned(), decimal_text(per_page as u64)));
        assert(request@.query =~= seq![("per_page"@, decimal(per_page as nat))]);
        request
    }

    /// Asks for the channels of a team that a user belongs to.
    pub fn get_user_channels<'a>(&self, user_id: &str, team_id: &str) -> (request: HttpRequest<'a>)
        ensures
            request@ == self.channels_view(user_id@, team_id@),
            request@ == self.request_view(
                Method::Get,
                "/users/"@ + user_id@ + "/teams/"@ + team_id@ + "/channels"@,
                "GET user channels failed"@,
                "Failed to parse channels response"@,
            ),
    {
        let user = concat3("/users/", user_id, "/teams/");
        let path = concat3(user.as_str(), team_id, "/channels");
        self.request(
            Method::Get,
            path.as_str(),
            "GET user channels failed",
            "Failed to parse channels response",
        )
    }

    /// Uploads a file to a channel.
    pub fn upload_file<'a>(
        &self,
        channel_id: &str,
        filename: &str,
        bytes: Vec<u8>,
        content_type: &str,
    ) -> (request: HttpRequest<'a>)
        ensures
            request@ == self.upload_view(channel_id@, filename@, bytes@, content_type@),
    {
        let mut request = self.request(
            Method::Post,
            "/files",
            "POST /files failed",
            "Failed to parse file upload response",
        );
        request.body = Body::Form(
            FileForm {
                channel_id: channel_id.to_owned(),
                file_name: filename.to_owned(),
                content_type: content_type.to_owned(),
                bytes,
            },
        );
        request
    }

    /// The request that uploads a file to a channel.
    pub open spec fn upload_view(
        &self,
        channel_id: Seq<char>,
        file_name: Seq<char>,
        bytes: Seq<u8>,
        content_type: Seq<char>,
    ) -> RequestView {
        RequestView {
            body: BodyView::Form { channel_id, file_name, content_type, bytes },
            ..self.request_view(
                Method::Post,
                "/files"@,
                "POST /files failed"@,
                "Failed to parse file upload response"@,
            )
        }
    }

    /// Asks for the bytes of a file.
    pub fn download_file<'a>(&self, file_id: &str) -> (request: HttpRequest<'a>)
        ensures
            request@ == self.file_view(file_id@),
            request@ == self.request_view(
                Method::Get,
                "/files/"@ + file_id@,
                "GET "@ + ("/files/"@ + file_id@) + " failed"@,
                "Failed to read file bytes"@,
            ),
    {
        let path = concat("/files/", file_id);
        let send_failure = concat3("GET ", path.as_str(), " failed");
        self.request(
            Method::Get,
            path.as_str(),
            send_failure.as_str(),
            "Failed to read file bytes",
        )
    }

    /// Asks what kind of file a file is.
    pub fn get_file_info<'a>(&self, file_id: &str) -> (request: HttpRequest<'a>)
        ensures
            request@ == self.file_info_view(file_id@),
            request@ == self.request_view(
                Method::Get,
                "/files/"@ + file_id@ + "/info"@,
                "GET "@ + ("/files/"@ + file_id@ + "/info"@) + " failed"@,
                "Failed to parse file info response"@,
            ),
    {
        let path = concat3("/files/", file_id, "/info");
        let send_failure = concat3("GET ", path.as_str(), " failed");
        self.request(
            Method::Get,
            path.as_str(),
            send_failure.as_str(),
            "Failed to parse file info response",
        )
    }
}

// ---------------------------------------------------------------------------
// Replies
// ---------------------------------------------------------------------------

/// An HTTP status, written with its reason, such as "200 OK".
pub uninterp spec fn status_text(status: u16) -> Seq<char>;

/// Writes an HTTP status, with the `Display` of `reqwest::StatusCode`.
///
/// Trusted: the text depends on the status alone, and begins with the number
/// and a space. Which reason follows stays unsaid.
#[verifier::external_body]
fn write_status(status: u16) -> (text: String)
    requires
        100 <= status < 1000,
    ensures
        text@ == status_text(status),
        (decimal(status as nat) + seq![' ']).is_prefix_of(text@),
{
    reqwest::StatusCode::from_u16(status).unwrap().to_string()
}

/// The server does not accept who asks.
pub open spec fn auth_failure(error: AgentError) -> bool {
    contains_text(error.text(), "authentication failed"@) || contains_text(
        error.text(),
        "HTTP 401"@,
    )
}

/// Whether the server does not accept who asks.
pub fn is_auth_failure(error: &AgentError) -> (failed: bool)
    ensures
        failed == auth_failure(*error),
        failed <==> contains_text(error.text(), "authentication failed"@) || contains_text(
            error.text(),
            "HTTP 401"@,
        ),
{
    let text = error.to_text();
    contains(text.as_str(), "authentication failed") || contains(text.as_str(), "HTTP 401")
}

/// "HTTP 401" occurs where "HTTP " is followed by a text that begins with 401.
proof fn lemma_unauthorized(before: Seq<char>, status: Seq<char>)
    requires
        (decimal(401) + seq![' ']).is_prefix_of(status),
    ensures
        contains_text(before + "HTTP "@ + status, "HTTP 401"@),
{
    reveal_strlit("HTTP ");
    reveal_strlit("HTTP 401");
    reveal_with_fuel(decimal, 3);
    let number = decimal(401) + seq![' '];
    assert(decimal(401) =~= seq!['4', '0', '1']);
    assert(status[0] == number[0] && status[1] == number[1] && status[2] == number[2]);
    let text = before + "HTTP "@ + status;
    let at = before.len() as int;
    assert(text.subrange(at, at + "HTTP 401"@.len()) =~= "HTTP 401"@);
}

/// `error` is the error for a status that is not a success, written as `status`.
pub open spec fn status_error(error: AgentError, status: Seq<char>) -> bool {
    error matches AgentError::IoError(text) && text@ == "Mattermost API error: HTTP "@ + status
}

/// `checked` says whether a reply with this status is a success, or gives the error
/// for the status.
pub open spec fn response_checked(status: u16, checked: Result<(), AgentError>) -> bool {
    match checked {
        Ok(()) => 200 <= status < 300,
        Err(error) => {
            &&& !(200 <= status < 300)
            &&& status_error(error, status_text(status))
            &&& status == 401 ==> auth_failure(error)
        },
    }
}

/// The error for a status that is not a success, written as `status`.
pub fn status_failure(status: &str) -> (error: AgentError)
    ensures
        status_error(error, status@),
{
    AgentError::IoError(concat("Mattermost API error: HTTP ", status))
}

impl MattermostClient {
    /// Whether a reply with this status is a success; the error where it is
    /// not. The error for status 401 is an authentication failure.
    pub fn check_response(status: u16) -> (checked: Result<(), AgentError>)
        requires
            100 <= status < 1000,
        ensures
            response_checked(status, checked),
            match checked {
                Ok(()) => 200 <= status < 300,
                Err(error) => {
                    &&& !(200 <= status < 300)
                    &&& status_error(error, status_text(status))
                    &&& status == 401 ==> auth_failure(error)
                },
            },
    {
        if 200 <= status && status < 300 {
            return Ok(());
        }
        let text = write_status(status);
        let error = status_failure(text.as_str());
        proof {
            if status == 401 {
                let before = "IO error: "@ + "Mattermost API error: "@;
                lemma_unauthorized(before, text@);
                reveal_strlit("Mattermost API error: HTTP ");
                reveal_strlit("Mattermost API error: ");
                reveal_strlit("HTTP ");
                assert("Mattermost API error: HTTP "@ =~= "Mattermost API error: "@ + "HTTP "@);
                assert(error.text() =~= before + "HTTP "@ + text@);
            }
        }
        Err(error)
    }
}

// ---------------------------------------------------------------------------
// The WebSocket
// ---------------------------------------------------------------------------

/// The parts of a URL that a WebSocket address is made of.
#[derive(Debug)]
pub struct ServerUrl {
    pub scheme: String,
    pub host: Option<String>,
    /// The port, where it is not the one that goes with the scheme.
    pub port: Option<u16>,
}

/// The parts of a URL that a WebSocket address is made of.
#[verifier::ext_equal]
pub struct UrlView {
    pub scheme: Seq<char>,
    pub host: Option<Seq<char>>,
    pub port: Option<u16>,
}

/// The parts of a URL, or why there is none.
pub open spec fn url_view(parsed: Result<ServerUrl, String>) -> Result<UrlView, Seq<char>> {
    match parsed {
        Ok(url) => Ok(UrlView { scheme: url.scheme@, host: url.host.deep_view(), port: url.port }),
        Err(reason) => Err(reason@),
    }
}

/// The parts of the URL `text`, or why it is none.
pub uninterp spec fn parsed_url(text: Seq<char>) -> Result<UrlView, Seq<char>>;

/// Reads a URL, with `url::Url::parse`, `scheme`, `host_str` and `port`.
///
/// Trusted: whether `text` is a URL, what its parts are, and the reason given
/// where it is none, depend on `text` alone. What they are stays unsaid.
#[verifier::external_body]
fn parse_url(text: &str) -> (parsed: Result<ServerUrl, String>)
    ensures
        url_view(parsed) == parsed_url(text@),
{
    match url::Url::parse(text) {
        Ok(url) => Ok(ServerUrl {
            scheme: url.scheme().to_string(),
            host: url.host_str().map(str::to_string),
            port: url.port(),
        }),
        Err(error) => Err(error.to_string()),
    }
}

/// The scheme of the WebSocket that goes with a scheme; nothing where there is
/// none.
pub open spec fn websocket_scheme(scheme: Seq<char>) -> Option<Seq<char>> {
    if scheme == "https"@ {
        Some("wss"@)
    } else if scheme == "http"@ {
        Some("ws"@)
    } else {
        None
    }
}

/// A port as it stands in a URL.
pub open spec fn port_suffix(port: Option<u16>) -> Seq<char> {
    match port {
        Some(number) => ":"@ + decimal(number as nat),
        None => Seq::empty(),
    }
}

/// `error` says that the configuration cannot be used, for `reason`.
pub open spec fn config_error(error: AgentError, reason: Seq<char>) -> bool {
    error matches AgentError::InvalidConfig(text) && text@ == reason
}

/// `address` is the WebSocket address for a server URL, or the error for none.
pub open spec fn websocket_address(
    parsed: Result<UrlView, Seq<char>>,
    address: Result<String, AgentError>,
) -> bool {
    match parsed {
        Err(reason) => address matches Err(error) && config_error(
            error,
            "Invalid server URL: "@ + reason,
        ),
        Ok(url) => match (websocket_scheme(url.scheme), url.host) {
            (None, _) => address matches Err(error) && config_error(
                error,
                "Unsupported URL scheme: "@ + url.scheme,
            ),
            (Some(_), None) => address matches Err(error) && config_error(
                error,
                "Missing host in server URL"@,
            ),
            (Some(scheme), Some(host)) => address matches Ok(text) && text@ == scheme + "://"@
                + host + port_suffix(url.port) + "/api/v4/websocket"@,
        },
    }
}

/// The WebSocket address for a server URL that was read.
pub fn websocket_url_of(parsed: Result<ServerUrl, String>) -> (address: Result<String, AgentError>)
    ensures
        websocket_address(url_view(parsed), address),
{
    let url = match parsed {
        Ok(url) => url,
        Err(reason) => {
            return Err(AgentError::InvalidConfig(concat("Invalid server URL: ", reason.as_str())));
        },
    };
    proof {
        reveal_strlit("https");
        reveal_strlit("http");
    }
    let scheme = if same_text(url.scheme.as_str(), "https") {
        "wss"
    } else if same_text(url.scheme.as_str(), "http") {
        "ws"
    } else {
        return Err(
            AgentError::InvalidConfig(concat("Unsupported URL scheme: ", url.scheme.as_str())),
        );
    };
    let host = match url.host {
        Some(host) => host,
        None => {
            return Err(AgentError::InvalidConfig("Missing host in server URL".to_owned()));
        },
    };
    let port = match url.port {
        Some(number) => {
            let digits = decimal_text(number as u64);
            concat(":", digits.as_str())
        },
        None => String::new(),
    };
    let server = concat3(scheme, "://", host.as_str());
    Ok(concat3(server.as_str(), port.as_str(), "/api/v4/websocket"))
}

/// The server's first answer on a WebSocket.
#[derive(Debug)]
pub enum AuthReply {
    /// None: the connection was closed.
    Ended,
    /// The connection failed, for this reason.
    Failed(String),
    /// A text: an event, or not.
    Text(Option<WsEvent>),
    /// Another message than a text.
    Other,
}

impl AuthReply {
    /// The server does not accept the token.
    pub open spec fn refused(&self) -> bool {
        self matches AuthReply::Text(Some(event)) && event.status matches Some(status) && status@
            == "FAIL"@
    }
}

/// `error` is the error for a connection that was closed before an answer came:
/// it does not say that the server refused the token.
pub open spec fn unanswered(error: AgentError) -> bool {
    io_failure(error, "WebSocket read error"@, "stream ended"@) && !auth_failure(error)
}

/// Whether the listener may go on after the server's first answer. No answer, a
/// failed connection and a refused token are errors. The error for a refused
/// token is an authentication failure, and the error for no answer is none.
pub fn check_auth_reply(reply: &AuthReply) -> (checked: Result<(), AgentError>)
    ensures
        match checked {
            Ok(()) => !(reply is Ended) && !(reply is Failed) && !reply.refused(),
            Err(error) => match *reply {
                AuthReply::Ended => unanswered(error),
                AuthReply::Failed(reason) => io_failure(error, "WebSocket read error"@, reason@),
                _ => reply.refused() && auth_failure(error) && (error matches AgentError::IoError(
                    text,
                ) && text@ == "WebSocket authentication failed"@),
            },
        },
{
    match reply {
        AuthReply::Ended => {
            let error = io_error("WebSocket read error", "stream ended");
            proof {
                lemma_no_answer_is_no_auth_failure(error);
            }
            Err(error)
        },
        AuthReply::Failed(reason) => Err(io_error("WebSocket read error", reason.as_str())),
        AuthReply::Text(Some(event)) => {
            match &event.status {
                Some(status) => {
                    if same_text(status.as_str(), "FAIL") {
                        let error = AgentError::IoError(
                            "WebSocket authentication failed".to_owned(),
                        );
                        proof {
                            lemma_refusal_is_auth_failure(error);
                        }
                        return Err(error);
                    }
                    Ok(())
                },
                None => Ok(()),
            }
        },
        _ => Ok(()),
    }
}

/// The error for a refused token is an authentication failure.
proof fn lemma_refusal_is_auth_failure(error: AgentError)
    requires
        error matches AgentError::IoError(text) && text@ == "WebSocket authentication failed"@,
    ensures
        auth_failure(error),
{
    reveal_strlit("IO error: ");
    reveal_strlit("WebSocket authentication failed");
    reveal_strlit("authentication failed");
    let text = error.text();
    let needle = "authentication failed"@;
    let at = text.len() - needle.len();
    assert(text.subrange(at, at + needle.len()) =~= needle);
}

/// A text does not occur where one of its characters does not.
proof fn lemma_absent_character(text: Seq<char>, needle: Seq<char>, at: int)
    requires
        0 <= at < needle.len(),
        forall|i: int| 0 <= i < text.len() ==> #[trigger] text[i] != needle[at],
    ensures
        !contains_text(text, needle),
{
    assert forall|from: int| 0 <= from <= text.len() - needle.len() implies #[trigger] text.subrange(
        from,
        from + needle.len(),
    ) != needle by {
        assert(text.subrange(from, from + needle.len())[at] == text[from + at]);
    }
}

/// The error for no answer is no authentication failure.
proof fn lemma_no_answer_is_no_auth_failure(error: AgentError)
    requires
        io_failure(error, "WebSocket read error"@, "stream ended"@),
    ensures
        !auth_failure(error),
{
    reveal_strlit("IO error: ");
    reveal_strlit("WebSocket read error");
    reveal_strlit(": ");
    reveal_strlit("stream ended");
    reveal_strlit("authentication failed");
    reveal_strlit("HTTP 401");
    let text = error.text();
    lemma_absent_character(text, "authentication failed"@, 1);
    lemma_absent_character(text, "HTTP 401"@, 0);
}

/// A step on the way to an open WebSocket, or to an upload.
#[derive(Debug)]
pub enum Step {
    /// Writing the file that is uploaded into a form.
    WriteForm,
    /// Writing the first message on a WebSocket.
    WriteAuth,
    /// Sending that message.
    SendAuth,
}

impl Step {
    /// What to say where the step fails.
    pub open spec fn failure(&self) -> Seq<char> {
        match *self {
            Step::WriteForm => "Failed to create multipart part"@,
            Step::WriteAuth => "Failed to serialize auth"@,
            Step::SendAuth => "Failed to send auth challenge"@,
        }
    }

    /// The error for this step, where it failed for `reason`.
    pub fn error(&self, reason: &str) -> (error: AgentError)
        ensures
            io_failure(error, self.failure(), reason@),
    {
        let what = match self {
            Step::WriteForm => "Failed to create multipart part",
            Step::WriteAuth => "Failed to serialize auth",
            Step::SendAuth => "Failed to send auth challenge",
        };
        io_error(what, reason)
    }
}

/// `error` is the error for a WebSocket that could not be opened: because the
/// server refused with status 401, or for another reason.
pub open spec fn not_opened(error: AgentError, refusal: Option<u16>, reason: Seq<char>) -> bool {
    if refusal == Some(401u16) {
        &&& io_failure(error, "WebSocket connection failed"@, "HTTP "@ + status_text(401))
        &&& auth_failure(error)
    } else {
        io_failure(error, "WebSocket connection failed"@, reason)
    }
}

/// The error for a WebSocket that could not be opened, with the status that the
/// server refused with, if it did. A refusal with status 401 is an
/// authentication failure, whatever the reason says.
pub fn connect_error(refusal: Option<u16>, reason: &str) -> (error: AgentError)
    ensures
        not_opened(error, refusal, reason@),
{
    match refusal {
        Some(401) => {
            let text = write_status(401);
            let refused = concat("HTTP ", text.as_str());
            let error = io_error("WebSocket connection failed", refused.as_str());
            proof {
                let before = "IO error: "@ + "WebSocket connection failed"@ + ": "@;
                lemma_unauthorized(before, text@);
                assert(error.text() =~= before + "HTTP "@ + text@);
            }
            error
        },
        _ => io_error("WebSocket connection failed", reason),
    }
}

impl MattermostClient {
    /// The address of the server's WebSocket.
    pub fn websocket_url(&self) -> (address: Result<String, AgentError>)
        ensures
            websocket_address(parsed_url(self.base()), address),
    {
        websocket_url_of(parse_url(self.base_url.as_str()))
    }

    /// The first message on a WebSocket.
    pub fn auth_challenge(&self) -> (challenge: WsAuthChallenge)
        ensures
            challenge.seq == 1,
            challenge.action@ == "authentication_challenge"@,
            challenge.data.token@ == self.secret(),
    {
        WsAuthChallenge {
            seq: 1,
            action: "authentication_challenge".to_owned(),
            data: WsAuthData { token: self.token.clone() },
        }
    }
}

// ---------------------------------------------------------------------------
// Laws
// ---------------------------------------------------------------------------

proof fn lemma_api_suffix(server: Seq<char>)
    ensures
        "/api/v4"@.is_suffix_of(server + "/api/v4"@),
        without_end_slashes(server + "/api/v4"@) == server + "/api/v4"@,
        "/api/v4"@.is_suffix_of(server) ==> without_end_slashes(server) == server,
{
    reveal_strlit("/api/v4");
    let whole = server + "/api/v4"@;
    assert(whole.subrange(server.len() as int, whole.len() as int) =~= "/api/v4"@);
    assert(whole.last() == '4');
    if "/api/v4"@.is_suffix_of(server) {
        let tail = server.subrange(server.len() - "/api/v4"@.len(), server.len() as int);
        assert(tail == "/api/v4"@);
        assert(server.last() == tail.last());
    }
}

/// The address of the API ends in the API's path, whatever the server URL.
pub proof fn law_base_names_the_api(server_url: Seq<char>)
    ensures
        "/api/v4"@.is_suffix_of(api_base(server_url)),
{
    lemma_api_suffix(without_end_slashes(server_url));
}

/// A slash at the end of the server URL makes no difference.
pub proof fn law_end_slash_makes_no_difference(server_url: Seq<char>)
    ensures
        api_base(server_url.push('/')) == api_base(server_url),
{
    assert(server_url.push('/').drop_last() =~= server_url);
}

/// A server URL may name the API or not: the address of the API, given as the
/// server URL, leads to itself.
pub proof fn law_api_may_be_named(server_url: Seq<char>)
    ensures
        api_base(api_base(server_url)) == api_base(server_url),
{
    law_base_names_the_api(server_url);
    lemma_api_suffix(api_base(server_url));
}

/// The WebSocket of a server is encrypted exactly where the server URL says
/// `https`.
pub proof fn law_encryption_is_kept(url: UrlView, address: Result<String, AgentError>)
    requires
        websocket_address(Ok(url), address),
        address is Ok,
    ensures
        "wss://"@.is_prefix_of(address->Ok_0@) <==> url.scheme == "https"@,
        "ws://"@.is_prefix_of(address->Ok_0@) <==> url.scheme == "http"@,
{
    reveal_strlit("https");
    reveal_strlit("http");
    reveal_strlit("wss");
    reveal_strlit("ws");
    reveal_strlit("://");
    reveal_strlit("wss://");
    reveal_strlit("ws://");
    let text = address->Ok_0@;
    assert("https"@.len() != "http"@.len());
    if url.scheme == "https"@ {
        assert(text.subrange(0, 6) =~= "wss://"@);
        assert(text[2] == 's' && "ws://"@[2] == ':');
    } else {
        assert(text.subrange(0, 5) =~= "ws://"@);
        assert(text[2] == ':' && "wss://"@[2] == 's');
    }
}

/// An error is an authentication failure exactly where its text says
/// "authentication failed" or "HTTP 401" somewhere, whatever else it says.
pub proof fn law_text_tells_an_auth_failure(error: AgentError)
    ensures
        auth_failure(error) <==> exists|before: Seq<char>, after: Seq<char>|
            error.text() == #[trigger] (before + "authentication failed"@ + after)
                || error.text() == before + "HTTP 401"@ + after,
{
    let failed = "authentication failed"@;
    let unauthorized = "HTTP 401"@;
    law_occurs_between_two_parts(error.text(), failed);
    law_occurs_between_two_parts(error.text(), unauthorized);
    if contains_text(error.text(), failed) {
        let (before, after) = choose|before: Seq<char>, after: Seq<char>|
            error.text() == #[trigger] (before + failed + after);
        assert(error.text() == before + failed + after);
    }
    if contains_text(error.text(), unauthorized) {
        let (before, after) = choose|before: Seq<char>, after: Seq<char>|
            error.text() == #[trigger] (before + unauthorized + after);
        // The two parts are found through the text that they make with the other words.
        let witness = before + failed + after;
        assert(error.text() == before + unauthorized + after);
    }
}

/// A server URL that does not end in a slash is the address of the API where it
/// names the API, and otherwise is followed by the API's path.
pub proof fn law_base_begins_with_the_server(server_url: Seq<char>)
    requires
        server_url.len() == 0 || server_url.last() != '/',
    ensures
        "/api/v4"@.is_suffix_of(server_url) ==> api_base(server_url) == server_url,
        !"/api/v4"@.is_suffix_of(server_url) ==> api_base(server_url) == server_url + "/api/v4"@,
{
}

/// A client serves a server for a token exactly where its requests go to the
/// server's API and it shows that token.
pub proof fn law_client_shows_its_token(
    client: MattermostClient,
    server_url: Seq<char>,
    token: Seq<char>,
)
    ensures
        client.serves(server_url, token) <==> client.base() == api_base(server_url)
            && client.secret() == token,
{
}

/// Every request goes to its path in the server's API, by its method, and shows
/// the token as a bearer; it asks and carries nothing unless more is said, and
/// fails with the words that belong to it.
pub proof fn law_requests_go_to_the_api_with_the_token(
    client: MattermostClient,
    method: Method,
    path: Seq<char>,
    send_failure: Seq<char>,
    read_failure: Seq<char>,
)
    ensures
        ({
            let request = client.request_view(method, path, send_failure, read_failure);
            &&& request.method == method
            &&& request.url.len() == client.base().len() + path.len()
            &&& client.base().is_prefix_of(request.url)
            &&& path.is_suffix_of(request.url)
            &&& request.authorization == "Bearer "@ + client.secret()
            &&& request.query.len() == 0
            &&& request.body is Empty
            &&& request.send_failure == send_failure
            &&& request.read_failure == read_failure
        }),
{
    let url = client.base() + path;
    assert(url.subrange(0, client.base().len() as int) =~= client.base());
    assert(url.subrange(url.len() - path.len(), url.len() as int) =~= path);
}

/// An upload posts a form to the files of the server's API, with the channel, the
/// file's name, its kind and all its bytes.
pub proof fn law_upload_carries_the_file(
    client: MattermostClient,
    channel_id: Seq<char>,
    file_name: Seq<char>,
    bytes: Seq<u8>,
    content_type: Seq<char>,
)
    ensures
        ({
            let request = client.upload_view(channel_id, file_name, bytes, content_type);
            &&& request.method == Method::Post
            &&& request.url == client.base() + "/files"@
            &&& request.authorization == "Bearer "@ + client.secret()
            &&& request.query.len() == 0
            &&& request.body is Form
            &&& request.body->channel_id == channel_id
            &&& request.body->file_name == file_name
            &&& request.body->content_type == content_type
            &&& request.body->bytes == bytes
            &&& request.send_failure == "POST /files failed"@
            &&& request.read_failure == "Failed to parse file upload response"@
        }),
{
}

/// What a request shows is all of it: each part comes from its own field.
pub proof fn law_request_shows_all_its_parts(request: HttpRequest)
    ensures
        request@.method == request.method,
        request@.url == request.url@,
        request@.authorization == request.authorization@,
        request@.send_failure == request.send_failure@,
        request@.read_failure == request.read_failure@,
        request@.query.len() == request.query@.len(),
        forall|i: int|
            0 <= i < request.query@.len() ==> (#[trigger] request@.query[i]).0
                == request.query@[i].0@ && request@.query[i].1 == request.query@[i].1@,
        request.body is Empty <==> request@.body is Empty,
        request.body matches Body::Json(post) ==> request@.body == BodyView::Json(*post),
        request.body matches Body::Form(form) ==> {
            &&& request@.body is Form
            &&& request@.body->channel_id == form.channel_id@
            &&& request@.body->file_name == form.file_name@
            &&& request@.body->content_type == form.content_type@
            &&& request@.body->bytes == form.bytes@
        },
{
}

/// An error for what failed names it, and then the reason, and nothing else; an
/// error for a status names the status; and an error for a configuration names
/// what is wrong with it.
pub proof fn law_errors_name_what_failed(
    error: AgentError,
    what: Seq<char>,
    reason: Seq<char>,
)
    ensures
        io_failure(error, what, reason) <==> error is IoError && error->IoError_0@ == what + seq![
            ':',
            ' ',
        ] + reason,
        no_http_client(error, reason) <==> error is IoError && error->IoError_0@
            == "Failed to create HTTP client"@ + seq![':', ' '] + reason,
        status_error(error, reason) <==> error is IoError && error->IoError_0@
            == "Mattermost API error"@ + seq![':', ' ', 'H', 'T', 'T', 'P', ' '] + reason,
        config_error(error, reason) <==> error is InvalidConfig && error->InvalidConfig_0@
            == reason,
{
    reveal_strlit(": ");
    reveal_strlit("Failed to create HTTP client: ");
    reveal_strlit("Failed to create HTTP client");
    reveal_strlit("Mattermost API error: HTTP ");
    reveal_strlit("Mattermost API error");
    assert(": "@ =~= seq![':', ' ']);
    assert("Failed to create HTTP client: "@ =~= "Failed to create HTTP client"@ + seq![':', ' ']);
    assert("Mattermost API error: HTTP "@ =~= "Mattermost API error"@ + seq![
        ':',
        ' ',
        'H',
        'T',
        'T',
        'P',
        ' ',
    ]);
}

/// A step that fails is named: writing the form, writing the challenge, or sending
/// it.
pub proof fn law_steps_name_themselves(step: Step)
    ensures
        step is WriteForm ==> step.failure() == "Failed to create multipart part"@,
        step is WriteAuth ==> step.failure() == "Failed to serialize auth"@,
        step is SendAuth ==> step.failure() == "Failed to send auth challenge"@,
{
}

/// The WebSocket of a server has the server's host and port and the API's path,
/// and is encrypted where the server is. There is none, and the error says why,
/// where the URL cannot be read, is of another scheme, or names no host.
pub proof fn law_websocket_stands_at_the_server(
    parsed: Result<UrlView, Seq<char>>,
    address: Result<String, AgentError>,
)
    requires
        websocket_address(parsed, address),
    ensures
        parsed matches Ok(url) ==> {
            let known = url.scheme == "https"@ || url.scheme == "http"@;
            &&& known && url.host is Some ==> {
                let scheme = if url.scheme == "https"@ {
                    "wss"@
                } else {
                    "ws"@
                };
                let port = match url.port {
                    Some(number) => seq![':'] + decimal(number as nat),
                    None => Seq::empty(),
                };
                &&& address is Ok
                &&& address->Ok_0@ == scheme + "://"@ + url.host->0 + port + "/api/v4/websocket"@
            }
            &&& known && url.host is None ==> address is Err && address->Err_0 is InvalidConfig
                && address->Err_0->InvalidConfig_0@ == "Missing host in server URL"@
            &&& !known ==> address is Err && address->Err_0 is InvalidConfig
                && address->Err_0->InvalidConfig_0@ == "Unsupported URL scheme: "@ + url.scheme
        },
        parsed matches Err(reason) ==> address is Err && address->Err_0 is InvalidConfig
            && address->Err_0->InvalidConfig_0@ == "Invalid server URL: "@ + reason,
{
    reveal_strlit(":");
    assert(":"@ =~= seq![':']);
    reveal_strlit("https");
    reveal_strlit("http");
    assert("https"@.len() != "http"@.len());
}

/// What is read of a URL is all of it: its scheme, its host and its port, or the
/// reason why there is none.
pub proof fn law_url_shows_all_its_parts(parsed: Result<ServerUrl, String>)
    ensures
        parsed matches Ok(url) ==> {
            &&& url_view(parsed) is Ok
            &&& url_view(parsed)->Ok_0.scheme == url.scheme@
            &&& url_view(parsed)->Ok_0.host is Some <==> url.host is Some
            &&& url.host is Some ==> url_view(parsed)->Ok_0.host->0 == url.host->0@
            &&& url_view(parsed)->Ok_0.port == url.port
        },
        parsed matches Err(reason) ==> url_view(parsed) is Err && url_view(parsed)->Err_0
            == reason@,
{
}

/// The server refuses the token exactly where its answer is an event with the
/// status "FAIL".
pub proof fn law_only_fail_refuses(reply: AuthReply)
    ensures
        reply.refused() <==> {
            &&& reply is Text
            &&& reply->Text_0 is Some
            &&& reply->Text_0->0.status is Some
            &&& reply->Text_0->0.status->0@ == "FAIL"@
        },
{
}

/// The error for no answer says that the stream ended, and neither
/// "authentication failed" nor "HTTP 401".
pub proof fn law_no_answer_says_that_the_stream_ended(error: AgentError)
    requires
        unanswered(error),
    ensures
        error is IoError,
        error->IoError_0@ == "WebSocket read error"@ + ": "@ + "stream ended"@,
        !contains_text(error.text(), "authentication failed"@),
        !contains_text(error.text(), "HTTP 401"@),
{
}

/// The error for a WebSocket that could not be opened gives the reason. Where the
/// server refused with status 401, and only there, the status takes its place, and
/// the text says "HTTP 401".
pub proof fn law_connect_error_gives_the_reason(
    error: AgentError,
    refusal: Option<u16>,
    reason: Seq<char>,
)
    requires
        not_opened(error, refusal, reason),
    ensures
        error is IoError,
        refusal != Some(401u16) ==> error->IoError_0@ == "WebSocket connection failed"@ + ": "@
            + reason,
        refusal == Some(401u16) ==> {
            &&& error->IoError_0@ == "WebSocket connection failed"@ + ": "@ + ("HTTP "@
                + status_text(401))
            &&& contains_text(error.text(), "HTTP 401"@) || contains_text(
                error.text(),
                "authentication failed"@,
            )
        },
{
}

/// A reply is a success exactly where its status is in the two hundreds. Any other
/// status is an error that names it, and a listener that meets the error for 401
/// stops.
pub proof fn law_only_the_two_hundreds_succeed(status: u16, checked: Result<(), AgentError>)
    requires
        response_checked(status, checked),
    ensures
        checked is Ok <==> status / 100 == 2,
        checked is Err ==> checked->Err_0 is IoError && checked->Err_0->IoError_0@
            == "Mattermost API error: HTTP "@ + status_text(status),
        status == 401 ==> contains_text(checked->Err_0.text(), "authentication failed"@)
            || contains_text(checked->Err_0.text(), "HTTP 401"@),
{
}

/// Every request for something goes to the path of that thing, shows the token,
/// and carries nothing: for the user and the user's teams, for the channels of a
/// team, and for a file and its kind. Only the request for posts has a query: how
/// many are asked for.
pub proof fn law_requests_ask_for_what_they_name(
    client: MattermostClient,
    id: Seq<char>,
    other: Seq<char>,
    per_page: u16,
)
    ensures
        ({
            let base = client.base();
            let user = client.own_user_view();
            let teams = client.own_teams_view();
            let posts = client.posts_view(id, per_page);
            let channels = client.channels_view(id, other);
            let file = client.file_view(id);
            let kind = client.file_info_view(id);
            &&& user.url == base + "/users/me"@
            &&& teams.url == base + "/users/me/teams"@
            &&& posts.url == base + ("/channels/"@ + id + "/posts"@)
            &&& channels.url == base + ("/users/"@ + id + "/teams/"@ + other + "/channels"@)
            &&& file.url == base + ("/files/"@ + id)
            &&& kind.url == base + ("/files/"@ + id + "/info"@)
            &&& user.method is Get && teams.method is Get && posts.method is Get
            &&& channels.method is Get && file.method is Get && kind.method is Get
            &&& user.body is Empty && teams.body is Empty && posts.body is Empty
            &&& channels.body is Empty && file.body is Empty && kind.body is Empty
            &&& user.query.len() == 0 && teams.query.len() == 0 && channels.query.len() == 0
            &&& file.query.len() == 0 && kind.query.len() == 0
            &&& posts.query.len() == 1
            &&& posts.query[0].0 == "per_page"@
            &&& posts.query[0].1 == decimal(per_page as nat)
            &&& user.authorization == "Bearer "@ + client.secret()
            &&& teams.authorization == "Bearer "@ + client.secret()
            &&& posts.authorization == "Bearer "@ + client.secret()
            &&& channels.authorization == "Bearer "@ + client.secret()
            &&& file.authorization == "Bearer "@ + client.secret()
            &&& kind.authorization == "Bearer "@ + client.secret()
        }),
{
}

/// A failed request is told by what it asked for, and a reply that cannot be read
/// by what it should have been.
pub proof fn law_requests_fail_in_their_own_words(
    client: MattermostClient,
    id: Seq<char>,
    other: Seq<char>,
    per_page: u16,
    post: CreatePostRequest,
)
    ensures
        client.own_user_view().send_failure == "GET /users/me failed"@,
        client.own_user_view().read_failure == "Failed to parse user response"@,
        client.own_teams_view().send_failure == "GET /users/me/teams failed"@,
        client.own_teams_view().read_failure == "Failed to parse teams response"@,
        client.post_view(post).send_failure == "POST /posts failed"@,
        client.post_view(post).read_failure == "Failed to parse post response"@,
        client.posts_view(id, per_page).send_failure == "GET "@ + ("/channels/"@ + id + "/posts"@)
            + " failed"@,
        client.posts_view(id, per_page).read_failure == "Failed to parse post list response"@,
        client.channels_view(id, other).send_failure == "GET user channels failed"@,
        client.channels_view(id, other).read_failure == "Failed to parse channels response"@,
        client.file_view(id).send_failure == "GET "@ + ("/files/"@ + id) + " failed"@,
        client.file_view(id).read_failure == "Failed to read file bytes"@,
        client.file_info_view(id).send_failure == "GET "@ + ("/files/"@ + id + "/info"@)
            + " failed"@,
        client.file_info_view(id).read_failure == "Failed to parse file info response"@,
{
}

/// A post is made by sending it, whole, to the posts of the server's API.
pub proof fn law_post_is_sent_whole(client: MattermostClient, post: CreatePostRequest)
    ensures
        client.post_view(post).method is Post,
        client.post_view(post).url == client.base() + "/posts"@,
        client.post_view(post).authorization == "Bearer "@ + client.secret(),
        client.post_view(post).query.len() == 0,
        client.post_view(post).body is Json,
        client.post_view(post).body->Json_0 == post,
{
}

} // verus!
