//! The client: the configuration of a connection, and a call from end to
//! end.

use crate::auth::{basic_auth, basic_auth_value, password_view};
use crate::error::{Error, ErrorKind, ErrorKindView};
use crate::headers::Headers;
use crate::json::{json_model, json_text, Json};
use crate::request::{envelope, request};
use crate::response::outcome_view;
use crate::text::decimal_text;
use crate::transport::{concluded, reply_view, HttpRequestView, STATUS_PREFIX};
use vstd::prelude::*;
use vstd::string::StringExecFns;

pub use crate::request::Request;
pub use crate::response::{string_map_or_null, Response};
pub use crate::transport::{HttpReply, HttpRequest};

verus! {

/// The user agent that a new client names itself with.
pub const USER_AGENT: &'static str = "rpc-lib/2.1.0";

/// The media type of a request's body, and of the reply that is asked for.
pub const JSON_MEDIA_TYPE: &'static str = "application/json";

pub const USER_AGENT_HEADER: &'static str = "User-Agent";

pub const ACCEPT_HEADER: &'static str = "Accept";

pub const CONTENT_TYPE_HEADER: &'static str = "Content-Type";

pub const AUTHORIZATION_HEADER: &'static str = "Authorization";

/// The HTTP request that a client makes for a call, or the message of the
/// error that writing the request as JSON fails with.
pub open spec fn posted(client: ClientView, id: Seq<char>, method: Seq<char>, params: Json) -> Result<
    HttpRequestView,
    Seq<char>,
> {
    match json_text(envelope(request(id, method, params))) {
        Ok(body) => Ok(HttpRequestView { url: client.url, headers: client.headers, body }),
        Err(message) => Err(message),
    }
}

/// The default headers of a client.
pub open spec fn default_headers() -> Map<Seq<char>, Seq<char>> {
    Map::<Seq<char>, Seq<char>>::empty().insert(USER_AGENT_HEADER@, USER_AGENT@).insert(
        ACCEPT_HEADER@,
        JSON_MEDIA_TYPE@,
    ).insert(CONTENT_TYPE_HEADER@, JSON_MEDIA_TYPE@)
}

/// The configuration of a connection to one server: its URL and the
/// headers that every request carries.
#[derive(Debug)]
pub struct Client<'a> {
    url: &'a str,
    headers: Headers,
}

/// What a [`Client`] holds.
pub struct ClientView {
    pub url: Seq<char>,
    pub headers: Map<Seq<char>, Seq<char>>,
}

impl<'a> View for Client<'a> {
    type V = ClientView;

    closed spec fn view(&self) -> ClientView {
        ClientView { url: self.url@, headers: self.headers@ }
    }
}

impl<'a> Client<'a> {
    /// A client for the server at `url`, with the default headers: a user
    /// agent that names this library, and JSON as the type of what is sent
    /// and of what is accepted.
    pub fn new(url: &'a str) -> (client: Client<'a>)
        ensures
            client@ == (ClientView { url: url@, headers: default_headers() }),
    {
        let headers = Headers::new().with(USER_AGENT_HEADER, USER_AGENT).with(
            ACCEPT_HEADER,
            JSON_MEDIA_TYPE,
        ).with(CONTENT_TYPE_HEADER, JSON_MEDIA_TYPE);
        Client { url, headers }
    }

    /// This client with Basic authentication for `username` and
    /// `password`, in place of any `Authorization` header that it had.
    pub fn with_basic_auth(self, username: &str, password: Option<&str>) -> (client: Client<'a>)
        ensures
            client@ == (ClientView {
                url: self@.url,
                headers: self@.headers.insert(
                    AUTHORIZATION_HEADER@,
                    basic_auth(username@, password_view(password)),
                ),
            }),
    {
        let value = basic_auth_value(username, password);
        Client { url: self.url, headers: self.headers.with(AUTHORIZATION_HEADER, value.as_str()) }
    }

    /// This client with `user_agent` in place of the user agent that it
    /// had.
    pub fn with_user_agent(self, user_agent: &str) -> (client: Client<'a>)
        ensures
            client@ == (ClientView {
                url: self@.url,
                headers: self@.headers.insert(USER_AGENT_HEADER@, user_agent@),
            }),
    {
        Client { url: self.url, headers: self.headers.with(USER_AGENT_HEADER, user_agent) }
    }

    /// The URL that the client posts to.
    pub fn url(&self) -> (url: &'a str)
        ensures
            url@ == self@.url,
    {
        self.url
    }

    /// The headers that the client sends.
    pub fn headers(&self) -> (headers: &Headers)
        ensures
            headers@ == self@.headers,
    {
        &self.headers
    }

    /// The HTTP request of a call of `method` with `params` under `id`:
    /// the request envelope as the body, for this client's URL and with
    /// its headers. It fails with a serialization error where the envelope
    /// cannot be written as JSON.
    pub fn prepare(&self, id: &str, method: &str, params: serde_json::Value) -> (prepared: Result<
        HttpRequest<'_>,
        Error,
    >)
        ensures
            match posted(self@, id@, method@, json_model(params)) {
                Ok(request) => prepared matches Ok(made) && made@ == request,
                Err(message) => prepared matches Err(error) && error@
                    == ErrorKindView::Serialization(message),
            },
    {
        match Request::new(id, method, params).encode() {
            Ok(body) => Ok(HttpRequest { url: self.url, headers: &self.headers, body }),
            Err(error) => Err(error),
        }
    }

    /// Calls `method` with `params` under `id`, and returns the result of
    /// the response.
    ///
    /// The exchange is `transport`'s: it gets the HTTP request and returns
    /// the reply, or the description of its failure. It is called once,
    /// with the request of this call, unless the request cannot be written
    /// as JSON: then the call fails with a serialization error and
    /// `transport` is not called. What the call returns for what
    /// `transport` came back with is what [`Client::conclude`] returns for
    /// it.
    pub fn call<F>(
        &self,
        id: &str,
        method: &str,
        params: serde_json::Value,
        transport: F,
    ) -> (outcome: Result<serde_json::Value, Error>) where
        F: FnOnce(HttpRequest<'_>) -> Result<HttpReply, String>,

        requires
            forall|request: HttpRequest<'_>| call_requires(transport, (request,)),
        ensures
            match posted(self@, id@, method@, json_model(params)) {
                Ok(posted) => exists|request: HttpRequest<'_>, reply: Result<HttpReply, String>|
                    request@ == posted && call_ensures(transport, (request,), reply)
                        && outcome_view(outcome) == concluded(reply_view(reply)),
                Err(message) => outcome matches Err(error) && error@
                    == ErrorKindView::Serialization(message),
            },
            posted(self@, id@, method@, json_model(params)) is Ok && (forall|
                request: HttpRequest<'_>,
                reply: Result<HttpReply, String>,
            | call_ensures(transport, (request,), reply) ==> reply is Err) ==> (outcome matches Err(
                error,
            ) && error@ is Transport),
    {
        match self.prepare(id, method, params) {
            Ok(request) => {
                let ghost sent = request;
                let reply = transport(request);
                assert(call_ensures(transport, (sent,), reply));
                Client::conclude(reply)
            },
            Err(error) => Err(error),
        }
    }

    /// What the transport came back with, turned into what the call
    /// returns.
    pub fn conclude(reply: Result<HttpReply, String>) -> (outcome: Result<serde_json::Value, Error>)
        ensures
            outcome_view(outcome) == concluded(reply_view(reply)),
    {
        match reply {
            Err(description) => Err(Error::new(ErrorKind::Transport(description))),
            Ok(reply) => match Response::decode(reply.body.as_slice()) {
                Ok(response) => response.into_result(),
                Err(error) => {
                    if 200 <= reply.status && reply.status <= 299 {
                        Err(error)
                    } else {
                        let mut description = STATUS_PREFIX.to_owned();
                        description.append(decimal_text(reply.status).as_str());
                        Err(Error::new(ErrorKind::Transport(description)))
                    }
                },
            },
        }
    }
}

} // verus!
