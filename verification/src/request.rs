//! The request envelope: what a call sends.

use crate::error::{Error, ErrorKind, ErrorKindView};
use crate::json::{
    json_model, json_parse, json_text, member, members_model, object_of, parse, render,
    string_value, Json,
};
use vstd::prelude::*;

verus! {

/// The protocol version that every request carries.
pub const RPC_VERSION: &'static str = "2.0";

pub const JSONRPC_MEMBER: &'static str = "jsonrpc";

pub const METHOD_MEMBER: &'static str = "method";

pub const PARAMS_MEMBER: &'static str = "params";

pub const ID_MEMBER: &'static str = "id";

/// The message for a JSON value that is no request envelope.
pub const INVALID_REQUEST: &'static str = "invalid request envelope";

/// The request envelope of one call.
#[derive(Debug, Clone, PartialEq)]
pub struct Request {
    jsonrpc: &'static str,
    method: String,
    params: serde_json::Value,
    id: String,
}

/// What a [`Request`] holds.
pub struct RequestView {
    pub jsonrpc: Seq<char>,
    pub method: Seq<char>,
    pub params: Json,
    pub id: Seq<char>,
}

impl View for Request {
    type V = RequestView;

    closed spec fn view(&self) -> RequestView {
        RequestView {
            jsonrpc: self.jsonrpc@,
            method: self.method@,
            params: json_model(self.params),
            id: self.id@,
        }
    }
}

/// The request that a call of `method` with `params` under `id` sends.
pub open spec fn request(id: Seq<char>, method: Seq<char>, params: Json) -> RequestView {
    RequestView { jsonrpc: RPC_VERSION@, method, params, id }
}

/// The JSON object that a request goes out as: its four members, in the
/// order `jsonrpc`, `method`, `params`, `id`.
pub open spec fn envelope(request: RequestView) -> Json {
    Json::Object(
        seq![
            (JSONRPC_MEMBER@, Json::Str(request.jsonrpc)),
            (METHOD_MEMBER@, Json::Str(request.method)),
            (PARAMS_MEMBER@, request.params),
            (ID_MEMBER@, Json::Str(request.id)),
        ],
    )
}

/// The request that a JSON value holds, where it is an object with the
/// version of this protocol under `jsonrpc`, strings under `method` and
/// `id`, and any value under `params`.
pub open spec fn request_of(envelope: Json) -> Option<RequestView> {
    match (
        envelope.member(JSONRPC_MEMBER@),
        envelope.member(METHOD_MEMBER@),
        envelope.member(PARAMS_MEMBER@),
        envelope.member(ID_MEMBER@),
    ) {
        (
            Some(Json::Str(jsonrpc)),
            Some(Json::Str(method)),
            Some(params),
            Some(Json::Str(id)),
        ) => if jsonrpc == RPC_VERSION@ {
            Some(request(id, method, params))
        } else {
            None
        },
        _ => None,
    }
}

/// The request that the body of an HTTP request holds, or the message that
/// the body is refused with: the parser's, where the body is no JSON text.
pub open spec fn request_decoded(body: Seq<u8>) -> Result<RequestView, Seq<char>> {
    match json_parse(body) {
        Ok(envelope) => match request_of(envelope) {
            Some(request) => Ok(request),
            None => Err(INVALID_REQUEST@),
        },
        Err(message) => Err(message),
    }
}

/// The names of the four members of a request differ from each other.
proof fn lemma_request_members_differ()
    ensures
        JSONRPC_MEMBER@ != METHOD_MEMBER@,
        JSONRPC_MEMBER@ != PARAMS_MEMBER@,
        JSONRPC_MEMBER@ != ID_MEMBER@,
        METHOD_MEMBER@ != PARAMS_MEMBER@,
        METHOD_MEMBER@ != ID_MEMBER@,
        PARAMS_MEMBER@ != ID_MEMBER@,
{
    reveal_strlit("jsonrpc");
    reveal_strlit("method");
    reveal_strlit("params");
    reveal_strlit("id");
    assert(JSONRPC_MEMBER@.len() == 7);
    assert(ID_MEMBER@.len() == 2);
    assert(METHOD_MEMBER@[0] == 'm');
    assert(PARAMS_MEMBER@[0] == 'p');
}

/// Reading the envelope of a request gives the request back: its method,
/// its parameters and its id, whatever they are.
pub proof fn lemma_request_round_trip(id: Seq<char>, method: Seq<char>, params: Json)
    ensures
        request_of(envelope(request(id, method, params))) == Some(request(id, method, params)),
{
    lemma_request_members_differ();
    let members = envelope(request(id, method, params))->Object_0;
    reveal_with_fuel(Json::lookup, 5);
    assert(members.drop_first()[0] == members[1]);
    assert(members.drop_first().drop_first()[0] == members[2]);
    assert(members.drop_first().drop_first().drop_first()[0] == members[3]);
}

/// A body that is read back as the envelope that it was written from
/// decodes to the request that was encoded.
pub proof fn lemma_encode_then_decode(
    id: Seq<char>,
    method: Seq<char>,
    params: Json,
    body: Seq<u8>,
)
    requires
        json_text(envelope(request(id, method, params))) == Ok::<Seq<u8>, Seq<char>>(body),
        json_parse(body) == Ok::<Json, Seq<char>>(envelope(request(id, method, params))),
    ensures
        request_decoded(body) == Ok::<RequestView, Seq<char>>(request(id, method, params)),
{
    lemma_request_round_trip(id, method, params);
}

impl Request {
    /// The request for a call of `method` with `params` under `id`.
    pub fn new(id: &str, method: &str, params: serde_json::Value) -> (made: Request)
        ensures
            made@ == request(id@, method@, json_model(params)),
    {
        Request { jsonrpc: RPC_VERSION, method: method.to_owned(), params, id: id.to_owned() }
    }

    /// The protocol version of the request.
    pub fn jsonrpc(&self) -> (jsonrpc: &str)
        ensures
            jsonrpc@ == self@.jsonrpc,
    {
        self.jsonrpc
    }

    /// The name of the method that the request calls.
    pub fn method(&self) -> (method: &str)
        ensures
            method@ == self@.method,
    {
        self.method.as_str()
    }

    /// The parameters of the call.
    pub fn params(&self) -> (params: &serde_json::Value)
        ensures
            json_model(*params) == self@.params,
    {
        &self.params
    }

    /// The id that the caller gave the call.
    pub fn id(&self) -> (id: &str)
        ensures
            id@ == self@.id,
    {
        self.id.as_str()
    }

    /// The request as a JSON value.
    pub fn to_value(&self) -> (value: serde_json::Value)
        ensures
            json_model(value) == envelope(self@),
    {
        let mut members: Vec<(String, serde_json::Value)> = Vec::new();
        members.push((JSONRPC_MEMBER.to_owned(), string_value(self.jsonrpc)));
        members.push((METHOD_MEMBER.to_owned(), string_value(self.method.as_str())));
        members.push((PARAMS_MEMBER.to_owned(), self.params.clone()));
        members.push((ID_MEMBER.to_owned(), string_value(self.id.as_str())));
        proof {
            lemma_request_members_differ();
            assert(members_model(members@) =~= envelope(self@)->Object_0);
        }
        object_of(members)
    }

    /// The body of the HTTP request: the request as JSON text. It fails
    /// with a serialization error where the request cannot be written.
    pub fn encode(&self) -> (encoded: Result<Vec<u8>, Error>)
        ensures
            match json_text(envelope(self@)) {
                Ok(text) => encoded matches Ok(body) && body@ == text,
                Err(message) => encoded matches Err(error) && error@
                    == ErrorKindView::Serialization(message),
            },
    {
        match render(&self.to_value()) {
            Ok(body) => Ok(body),
            Err(message) => Err(Error::new(ErrorKind::Serialization(message))),
        }
    }

    /// Reads a request from a JSON value. It fails with a serialization
    /// error where the value does not hold one.
    pub fn from_value(value: &serde_json::Value) -> (read: Result<Request, Error>)
        ensures
            match request_of(json_model(*value)) {
                Some(request) => read matches Ok(made) && made@ == request,
                None => read matches Err(error) && error@ == ErrorKindView::Serialization(
                    INVALID_REQUEST@,
                ),
            },
    {
        let jsonrpc = match member(value, JSONRPC_MEMBER) {
            Some(field) => field.as_str(),
            None => None,
        };
        let method = match member(value, METHOD_MEMBER) {
            Some(field) => field.as_str(),
            None => None,
        };
        let params = member(value, PARAMS_MEMBER);
        let id = match member(value, ID_MEMBER) {
            Some(field) => field.as_str(),
            None => None,
        };
        match (jsonrpc, method, params, id) {
            (Some(jsonrpc), Some(method), Some(params), Some(id)) => {
                if jsonrpc.to_owned() == RPC_VERSION.to_owned() {
                    Ok(
                        Request {
                            jsonrpc: RPC_VERSION,
                            method: method.to_owned(),
                            params: params.clone(),
                            id: id.to_owned(),
                        },
                    )
                } else {
                    Err(Error::serialization(INVALID_REQUEST))
                }
            },
            _ => Err(Error::serialization(INVALID_REQUEST)),
        }
    }

    /// Reads a request from the body of an HTTP request. It fails with a
    /// serialization error where the body is no JSON text, with the
    /// parser's message, or holds no request.
    pub fn decode(body: &[u8]) -> (read: Result<Request, Error>)
        ensures
            match request_decoded(body@) {
                Ok(request) => read matches Ok(made) && made@ == request,
                Err(message) => read matches Err(error) && error@
                    == ErrorKindView::Serialization(message),
            },
    {
        match parse(body) {
            Ok(value) => Request::from_value(&value),
            Err(message) => Err(Error::new(ErrorKind::Serialization(message))),
        }
    }
}

} // verus!
