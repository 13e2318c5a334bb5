//! The response envelope: what a call gets back, and what it makes of it.

use crate::error::{
    lemma_from_kind, lemma_from_payload, Error, ErrorKind, ErrorKindView, ResponseError,
    ResponseErrorView,
};
use crate::json::{json_model, json_parse, member, parse, Json, JsonNumber};
use crate::request::ID_MEMBER;
use vstd::prelude::*;

verus! {

pub const RESULT_MEMBER: &'static str = "result";

pub const ERROR_MEMBER: &'static str = "error";

pub const CODE_MEMBER: &'static str = "code";

pub const MESSAGE_MEMBER: &'static str = "message";

/// The code of an error that the server gave as a bare string.
pub const STRING_ERROR_CODE: i32 = -1;

/// The message for an `error` member that is no string, object or `null`.
pub const EXPECTED_STRING_MAP_OR_NULL: &'static str = "invalid type: expected string, map, or null";

/// The message for an `error` object without an integer `code` in the range
/// of `i32` or without a string `message`.
pub const INVALID_ERROR_OBJECT: &'static str =
    "invalid error object: expected an integer `code` and a string `message`";

/// The message for an envelope that is no JSON object.
pub const EXPECTED_OBJECT: &'static str = "invalid type: expected a JSON object";

/// The message for a response without a string `id`.
pub const INVALID_ID: &'static str = "missing or invalid field `id`";

/// What an optional error payload holds.
pub open spec fn payload_view(payload: Option<ResponseError>) -> Option<ResponseErrorView> {
    match payload {
        Some(payload) => Some(payload@),
        None => None,
    }
}

/// The error payload that the `error` member of a response holds, or the
/// message that the member is refused with. `null` holds none; a string is
/// the message of an error with the code -1; an object gives the code and
/// the message under its members `code` and `message`; nothing else is an
/// error payload.
pub open spec fn error_payload(field: Json) -> Result<Option<ResponseErrorView>, Seq<char>> {
    match field {
        Json::Null => Ok(None),
        Json::Str(message) => Ok(Some(ResponseErrorView { code: STRING_ERROR_CODE, message })),
        Json::Object(_) => match (field.member(CODE_MEMBER@), field.member(MESSAGE_MEMBER@)) {
            (Some(Json::Number(JsonNumber::Integer(code))), Some(Json::Str(message))) => if i32::MIN
                <= code <= i32::MAX {
                Ok(Some(ResponseErrorView { code: code as i32, message }))
            } else {
                Err(INVALID_ERROR_OBJECT@)
            },
            _ => Err(INVALID_ERROR_OBJECT@),
        },
        _ => Err(EXPECTED_STRING_MAP_OR_NULL@),
    }
}

/// Of the shapes that the `error` member of a response can have, `null` is
/// no error, a string is an error with the code -1 and that message, and a
/// boolean, a number or an array is refused.
pub proof fn lemma_error_shapes()
    ensures
        error_payload(Json::Null) == Ok::<Option<ResponseErrorView>, Seq<char>>(None),
        forall|message: Seq<char>| #[trigger]
            error_payload(Json::Str(message)) == Ok::<Option<ResponseErrorView>, Seq<char>>(
                Some(ResponseErrorView { code: -1i32, message }),
            ),
        forall|flag: bool| #[trigger] error_payload(Json::Bool(flag)) is Err,
        forall|number: JsonNumber| #[trigger] error_payload(Json::Number(number)) is Err,
        forall|items: Seq<Json>| #[trigger] error_payload(Json::Array(items)) is Err,
{
}

/// An object with an integer `code` in the range of `i32` and a string
/// `message` is the error with that code and that message; any other
/// object is refused.
pub proof fn lemma_error_object(members: Seq<(Seq<char>, Json)>)
    ensures
        match (Json::lookup(members, CODE_MEMBER@), Json::lookup(members, MESSAGE_MEMBER@)) {
            (Some(Json::Number(JsonNumber::Integer(code))), Some(Json::Str(message))) => if i32::MIN
                <= code <= i32::MAX {
                error_payload(Json::Object(members)) == Ok::<
                    Option<ResponseErrorView>,
                    Seq<char>,
                >(Some(ResponseErrorView { code: code as i32, message }))
            } else {
                error_payload(Json::Object(members)) is Err
            },
            _ => error_payload(Json::Object(members)) is Err,
        },
{
}

/// Reads the `error` member of a response, which may be `null`, a string
/// or an object. It fails with a serialization error on any other value,
/// and on an object that lacks an integer `code` in the range of `i32` or a
/// string `message`.
pub fn string_map_or_null(field: &serde_json::Value) -> (read: Result<Option<ResponseError>, Error>)
    ensures
        match error_payload(json_model(*field)) {
            Ok(payload) => read matches Ok(found) && payload_view(found) == payload,
            Err(message) => read matches Err(error) && error@ == ErrorKindView::Serialization(
                message,
            ),
        },
{
    if field.is_null() {
        return Ok(None);
    }
    if let Some(message) = field.as_str() {
        return Ok(Some(ResponseError { code: STRING_ERROR_CODE, message: message.to_owned() }));
    }
    if !field.is_object() {
        return Err(Error::serialization(EXPECTED_STRING_MAP_OR_NULL));
    }
    let code = match member(field, CODE_MEMBER) {
        Some(code) => code.as_i64(),
        None => None,
    };
    let message = match member(field, MESSAGE_MEMBER) {
        Some(message) => message.as_str(),
        None => None,
    };
    match (code, message) {
        (Some(code), Some(message)) => {
            if -0x8000_0000 <= code && code <= 0x7fff_ffff {
                Ok(Some(ResponseError { code: code as i32, message: message.to_owned() }))
            } else {
                Err(Error::serialization(INVALID_ERROR_OBJECT))
            }
        },
        _ => Err(Error::serialization(INVALID_ERROR_OBJECT)),
    }
}

/// The response envelope of one call.
#[derive(Debug, Clone, PartialEq)]
pub struct Response {
    pub result: Option<serde_json::Value>,
    pub error: Option<ResponseError>,
    pub id: String,
}

/// What a [`Response`] holds.
pub struct ResponseView {
    pub result: Option<Json>,
    pub error: Option<ResponseErrorView>,
    pub id: Seq<char>,
}

impl View for Response {
    type V = ResponseView;

    open spec fn view(&self) -> ResponseView {
        ResponseView {
            result: match self.result {
                Some(result) => Some(json_model(result)),
                None => None,
            },
            error: payload_view(self.error),
            id: self.id@,
        }
    }
}

/// The result that a response carries: the member `result` of its
/// envelope, unless that is absent or `null`.
pub open spec fn result_of(envelope: Json) -> Option<Json> {
    match envelope.member(RESULT_MEMBER@) {
        Some(Json::Null) => None,
        Some(result) => Some(result),
        None => None,
    }
}

/// The response that a JSON value holds, or the message that the value is
/// refused with. A response is an object with a string under `id`. Its
/// error is what its member `error` holds, and none where it has no such
/// member.
pub open spec fn response_of(envelope: Json) -> Result<ResponseView, Seq<char>> {
    if !(envelope is Object) {
        Err(EXPECTED_OBJECT@)
    } else {
        let error = match envelope.member(ERROR_MEMBER@) {
            Some(field) => error_payload(field),
            None => Ok(None),
        };
        match (error, envelope.member(ID_MEMBER@)) {
            (Err(message), _) => Err(message),
            (Ok(error), Some(Json::Str(id))) => Ok(
                ResponseView { result: result_of(envelope), error, id },
            ),
            (Ok(_), _) => Err(INVALID_ID@),
        }
    }
}

/// The response that the body of a reply holds, or the message that the
/// body is refused with: the parser's, where the body is no JSON text.
pub open spec fn decoded(body: Seq<u8>) -> Result<ResponseView, Seq<char>> {
    match json_parse(body) {
        Ok(envelope) => response_of(envelope),
        Err(message) => Err(message),
    }
}

/// What a call returns for a response: the error of the response where it
/// has one, whether or not it has a result too; else its result; and the
/// empty-result error where it has neither.
pub open spec fn outcome_of(response: ResponseView) -> Result<Json, ErrorKindView> {
    match response.error {
        Some(payload) => Err(ErrorKindView::ProtocolError(payload)),
        None => match response.result {
            Some(result) => Ok(result),
            None => Err(ErrorKindView::EmptyResult),
        },
    }
}

/// What a call came back with, over the model.
pub open spec fn outcome_view(outcome: Result<serde_json::Value, Error>) -> Result<
    Json,
    ErrorKindView,
> {
    match outcome {
        Ok(result) => Ok(json_model(result)),
        Err(error) => Err(error@),
    }
}

impl Response {
    /// Reads a response from a JSON value. It fails with a serialization
    /// error where the value does not hold one.
    pub fn from_value(value: &serde_json::Value) -> (read: Result<Response, Error>)
        ensures
            match response_of(json_model(*value)) {
                Ok(response) => read matches Ok(made) && made@ == response,
                Err(message) => read matches Err(error) && error@
                    == ErrorKindView::Serialization(message),
            },
    {
        if !value.is_object() {
            return Err(Error::serialization(EXPECTED_OBJECT));
        }
        let error = match member(value, ERROR_MEMBER) {
            Some(field) => match string_map_or_null(field) {
                Ok(error) => error,
                Err(error) => {
                    return Err(error);
                },
            },
            None => None,
        };
        let id = match member(value, ID_MEMBER) {
            Some(field) => field.as_str(),
            None => None,
        };
        let id = match id {
            Some(id) => id.to_owned(),
            None => {
                return Err(Error::serialization(INVALID_ID));
            },
        };
        let result = match member(value, RESULT_MEMBER) {
            Some(field) => if field.is_null() {
                None
            } else {
                Some(field.clone())
            },
            None => None,
        };
        Ok(Response { result, error, id })
    }

    /// Reads a response from the body of a reply. It fails with a
    /// serialization error where the body is no JSON text, with the
    /// parser's message, or holds no response.
    pub fn decode(body: &[u8]) -> (read: Result<Response, Error>)
        ensures
            match decoded(body@) {
                Ok(response) => read matches Ok(made) && made@ == response,
                Err(message) => read matches Err(error) && error@
                    == ErrorKindView::Serialization(message),
            },
    {
        match parse(body) {
            Ok(value) => Response::from_value(&value),
            Err(message) => Err(Error::new(ErrorKind::Serialization(message))),
        }
    }

    /// What the call returns for this response.
    pub fn into_result(self) -> (outcome: Result<serde_json::Value, Error>)
        ensures
            outcome_view(outcome) == outcome_of(self@),
    {
        match self.error {
            Some(payload) => {
                proof {
                    lemma_from_payload(payload);
                }
                Err(Error::from(payload))
            },
            None => match self.result {
                Some(result) => Ok(result),
                None => {
                    proof {
                        lemma_from_kind(ErrorKind::EmptyResult);
                    }
                    Err(Error::from(ErrorKind::EmptyResult))
                },
            },
        }
    }
}

} // verus!
