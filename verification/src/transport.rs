//! What passes between a client and the transport that makes the exchange.

use crate::error::ErrorKindView;
use crate::headers::Headers;
use crate::json::Json;
use crate::response::{decoded, outcome_of};
use crate::text::decimal;
use vstd::prelude::*;

verus! {

/// The start of the description of a reply that has an HTTP error status
/// and no response envelope in its body.
pub const STATUS_PREFIX: &'static str = "HTTP status ";

/// What a client hands to the transport: where to post, with which
/// headers, and the body.
#[derive(Debug)]
pub struct HttpRequest<'a> {
    pub url: &'a str,
    pub headers: &'a Headers,
    pub body: Vec<u8>,
}

/// What an [`HttpRequest`] holds.
pub struct HttpRequestView {
    pub url: Seq<char>,
    pub headers: Map<Seq<char>, Seq<char>>,
    pub body: Seq<u8>,
}

impl<'a> View for HttpRequest<'a> {
    type V = HttpRequestView;

    open spec fn view(&self) -> HttpRequestView {
        HttpRequestView { url: self.url@, headers: self.headers@, body: self.body@ }
    }
}

/// What the transport hands back where the server replied: the HTTP status
/// and the body.
#[derive(Debug, Clone, PartialEq, Eq)]
pub struct HttpReply {
    pub status: u16,
    pub body: Vec<u8>,
}

/// What the transport came back with, over the model: the status and the
/// body of the reply, or the description of its failure.
pub open spec fn reply_view(reply: Result<HttpReply, String>) -> Result<(u16, Seq<u8>), Seq<char>> {
    match reply {
        Ok(reply) => Ok((reply.status, reply.body@)),
        Err(description) => Err(description@),
    }
}

/// Whether an HTTP status says that the request succeeded.
pub open spec fn is_success(status: u16) -> bool {
    200 <= status <= 299
}

/// The description of a reply that has the HTTP error status `status` and
/// no response envelope in its body.
pub open spec fn status_description(status: u16) -> Seq<char> {
    STATUS_PREFIX@ + decimal(status as nat)
}

/// What a call returns for what the transport came back with.
///
/// A failure of the transport is a transport error with the transport's
/// description. A reply whose body holds a response gives what the response
/// gives, whatever the HTTP status is. A reply whose body holds none is a
/// serialization error where the status says success, and a transport
/// error that names the status where it does not.
pub open spec fn concluded(reply: Result<(u16, Seq<u8>), Seq<char>>) -> Result<
    Json,
    ErrorKindView,
> {
    match reply {
        Err(description) => Err(ErrorKindView::Transport(description)),
        Ok((status, body)) => match decoded(body) {
            Ok(response) => outcome_of(response),
            Err(message) => if is_success(status) {
                Err(ErrorKindView::Serialization(message))
            } else {
                Err(ErrorKindView::Transport(status_description(status)))
            },
        },
    }
}

/// A reply whose body holds a response with an error gives that error as
/// a protocol error, whether or not the response has a result too, and
/// whatever the HTTP status is.
pub proof fn lemma_error_takes_precedence(status: u16, body: Seq<u8>)
    requires
        decoded(body) matches Ok(response) && response.error is Some,
    ensures
        concluded(Ok((status, body))) == Err::<Json, ErrorKindView>(
            ErrorKindView::ProtocolError(decoded(body)->Ok_0.error->0),
        ),
{
}

/// A reply whose body holds a response with neither a result nor an error
/// gives the empty-result error.
pub proof fn lemma_empty_result(status: u16, body: Seq<u8>)
    requires
        decoded(body) matches Ok(response) && response.error is None && response.result is None,
    ensures
        concluded(Ok((status, body))) == Err::<Json, ErrorKindView>(ErrorKindView::EmptyResult),
{
}

/// A failure of the transport gives a transport error with the
/// transport's own description.
pub proof fn lemma_transport_failure(description: Seq<char>)
    ensures
        concluded(Err(description)) == Err::<Json, ErrorKindView>(
            ErrorKindView::Transport(description),
        ),
{
}

} // verus!
