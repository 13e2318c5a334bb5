//! The error kinds of a call, and the error payload of a response.

use vstd::prelude::*;
use vstd::std_specs::convert::FromSpecImpl;

verus! {

/// The error payload that a server puts into a response.
#[derive(Debug, Clone, PartialEq, Eq)]
pub struct ResponseError {
    pub code: i32,
    pub message: String,
}

/// What a [`ResponseError`] holds.
pub struct ResponseErrorView {
    pub code: i32,
    pub message: Seq<char>,
}

impl View for ResponseError {
    type V = ResponseErrorView;

    open spec fn view(&self) -> ResponseErrorView {
        ResponseErrorView { code: self.code, message: self.message@ }
    }
}

/// Why a call failed.
#[derive(Debug, Clone, PartialEq, Eq)]
pub enum ErrorKind {
    /// The exchange failed below the protocol: no usable reply came back.
    Transport(String),
    /// The request could not be written as JSON, or the reply could not be
    /// read as a response envelope.
    Serialization(String),
    /// The server answered with an error payload.
    ProtocolError(ResponseError),
    /// The server answered with neither a result nor an error.
    EmptyResult,
}

/// What an [`ErrorKind`] holds.
pub enum ErrorKindView {
    Transport(Seq<char>),
    Serialization(Seq<char>),
    ProtocolError(ResponseErrorView),
    EmptyResult,
}

impl View for ErrorKind {
    type V = ErrorKindView;

    open spec fn view(&self) -> ErrorKindView {
        match self {
            ErrorKind::Transport(description) => ErrorKindView::Transport(description@),
            ErrorKind::Serialization(description) => ErrorKindView::Serialization(description@),
            ErrorKind::ProtocolError(payload) => ErrorKindView::ProtocolError(payload@),
            ErrorKind::EmptyResult => ErrorKindView::EmptyResult,
        }
    }
}

/// The error of a call: one [`ErrorKind`].
#[derive(Debug, Clone, PartialEq, Eq)]
pub struct Error {
    inner: ErrorKind,
}

impl View for Error {
    type V = ErrorKindView;

    closed spec fn view(&self) -> ErrorKindView {
        self.inner@
    }
}

impl Error {
    /// The error of this kind.
    pub fn new(inner: ErrorKind) -> (error: Error)
        ensures
            error@ == inner@,
    {
        Error { inner }
    }

    /// The kind of the error.
    pub fn kind(&self) -> (kind: &ErrorKind)
        ensures
            kind@ == self@,
    {
        &self.inner
    }

    /// A serialization error with this message.
    pub(crate) fn serialization(message: &str) -> (error: Error)
        ensures
            error@ == ErrorKindView::Serialization(message@),
    {
        Error { inner: ErrorKind::Serialization(message.to_owned()) }
    }
}

impl From<ErrorKind> for Error {
    fn from(kind: ErrorKind) -> (error: Error) {
        Error { inner: kind }
    }
}

impl FromSpecImpl<ErrorKind> for Error {
    open spec fn obeys_from_spec() -> bool {
        true
    }

    closed spec fn from_spec(kind: ErrorKind) -> Error {
        Error { inner: kind }
    }
}

impl From<ResponseError> for Error {
    fn from(err: ResponseError) -> (error: Error) {
        Error { inner: ErrorKind::ProtocolError(err) }
    }
}

impl FromSpecImpl<ResponseError> for Error {
    open spec fn obeys_from_spec() -> bool {
        true
    }

    closed spec fn from_spec(err: ResponseError) -> Error {
        Error { inner: ErrorKind::ProtocolError(err) }
    }
}

/// An error made from a kind is of that kind.
pub proof fn lemma_from_kind(kind: ErrorKind)
    ensures
        <Error as vstd::std_specs::convert::FromSpec<ErrorKind>>::from_spec(kind)@ == kind@,
{
}

/// An error made from a server's payload is a protocol error with that payload.
pub proof fn lemma_from_payload(err: ResponseError)
    ensures
        <Error as vstd::std_specs::convert::FromSpec<ResponseError>>::from_spec(err)@
            == ErrorKindView::ProtocolError(err@),
{
}

} // verus!
