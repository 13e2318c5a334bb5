//! A client for JSON-RPC 2.0 over HTTP.
//!
//! The crate holds everything of a call but the network: it builds the
//! request envelope, decodes the response envelope (whose `error` member may
//! be absent, `null`, a string or an object) and sorts every failure into one
//! closed set of error kinds. The exchange itself is a function that the
//! caller hands to [`Client::call`].

pub mod auth;
pub mod client;
pub mod error;
pub mod headers;
pub mod json;
pub mod request;
pub mod response;
pub mod text;
pub mod transport;

pub use crate::client::Client;
pub use crate::error::{Error, ErrorKind, ResponseError};
