//! HTTP responses as plain values: a status and either structured data or a
//! plain-text message.

use vstd::prelude::*;
use vstd::string::*;

verus! {

pub const STATUS_OK: u16 = 200;

pub const STATUS_BAD_REQUEST: u16 = 400;

pub const STATUS_INTERNAL_SERVER_ERROR: u16 = 500;

/// What a response carries.
#[derive(Debug, PartialEq, Eq)]
pub enum Body<T> {
    /// A value that the caller serializes as structured data.
    Json(T),
    /// A plain-text message.
    Text(String),
}

/// A response to one request.
#[derive(Debug, PartialEq, Eq)]
pub struct Response<T> {
    pub status: u16,
    pub body: Body<T>,
}

pub open spec fn is_client_error(status: u16) -> bool {
    400 <= status <= 499
}

pub open spec fn is_server_error(status: u16) -> bool {
    500 <= status <= 599
}

impl<T> Response<T> {
    /// Whether the response carries the given value under the given status.
    pub open spec fn is_json(self, status: u16, value: T) -> bool {
        self.status == status && self.body == Body::Json(value)
    }

    /// Whether the response carries the given message under the given status.
    pub open spec fn is_text(self, status: u16, message: Seq<char>) -> bool {
        &&& self.status == status
        &&& self.body matches Body::Text(text)
        &&& text@ == message
    }

    /// Whether the response reports a failure: a client or server error with
    /// a plain-text message.
    pub open spec fn is_failure(self) -> bool {
        &&& is_client_error(self.status) || is_server_error(self.status)
        &&& self.body is Text
    }

    /// The successful response that carries a value.
    pub fn ok(value: T) -> (response: Response<T>)
        ensures
            response.is_json(STATUS_OK, value),
    {
        Response { status: STATUS_OK, body: Body::Json(value) }
    }

    /// A response that carries a plain-text message.
    pub fn text(status: u16, message: &str) -> (response: Response<T>)
        ensures
            response.is_text(status, message@),
    {
        Response { status, body: Body::Text(String::from_str(message)) }
    }
}

} // verus!
