//! What the REST adapters share: the calls they ask for, the headers they
//! set, and how they read the status of an answer.

use vstd::prelude::*;
use crate::codec::{header_value_accepts, is_header_text};
use crate::error::{Error, ErrorView};
use crate::text::{decimal_digits, decimal_text, text_eq};

verus! {

/// How a call is made.
#[derive(Debug, Clone, Copy, PartialEq, Eq, Structural)]
pub enum Method {
    Get,
    Post,
}

/// How the body of a call is written.
#[derive(Debug, Clone, Copy, PartialEq, Eq, Structural)]
pub enum Encoding {
    /// The call has no body.
    Empty,
    Json,
    Form,
}

/// One call to a node: where it goes and how. What it carries is kept
/// beside it.
#[derive(Debug, Clone)]
pub struct Call {
    pub method: Method,
    pub url: String,
    pub encoding: Encoding,
}

impl Call {
    /// Whether the call goes by `method` to `url`, its body written as
    /// `encoding` says.
    pub open spec fn is(&self, method: Method, url: Seq<char>, encoding: Encoding) -> bool {
        self.method == method && self.url@ == url && self.encoding == encoding
    }

    /// The call by `method` to `path` below `base`.
    pub fn to(method: Method, base: &String, path: &str, encoding: Encoding) -> (call: Call)
        ensures
            call.is(method, base@ + path@, encoding),
    {
        Call { method, url: base.clone().concat(path), encoding }
    }
}

/// A header that is sent with every call.
#[derive(Debug, Clone)]
pub struct Header {
    pub name: String,
    pub value: String,
    /// Whether the value is a secret that must never be logged.
    pub sensitive: bool,
}

impl Header {
    /// Whether the header is `name: value`, secret or not as `sensitive`
    /// says.
    pub open spec fn is(&self, name: Seq<char>, value: Seq<char>, sensitive: bool) -> bool {
        self.name@ == name && self.value@ == value && self.sensitive == sensitive
    }

    /// The header `name: value`, where HTTP allows the value.
    pub fn new(name: &str, value: String, sensitive: bool) -> (header: Result<Header, Error>)
        ensures
            is_header_text(value@) ==> (header matches Ok(h) && h.is(name@, value@, sensitive)),
            !is_header_text(value@) ==> (header matches Err(e) && e@ == ErrorView::ApiError(
                INVALID_HEADER@,
            )),
    {
        if header_value_accepts(value.as_str()) {
            Ok(Header { name: name.to_owned(), value, sensitive })
        } else {
            Err(Error::from_invalid_header(INVALID_HEADER.to_owned()))
        }
    }
}

/// What is reported of a header value that HTTP does not allow.
pub const INVALID_HEADER: &'static str = "failed to parse header value";

/// What a server error says when the credentials were turned down.
pub const PERMISSION_DENIED: &'static str = "permission denied";

/// What the status of an answer means.
#[derive(Debug, Clone, Copy, PartialEq, Eq, Structural)]
pub enum ResponseClass {
    /// 200: the body is the answer.
    Success,
    /// 500: the body says what went wrong.
    ServerError,
    /// Anything else: the exchange failed.
    Failure,
}

/// What `status` means.
pub open spec fn response_class(status: u16) -> ResponseClass {
    if status == 200 {
        ResponseClass::Success
    } else if status == 500 {
        ResponseClass::ServerError
    } else {
        ResponseClass::Failure
    }
}

/// The error that a server error with `message` is: rejected credentials
/// where the message says so, else the message as the node's answer.
pub open spec fn server_error(message: Seq<char>) -> ErrorView {
    if message == PERMISSION_DENIED@ {
        ErrorView::Unauthorized
    } else {
        ErrorView::ApiError(message)
    }
}

/// The error for an answer whose status is neither success nor server
/// error, where the transport says nothing more of it.
pub open spec fn status_failure(status: u16) -> ErrorView {
    ErrorView::ApiError("unexpected HTTP status "@ + decimal_digits(status as nat))
}

/// What `status` means.
pub fn classify_status(status: u16) -> (class: ResponseClass)
    ensures
        class == response_class(status),
{
    if status == 200 {
        ResponseClass::Success
    } else if status == 500 {
        ResponseClass::ServerError
    } else {
        ResponseClass::Failure
    }
}

/// The error that a server error with `message` is.
pub fn classify_server_error(message: String) -> (err: Error)
    ensures
        err@ == server_error(message@),
{
    if text_eq(message.as_str(), PERMISSION_DENIED) {
        Error::Unauthorized
    } else {
        Error::ApiError(message)
    }
}

/// The error for an answer whose status is neither success nor server
/// error, where the transport says nothing more of it.
pub fn classify_status_failure(status: u16) -> (err: Error)
    ensures
        err@ == status_failure(status),
{
    let code = decimal_text(status as u64);
    Error::ApiError("unexpected HTTP status ".to_owned().concat(code.as_str()))
}

} // verus!
