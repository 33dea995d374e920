//! The closed set of failures that every backend, transport and conversion
//! is mapped into.

use vstd::prelude::*;
use vstd::std_specs::convert::FromSpecImpl;
use crate::codec::{
    opt_text, pattern_capture, pattern_found, pattern_group, pattern_matches, replace_all,
    text_replaced,
};

verus! {

/// Why a configuration was turned down. Each variant names the field.
#[derive(Debug, Clone)]
pub enum ConfigError {
    MissingField(String),
    InvalidField(String),
    ParsingHexError(String),
}

/// The mathematical value of a [`ConfigError`].
pub enum ConfigErrorView {
    MissingField(Seq<char>),
    InvalidField(Seq<char>),
    ParsingHexError(Seq<char>),
}

impl View for ConfigError {
    type V = ConfigErrorView;

    open spec fn view(&self) -> ConfigErrorView {
        match self {
            ConfigError::MissingField(field) => ConfigErrorView::MissingField(field@),
            ConfigError::InvalidField(field) => ConfigErrorView::InvalidField(field@),
            ConfigError::ParsingHexError(field) => ConfigErrorView::ParsingHexError(field@),
        }
    }
}

impl ConfigErrorView {
    /// The sentence shown for the error.
    pub open spec fn message(self) -> Seq<char> {
        match self {
            ConfigErrorView::MissingField(field) => "Missing field: "@ + field,
            ConfigErrorView::InvalidField(field) => "Invalid field: "@ + field,
            ConfigErrorView::ParsingHexError(field) => "Error parsing field "@ + field
                + ": expected hex string"@,
        }
    }
}

impl ConfigError {
    /// The sentence shown for the error.
    pub fn to_string(&self) -> (text: String)
        ensures
            text@ == self@.message(),
    {
        match self {
            ConfigError::MissingField(field) => "Missing field: ".to_owned().concat(field.as_str()),
            ConfigError::InvalidField(field) => "Invalid field: ".to_owned().concat(field.as_str()),
            ConfigError::ParsingHexError(field) => "Error parsing field ".to_owned().concat(
                field.as_str(),
            ).concat(": expected hex string"),
        }
    }
}

/// Every failure a caller can meet.
#[derive(Debug, Clone)]
pub enum Error {
    MissingBackend,
    InvalidBackend,
    Unauthorized,
    NotImplemented,
    ConfigError(ConfigError),
    ConnectionError(String),
    ApiError(String),
    UnknownError(String),
    ConversionError(String),
    ParseNumberError(String),
}

/// The mathematical value of an [`Error`].
pub enum ErrorView {
    MissingBackend,
    InvalidBackend,
    Unauthorized,
    NotImplemented,
    ConfigError(ConfigErrorView),
    ConnectionError(Seq<char>),
    ApiError(Seq<char>),
    UnknownError(Seq<char>),
    ConversionError(Seq<char>),
    ParseNumberError(Seq<char>),
}

impl View for Error {
    type V = ErrorView;

    open spec fn view(&self) -> ErrorView {
        match self {
            Error::MissingBackend => ErrorView::MissingBackend,
            Error::InvalidBackend => ErrorView::InvalidBackend,
            Error::Unauthorized => ErrorView::Unauthorized,
            Error::NotImplemented => ErrorView::NotImplemented,
            Error::ConfigError(err) => ErrorView::ConfigError(err@),
            Error::ConnectionError(text) => ErrorView::ConnectionError(text@),
            Error::ApiError(text) => ErrorView::ApiError(text@),
            Error::UnknownError(text) => ErrorView::UnknownError(text@),
            Error::ConversionError(text) => ErrorView::ConversionError(text@),
            Error::ParseNumberError(text) => ErrorView::ParseNumberError(text@),
        }
    }
}

impl ErrorView {
    /// The sentence shown for the error.
    pub open spec fn message(self) -> Seq<char> {
        match self {
            ErrorView::MissingBackend => "missing backend"@,
            ErrorView::InvalidBackend => "invalid backend"@,
            ErrorView::Unauthorized => "unauthorized credentials"@,
            ErrorView::NotImplemented => "not implemented"@,
            ErrorView::ConfigError(err) => err.message(),
            ErrorView::ConnectionError(text) => text,
            ErrorView::ApiError(text) => text,
            ErrorView::UnknownError(text) => text,
            ErrorView::ConversionError(text) => text,
            ErrorView::ParseNumberError(text) => text,
        }
    }
}

/// The mathematical value of an outcome: that of the result, or that of the
/// error.
pub open spec fn outcome_view<T: View>(outcome: Result<T, Error>) -> Result<T::V, ErrorView> {
    match outcome {
        Ok(value) => Ok(value@),
        Err(err) => Err(err@),
    }
}

/// What a failed HTTP exchange told about itself.
#[derive(Debug, Clone)]
pub struct TransportFailure {
    /// The transport gave up waiting.
    pub timeout: bool,
    /// The connection could not be made.
    pub connect: bool,
    /// The client could not be put together.
    pub builder: bool,
    /// The address the exchange was meant for, where known.
    pub url: Option<String>,
    /// The transport's own description of the failure.
    pub text: String,
}

/// The marker a node puts into a status message that wraps an RPC error.
pub const RPC_ERROR_PATTERN: &'static str = "RpcError";

/// Finds the quoted message of a wrapped RPC error.
pub const RPC_MESSAGE_PATTERN: &'static str = "message: \"(?P<msg>.*)\"";

/// The group of [`RPC_MESSAGE_PATTERN`] that holds the message.
pub const RPC_MESSAGE_GROUP: &'static str = "msg";

/// What [`TransportFailure`]s begin with when the client could not be built.
pub const BUILDER_PREFIX: &'static str = "builder error: ";

/// The error a failed HTTP exchange becomes. A timeout and a refused
/// connection are connection errors that name the address; a client that
/// could not be built is a connection error without the builder's prefix;
/// anything else is the node's answer.
pub open spec fn transport_error(failure: TransportFailure) -> ErrorView {
    if failure.timeout {
        ErrorView::ConnectionError(
            match failure.url {
                Some(url) => "timeout: "@ + url@,
                None => "timeout"@,
            },
        )
    } else if failure.connect {
        ErrorView::ConnectionError(
            match failure.url {
                Some(url) => "couldn't connect to "@ + url@,
                None => failure.text@,
            },
        )
    } else if failure.builder {
        ErrorView::ConnectionError(text_replaced(failure.text@, BUILDER_PREFIX@, ""@))
    } else {
        ErrorView::ApiError(failure.text@)
    }
}

/// The error for a gRPC status message, given whether the message wraps an
/// RPC error and the message found inside it.
pub open spec fn status_error_from(
    message: Seq<char>,
    wraps_rpc_error: bool,
    inner: Option<Seq<char>>,
) -> ErrorView {
    if wraps_rpc_error && inner is Some {
        ErrorView::ApiError(inner->0)
    } else {
        ErrorView::ApiError(message)
    }
}

/// The error for a gRPC status message.
pub open spec fn status_error(message: Seq<char>) -> ErrorView {
    status_error_from(
        message,
        pattern_found(RPC_ERROR_PATTERN@, message),
        pattern_group(RPC_MESSAGE_PATTERN@, RPC_MESSAGE_GROUP@, message),
    )
}

impl Error {
    /// The sentence shown for the error.
    pub fn to_string(&self) -> (text: String)
        ensures
            text@ == self@.message(),
    {
        match self {
            Error::MissingBackend => "missing backend".to_owned(),
            Error::InvalidBackend => "invalid backend".to_owned(),
            Error::Unauthorized => "unauthorized credentials".to_owned(),
            Error::NotImplemented => "not implemented".to_owned(),
            Error::ConfigError(err) => err.to_string(),
            Error::ConnectionError(text) => text.clone(),
            Error::ApiError(text) => text.clone(),
            Error::UnknownError(text) => text.clone(),
            Error::ConversionError(text) => text.clone(),
            Error::ParseNumberError(text) => text.clone(),
        }
    }

    /// Classifies a failed HTTP exchange.
    pub fn from_transport_failure(failure: TransportFailure) -> (err: Error)
        ensures
            err@ == transport_error(failure),
    {
        if failure.timeout {
            match failure.url {
                Some(url) => Error::ConnectionError("timeout: ".to_owned().concat(url.as_str())),
                None => Error::ConnectionError("timeout".to_owned()),
            }
        } else if failure.connect {
            match failure.url {
                Some(url) => Error::ConnectionError(
                    "couldn't connect to ".to_owned().concat(url.as_str()),
                ),
                None => Error::ConnectionError(failure.text),
            }
        } else if failure.builder {
            Error::ConnectionError(replace_all(failure.text.as_str(), BUILDER_PREFIX, ""))
        } else {
            Error::ApiError(failure.text)
        }
    }

    /// The error for a gRPC channel that could not be set up or connected,
    /// from the transport's description of what went wrong.
    pub fn from_channel_failure(text: String) -> (err: Error)
        ensures
            err == Error::ConnectionError(text),
    {
        Error::ConnectionError(text)
    }

    /// The error for a header value that HTTP does not allow, from the
    /// description of what went wrong.
    pub fn from_invalid_header(text: String) -> (err: Error)
        ensures
            err == Error::ApiError(text),
    {
        Error::ApiError(text)
    }

    /// The error for a gRPC status, once it is known whether its message
    /// wraps an RPC error and which message was found inside: the inner
    /// message where both hold, the whole message otherwise.
    pub fn from_status_parts(message: String, wraps_rpc_error: bool, inner: Option<String>) -> (err:
        Error)
        ensures
            err@ == status_error_from(message@, wraps_rpc_error, opt_text(inner)),
    {
        if wraps_rpc_error {
            match inner {
                Some(found) => Error::ApiError(found),
                None => Error::ApiError(message),
            }
        } else {
            Error::ApiError(message)
        }
    }

    /// The error for a gRPC status that is not OK, from its message. Where
    /// the message wraps an RPC error, the message inside it is surfaced.
    pub fn from_status_message(message: String) -> (err: Error)
        ensures
            err@ == status_error(message@),
    {
        let wraps_rpc_error = pattern_matches(RPC_ERROR_PATTERN, message.as_str());
        let inner = if wraps_rpc_error {
            pattern_capture(RPC_MESSAGE_PATTERN, RPC_MESSAGE_GROUP, message.as_str())
        } else {
            None
        };
        Error::from_status_parts(message, wraps_rpc_error, inner)
    }

    /// The error for text that is not base64.
    pub fn from_base64_failure() -> (err: Error)
        ensures
            err@ == ErrorView::ConversionError("couldn't convert base64 to hex"@),
    {
        Error::ConversionError("couldn't convert base64 to hex".to_owned())
    }

    /// The error for text that is not a number.
    pub fn from_parse_int_failure() -> (err: Error)
        ensures
            err@ == ErrorView::ConversionError("couldn't convert string to integer"@),
    {
        Error::ConversionError("couldn't convert string to integer".to_owned())
    }
}

impl From<ConfigError> for Error {
    fn from(err: ConfigError) -> (wrapped: Error) {
        Error::ConfigError(err)
    }
}

impl FromSpecImpl<ConfigError> for Error {
    open spec fn obeys_from_spec() -> bool {
        true
    }

    open spec fn from_spec(err: ConfigError) -> Error {
        Error::ConfigError(err)
    }
}

} // verus!
