//! How the error taxonomy is shown to a host language. A binding layer
//! raises what these functions name; it decides nothing itself.

use vstd::prelude::*;
use crate::codec::{occurs_in, text_contains};
use crate::error::{ConfigError, ConfigErrorView, Error, ErrorView};

verus! {

/// The status under which an error is handed to a JavaScript host.
#[derive(Debug, Clone, Copy, PartialEq, Eq, Structural)]
pub enum JsStatus {
    InvalidArg,
    GenericFailure,
}

/// The exception that an error raises in a Python host.
#[derive(Debug, Clone, Copy, PartialEq, Eq, Structural)]
pub enum PyException {
    ValueError,
    KeyError,
    ConfigError,
    PermissionError,
    NotImplementedError,
    TimeoutError,
    ConnectionError,
    ApiError,
    BaseException,
}

/// The word by which a connection error is known to be a timeout.
pub const TIMEOUT: &'static str = "timeout";

/// The status for an error: the caller's fault for a backend that is not
/// served and for a field that is missing or invalid; a failure otherwise.
pub open spec fn js_status(err: ErrorView) -> JsStatus {
    match err {
        ErrorView::InvalidBackend => JsStatus::InvalidArg,
        ErrorView::ConfigError(ConfigErrorView::InvalidField(_)) => JsStatus::InvalidArg,
        ErrorView::ConfigError(ConfigErrorView::MissingField(_)) => JsStatus::InvalidArg,
        _ => JsStatus::GenericFailure,
    }
}

/// The exception for an error, and what it says. A missing or invalid
/// field is named by itself; everything else says the error's sentence. A
/// connection error whose sentence speaks of a timeout is a timeout.
pub open spec fn py_exception(err: ErrorView) -> (PyException, Seq<char>) {
    match err {
        ErrorView::InvalidBackend => (PyException::ValueError, err.message()),
        ErrorView::ConfigError(ConfigErrorView::InvalidField(field)) => (
            PyException::ValueError,
            field,
        ),
        ErrorView::ConfigError(ConfigErrorView::MissingField(field)) => (
            PyException::KeyError,
            field,
        ),
        ErrorView::ConfigError(_) => (PyException::ConfigError, err.message()),
        ErrorView::Unauthorized => (PyException::PermissionError, err.message()),
        ErrorView::NotImplemented => (PyException::NotImplementedError, err.message()),
        ErrorView::ConnectionError(text) => if occurs_in(TIMEOUT@, text) {
            (PyException::TimeoutError, text)
        } else {
            (PyException::ConnectionError, text)
        },
        ErrorView::ApiError(text) => (PyException::ApiError, text),
        _ => (PyException::BaseException, err.message()),
    }
}

/// The status and the reason under which an error is handed to a
/// JavaScript host. The reason is the error's sentence.
pub fn js_error(err: Error) -> (shown: (JsStatus, String))
    ensures
        shown.0 == js_status(err@),
        shown.1@ == err@.message(),
{
    let reason = err.to_string();
    let status = match err {
        Error::InvalidBackend => JsStatus::InvalidArg,
        Error::ConfigError(ConfigError::InvalidField(_)) => JsStatus::InvalidArg,
        Error::ConfigError(ConfigError::MissingField(_)) => JsStatus::InvalidArg,
        _ => JsStatus::GenericFailure,
    };
    (status, reason)
}

/// The exception that an error raises in a Python host, and what it says.
pub fn py_error(err: Error) -> (raised: (PyException, String))
    ensures
        raised.0 == py_exception(err@).0,
        raised.1@ == py_exception(err@).1,
{
    let message = err.to_string();
    match err {
        Error::InvalidBackend => (PyException::ValueError, message),
        Error::ConfigError(ConfigError::InvalidField(field)) => (PyException::ValueError, field),
        Error::ConfigError(ConfigError::MissingField(field)) => (PyException::KeyError, field),
        Error::ConfigError(_) => (PyException::ConfigError, message),
        Error::Unauthorized => (PyException::PermissionError, message),
        Error::NotImplemented => (PyException::NotImplementedError, message),
        Error::ConnectionError(text) => {
            if text_contains(text.as_str(), TIMEOUT) {
                (PyException::TimeoutError, text)
            } else {
                (PyException::ConnectionError, text)
            }
        },
        Error::ApiError(text) => (PyException::ApiError, text),
        _ => (PyException::BaseException, message),
    }
}

} // verus!
