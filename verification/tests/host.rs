use una_core::error::{ConfigError, Error};
use una_core::host::{js_error, py_error, JsStatus, PyException};

fn field(name: &str) -> String {
    name.to_string()
}

#[test]
fn javascript_blames_the_caller_for_bad_arguments() {
    assert_eq!(js_error(Error::InvalidBackend), (JsStatus::InvalidArg, field("invalid backend")));
    assert_eq!(
        js_error(Error::ConfigError(ConfigError::InvalidField(field("url")))),
        (JsStatus::InvalidArg, field("Invalid field: url"))
    );
    assert_eq!(
        js_error(Error::ConfigError(ConfigError::MissingField(field("url")))),
        (JsStatus::InvalidArg, field("Missing field: url"))
    );
}

#[test]
fn javascript_sees_everything_else_as_a_failure() {
    assert_eq!(
        js_error(Error::ConfigError(ConfigError::ParsingHexError(field("macaroon")))),
        (JsStatus::GenericFailure, field("Error parsing field macaroon: expected hex string"))
    );
    assert_eq!(
        js_error(Error::Unauthorized),
        (JsStatus::GenericFailure, field("unauthorized credentials"))
    );
    assert_eq!(js_error(Error::ApiError(field("no route"))), (JsStatus::GenericFailure, field("no route")));
    assert_eq!(js_error(Error::MissingBackend).0, JsStatus::GenericFailure);
    assert_eq!(js_error(Error::NotImplemented).0, JsStatus::GenericFailure);
    assert_eq!(js_error(Error::ConnectionError(field("timeout"))).0, JsStatus::GenericFailure);
}

#[test]
fn python_names_the_field_of_a_configuration_error() {
    assert_eq!(
        py_error(Error::ConfigError(ConfigError::InvalidField(field("url")))),
        (PyException::ValueError, field("url"))
    );
    assert_eq!(
        py_error(Error::ConfigError(ConfigError::MissingField(field("macaroon")))),
        (PyException::KeyError, field("macaroon"))
    );
    assert_eq!(
        py_error(Error::ConfigError(ConfigError::ParsingHexError(field("macaroon")))),
        (PyException::ConfigError, field("Error parsing field macaroon: expected hex string"))
    );
}

#[test]
fn python_tells_a_timeout_from_other_connection_errors() {
    assert_eq!(
        py_error(Error::ConnectionError(field("timeout: https://node/"))),
        (PyException::TimeoutError, field("timeout: https://node/"))
    );
    assert_eq!(
        py_error(Error::ConnectionError(field("read timeout"))),
        (PyException::TimeoutError, field("read timeout"))
    );
    assert_eq!(
        py_error(Error::ConnectionError(field("couldn't connect to https://node/"))),
        (PyException::ConnectionError, field("couldn't connect to https://node/"))
    );
    assert_eq!(
        py_error(Error::ConnectionError(field("Timeout"))),
        (PyException::ConnectionError, field("Timeout"))
    );
    assert_eq!(py_error(Error::ConnectionError(String::new())).0, PyException::ConnectionError);
}

#[test]
fn python_has_an_exception_for_every_error() {
    assert_eq!(py_error(Error::InvalidBackend), (PyException::ValueError, field("invalid backend")));
    assert_eq!(
        py_error(Error::Unauthorized),
        (PyException::PermissionError, field("unauthorized credentials"))
    );
    assert_eq!(
        py_error(Error::NotImplemented),
        (PyException::NotImplementedError, field("not implemented"))
    );
    assert_eq!(py_error(Error::ApiError(field("timeout"))), (PyException::ApiError, field("timeout")));
    assert_eq!(
        py_error(Error::MissingBackend),
        (PyException::BaseException, field("missing backend"))
    );
    assert_eq!(
        py_error(Error::ConversionError(field("bad"))),
        (PyException::BaseException, field("bad"))
    );
    assert_eq!(py_error(Error::UnknownError(field("odd"))).0, PyException::BaseException);
    assert_eq!(py_error(Error::ParseNumberError(field("nan"))).0, PyException::BaseException);
}
