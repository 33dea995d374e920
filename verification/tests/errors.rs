use una_core::error::{ConfigError, Error, TransportFailure};

fn errors_failure(timeout: bool, connect: bool, builder: bool, url: Option<&str>, text: &str) -> TransportFailure {
    TransportFailure {
        timeout,
        connect,
        builder,
        url: url.map(|u| u.to_string()),
        text: text.to_string(),
    }
}

fn connection(err: Error) -> String {
    match err {
        Error::ConnectionError(text) => text,
        other => panic!("expected a connection error, got {:?}", other),
    }
}

fn api(err: Error) -> String {
    match err {
        Error::ApiError(text) => text,
        other => panic!("expected an API error, got {:?}", other),
    }
}

fn errors_conversion(err: Error) -> String {
    match err {
        Error::ConversionError(text) => text,
        other => panic!("expected a conversion error, got {:?}", other),
    }
}

#[test]
fn config_errors_read_as_sentences() {
    assert_eq!(ConfigError::MissingField("url".to_string()).to_string(), "Missing field: url");
    assert_eq!(ConfigError::InvalidField("url".to_string()).to_string(), "Invalid field: url");
    assert_eq!(
        ConfigError::ParsingHexError("macaroon".to_string()).to_string(),
        "Error parsing field macaroon: expected hex string"
    );
}

#[test]
fn errors_read_as_sentences() {
    assert_eq!(Error::InvalidBackend.to_string(), "invalid backend");
    assert_eq!(Error::MissingBackend.to_string(), "missing backend");
    assert_eq!(Error::Unauthorized.to_string(), "unauthorized credentials");
    assert_eq!(Error::NotImplemented.to_string(), "not implemented");
    assert_eq!(
        Error::ConfigError(ConfigError::MissingField("password".to_string())).to_string(),
        "Missing field: password"
    );
    assert_eq!(Error::ConnectionError("timeout".to_string()).to_string(), "timeout");
    assert_eq!(Error::ApiError("no route".to_string()).to_string(), "no route");
    assert_eq!(Error::ConversionError("bad".to_string()).to_string(), "bad");
    assert_eq!(Error::UnknownError("odd".to_string()).to_string(), "odd");
    assert_eq!(Error::ParseNumberError("nan".to_string()).to_string(), "nan");
}

#[test]
fn config_error_becomes_error() {
    match Error::from(ConfigError::InvalidField("url".to_string())) {
        Error::ConfigError(ConfigError::InvalidField(name)) => assert_eq!(name, "url"),
        other => panic!("unexpected {:?}", other),
    }
}

#[test]
fn timeout_is_a_connection_error_naming_the_address() {
    let err = Error::from_transport_failure(errors_failure(
        true,
        true,
        true,
        Some("https://node/v1/getinfo"),
        "operation timed out",
    ));
    assert_eq!(connection(err), "timeout: https://node/v1/getinfo");
    let err = Error::from_transport_failure(errors_failure(true, false, false, None, "x"));
    assert_eq!(connection(err), "timeout");
}

#[test]
fn refused_connection_is_a_connection_error() {
    let err = Error::from_transport_failure(errors_failure(
        false,
        true,
        false,
        Some("https://node/"),
        "tcp connect error",
    ));
    assert_eq!(connection(err), "couldn't connect to https://node/");
    let err = Error::from_transport_failure(errors_failure(false, true, false, None, "tcp connect error"));
    assert_eq!(connection(err), "tcp connect error");
}

#[test]
fn builder_failure_loses_its_prefix() {
    let err = Error::from_transport_failure(errors_failure(
        false,
        false,
        true,
        Some("https://node/"),
        "builder error: invalid certificate",
    ));
    assert_eq!(connection(err), "invalid certificate");
    let err = Error::from_transport_failure(errors_failure(
        false,
        false,
        true,
        None,
        "builder error: builder error: twice",
    ));
    assert_eq!(connection(err), "twice");
    let err = Error::from_transport_failure(errors_failure(false, false, true, None, "no prefix"));
    assert_eq!(connection(err), "no prefix");
}

#[test]
fn other_transport_failure_is_the_nodes_answer() {
    let err = Error::from_transport_failure(errors_failure(
        false,
        false,
        false,
        Some("https://node/"),
        "HTTP status client error (404 Not Found)",
    ));
    assert_eq!(api(err), "HTTP status client error (404 Not Found)");
}

#[test]
fn channel_failure_is_a_connection_error() {
    assert_eq!(connection(Error::from_channel_failure("transport error".to_string())), "transport error");
}

#[test]
fn invalid_header_is_an_api_error() {
    assert_eq!(api(Error::from_invalid_header("failed to parse header value".to_string())), "failed to parse header value");
}

#[test]
fn status_with_wrapped_rpc_error_gives_the_inner_message() {
    let message = "Error calling method Pay: RpcError { code: Some(210), message: \"Ran out of routes to try after 1 attempts\", data: None }";
    assert_eq!(
        api(Error::from_status_message(message.to_string())),
        "Ran out of routes to try after 1 attempts"
    );
}

#[test]
fn status_without_rpc_error_is_kept_whole() {
    let message = "message: \"not wrapped\"";
    assert_eq!(api(Error::from_status_message(message.to_string())), message);
    assert_eq!(api(Error::from_status_message(String::new())), "");
}

#[test]
fn status_with_rpc_error_but_no_message_is_kept_whole() {
    let message = "RpcError without anything quoted";
    assert_eq!(api(Error::from_status_message(message.to_string())), message);
}

#[test]
fn status_message_is_taken_up_to_the_last_quote_of_the_line() {
    let message = "RpcError { message: \"a \"quoted\" word\", data: None }\nmessage: \"second line\"";
    assert_eq!(api(Error::from_status_message(message.to_string())), "a \"quoted\" word");
}

#[test]
fn status_parts_decide_which_message_is_surfaced() {
    let whole = "whole".to_string();
    let inner = Some("inner".to_string());
    assert_eq!(api(Error::from_status_parts(whole.clone(), true, inner.clone())), "inner");
    assert_eq!(api(Error::from_status_parts(whole.clone(), false, inner)), "whole");
    assert_eq!(api(Error::from_status_parts(whole.clone(), true, None)), "whole");
    assert_eq!(api(Error::from_status_parts(whole, false, None)), "whole");
}

#[test]
fn conversion_failures_have_their_sentences() {
    assert_eq!(errors_conversion(Error::from_base64_failure()), "couldn't convert base64 to hex");
    assert_eq!(errors_conversion(Error::from_parse_int_failure()), "couldn't convert string to integer");
}
