//! The checks that every backend's configuration goes through.

use vstd::prelude::*;
use crate::codec::{
    hex_decode, hex_decoded, is_hex_digit, is_hex_text, uri_accepts, uri_parses,
};
use crate::error::{ConfigError, ConfigErrorView, Error, ErrorView};
use crate::text::{has_scheme_ascii, starts_with_scheme};
use crate::types::{Backend, NodeConfig};

verus! {

/// A field of [`NodeConfig`].
#[derive(Debug, Clone, Copy, PartialEq, Eq, Structural)]
pub enum Field {
    Url,
    Macaroon,
    TlsCertificate,
    TlsClientKey,
    TlsClientCertificate,
    Username,
    Password,
}

impl Field {
    /// The name under which the field is reported.
    pub open spec fn name(self) -> Seq<char> {
        match self {
            Field::Url => "url"@,
            Field::Macaroon => "macaroon"@,
            Field::TlsCertificate => "tls_certificate"@,
            Field::TlsClientKey => "tls_client_key"@,
            Field::TlsClientCertificate => "tls_client_certificate"@,
            Field::Username => "username"@,
            Field::Password => "password"@,
        }
    }

    /// What `config` holds for the field.
    pub open spec fn of(self, config: NodeConfig) -> Option<String> {
        match self {
            Field::Url => config.url,
            Field::Macaroon => config.macaroon,
            Field::TlsCertificate => config.tls_certificate,
            Field::TlsClientKey => config.tls_client_key,
            Field::TlsClientCertificate => config.tls_client_certificate,
            Field::Username => config.username,
            Field::Password => config.password,
        }
    }
}

/// The fields a backend cannot do without, in the order in which they are
/// looked for.
pub open spec fn required_fields(backend: Backend) -> Seq<Field> {
    match backend {
        Backend::LndRest => seq![Field::Url, Field::Macaroon, Field::TlsCertificate],
        Backend::ClnGrpc => seq![
            Field::Url,
            Field::TlsCertificate,
            Field::TlsClientKey,
            Field::TlsClientCertificate,
        ],
        Backend::EclairRest => seq![Field::Url, Field::Username, Field::Password],
        _ => Seq::empty(),
    }
}

/// The fields of a backend that are written in hexadecimal, in the order in
/// which they are checked.
pub open spec fn hex_fields(backend: Backend) -> Seq<Field> {
    match backend {
        Backend::LndRest => seq![Field::Macaroon, Field::TlsCertificate],
        Backend::ClnGrpc => seq![
            Field::TlsCertificate,
            Field::TlsClientKey,
            Field::TlsClientCertificate,
        ],
        _ => Seq::empty(),
    }
}

/// The first of `fields` that `config` leaves out.
pub open spec fn first_missing(config: NodeConfig, fields: Seq<Field>) -> Option<Field>
    decreases fields.len(),
{
    if fields.len() == 0 {
        None
    } else if fields[0].of(config) is None {
        Some(fields[0])
    } else {
        first_missing(config, fields.skip(1))
    }
}

/// The first of `fields` whose text in `config` is not hexadecimal. Every
/// one of `fields` is taken to be present.
pub open spec fn first_not_hex(config: NodeConfig, fields: Seq<Field>) -> Option<Field>
    decreases fields.len(),
{
    if fields.len() == 0 {
        None
    } else if !is_hex_text(fields[0].of(config)->0@) {
        Some(fields[0])
    } else {
        first_not_hex(config, fields.skip(1))
    }
}

/// Whether `url` can be the address of a node: ASCII text that starts with
/// a scheme and that the URI parser accepts.
pub open spec fn is_node_url(url: Seq<char>) -> bool {
    has_scheme_ascii(url) && uri_parses(url)
}

/// What is wrong with `config` for `backend`, if anything: the first
/// required field that is missing; else an address that is no URL; else the
/// first hexadecimal field that is not hexadecimal.
pub open spec fn config_fault(backend: Backend, config: NodeConfig) -> Option<ConfigErrorView> {
    match first_missing(config, required_fields(backend)) {
        Some(field) => Some(ConfigErrorView::MissingField(field.name())),
        None => if !is_node_url(config.url->0@) {
            Some(ConfigErrorView::InvalidField(Field::Url.name()))
        } else {
            match first_not_hex(config, hex_fields(backend)) {
                Some(field) => Some(ConfigErrorView::ParsingHexError(field.name())),
                None => None,
            }
        },
    }
}

/// Where one of `fields` is missing, the first missing one is found: it is
/// one of `fields`, it is missing, and every field before it is there.
pub proof fn lemma_first_missing(config: NodeConfig, fields: Seq<Field>, i: int)
    requires
        0 <= i < fields.len(),
        fields[i].of(config) is None,
    ensures
        first_missing(config, fields) matches Some(field) && field.of(config) is None && exists|
            j: int,
        |
            0 <= j <= i && #[trigger] fields[j] == field && forall|k: int|
                0 <= k < j ==> (#[trigger] fields[k]).of(config) is Some,
    decreases fields.len(),
{
    if fields[0].of(config) is Some {
        let rest = fields.skip(1);
        lemma_first_missing(config, rest, i - 1);
        let field = first_missing(config, rest)->0;
        let j = choose|j: int|
            0 <= j <= i - 1 && #[trigger] rest[j] == field && forall|k: int|
                0 <= k < j ==> (#[trigger] rest[k]).of(config) is Some;
        assert forall|k: int| 0 <= k < j + 1 implies (#[trigger] fields[k]).of(config) is Some by {
            if k > 0 {
                assert(rest[k - 1] == fields[k]);
            }
        }
    }
}

/// Where one of `fields` is not hexadecimal, the first such one is found:
/// it is one of `fields`, it is not hexadecimal, and every field before it
/// is.
pub proof fn lemma_first_not_hex(config: NodeConfig, fields: Seq<Field>, i: int)
    requires
        0 <= i < fields.len(),
        !is_hex_text(fields[i].of(config)->0@),
    ensures
        first_not_hex(config, fields) matches Some(field) && !is_hex_text(field.of(config)->0@)
            && exists|j: int|
            0 <= j <= i && #[trigger] fields[j] == field && forall|k: int|
                0 <= k < j ==> is_hex_text((#[trigger] fields[k]).of(config)->0@),
    decreases fields.len(),
{
    if is_hex_text(fields[0].of(config)->0@) {
        let rest = fields.skip(1);
        lemma_first_not_hex(config, rest, i - 1);
        let field = first_not_hex(config, rest)->0;
        let j = choose|j: int|
            0 <= j <= i - 1 && #[trigger] rest[j] == field && forall|k: int|
                0 <= k < j ==> is_hex_text((#[trigger] rest[k]).of(config)->0@);
        assert forall|k: int| 0 <= k < j + 1 implies is_hex_text(
            (#[trigger] fields[k]).of(config)->0@,
        ) by {
            if k > 0 {
                assert(rest[k - 1] == fields[k]);
            }
        }
    }
}

/// A configuration that lacks a field its backend requires is turned down
/// for a missing field, and the field named is the first required one that
/// is missing: never one that is there, never one that the backend does
/// not require.
pub proof fn law_missing_field_is_named(backend: Backend, config: NodeConfig, i: int)
    requires
        0 <= i < required_fields(backend).len(),
        required_fields(backend)[i].of(config) is None,
    ensures
        first_missing(config, required_fields(backend)) matches Some(field) && field.of(config)
            is None && required_fields(backend).contains(field) && config_fault(backend, config)
            == Some(ConfigErrorView::MissingField(field.name())),
{
    lemma_first_missing(config, required_fields(backend), i);
}

/// A configuration that is complete and has a good address, but holds a
/// character that is no hexadecimal digit in a field that is written in
/// hexadecimal, is turned down for a parsing error, and the field named is
/// the first hexadecimal field that does not read as such.
pub proof fn law_non_hex_field_is_named(backend: Backend, config: NodeConfig, i: int, at: int)
    requires
        first_missing(config, required_fields(backend)) is None,
        is_node_url(config.url->0@),
        0 <= i < hex_fields(backend).len(),
        0 <= at < hex_fields(backend)[i].of(config)->0@.len(),
        !is_hex_digit(hex_fields(backend)[i].of(config)->0@[at]),
    ensures
        first_not_hex(config, hex_fields(backend)) matches Some(field) && !is_hex_text(
            field.of(config)->0@,
        ) && hex_fields(backend).contains(field) && config_fault(backend, config) == Some(
            ConfigErrorView::ParsingHexError(field.name()),
        ),
{
    lemma_first_not_hex(config, hex_fields(backend), i);
}

/// The value of a field that must be there.
pub fn require_field(field: Option<String>, name: &str) -> (value: Result<String, Error>)
    ensures
        match field {
            Some(v) => value == Ok::<String, Error>(v),
            None => value matches Err(e) && e@ == ErrorView::ConfigError(
                ConfigErrorView::MissingField(name@),
            ),
        },
{
    match field {
        Some(v) => Ok(v),
        None => Err(Error::ConfigError(ConfigError::MissingField(name.to_owned()))),
    }
}

/// Whether `url` can be the address of a node, given whether the URI parser
/// accepted it.
pub fn url_verdict(url: &str, parsed: bool) -> (good: bool)
    ensures
        good == (has_scheme_ascii(url@) && parsed),
{
    starts_with_scheme(url) && parsed
}

/// Turns down an address that is no URL, under the name of its field.
pub fn check_url(url: &str, name: &str) -> (checked: Result<(), Error>)
    ensures
        is_node_url(url@) ==> checked is Ok,
        !is_node_url(url@) ==> (checked matches Err(e) && e@ == ErrorView::ConfigError(
            ConfigErrorView::InvalidField(name@),
        )),
{
    let parsed = uri_accepts(url);
    if url_verdict(url, parsed) {
        Ok(())
    } else {
        Err(Error::ConfigError(ConfigError::InvalidField(name.to_owned())))
    }
}

/// The bytes that a hexadecimal field writes; a parsing error under the
/// field's name where the text is not hexadecimal.
pub fn decode_hex_field(text: &str, name: &str) -> (bytes: Result<Vec<u8>, Error>)
    ensures
        is_hex_text(text@) ==> (bytes matches Ok(b) && b@ == hex_decoded(text@)),
        !is_hex_text(text@) ==> (bytes matches Err(e) && e@ == ErrorView::ConfigError(
            ConfigErrorView::ParsingHexError(name@),
        )),
{
    match hex_decode(text) {
        Ok(bytes) => Ok(bytes),
        Err(_) => Err(Error::ConfigError(ConfigError::ParsingHexError(name.to_owned()))),
    }
}

} // verus!
