//! What is needed to reach a Core Lightning node.

use vstd::prelude::*;
use crate::codec::hex_decoded;
use crate::config::{check_url, config_fault, decode_hex_field, require_field};
use crate::error::{Error, ErrorView};
use crate::types::{Backend, NodeConfig};

verus! {

/// A checked configuration: the address is a URL and the certificates and
/// the key are decoded.
#[derive(Clone, Debug)]
pub struct ClnGrpcConfig {
    pub url: String,
    pub tls_certificate: Vec<u8>,
    pub tls_client_key: Vec<u8>,
    pub tls_client_certificate: Vec<u8>,
}

impl ClnGrpcConfig {
    /// Whether `self` is what `config` says, decoded.
    pub open spec fn holds(&self, config: NodeConfig) -> bool {
        &&& config.url == Some(self.url)
        &&& config.tls_certificate matches Some(text) && self.tls_certificate@ == hex_decoded(
            text@,
        )
        &&& config.tls_client_key matches Some(text) && self.tls_client_key@ == hex_decoded(text@)
        &&& config.tls_client_certificate matches Some(text) && self.tls_client_certificate@
            == hex_decoded(text@)
    }

    /// Checks `config` and decodes it. The first fault found is the one
    /// reported.
    pub fn try_from(config: NodeConfig) -> (checked: Result<ClnGrpcConfig, Error>)
        ensures
            match config_fault(Backend::ClnGrpc, config) {
                Some(fault) => checked matches Err(e) && e@ == ErrorView::ConfigError(fault),
                None => checked matches Ok(c) && c.holds(config),
            },
    {
        reveal_with_fuel(crate::config::first_missing, 5);
        reveal_with_fuel(crate::config::first_not_hex, 4);
        let url = match require_field(config.url, "url") {
            Ok(v) => v,
            Err(e) => {
                return Err(e);
            },
        };
        let tls_certificate = match require_field(config.tls_certificate, "tls_certificate") {
            Ok(v) => v,
            Err(e) => {
                return Err(e);
            },
        };
        let tls_client_key = match require_field(config.tls_client_key, "tls_client_key") {
            Ok(v) => v,
            Err(e) => {
                return Err(e);
            },
        };
        let tls_client_certificate = match require_field(
            config.tls_client_certificate,
            "tls_client_certificate",
        ) {
            Ok(v) => v,
            Err(e) => {
                return Err(e);
            },
        };
        match check_url(url.as_str(), "url") {
            Ok(()) => {},
            Err(e) => {
                return Err(e);
            },
        }
        let tls_certificate = match decode_hex_field(tls_certificate.as_str(), "tls_certificate") {
            Ok(v) => v,
            Err(e) => {
                return Err(e);
            },
        };
        let tls_client_key = match decode_hex_field(tls_client_key.as_str(), "tls_client_key") {
            Ok(v) => v,
            Err(e) => {
                return Err(e);
            },
        };
        let tls_client_certificate = match decode_hex_field(
            tls_client_certificate.as_str(),
            "tls_client_certificate",
        ) {
            Ok(v) => v,
            Err(e) => {
                return Err(e);
            },
        };
        Ok(ClnGrpcConfig { url, tls_certificate, tls_client_key, tls_client_certificate })
    }
}

} // verus!
