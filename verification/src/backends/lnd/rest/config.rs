//! What is needed to reach an LND node.

use vstd::prelude::*;
use crate::codec::{hex_decoded, is_hex_text};
use crate::config::{check_url, config_fault, decode_hex_field, require_field};
use crate::error::{Error, ErrorView};
use crate::types::{Backend, NodeConfig};

verus! {

/// A checked configuration: the address is a URL, the macaroon is
/// hexadecimal and the certificate is decoded. The macaroon stays in
/// hexadecimal, as the node wants it.
#[derive(Clone, Debug)]
pub struct LndRestConfig {
    pub url: String,
    pub macaroon: String,
    pub tls_certificate: Vec<u8>,
}

impl LndRestConfig {
    /// Whether `self` is what `config` says, decoded.
    pub open spec fn holds(&self, config: NodeConfig) -> bool {
        &&& config.url == Some(self.url)
        &&& config.macaroon == Some(self.macaroon)
        &&& is_hex_text(self.macaroon@)
        &&& config.tls_certificate matches Some(text) && self.tls_certificate@ == hex_decoded(
            text@,
        )
    }

    /// Checks `config` and decodes it. The first fault found is the one
    /// reported.
    pub fn try_from(config: NodeConfig) -> (checked: Result<LndRestConfig, Error>)
        ensures
            match config_fault(Backend::LndRest, config) {
                Some(fault) => checked matches Err(e) && e@ == ErrorView::ConfigError(fault),
                None => checked matches Ok(c) && c.holds(config),
            },
    {
        reveal_with_fuel(crate::config::first_missing, 4);
        reveal_with_fuel(crate::config::first_not_hex, 3);
        let url = match require_field(config.url, "url") {
            Ok(v) => v,
            Err(e) => {
                return Err(e);
            },
        };
        let macaroon = match require_field(config.macaroon, "macaroon") {
            Ok(v) => v,
            Err(e) => {
                return Err(e);
            },
        };
        let tls_certificate = match require_field(config.tls_certificate, "tls_certificate") {
            Ok(v) => v,
            Err(e) => {
                return Err(e);
            },
        };
        match check_url(url.as_str(), "url") {
            Ok(()) => {},
            Err(e) => {
                return Err(e);
            },
        }
        match decode_hex_field(macaroon.as_str(), "macaroon") {
            Ok(_) => {},
            Err(e) => {
                return Err(e);
            },
        }
        let tls_certificate = match decode_hex_field(tls_certificate.as_str(), "tls_certificate") {
            Ok(v) => v,
            Err(e) => {
                return Err(e);
            },
        };
        Ok(LndRestConfig { url, macaroon, tls_certificate })
    }
}

} // verus!
