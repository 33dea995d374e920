//! What is needed to reach an Eclair node.

use vstd::prelude::*;
use crate::config::{check_url, config_fault, require_field};
use crate::error::{Error, ErrorView};
use crate::types::{Backend, NodeConfig};

verus! {

/// A checked configuration: the address is a URL.
#[derive(Clone, Debug)]
pub struct EclairRestConfig {
    pub url: String,
    pub username: String,
    pub password: String,
}

impl EclairRestConfig {
    /// Whether `self` is what `config` says.
    pub open spec fn holds(&self, config: NodeConfig) -> bool {
        &&& config.url == Some(self.url)
        &&& config.username == Some(self.username)
        &&& config.password == Some(self.password)
    }

    /// Checks `config`. The first fault found is the one reported.
    pub fn try_from(config: NodeConfig) -> (checked: Result<EclairRestConfig, Error>)
        ensures
            match config_fault(Backend::EclairRest, config) {
                Some(fault) => checked matches Err(e) && e@ == ErrorView::ConfigError(fault),
                None => checked matches Ok(c) && c.holds(config),
            },
    {
        reveal_with_fuel(crate::config::first_missing, 4);
        let url = match require_field(config.url, "url") {
            Ok(v) => v,
            Err(e) => {
                return Err(e);
            },
        };
        let username = match require_field(config.username, "username") {
            Ok(v) => v,
            Err(e) => {
                return Err(e);
            },
        };
        let password = match require_field(config.password, "password") {
            Ok(v) => v,
            Err(e) => {
                return Err(e);
            },
        };
        match check_url(url.as_str(), "url") {
            Ok(()) => {},
            Err(e) => {
                return Err(e);
            },
        }
        Ok(EclairRestConfig { url, username, password })
    }
}

} // verus!
