//! Eclair over REST.

pub mod config;
pub mod node;
pub mod types;
