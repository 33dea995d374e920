//! Core Lightning over gRPC.

pub mod config;
pub mod node;
pub mod pb;
