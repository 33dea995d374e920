//! Core Lightning.

pub mod grpc;
