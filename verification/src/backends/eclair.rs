//! Eclair.

pub mod rest;
