//! LND.

pub mod rest;
