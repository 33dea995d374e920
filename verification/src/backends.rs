//! One adapter and one normalizer for each node implementation.

pub mod cln;
pub mod eclair;
pub mod lnd;
