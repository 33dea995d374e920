//! One interface over several Lightning node implementations.
//!
//! A caller asks any node the same things: what it is, for an invoice, to
//! pay an invoice, for an invoice it keeps, and what an invoice says. Each
//! backend has its own wire shapes, units and credentials; this library
//! checks the configuration, says what has to be sent to the chosen
//! backend, and maps what comes back into one canonical model and one set
//! of errors. It sends nothing itself: a transport makes the calls.
//!
//! - [`types`] holds the canonical model, [`error`] the errors.
//! - [`config`] checks configurations; each backend under [`backends`]
//!   has its checked configuration, its adapter and its wire types.
//! - [`node`] is the interface over all backends.
//! - [`transport`] describes calls, headers and the reading of a status.
//! - [`codec`] and [`bolt11`] are where other crates do the encoding and
//!   the reading of invoices; what is stated of them there is taken on
//!   trust, everything else in the library is proved.
//! - [`text`], [`tools`], [`utils`] and [`percent`] are small verified
//!   routines; [`host`] says how errors are shown to a host language.

pub mod backends;
pub mod bolt11;
pub mod codec;
pub mod config;
pub mod error;
pub mod host;
pub mod node;
pub mod percent;
pub mod text;
pub mod tools;
pub mod transport;
pub mod types;
pub mod utils;
