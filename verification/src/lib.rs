//! Retrieval and correlation of cable-modem diagnostic telemetry.
//!
//! A modem answers four diagnostic requests. Each request depends on what an
//! earlier one brought: the identity gives the hardware identifier and the
//! modem's address, the mapping gives the cable interface, and with these
//! the upstream and downstream statistics can be asked for, both at once.
//! From the upstream counters the packet loss is derived.
//!
//! This crate holds the decisions and leaves the sending to its caller:
//!
//! - [`records`]: the typed shapes of the four responses;
//! - [`decode`]: from a response body to a record, or to the reason why not;
//! - [`request`]: the request of each stage, and what comes back for one;
//! - [`fetch`]: from what came back to a record;
//! - [`pipeline`]: the order of the stages, as a state machine;
//! - [`metric`]: the packet loss;
//! - [`json`], [`ipv4`], [`text`], [`clock`], [`settings`], [`error`]: what
//!   the above are made of.
//!
//! The logic is verified against its contracts. What is taken on trust is
//! marked where it stands: the calls into `serde_json`, the system clock and
//! `String::push`. The contracts speak of models: sequences of characters
//! for strings, sequences for vectors, and for each record a model with the
//! same fields.

pub mod clock;
pub mod decode;
pub mod error;
pub mod fetch;
pub mod ipv4;
pub mod json;
pub mod metric;
pub mod pipeline;
pub mod records;
pub mod request;
pub mod settings;
pub mod text;
