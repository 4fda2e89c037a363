//! A client core for keeping a set of topic subscriptions alive on a
//! streaming market-data connection.
//!
//! The library holds the decisions: which topics are wanted and which the
//! server confirmed, which requests are in flight, what goes out on the wire
//! and what an inbound frame means. The connection itself, the timers and the
//! command reader are driven from outside, which hands each event to
//! [`DynamicWebSocket`] and performs the reaction it returns.

use vstd::prelude::*;

pub mod topic;
pub mod wire;
pub mod client;
pub mod stats;
pub mod endpoints;
pub mod command;
pub mod laws;

pub use topic::normalize_stream;
