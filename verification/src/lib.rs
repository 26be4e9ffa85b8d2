//! Session-keyed connection multiplexing and stream relaying for a
//! protocol-transparent RPC intermediary.
//!
//! The crate holds the decisions of the intermediary and none of its
//! waiting: which connection serves a session, when one is made and dropped,
//! what the pump of a streaming call does next, and what reaches the caller.

pub mod error;
pub mod outbound_multiplexer;
pub mod relay;
pub mod server;
