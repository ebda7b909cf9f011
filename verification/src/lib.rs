//! Decision core of a TCP forwarding proxy.
//!
//! The proxy listens on one local port and, for every inbound connection,
//! opens a connection to one fixed upstream address and relays bytes both
//! ways until either side is done. This crate holds the decisions of that
//! proxy and nothing else: which address is the upstream, what the accept
//! loop does with each result of an accept, and how one connection moves
//! from accepted to closed. It performs no I/O. A driver performs the
//! actions that the crate hands out and reports back what happened.

pub mod endpoint;
pub mod forwarder;
pub mod isolation;
pub mod lifecycle;
pub mod listener;
