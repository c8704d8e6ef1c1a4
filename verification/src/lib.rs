//! A real-time message relay: clients connect, optionally register a display
//! name, and broadcast text messages to every connected client.
//!
//! The crate holds the parts of the relay that decide something:
//!
//! * `json`: the interface to `serde_json`, trusted rather than proved;
//! * `envelope`: the wire message and its codec;
//! * `identity`: the form of a connection identity, and the trusted call to
//!   `uuid` that mints one;
//! * `registry`: the mapping from connection identity to display name;
//! * `session`: the life cycle of one connection, as a function from state and
//!   event to next state and action.
//!
//! Sockets, the broadcast channel and the task scheduler belong to the program
//! that drives a `session::Session`.
pub mod envelope;
pub mod identity;
pub mod json;
pub mod registry;
pub mod session;
