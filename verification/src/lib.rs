//! A client library for a line-oriented, IRC-derived chat protocol.
//!
//! The crate covers the protocol engine of a terminal chat client: parsing
//! raw wire lines into structured messages, resolving sender identities,
//! classifying the login handshake, deciding the replies and display events
//! for each inbound message, and keeping the chat view state (wrapped lines,
//! scrolling, input field). Socket and terminal plumbing live outside the
//! library and talk to it through plain values.

pub mod actions;
pub mod app;
pub mod channel;
pub mod client;
pub mod config;
pub mod irc;
pub mod text;
