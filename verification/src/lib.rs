//! Typed client core for the UpCloud server-management API.
//!
//! The crate holds everything about a call that can be decided without
//! touching the network: how a request is addressed and authenticated, how a
//! response is classified, and when a wait for a server state is over. The
//! embedding application sends the prepared requests and feeds the answers
//! back in.

pub mod client;
pub mod config;
pub mod constants;
pub mod error;
pub mod resources;
pub mod text;
pub mod types;
