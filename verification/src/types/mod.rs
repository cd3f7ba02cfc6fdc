//! Shapes of what is sent to and received from the provider.

pub mod common;
pub mod server;
