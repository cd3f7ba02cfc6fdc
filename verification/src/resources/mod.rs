//! The operations on each kind of resource.

pub mod server;
pub mod wait;
