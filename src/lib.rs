//! A point-to-point byte relay over one bidirectional stream of an encrypted,
//! multiplexed connection. The library holds the relay's decisions as state
//! machines: each takes the event that the surrounding I/O observed and returns
//! the next action to perform.
pub mod error;
pub mod inbound;
pub mod invocation;
pub mod laws;
pub mod outbound;
pub mod session;
