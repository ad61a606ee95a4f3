//! Verified core of a UDP proxy's test kit: addresses, endpoint metadata,
//! packet filters, configuration fixtures, the helper that shuts test
//! resources down, and the decisions of the echo server and packet relay.
//!
//! Nothing here opens a socket or waits. Code that does hands this library
//! plain values and carries out what it answers.

pub mod config;
pub mod endpoint;
pub mod filters;
pub mod laws;
pub mod metadata;
pub mod net;
pub mod server;
pub mod table;
