//! Deciding whether a WebSocket client connection runs over TLS, and
//! sequencing the TLS upgrade ahead of the WebSocket opening handshake.
//!
//! The functions here are the decisions of a connection attempt. The I/O
//! between them (the TLS handshake and the WebSocket handshake) is done by
//! the caller, which hands each outcome back in.
pub mod mode;
pub mod transport;
pub mod upgrade;
