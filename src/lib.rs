//! Client side of a binary request/response protocol that drives a remote,
//! content-addressed tree store. The library decides what goes on the wire
//! and what comes back means: the handshake fingerprint, length-prefixed
//! frames, command requests, and the one-cycle-at-a-time connection state.
//! Moving the bytes over a socket is left to the caller.
pub mod client;
pub mod command;
pub mod frame;
pub mod handshake;
pub mod store;
pub mod tree;
pub mod types;
