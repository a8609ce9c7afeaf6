//! Core logic of a serial-to-network bridge: the authentication handshake,
//! the key translator, the session registry and the event-multiplexer step
//! function, all verified. The asynchronous plumbing around them (terminal,
//! serial device, sockets) lives outside the library.
pub mod client;
pub mod handshake;
pub mod keys;
pub mod laws;
pub mod message;
pub mod mux;
pub mod registry;
pub mod session;
