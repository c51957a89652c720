//! The gateway: what clients hear over their sockets, and the server behind it.
pub mod events;
pub mod laws;
pub mod server;
