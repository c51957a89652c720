//! The logic of a small chat server: gateway events, the server that keeps
//! channels and sessions, the records it stores, the cache keys it stores
//! them under, and the rules of its HTTP API.
//!
//! Nothing here performs I/O. Functions take what was read and say what to
//! write, send or answer; the program in `app/` does the reading and sending.

pub mod clock;
pub mod config;
pub mod events;
pub mod filenames;
pub mod ids;
pub mod images;
pub mod json;
pub mod lists;
pub mod message_fields;
pub mod models;
pub mod redis;
pub mod redis_laws;
pub mod routes;
pub mod rtc;
pub mod text;
pub mod token;
pub mod validation;
pub mod ws;
