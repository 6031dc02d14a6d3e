//! Pairing and device-link core of the notification listener desktop app.
//!
//! The library holds the decisions and the wire formats; sockets and threads
//! are driven by the caller, which hands what it observed back in.
pub mod ports;
pub mod json;
pub mod text;
pub mod handshake;
pub mod listener;
pub mod link;
pub mod registry;
