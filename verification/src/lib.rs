//! Share USB devices over IP: the verified protocol core.
pub mod auth;
pub mod bridge;
pub mod buffer;
pub mod client;
pub mod error;
pub mod protocol;
pub mod server;
pub mod text;
