//! The client: the Hello handshake, reply handling, command-line values and
//! output formatting.
pub mod commands;
pub mod display;
pub mod mount;
pub mod session;
