//! The wolfusb wire protocol: USB descriptor types, messages and framing.
pub mod codec;
pub mod messages;
pub mod types;
