//! The server: connection dispatch, device sessions, and transfers.
pub mod connection;
pub mod device_manager;
pub mod transfer;
pub mod kernel_usbip;
pub mod bridge;
