//! The Linux kernel USB/IP wire protocol and the vhci_hcd interface.
pub mod usbip;
pub mod vhci;
