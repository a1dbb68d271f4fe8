//! Errors of the library.
use vstd::prelude::*;

verus! {

#[verifier::external_type_specification]
#[verifier::external_body]
pub struct ExIoError(std::io::Error);

#[verifier::external_type_specification]
#[verifier::external_body]
pub struct ExEncodeError(bincode::error::EncodeError);

#[verifier::external_type_specification]
#[verifier::external_body]
pub struct ExDecodeError(bincode::error::DecodeError);

#[verifier::external_type_specification]
#[verifier::external_body]
pub struct ExRusbError(rusb::Error);

#[derive(Debug)]
pub enum WolfUsbError {
    ConnectionFailed(std::io::Error),
    ProtocolError(String),
    VersionMismatch { local: u32, remote: u32 },
    SerializationError(bincode::error::EncodeError),
    DeserializationError(bincode::error::DecodeError),
    UsbError(rusb::Error),
    DeviceNotFound { bus: u8, addr: u8 },
    DeviceAlreadyAttached,
    DeviceNotAttached,
    InvalidSession(u64),
    AuthenticationFailed(String),
    FrameTooLarge { size: u32, max: u32 },
    UnexpectedMessage { expected: String, got: String },
    ConnectionClosed,
}

pub type Result<T> = std::result::Result<T, WolfUsbError>;

} // verus!
