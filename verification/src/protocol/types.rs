//! Wire-safe USB descriptor types.
use crate::text::{dec_chars, push_dec};
use vstd::prelude::*;

verus! {

#[derive(Debug, Clone, Copy, PartialEq, Eq, Structural)]
pub enum UsbSpeed {
    Unknown,
    Low,
    Full,
    High,
    Super,
    SuperPlus,
}

#[derive(Debug, Clone, Copy, PartialEq, Eq, Structural)]
pub enum UsbTransferType {
    Control,
    Isochronous,
    Bulk,
    Interrupt,
}

#[derive(Debug, Clone, Copy, PartialEq, Eq, Structural)]
pub enum UsbDirection {
    In,
    Out,
}

#[derive(Debug, Clone, Copy, PartialEq, Eq, Hash, Structural)]
pub struct DeviceId {
    pub bus_number: u8,
    pub address: u8,
}

impl DeviceId {
    /// How a device id is shown: `bus:address`.
    pub open spec fn spec_display(self) -> Seq<char> {
        dec_chars(self.bus_number as nat) + seq![':'] + dec_chars(self.address as nat)
    }

    /// The text of the device id, `bus:address` in decimal.
    pub fn to_string(&self) -> (s: String)
        ensures
            s@ == self.spec_display(),
    {
        let mut s = String::new();
        push_dec(&mut s, self.bus_number as u64);
        s.append(":");
        push_dec(&mut s, self.address as u64);
        proof {
            reveal_strlit(":");
        }
        assert(s@ =~= self.spec_display());
        s
    }
}

#[derive(Debug)]
pub struct DeviceInfo {
    pub device_id: DeviceId,
    pub vendor_id: u16,
    pub product_id: u16,
    pub class_code: u8,
    pub sub_class_code: u8,
    pub protocol_code: u8,
    pub max_packet_size_ep0: u8,
    pub num_configurations: u8,
    pub usb_version: (u8, u8, u8),
    pub device_version: (u8, u8, u8),
    pub speed: UsbSpeed,
    pub port_number: u8,
    pub manufacturer: Option<String>,
    pub product: Option<String>,
    pub serial_number: Option<String>,
}

impl Clone for DeviceInfo {
    fn clone(&self) -> (r: Self)
        ensures
            r == *self,
    {
        DeviceInfo {
            device_id: self.device_id,
            vendor_id: self.vendor_id,
            product_id: self.product_id,
            class_code: self.class_code,
            sub_class_code: self.sub_class_code,
            protocol_code: self.protocol_code,
            max_packet_size_ep0: self.max_packet_size_ep0,
            num_configurations: self.num_configurations,
            usb_version: (self.usb_version.0, self.usb_version.1, self.usb_version.2),
            device_version: (self.device_version.0, self.device_version.1, self.device_version.2),
            speed: self.speed,
            port_number: self.port_number,
            manufacturer: self.manufacturer.clone(),
            product: self.product.clone(),
            serial_number: self.serial_number.clone(),
        }
    }
}

#[derive(Debug, Clone)]
pub struct EndpointInfo {
    pub address: u8,
    pub number: u8,
    pub direction: UsbDirection,
    pub transfer_type: UsbTransferType,
    pub max_packet_size: u16,
    pub interval: u8,
}

#[derive(Debug, Clone)]
pub struct InterfaceInfo {
    pub interface_number: u8,
    pub setting_number: u8,
    pub class_code: u8,
    pub sub_class_code: u8,
    pub protocol_code: u8,
    pub num_endpoints: u8,
    pub description: Option<String>,
    pub endpoints: Vec<EndpointInfo>,
}

#[derive(Debug, Clone)]
pub struct ConfigurationInfo {
    pub number: u8,
    pub num_interfaces: u8,
    pub max_power_ma: u16,
    pub self_powered: bool,
    pub remote_wakeup: bool,
    pub description: Option<String>,
    pub interfaces: Vec<InterfaceInfo>,
}

#[derive(Debug, Clone)]
pub struct DeviceDescriptorTree {
    pub device: DeviceInfo,
    pub configurations: Vec<ConfigurationInfo>,
}

} // verus!
