use wolfusb::client::commands::{
    bulk_request, control_request, interrupt_request, parse_u16_hex, parse_u8_hex,
};
use wolfusb::client::display::{
    attached_line, descriptor_tree_text, detached_line, device_list_text, format_class, hex_dump,
    parse_hex_data, transfer_result_text, HexDataError,
};
use wolfusb::protocol::messages::TransferResponse;
use wolfusb::protocol::types::{
    ConfigurationInfo, DeviceDescriptorTree, DeviceId, DeviceInfo, EndpointInfo, InterfaceInfo,
    UsbDirection, UsbSpeed, UsbTransferType,
};
use wolfusb::text::IntParseError;

#[test]
fn hex_dump_full_line() {
    let data = b"Hello, World!\x00\x01\xff";
    assert_eq!(
        hex_dump(data),
        "00000000  48 65 6c 6c 6f 2c 20 57  6f 72 6c 64 21 00 01 ff  |Hello, World!...|\n"
    );
}

#[test]
fn hex_dump_short_and_second_lines() {
    assert_eq!(hex_dump(b"ABC"), format!("00000000  41 42 43 {} |ABC|\n", " ".repeat(40)));
    let data: Vec<u8> = (0u8..18).collect();
    let out = hex_dump(&data);
    let lines: Vec<&str> = out.split('\n').collect();
    assert_eq!(lines.len(), 3);
    assert_eq!(
        lines[0],
        "00000000  00 01 02 03 04 05 06 07  08 09 0a 0b 0c 0d 0e 0f  |................|"
    );
    assert_eq!(lines[1], format!("00000010  10 11 {} |..|", " ".repeat(43)));
    assert_eq!(hex_dump(&[]), "");
}

#[test]
fn class_names() {
    assert_eq!(format_class(0x00, 0), "Per-Iface");
    assert_eq!(format_class(0x03, 1), "HID");
    assert_eq!(format_class(0x08, 6), "Storage");
    assert_eq!(format_class(0x0E, 0), "Video");
    assert_eq!(format_class(0xEF, 2), "Misc");
    assert_eq!(format_class(0xFF, 0xFF), "Vendor");
    assert_eq!(format_class(0x04, 0), "Unknown");
    assert_eq!(format_class(0x12, 0), "Unknown");
}

#[test]
fn hex_payloads() {
    assert_eq!(parse_hex_data("0x01 02:ff"), Ok(vec![0x01, 0x02, 0xff]));
    assert_eq!(parse_hex_data("DEADbeef"), Ok(vec![0xde, 0xad, 0xbe, 0xef]));
    assert_eq!(parse_hex_data(""), Ok(Vec::new()));
    assert_eq!(parse_hex_data("abc"), Err(HexDataError::OddLength));
    assert_eq!(
        parse_hex_data("01zz"),
        Err(HexDataError::InvalidHex { position: 2, error: IntParseError::InvalidDigit })
    );
    // a pair is two hex digits: no sign
    assert_eq!(
        parse_hex_data("01+f"),
        Err(HexDataError::InvalidHex { position: 2, error: IntParseError::InvalidDigit })
    );
    assert_eq!(HexDataError::OddLength.message(), "Hex string must have even number of characters");
    assert_eq!(
        HexDataError::InvalidHex { position: 2, error: IntParseError::InvalidDigit }.message(),
        "Invalid hex at position 2: invalid digit found in string"
    );
    // a non-ASCII character is an error, wherever the pairs cut it
    assert_eq!(
        parse_hex_data("0é0"),
        Err(HexDataError::InvalidHex { position: 0, error: IntParseError::InvalidDigit })
    );
    assert_eq!(
        parse_hex_data("aéb"),
        Err(HexDataError::InvalidHex { position: 0, error: IntParseError::InvalidDigit })
    );
    assert_eq!(
        parse_hex_data("00aéb"),
        Err(HexDataError::InvalidHex { position: 2, error: IntParseError::InvalidDigit })
    );
}

#[test]
fn command_line_numbers() {
    assert_eq!(parse_u8_hex("0x80"), Ok(0x80));
    assert_eq!(parse_u8_hex("0XfF"), Ok(255));
    assert_eq!(parse_u8_hex("80"), Ok(0x80));
    assert_eq!(parse_u8_hex("ff"), Ok(0xff));
    assert_eq!(parse_u8_hex("06"), Ok(6));
    assert_eq!(parse_u8_hex("+7"), Ok(7));
    assert_eq!(parse_u8_hex("128"), Err(IntParseError::PosOverflow));
    assert_eq!(parse_u8_hex("0x100"), Err(IntParseError::PosOverflow));
    assert_eq!(parse_u8_hex(""), Err(IntParseError::Empty));
    assert_eq!(parse_u8_hex("0x"), Err(IntParseError::Empty));
    assert_eq!(parse_u8_hex("-1"), Err(IntParseError::InvalidDigit));
    assert_eq!(parse_u8_hex("0x8g"), Err(IntParseError::InvalidDigit));
    assert_eq!(parse_u16_hex("0x0100"), Ok(0x0100));
    assert_eq!(parse_u16_hex("0409"), Ok(0x0409));
    assert_eq!(parse_u16_hex("ffff"), Ok(0xffff));
    assert_eq!(parse_u16_hex("65535"), Err(IntParseError::PosOverflow));
    assert_eq!(IntParseError::PosOverflow.message(), "number too large to fit in target type");
    assert_eq!(IntParseError::Empty.message(), "cannot parse integer from empty string");
}

#[test]
fn transfer_requests_from_the_command_line() {
    let c = control_request(7, 1, 4, 0x80, 6, 0x0100, 0, 18, None, 5000).unwrap();
    assert_eq!(c.session_id, 7);
    assert_eq!(c.device_id, DeviceId { bus_number: 1, address: 4 });
    assert_eq!((c.request_type, c.request, c.value, c.index, c.length), (0x80, 6, 0x0100, 0, 18));
    assert!(c.data.is_empty());
    assert_eq!(c.timeout_ms, 5000);
    let b = bulk_request(7, 1, 4, 0x02, 0, Some("01 02"), 100).unwrap();
    assert_eq!(b.data, vec![1, 2]);
    assert_eq!(b.endpoint, 0x02);
    let i = interrupt_request(7, 1, 4, 0x81, 8, Some("0"), 100);
    assert_eq!(i.err(), Some(HexDataError::OddLength));
}

#[test]
fn transfer_reports() {
    let ok = TransferResponse {
        session_id: 1,
        device_id: DeviceId { bus_number: 1, address: 2 },
        success: true,
        data: b"AB".to_vec(),
        bytes_transferred: 2,
        error_message: None,
    };
    assert_eq!(
        transfer_result_text(&ok),
        format!("Transfer OK: 2 bytes transferred\n{}\n", hex_dump(b"AB"))
    );
    let empty = TransferResponse { data: Vec::new(), bytes_transferred: 5, ..ok.clone() };
    assert_eq!(transfer_result_text(&empty), "Transfer OK: 5 bytes transferred\n");
    let failed = TransferResponse { success: false, error_message: None, ..ok.clone() };
    assert_eq!(transfer_result_text(&failed), "Transfer FAILED: Unknown error\n");
    let failed = TransferResponse { success: false, error_message: Some("Pipe".into()), ..ok };
    assert_eq!(transfer_result_text(&failed), "Transfer FAILED: Pipe\n");
}

fn device(speed: UsbSpeed, manufacturer: Option<&str>) -> DeviceInfo {
    DeviceInfo {
        device_id: DeviceId { bus_number: 3, address: 12 },
        vendor_id: 0x046d,
        product_id: 0xc52b,
        class_code: 0,
        sub_class_code: 0,
        protocol_code: 0,
        max_packet_size_ep0: 64,
        num_configurations: 1,
        usb_version: (2, 0, 0),
        device_version: (12, 3, 1),
        speed,
        port_number: 2,
        manufacturer: manufacturer.map(|s| s.to_string()),
        product: Some("Receiver".to_string()),
        serial_number: None,
    }
}

#[test]
fn device_list_matches_documented_columns() {
    let mut d = device(UsbSpeed::Full, Some("Logitech"));
    d.device_id = DeviceId { bus_number: 1, address: 2 };
    d.product = Some("USB Receiver".to_string());
    let out = device_list_text(&[d]);
    let lines: Vec<&str> = out.lines().collect();
    assert_eq!(
        lines[0],
        "Bus:Addr VID:PID   Speed  Class      Manufacturer             Product                  Serial"
    );
    assert_eq!(lines[1], "-".repeat(100));
    assert_eq!(
        lines[2],
        "1:2      046d:c52b 12M    Per-Iface  Logitech                 USB Receiver             -"
    );
}

#[test]
fn device_list() {
    assert_eq!(device_list_text(&[]), "No USB devices found.\n");
    let out = device_list_text(&[device(UsbSpeed::Full, Some("Logitech")), device(UsbSpeed::Unknown, None)]);
    let mut expected = format!(
        "{:<7} {:<9} {:<6} {:<10} {:<24} {:<24} Serial\n",
        "Bus:Addr", "VID:PID", "Speed", "Class", "Manufacturer", "Product"
    );
    expected.push_str(&"-".repeat(100));
    expected.push('\n');
    expected.push_str(&format!(
        "{:<8} {:04x}:{:04x} {:<6} {:<10} {:<24} {:<24} {}\n",
        "3:12", 0x046d, 0xc52b, "12M", "Per-Iface", "Logitech", "Receiver", "-"
    ));
    expected.push_str(&format!(
        "{:<8} {:04x}:{:04x} {:<6} {:<10} {:<24} {:<24} {}\n",
        "3:12", 0x046d, 0xc52b, "?", "Per-Iface", "-", "Receiver", "-"
    ));
    assert_eq!(out, expected);
}

#[test]
fn descriptor_tree() {
    let tree = DeviceDescriptorTree {
        device: device(UsbSpeed::High, Some("ACME")),
        configurations: vec![ConfigurationInfo {
            number: 1,
            num_interfaces: 1,
            max_power_ma: 100,
            self_powered: false,
            remote_wakeup: true,
            description: None,
            interfaces: vec![InterfaceInfo {
                interface_number: 0,
                setting_number: 0,
                class_code: 3,
                sub_class_code: 1,
                protocol_code: 2,
                num_endpoints: 1,
                description: None,
                endpoints: vec![EndpointInfo {
                    address: 0x81,
                    number: 1,
                    direction: UsbDirection::In,
                    transfer_type: UsbTransferType::Interrupt,
                    max_packet_size: 8,
                    interval: 10,
                }],
            }],
        }],
    };
    let expected_lines = [
        "Device: 3:12",
        "  VID:PID:        046d:c52b",
        "  USB Version:    2.0.0",
        "  Device Version: 12.3.1",
        "  Class:          Per-Iface (00:00:00)",
        "  Max Packet EP0: 64",
        "  Speed:          High",
        "  Manufacturer:   ACME",
        "  Product:        Receiver",
        "  Configurations: 1",
        "",
        "  Configuration 1:",
        "    Interfaces:    1",
        "    Max Power:     100 mA",
        "    Self Powered:  false",
        "    Remote Wakeup: true",
        "",
        "    Interface 0 (alt setting 0):",
        "      Class:     HID (03:01:02)",
        "      Endpoints: 1",
        "        EP 0x81: IN Interrupt (max 8 bytes, interval 10)",
    ];
    let expected: String = expected_lines.iter().map(|l| format!("{l}\n")).collect();
    assert_eq!(descriptor_tree_text(&tree), expected);
}

#[test]
fn device_id_text() {
    assert_eq!(DeviceId { bus_number: 1, address: 23 }.to_string(), "1:23");
}

#[test]
fn attach_and_detach_lines() {
    let d = DeviceId { bus_number: 1, address: 2 };
    assert_eq!(attached_line(d, 1), "Attached to 1:2, session_id = 1");
    assert_eq!(detached_line(d), "Detached from 1:2");
}
