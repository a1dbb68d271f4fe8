use wolfusb::bridge::vhci::{attach_command, find_free_port, Speed};
use wolfusb::protocol::types::UsbSpeed;
use wolfusb::server::bridge::{check_import_request, import_reply, OP_REQ_IMPORT};
use wolfusb::server::kernel_usbip::{
    port_path_for_address, sysfs_busid, sysfs_u32, DeviceInfo, SysfsAttr, SysfsAttributes,
    SysfsEntry, SysfsError,
};
use wolfusb::text::IntParseError;

fn s(t: &str) -> Option<String> {
    Some(t.to_string())
}

fn webcam() -> SysfsAttributes {
    SysfsAttributes {
        speed: s("480\n"),
        busnum: s("1\n"),
        devnum: s("4\n"),
        id_vendor: s("046d\n"),
        id_product: s("0x0825\n"),
        bcd_device: s("0.12\n"),
        b_device_class: s("ef\n"),
        b_device_sub_class: s("02\n"),
        b_device_protocol: s("01\n"),
        b_configuration_value: s("1\n"),
        b_num_configurations: s("1\n"),
        b_num_interfaces: s(" 4\n"),
    }
}

#[test]
fn busid_text() {
    assert_eq!(sysfs_busid(1, "2"), "1-2");
    assert_eq!(sysfs_busid(1, "2.3"), "1-2.3");
    assert_eq!(sysfs_busid(12, "4.1.2"), "12-4.1.2");
}

#[test]
fn sysfs_numbers() {
    assert_eq!(sysfs_u32(&s(" 42\n")), Some(42));
    assert_eq!(sysfs_u32(&s("4294967295")), Some(u32::MAX));
    assert_eq!(sysfs_u32(&s("4294967296")), None);
    assert_eq!(sysfs_u32(&s("x")), None);
    assert_eq!(sysfs_u32(&None), None);
}

#[test]
fn device_info_from_attributes() {
    let info = DeviceInfo::from_sysfs("1-2", &webcam()).unwrap();
    assert_eq!(info.busid, "1-2");
    assert_eq!((info.bus_num, info.dev_num, info.speed), (1, 4, 3));
    assert_eq!((info.vendor_id, info.product_id), (0x046d, 0x0825));
    assert_eq!(info.bcd_device, 0x0012);
    assert_eq!((info.device_class, info.device_subclass, info.device_protocol), (0xef, 2, 1));
    assert_eq!((info.configuration_value, info.num_configurations, info.num_interfaces), (1, 1, 4));
}

#[test]
fn device_info_speeds_and_bcd() {
    let mut a = webcam();
    a.speed = s("5000");
    a.bcd_device = s("6.01");
    let info = DeviceInfo::from_sysfs("2-1", &a).unwrap();
    assert_eq!(info.speed, 5);
    assert_eq!(info.bcd_device, 0x0601);
    a.speed = s("2500");
    a.bcd_device = None;
    let info = DeviceInfo::from_sysfs("2-1", &a).unwrap();
    assert_eq!(info.speed, 0);
    assert_eq!(info.bcd_device, 0);
    a.speed = s("1.5");
    a.bcd_device = s("2");
    let info = DeviceInfo::from_sysfs("2-1", &a).unwrap();
    assert_eq!(info.speed, 1);
    assert_eq!(info.bcd_device, 0x0200);
    a.bcd_device = s("2.10\n");
    let info = DeviceInfo::from_sysfs("2-1", &a).unwrap();
    assert_eq!(info.bcd_device, 0x0210);
}

#[test]
fn device_info_errors() {
    let mut a = webcam();
    a.speed = None;
    assert_eq!(DeviceInfo::from_sysfs("1-2", &a).err(), Some(SysfsError::Missing(SysfsAttr::Speed)));
    let mut a = webcam();
    a.devnum = s("four");
    assert_eq!(DeviceInfo::from_sysfs("1-2", &a).err(), Some(SysfsError::Missing(SysfsAttr::DevNum)));
    let mut a = webcam();
    a.id_product = s("zz");
    assert_eq!(
        DeviceInfo::from_sysfs("1-2", &a).err(),
        Some(SysfsError::Unparsable(SysfsAttr::IdProduct, IntParseError::InvalidDigit))
    );
    let mut a = webcam();
    a.b_device_class = s("");
    assert_eq!(
        DeviceInfo::from_sysfs("1-2", &a).err(),
        Some(SysfsError::Unparsable(SysfsAttr::BDeviceClass, IntParseError::Empty))
    );
    assert_eq!(SysfsAttr::BNumInterfaces.file_name(), "bNumInterfaces");
}

#[test]
fn wire_record_layout() {
    let info = DeviceInfo::from_sysfs("1-2", &webcam()).unwrap();
    let w = info.to_wire_bytes();
    assert_eq!(w.len(), 312);
    let path = b"/sys/devices/pci0000:00/usb1/1-2";
    assert_eq!(&w[..path.len()], &path[..]);
    assert!(w[path.len()..256].iter().all(|&b| b == 0));
    assert_eq!(&w[256..259], b"1-2");
    assert!(w[259..288].iter().all(|&b| b == 0));
    assert_eq!(&w[288..292], &[0, 0, 0, 1]);
    assert_eq!(&w[292..296], &[0, 0, 0, 4]);
    assert_eq!(&w[296..300], &[0, 0, 0, 3]);
    assert_eq!(&w[300..306], &[0x04, 0x6d, 0x08, 0x25, 0x00, 0x12]);
    assert_eq!(&w[306..312], &[0xef, 2, 1, 1, 1, 4]);
}

#[test]
fn long_busid_is_cut_to_its_field() {
    let busid = "1-".to_string() + &"9.".repeat(20);
    let info = DeviceInfo::from_sysfs(&busid, &webcam()).unwrap();
    let w = info.to_wire_bytes();
    assert_eq!(w.len(), 312);
    assert_eq!(&w[256..288], &busid.as_bytes()[..32]);
}

#[test]
fn long_path_keeps_its_terminator() {
    let busid = "9".repeat(300);
    let info = DeviceInfo::from_sysfs(&busid, &webcam()).unwrap();
    let w = info.to_wire_bytes();
    assert_eq!(w.len(), 312);
    let path = format!("/sys/devices/pci0000:00/usb1/{busid}");
    assert_eq!(&w[..255], &path.as_bytes()[..255]);
    assert_eq!(w[255], 0);
    assert_eq!(&w[256..288], &busid.as_bytes()[..32]);
}

#[test]
fn import_exchange() {
    let mut req = [0u8; 40];
    req[0] = 0x01;
    req[1] = 0x11;
    req[2] = 0x80;
    req[3] = 0x03;
    assert_eq!(check_import_request(&req), Ok(()));
    req[2] = 0x80;
    req[3] = 0x05;
    assert_eq!(check_import_request(&req), Err(0x8005));
    assert_eq!(OP_REQ_IMPORT, 0x8003);

    let info = DeviceInfo::from_sysfs("1-2", &webcam()).unwrap();
    let reply = import_reply(&info);
    assert_eq!(reply.len(), 320);
    assert_eq!(&reply[..8], &[0x01, 0x11, 0x00, 0x03, 0, 0, 0, 0]);
    assert_eq!(&reply[8..], &info.to_wire_bytes()[..]);
}

fn entry(name: &str, bus: Option<&str>, dev: Option<&str>) -> SysfsEntry {
    SysfsEntry {
        name: name.to_string(),
        busnum: bus.map(|b| b.to_string()),
        devnum: dev.map(|d| d.to_string()),
    }
}

#[test]
fn port_path_lookup() {
    let entries = vec![
        entry("usb1", Some("1"), Some("1")),
        entry("1-2:1.0", Some("1"), Some("4")),
        entry("2-1", Some("2"), Some("4")),
        entry("1-2.3", Some("1\n"), Some("4\n")),
        entry("1-5", Some("1"), Some("7")),
    ];
    assert_eq!(port_path_for_address(&entries, 1, 4), Some("2.3".to_string()));
    assert_eq!(port_path_for_address(&entries, 1, 7), Some("5".to_string()));
    assert_eq!(port_path_for_address(&entries, 2, 4), Some("1".to_string()));
    assert_eq!(port_path_for_address(&entries, 1, 1), None);
    assert_eq!(port_path_for_address(&entries, 3, 1), None);
    // unreadable numbers count as 0
    let odd = vec![entry("1-9", None, None)];
    assert_eq!(port_path_for_address(&odd, 0, 0), None);
    let zero = vec![entry("0-9", None, None)];
    assert_eq!(port_path_for_address(&zero, 0, 0), Some("9".to_string()));
}

#[test]
fn vhci_free_port() {
    let status = "hub port sta spd dev      sockfd local_busid\n\
hs  0000 006 003 00010002 000003 1-2\n\
hs  0001 004 000 00000000 000000 0-0\n\
ss  0008 004 000 00000000 000000 0-0\n";
    assert_eq!(find_free_port(status), Some(1));
    let busy = "hub port sta spd dev      sockfd local_busid\n\
hs  0000 006 003 00010002 000003 1-2\n";
    assert_eq!(find_free_port(busy), None);
    assert_eq!(find_free_port("hs x 004\nss 0008 004 0 0 0 0-0"), Some(8));
    assert_eq!(find_free_port(""), None);
    assert_eq!(find_free_port("hs 3"), None);
}

#[test]
fn vhci_attach_line() {
    assert_eq!(attach_command(1, 7, 0x00010002, Speed::High), "1 7 65538 3");
    assert_eq!(attach_command(8, -1, 0, Speed::SuperPlus), "8 -1 0 6");
    assert_eq!(Speed::from_rusb(UsbSpeed::Unknown).as_u8(), 3);
    assert_eq!(Speed::from_rusb(UsbSpeed::Low).as_u8(), 1);
    assert_eq!(Speed::from_code(4).as_u8(), 4);
    assert_eq!(Speed::from_code(0).as_u8(), 3);
    assert_eq!(Speed::from_code(9).as_u8(), 3);
}

#[test]
fn every_speed_code_names_its_speed() {
    for s in [Speed::Low, Speed::Full, Speed::High, Speed::Wireless, Speed::Super, Speed::SuperPlus] {
        let code = s.as_u8();
        assert!((1..=6).contains(&code));
        assert_eq!(Speed::from_code(code), s);
    }
}

#[test]
fn vhci_controller_paths() {
    match wolfusb::bridge::vhci::find_vhci_path() {
        Ok(p) => assert!(p.starts_with("/sys/devices/platform/vhci_hcd.")),
        Err(e) => assert_eq!(e.kind(), std::io::ErrorKind::NotFound),
    }
    let _ = wolfusb::bridge::vhci::is_available();
}
