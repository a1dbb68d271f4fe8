use bytes::BytesMut;
use wolfusb::bridge::usbip::{
    decode_pdu_header, encode_pdu, make_devid, CmdSubmit, CmdUnlink, RetSubmit, RetUnlink,
    UsbipHeader, UsbipPdu, HEADER_SIZE, USBIP_CMD_SUBMIT, USBIP_CMD_UNLINK, USBIP_DIR_IN,
    USBIP_DIR_OUT, USBIP_RET_SUBMIT, USBIP_RET_UNLINK,
};

#[test]
fn encode_decode_cmd_submit() {
    let submit = CmdSubmit {
        header: UsbipHeader::new(USBIP_CMD_SUBMIT, 42, 0x00010002, USBIP_DIR_IN, 1),
        transfer_flags: 0,
        transfer_buffer_length: 64,
        start_frame: -1,
        number_of_packets: -1,
        interval: 0,
        setup: [0x80, 0x06, 0x00, 0x01, 0x00, 0x00, 0x12, 0x00],
        data: Vec::new(),
    };
    let mut buf = BytesMut::new();
    submit.encode(&mut buf);
    assert_eq!(buf.len(), HEADER_SIZE); // header + fields + setup = exactly 48
}

#[test]
fn devid_encoding() {
    assert_eq!(make_devid(1, 2), 0x00010002);
    assert_eq!(make_devid(255, 255), 0x00FF00FF);
}

#[test]
fn cmd_submit_wire_bytes() {
    let pdu = CmdSubmit {
        header: UsbipHeader::new(USBIP_CMD_SUBMIT, 42, 0x00010002, USBIP_DIR_OUT, 1),
        transfer_flags: 0x0200,
        transfer_buffer_length: 3,
        start_frame: -1,
        number_of_packets: 0,
        interval: 7,
        setup: [1, 2, 3, 4, 5, 6, 7, 8],
        data: vec![0xaa, 0xbb, 0xcc],
    };
    let mut buf = BytesMut::new();
    pdu.encode(&mut buf);
    let expected: Vec<u8> = vec![
        0, 0, 0, 1, 0, 0, 0, 42, 0, 1, 0, 2, 0, 0, 0, 0, 0, 0, 0, 1, // header
        0, 0, 2, 0, 0, 0, 0, 3, 0xff, 0xff, 0xff, 0xff, 0, 0, 0, 0, 0, 0, 0, 7, // fields
        1, 2, 3, 4, 5, 6, 7, 8, // setup
        0xaa, 0xbb, 0xcc, // payload
    ];
    assert_eq!(&buf[..], &expected[..]);
}

#[test]
fn cmd_submit_roundtrip_through_header_and_payload() {
    let pdu = UsbipPdu::CmdSubmit(CmdSubmit {
        header: UsbipHeader::new(USBIP_CMD_SUBMIT, 9, make_devid(3, 4), USBIP_DIR_OUT, 2),
        transfer_flags: 1,
        transfer_buffer_length: 4,
        start_frame: 0,
        number_of_packets: -1,
        interval: 0,
        setup: [0; 8],
        data: vec![9, 8, 7, 6],
    });
    let bytes = encode_pdu(&pdu);
    assert_eq!(bytes.len(), HEADER_SIZE + 4);
    let mut back = decode_pdu_header(&bytes[..HEADER_SIZE]).expect("known command");
    assert_eq!(back.payload_len(), 4);
    back.set_payload(bytes[HEADER_SIZE..].to_vec());
    match back {
        UsbipPdu::CmdSubmit(c) => {
            assert_eq!(c.header.seqnum, 9);
            assert_eq!(c.header.devid, 0x00030004);
            assert_eq!(c.header.ep, 2);
            assert_eq!(c.transfer_flags, 1);
            assert_eq!(c.transfer_buffer_length, 4);
            assert_eq!(c.number_of_packets, -1);
            assert_eq!(c.data, vec![9, 8, 7, 6]);
        }
        _ => panic!("wrong kind"),
    }
}

#[test]
fn in_submit_has_no_payload_to_read() {
    let pdu = UsbipPdu::CmdSubmit(CmdSubmit {
        header: UsbipHeader::new(USBIP_CMD_SUBMIT, 1, 0, USBIP_DIR_IN, 1),
        transfer_flags: 0,
        transfer_buffer_length: 512,
        start_frame: 0,
        number_of_packets: 0,
        interval: 0,
        setup: [0; 8],
        data: Vec::new(),
    });
    assert_eq!(pdu.payload_len(), 0);
}

#[test]
fn ret_submit_roundtrip() {
    let pdu = UsbipPdu::RetSubmit(RetSubmit {
        header: UsbipHeader::new(USBIP_RET_SUBMIT, 5, 0, USBIP_DIR_IN, 1),
        status: -32,
        actual_length: 2,
        start_frame: 0,
        number_of_packets: 0,
        error_count: 0,
        data: vec![0x12, 0x01],
    });
    let bytes = encode_pdu(&pdu);
    assert_eq!(bytes.len(), HEADER_SIZE + 2);
    let mut back = decode_pdu_header(&bytes[..HEADER_SIZE]).expect("known command");
    assert_eq!(back.payload_len(), 2);
    back.set_payload(bytes[HEADER_SIZE..].to_vec());
    match back {
        UsbipPdu::RetSubmit(r) => {
            assert_eq!(r.status, -32);
            assert_eq!(r.actual_length, 2);
            assert_eq!(r.data, vec![0x12, 0x01]);
        }
        _ => panic!("wrong kind"),
    }
}

#[test]
fn unlink_pdus_are_header_only() {
    let cmd = UsbipPdu::CmdUnlink(CmdUnlink {
        header: UsbipHeader::new(USBIP_CMD_UNLINK, 11, 0, 0, 0),
        unlink_seqnum: 10,
    });
    let bytes = encode_pdu(&cmd);
    assert_eq!(bytes.len(), HEADER_SIZE);
    match decode_pdu_header(&bytes[..]) {
        Ok(UsbipPdu::CmdUnlink(u)) => {
            assert_eq!(u.header.seqnum, 11);
            assert_eq!(u.unlink_seqnum, 10);
        }
        _ => panic!("wrong kind"),
    }
    let ret = UsbipPdu::RetUnlink(RetUnlink {
        header: UsbipHeader::new(USBIP_RET_UNLINK, 11, 0, 0, 0),
        status: -104,
    });
    let bytes = encode_pdu(&ret);
    assert_eq!(bytes.len(), HEADER_SIZE);
    match decode_pdu_header(&bytes[..]) {
        Ok(UsbipPdu::RetUnlink(u)) => assert_eq!(u.status, -104),
        _ => panic!("wrong kind"),
    }
}

#[test]
fn unknown_command_is_refused() {
    let mut hdr = [0u8; 48];
    hdr[3] = 0x09;
    assert_eq!(decode_pdu_header(&hdr).err(), Some(9));
}
