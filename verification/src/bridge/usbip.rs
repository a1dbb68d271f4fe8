//! Linux kernel USB/IP protocol (what vhci_hcd speaks over the TCP socket).
//!
//! All fields are big-endian. Headers are fixed-size 48 bytes for CMD/RET and
//! for UNLINK. Payloads follow for OUT transfers (data to device) on
//! CMD_SUBMIT, and for IN transfers (data from device) on RET_SUBMIT.
use crate::buffer::{
    be_i32, be_u32, buf_put_i32, buf_put_slice, buf_put_u32, buf_with_capacity, buffer_limit,
    bytes_of, lemma_be_i32_roundtrip, lemma_be_u32_roundtrip, read_be_i32, read_be_u32, u32_from_be,
    zeros,
};
use bytes::BytesMut;
use vstd::prelude::*;

verus! {

/// USB/IP command codes (set in the 4-byte command field of each header)
pub const USBIP_CMD_SUBMIT: u32 = 0x00000001;

pub const USBIP_RET_SUBMIT: u32 = 0x00000003;

pub const USBIP_CMD_UNLINK: u32 = 0x00000002;

pub const USBIP_RET_UNLINK: u32 = 0x00000004;

/// USB/IP direction: 0 = OUT (host to device), 1 = IN (device to host)
pub const USBIP_DIR_OUT: u32 = 0;

pub const USBIP_DIR_IN: u32 = 1;

/// Fixed header size for SUBMIT/UNLINK commands and their responses
pub const HEADER_SIZE: usize = 48;

/// Setup packet size (control transfers only)
pub const SETUP_SIZE: usize = 8;

/// USB/IP common header present on all PDUs
#[derive(Debug, Clone, Copy)]
pub struct UsbipHeader {
    pub command: u32,
    pub seqnum: u32,
    /// Device ID: busnum << 16 | devnum
    pub devid: u32,
    /// Direction (0 = OUT, 1 = IN)
    pub direction: u32,
    /// Endpoint number (0-15)
    pub ep: u32,
}

impl UsbipHeader {
    pub fn new(command: u32, seqnum: u32, devid: u32, direction: u32, ep: u32) -> (h: Self)
        ensures
            h.command == command,
            h.seqnum == seqnum,
            h.devid == devid,
            h.direction == direction,
            h.ep == ep,
    {
        Self { command, seqnum, devid, direction, ep }
    }

    /// The 20 bytes of the common header on the wire.
    pub open spec fn spec_encode(self) -> Seq<u8> {
        be_u32(self.command) + be_u32(self.seqnum) + be_u32(self.devid) + be_u32(self.direction)
            + be_u32(self.ep)
    }
}

/// CMD_SUBMIT: client asks server to execute a USB transfer
#[derive(Debug, Clone)]
pub struct CmdSubmit {
    pub header: UsbipHeader,
    /// URB transfer flags (kernel URB_* flags)
    pub transfer_flags: u32,
    /// Requested transfer length (bytes)
    pub transfer_buffer_length: i32,
    /// Start frame (for isoc); -1 for non-isoc
    pub start_frame: i32,
    /// Number of isoc packets; 0xFFFFFFFF for non-isoc
    pub number_of_packets: i32,
    /// Interval (for interrupt/isoc transfers)
    pub interval: i32,
    /// Setup packet (8 bytes, control transfers only; zeroes otherwise)
    pub setup: [u8; 8],
    /// Transfer data (for OUT transfers; empty for IN)
    pub data: Vec<u8>,
}

/// RET_SUBMIT: server responds with the result of a USB transfer
#[derive(Debug, Clone)]
pub struct RetSubmit {
    pub header: UsbipHeader,
    /// Status (0 = success, negative errno on failure)
    pub status: i32,
    /// Actual number of bytes transferred
    pub actual_length: i32,
    /// Start frame (isoc only)
    pub start_frame: i32,
    /// Number of isoc packets transferred
    pub number_of_packets: i32,
    /// Number of URBs that couldn't complete (isoc only)
    pub error_count: i32,
    /// Transfer data (for IN transfers; empty for OUT)
    pub data: Vec<u8>,
}

/// CMD_UNLINK: client cancels a previously submitted URB
#[derive(Debug, Clone)]
pub struct CmdUnlink {
    pub header: UsbipHeader,
    /// The seqnum of the URB to cancel
    pub unlink_seqnum: u32,
}

/// RET_UNLINK: server responds to an unlink request
#[derive(Debug, Clone)]
pub struct RetUnlink {
    pub header: UsbipHeader,
    /// Status (0 = unlinked, -ECONNRESET = already completed)
    pub status: i32,
}

/// Any USB/IP PDU that can appear on the wire
#[derive(Debug, Clone)]
pub enum UsbipPdu {
    CmdSubmit(CmdSubmit),
    RetSubmit(RetSubmit),
    CmdUnlink(CmdUnlink),
    RetUnlink(RetUnlink),
}

impl CmdSubmit {
    /// The wire bytes of a CMD_SUBMIT: header, fields, setup packet, then the payload.
    pub open spec fn spec_encode(self) -> Seq<u8> {
        self.header.spec_encode() + be_u32(self.transfer_flags) + be_i32(
            self.transfer_buffer_length,
        ) + be_i32(self.start_frame) + be_i32(self.number_of_packets) + be_i32(self.interval)
            + self.setup@ + self.data@
    }

    pub fn encode(&self, buf: &mut BytesMut)
        requires
            bytes_of(*old(buf)).len() + self.spec_encode().len() <= buffer_limit(),
        ensures
            bytes_of(*final(buf)) == bytes_of(*old(buf)) + self.spec_encode(),
    {
        let ghost start = bytes_of(*buf);
        encode_header(buf, &self.header);
        buf_put_u32(buf, self.transfer_flags);
        buf_put_i32(buf, self.transfer_buffer_length);
        buf_put_i32(buf, self.start_frame);
        buf_put_i32(buf, self.number_of_packets);
        buf_put_i32(buf, self.interval);
        buf_put_slice(buf, self.setup.as_slice());
        buf_put_slice(buf, self.data.as_slice());
        assert(bytes_of(*buf) =~= start + self.spec_encode());
    }
}

impl RetSubmit {
    /// The wire bytes of a RET_SUBMIT: header, fields, 8 bytes of padding, then the payload.
    pub open spec fn spec_encode(self) -> Seq<u8> {
        self.header.spec_encode() + be_i32(self.status) + be_i32(self.actual_length) + be_i32(
            self.start_frame,
        ) + be_i32(self.number_of_packets) + be_i32(self.error_count) + zeros(8) + self.data@
    }

    pub fn encode(&self, buf: &mut BytesMut)
        requires
            bytes_of(*old(buf)).len() + self.spec_encode().len() <= buffer_limit(),
        ensures
            bytes_of(*final(buf)) == bytes_of(*old(buf)) + self.spec_encode(),
    {
        let ghost start = bytes_of(*buf);
        encode_header(buf, &self.header);
        buf_put_i32(buf, self.status);
        buf_put_i32(buf, self.actual_length);
        buf_put_i32(buf, self.start_frame);
        buf_put_i32(buf, self.number_of_packets);
        buf_put_i32(buf, self.error_count);
        // Reserved padding: header (20) + fields (20) = 40 bytes; header size is 48
        let pad = [0u8; 8];
        assert(pad@ =~= zeros(8));
        buf_put_slice(buf, pad.as_slice());
        buf_put_slice(buf, self.data.as_slice());
        assert(bytes_of(*buf) =~= start + self.spec_encode());
    }
}

impl CmdUnlink {
    /// The wire bytes of a CMD_UNLINK: header, the seqnum to cancel, 24 bytes of padding.
    pub open spec fn spec_encode(self) -> Seq<u8> {
        self.header.spec_encode() + be_u32(self.unlink_seqnum) + zeros(24)
    }

    pub fn encode(&self, buf: &mut BytesMut)
        requires
            bytes_of(*old(buf)).len() + HEADER_SIZE <= buffer_limit(),
        ensures
            bytes_of(*final(buf)) == bytes_of(*old(buf)) + self.spec_encode(),
    {
        let ghost start = bytes_of(*buf);
        encode_header(buf, &self.header);
        buf_put_u32(buf, self.unlink_seqnum);
        // Padding to fill 48-byte header
        let pad = [0u8; 24];
        assert(pad@ =~= zeros(24));
        buf_put_slice(buf, pad.as_slice());
        assert(bytes_of(*buf) =~= start + self.spec_encode());
    }
}

impl RetUnlink {
    /// The wire bytes of a RET_UNLINK: header, status, 24 bytes of padding.
    pub open spec fn spec_encode(self) -> Seq<u8> {
        self.header.spec_encode() + be_i32(self.status) + zeros(24)
    }

    pub fn encode(&self, buf: &mut BytesMut)
        requires
            bytes_of(*old(buf)).len() + HEADER_SIZE <= buffer_limit(),
        ensures
            bytes_of(*final(buf)) == bytes_of(*old(buf)) + self.spec_encode(),
    {
        let ghost start = bytes_of(*buf);
        encode_header(buf, &self.header);
        buf_put_i32(buf, self.status);
        // Padding
        let pad = [0u8; 24];
        assert(pad@ =~= zeros(24));
        buf_put_slice(buf, pad.as_slice());
        assert(bytes_of(*buf) =~= start + self.spec_encode());
    }
}

fn encode_header(buf: &mut BytesMut, h: &UsbipHeader)
    requires
        bytes_of(*old(buf)).len() + 20 <= buffer_limit(),
    ensures
        bytes_of(*final(buf)) == bytes_of(*old(buf)) + h.spec_encode(),
{
    let ghost start = bytes_of(*buf);
    buf_put_u32(buf, h.command);
    buf_put_u32(buf, h.seqnum);
    buf_put_u32(buf, h.devid);
    buf_put_u32(buf, h.direction);
    buf_put_u32(buf, h.ep);
    assert(bytes_of(*buf) =~= start + h.spec_encode());
}

impl UsbipPdu {
    /// The payload that follows the 48-byte header on the wire.
    pub open spec fn spec_data(self) -> Seq<u8> {
        match self {
            UsbipPdu::CmdSubmit(c) => c.data@,
            UsbipPdu::RetSubmit(r) => r.data@,
            _ => Seq::empty(),
        }
    }

    /// The whole PDU on the wire.
    pub open spec fn spec_encode(self) -> Seq<u8> {
        match self {
            UsbipPdu::CmdSubmit(p) => p.spec_encode(),
            UsbipPdu::RetSubmit(p) => p.spec_encode(),
            UsbipPdu::CmdUnlink(p) => p.spec_encode(),
            UsbipPdu::RetUnlink(p) => p.spec_encode(),
        }
    }

    /// How many payload bytes a reader takes after the header: the OUT data of a
    /// CMD_SUBMIT, the IN data of a RET_SUBMIT, nothing otherwise.
    pub open spec fn spec_payload_len(self) -> int {
        match self {
            UsbipPdu::CmdSubmit(c) => if c.header.direction == USBIP_DIR_OUT
                && c.transfer_buffer_length > 0 {
                c.transfer_buffer_length as int
            } else {
                0
            },
            UsbipPdu::RetSubmit(r) => if r.header.direction == USBIP_DIR_IN && r.actual_length
                > 0 {
                r.actual_length as int
            } else {
                0
            },
            _ => 0,
        }
    }

    /// The command code carried in the header.
    pub open spec fn spec_command(self) -> u32 {
        match self {
            UsbipPdu::CmdSubmit(p) => p.header.command,
            UsbipPdu::RetSubmit(p) => p.header.command,
            UsbipPdu::CmdUnlink(p) => p.header.command,
            UsbipPdu::RetUnlink(p) => p.header.command,
        }
    }

    /// A PDU that a reader would take back from its own bytes: its header names
    /// its own kind, and its payload is as long as the header announces.
    pub open spec fn well_formed(self) -> bool {
        &&& match self {
            UsbipPdu::CmdSubmit(_) => self.spec_command() == USBIP_CMD_SUBMIT,
            UsbipPdu::RetSubmit(_) => self.spec_command() == USBIP_RET_SUBMIT,
            UsbipPdu::CmdUnlink(_) => self.spec_command() == USBIP_CMD_UNLINK,
            UsbipPdu::RetUnlink(_) => self.spec_command() == USBIP_RET_UNLINK,
        }
        &&& self.spec_data().len() == self.spec_payload_len()
    }

    /// Number of payload bytes to read after the header.
    pub fn payload_len(&self) -> (n: usize)
        ensures
            n == self.spec_payload_len(),
            match *self {
                UsbipPdu::CmdSubmit(c) => c.header.direction != USBIP_DIR_OUT ==> n == 0,
                UsbipPdu::RetSubmit(r) => r.header.direction != USBIP_DIR_IN ==> n == 0,
                _ => n == 0,
            },
    {
        match self {
            UsbipPdu::CmdSubmit(c) => if c.header.direction == USBIP_DIR_OUT
                && c.transfer_buffer_length > 0 {
                c.transfer_buffer_length as usize
            } else {
                0
            },
            UsbipPdu::RetSubmit(r) => if r.header.direction == USBIP_DIR_IN && r.actual_length
                > 0 {
                r.actual_length as usize
            } else {
                0
            },
            _ => 0,
        }
    }

    /// Stores the payload read after the header (submit PDUs carry one; unlink PDUs
    /// have none and stay as they are).
    pub fn set_payload(&mut self, data: Vec<u8>)
        ensures
            match (*old(self), *final(self)) {
                (UsbipPdu::CmdSubmit(a), UsbipPdu::CmdSubmit(b)) => {
                    &&& b.header == a.header
                    &&& b.transfer_flags == a.transfer_flags
                    &&& b.transfer_buffer_length == a.transfer_buffer_length
                    &&& b.start_frame == a.start_frame
                    &&& b.number_of_packets == a.number_of_packets
                    &&& b.interval == a.interval
                    &&& b.setup == a.setup
                    &&& b.data@ == data@
                },
                (UsbipPdu::RetSubmit(a), UsbipPdu::RetSubmit(b)) => {
                    &&& b.header == a.header
                    &&& b.status == a.status
                    &&& b.actual_length == a.actual_length
                    &&& b.start_frame == a.start_frame
                    &&& b.number_of_packets == a.number_of_packets
                    &&& b.error_count == a.error_count
                    &&& b.data@ == data@
                },
                (UsbipPdu::CmdUnlink(a), UsbipPdu::CmdUnlink(b)) => b == a,
                (UsbipPdu::RetUnlink(a), UsbipPdu::RetUnlink(b)) => b == a,
                _ => false,
            },
    {
        match self {
            UsbipPdu::CmdSubmit(c) => {
                c.data = data;
            },
            UsbipPdu::RetSubmit(r) => {
                r.data = data;
            },
            _ => {},
        }
    }

    /// Appends the wire bytes of the PDU to `buf`.
    pub fn encode(&self, buf: &mut BytesMut)
        requires
            bytes_of(*old(buf)).len() + self.spec_encode().len() <= buffer_limit(),
        ensures
            bytes_of(*final(buf)) == bytes_of(*old(buf)) + self.spec_encode(),
    {
        match self {
            UsbipPdu::CmdSubmit(p) => p.encode(buf),
            UsbipPdu::RetSubmit(p) => p.encode(buf),
            UsbipPdu::CmdUnlink(p) => p.encode(buf),
            UsbipPdu::RetUnlink(p) => p.encode(buf),
        }
    }
}

/// The bytes that write a PDU to the stream: the whole PDU, in a fresh buffer.
pub fn encode_pdu(pdu: &UsbipPdu) -> (buf: BytesMut)
    requires
        pdu.spec_encode().len() <= buffer_limit(),
    ensures
        bytes_of(buf) == pdu.spec_encode(),
{
    let mut buf = buf_with_capacity(HEADER_SIZE + 4096);
    pdu.encode(&mut buf);
    buf
}

/// The common header that the first 20 bytes of `h` describe.
pub open spec fn header_at(h: Seq<u8>) -> UsbipHeader {
    UsbipHeader {
        command: read_be_u32(h, 0),
        seqnum: read_be_u32(h, 4),
        devid: read_be_u32(h, 8),
        direction: read_be_u32(h, 12),
        ep: read_be_u32(h, 16),
    }
}

/// `pdu` is what a reader takes from the 48-byte header `h`, payload aside:
/// the command field picks the kind, and each field is read big-endian at its offset.
pub open spec fn decodes_as(h: Seq<u8>, pdu: UsbipPdu) -> bool {
    let header = header_at(h);
    match pdu {
        UsbipPdu::CmdSubmit(c) => {
            &&& header.command == USBIP_CMD_SUBMIT
            &&& c.header == header
            &&& c.transfer_flags == read_be_u32(h, 20)
            &&& c.transfer_buffer_length == read_be_i32(h, 24)
            &&& c.start_frame == read_be_i32(h, 28)
            &&& c.number_of_packets == read_be_i32(h, 32)
            &&& c.interval == read_be_i32(h, 36)
            &&& c.setup@ == h.subrange(40, 48)
        },
        UsbipPdu::RetSubmit(r) => {
            &&& header.command == USBIP_RET_SUBMIT
            &&& r.header == header
            &&& r.status == read_be_i32(h, 20)
            &&& r.actual_length == read_be_i32(h, 24)
            &&& r.start_frame == read_be_i32(h, 28)
            &&& r.number_of_packets == read_be_i32(h, 32)
            &&& r.error_count == read_be_i32(h, 36)
        },
        UsbipPdu::CmdUnlink(u) => {
            &&& header.command == USBIP_CMD_UNLINK
            &&& u.header == header
            &&& u.unlink_seqnum == read_be_u32(h, 20)
        },
        UsbipPdu::RetUnlink(u) => {
            &&& header.command == USBIP_RET_UNLINK
            &&& u.header == header
            &&& u.status == read_be_i32(h, 20)
        },
    }
}

/// The command codes that a reader knows.
pub open spec fn is_known_command(command: u32) -> bool {
    command == USBIP_CMD_SUBMIT || command == USBIP_RET_SUBMIT || command == USBIP_CMD_UNLINK
        || command == USBIP_RET_UNLINK
}

fn get_u32(hdr: &[u8], at: usize) -> (v: u32)
    requires
        at + 4 <= hdr@.len(),
    ensures
        v == read_be_u32(hdr@, at as int),
{
    u32_from_be(hdr[at], hdr[at + 1], hdr[at + 2], hdr[at + 3])
}

fn get_i32(hdr: &[u8], at: usize) -> (v: i32)
    requires
        at + 4 <= hdr@.len(),
    ensures
        v == read_be_i32(hdr@, at as int),
{
    get_u32(hdr, at) as i32
}

/// Decodes one 48-byte USB/IP header. The payload, if the PDU has one
/// (`payload_len`), is not part of the header and is left empty; an unknown
/// command is returned as the error.
pub fn decode_pdu_header(hdr: &[u8]) -> (r: Result<UsbipPdu, u32>)
    requires
        hdr@.len() == HEADER_SIZE,
    ensures
        match r {
            Ok(pdu) => decodes_as(hdr@, pdu) && pdu.spec_data() == Seq::<u8>::empty(),
            Err(command) => command == read_be_u32(hdr@, 0) && !is_known_command(command),
        },
{
    let command = get_u32(hdr, 0);
    let seqnum = get_u32(hdr, 4);
    let devid = get_u32(hdr, 8);
    let direction = get_u32(hdr, 12);
    let ep = get_u32(hdr, 16);
    let header = UsbipHeader { command, seqnum, devid, direction, ep };
    if command == USBIP_CMD_SUBMIT {
        let transfer_flags = get_u32(hdr, 20);
        let transfer_buffer_length = get_i32(hdr, 24);
        let start_frame = get_i32(hdr, 28);
        let number_of_packets = get_i32(hdr, 32);
        let interval = get_i32(hdr, 36);
        let setup = [hdr[40], hdr[41], hdr[42], hdr[43], hdr[44], hdr[45], hdr[46], hdr[47]];
        assert(setup@ =~= hdr@.subrange(40, 48));
        Ok(
            UsbipPdu::CmdSubmit(
                CmdSubmit {
                    header,
                    transfer_flags,
                    transfer_buffer_length,
                    start_frame,
                    number_of_packets,
                    interval,
                    setup,
                    data: Vec::new(),
                },
            ),
        )
    } else if command == USBIP_RET_SUBMIT {
        let status = get_i32(hdr, 20);
        let actual_length = get_i32(hdr, 24);
        let start_frame = get_i32(hdr, 28);
        let number_of_packets = get_i32(hdr, 32);
        let error_count = get_i32(hdr, 36);
        Ok(
            UsbipPdu::RetSubmit(
                RetSubmit {
                    header,
                    status,
                    actual_length,
                    start_frame,
                    number_of_packets,
                    error_count,
                    data: Vec::new(),
                },
            ),
        )
    } else if command == USBIP_CMD_UNLINK {
        let unlink_seqnum = get_u32(hdr, 20);
        Ok(UsbipPdu::CmdUnlink(CmdUnlink { header, unlink_seqnum }))
    } else if command == USBIP_RET_UNLINK {
        let status = get_i32(hdr, 20);
        Ok(UsbipPdu::RetUnlink(RetUnlink { header, status }))
    } else {
        Err(command)
    }
}

proof fn lemma_read_u32_at(s: Seq<u8>, at: int, n: u32)
    requires
        0 <= at,
        at + 4 <= s.len(),
        s.subrange(at, at + 4) == be_u32(n),
    ensures
        read_be_u32(s, at) == n,
{
    lemma_be_u32_roundtrip(n);
    assert(s[at] == s.subrange(at, at + 4)[0]);
    assert(s[at + 1] == s.subrange(at, at + 4)[1]);
    assert(s[at + 2] == s.subrange(at, at + 4)[2]);
    assert(s[at + 3] == s.subrange(at, at + 4)[3]);
}

proof fn lemma_read_i32_at(s: Seq<u8>, at: int, n: i32)
    requires
        0 <= at,
        at + 4 <= s.len(),
        s.subrange(at, at + 4) == be_i32(n),
    ensures
        read_be_i32(s, at) == n,
{
    lemma_read_u32_at(s, at, n as u32);
    assert((n as u32) as i32 == n) by (bit_vector);
}

proof fn lemma_header_roundtrip(h: UsbipHeader, rest: Seq<u8>)
    ensures
        header_at(h.spec_encode() + rest) == h,
{
    let s = h.spec_encode() + rest;
    assert(s.subrange(0, 4) =~= be_u32(h.command));
    assert(s.subrange(4, 8) =~= be_u32(h.seqnum));
    assert(s.subrange(8, 12) =~= be_u32(h.devid));
    assert(s.subrange(12, 16) =~= be_u32(h.direction));
    assert(s.subrange(16, 20) =~= be_u32(h.ep));
    lemma_read_u32_at(s, 0, h.command);
    lemma_read_u32_at(s, 4, h.seqnum);
    lemma_read_u32_at(s, 8, h.devid);
    lemma_read_u32_at(s, 12, h.direction);
    lemma_read_u32_at(s, 16, h.ep);
}

proof fn lemma_cmd_submit_roundtrip(c: CmdSubmit)
    requires
        c.header.command == USBIP_CMD_SUBMIT,
    ensures
        decodes_as(c.spec_encode().take(48), UsbipPdu::CmdSubmit(c)),
        c.spec_encode().skip(48) == c.data@,
        c.spec_encode().len() == 48 + c.data@.len(),
{
    let e = c.spec_encode();
    let h = e.take(48);
    let tail = be_u32(c.transfer_flags) + be_i32(c.transfer_buffer_length) + be_i32(c.start_frame)
        + be_i32(c.number_of_packets) + be_i32(c.interval) + c.setup@;
    assert(h =~= c.header.spec_encode() + tail);
    lemma_header_roundtrip(c.header, tail);
    assert(h.subrange(20, 24) =~= be_u32(c.transfer_flags));
    assert(h.subrange(24, 28) =~= be_i32(c.transfer_buffer_length));
    assert(h.subrange(28, 32) =~= be_i32(c.start_frame));
    assert(h.subrange(32, 36) =~= be_i32(c.number_of_packets));
    assert(h.subrange(36, 40) =~= be_i32(c.interval));
    lemma_read_u32_at(h, 20, c.transfer_flags);
    lemma_read_i32_at(h, 24, c.transfer_buffer_length);
    lemma_read_i32_at(h, 28, c.start_frame);
    lemma_read_i32_at(h, 32, c.number_of_packets);
    lemma_read_i32_at(h, 36, c.interval);
    assert(h.subrange(40, 48) =~= c.setup@);
    assert(e.skip(48) =~= c.data@);
}

proof fn lemma_ret_submit_roundtrip(r: RetSubmit)
    requires
        r.header.command == USBIP_RET_SUBMIT,
    ensures
        decodes_as(r.spec_encode().take(48), UsbipPdu::RetSubmit(r)),
        r.spec_encode().skip(48) == r.data@,
        r.spec_encode().len() == 48 + r.data@.len(),
{
    let e = r.spec_encode();
    let h = e.take(48);
    let tail = be_i32(r.status) + be_i32(r.actual_length) + be_i32(r.start_frame) + be_i32(
        r.number_of_packets,
    ) + be_i32(r.error_count) + zeros(8);
    assert(h =~= r.header.spec_encode() + tail);
    lemma_header_roundtrip(r.header, tail);
    assert(h.subrange(20, 24) =~= be_i32(r.status));
    assert(h.subrange(24, 28) =~= be_i32(r.actual_length));
    assert(h.subrange(28, 32) =~= be_i32(r.start_frame));
    assert(h.subrange(32, 36) =~= be_i32(r.number_of_packets));
    assert(h.subrange(36, 40) =~= be_i32(r.error_count));
    lemma_read_i32_at(h, 20, r.status);
    lemma_read_i32_at(h, 24, r.actual_length);
    lemma_read_i32_at(h, 28, r.start_frame);
    lemma_read_i32_at(h, 32, r.number_of_packets);
    lemma_read_i32_at(h, 36, r.error_count);
    assert(e.skip(48) =~= r.data@);
}

proof fn lemma_cmd_unlink_roundtrip(u: CmdUnlink)
    requires
        u.header.command == USBIP_CMD_UNLINK,
    ensures
        decodes_as(u.spec_encode().take(48), UsbipPdu::CmdUnlink(u)),
        u.spec_encode().skip(48) == Seq::<u8>::empty(),
        u.spec_encode().len() == 48,
{
    let e = u.spec_encode();
    let h = e.take(48);
    let tail = be_u32(u.unlink_seqnum) + zeros(24);
    assert(h =~= u.header.spec_encode() + tail);
    lemma_header_roundtrip(u.header, tail);
    assert(h.subrange(20, 24) =~= be_u32(u.unlink_seqnum));
    lemma_read_u32_at(h, 20, u.unlink_seqnum);
    assert(e.skip(48) =~= Seq::<u8>::empty());
}

proof fn lemma_ret_unlink_roundtrip(u: RetUnlink)
    requires
        u.header.command == USBIP_RET_UNLINK,
    ensures
        decodes_as(u.spec_encode().take(48), UsbipPdu::RetUnlink(u)),
        u.spec_encode().skip(48) == Seq::<u8>::empty(),
        u.spec_encode().len() == 48,
{
    let e = u.spec_encode();
    let h = e.take(48);
    let tail = be_i32(u.status) + zeros(24);
    assert(h =~= u.header.spec_encode() + tail);
    lemma_header_roundtrip(u.header, tail);
    assert(h.subrange(20, 24) =~= be_i32(u.status));
    lemma_read_i32_at(h, 20, u.status);
    assert(e.skip(48) =~= Seq::<u8>::empty());
}

/// Payload follows a header only in the data direction of its kind: a
/// CMD_SUBMIT carries the `transfer_buffer_length` bytes of an OUT transfer and
/// nothing for IN; a RET_SUBMIT carries the `actual_length` bytes of an IN
/// transfer and nothing for OUT; unlink PDUs carry nothing.
pub proof fn lemma_payload_only_in_data_direction(pdu: UsbipPdu)
    ensures
        match pdu {
            UsbipPdu::CmdSubmit(c) => {
                &&& c.header.direction != USBIP_DIR_OUT ==> pdu.spec_payload_len() == 0
                &&& c.header.direction == USBIP_DIR_OUT ==> pdu.spec_payload_len() == if c.transfer_buffer_length > 0 {
                    c.transfer_buffer_length as int
                } else {
                    0
                }
            },
            UsbipPdu::RetSubmit(r) => {
                &&& r.header.direction != USBIP_DIR_IN ==> pdu.spec_payload_len() == 0
                &&& r.header.direction == USBIP_DIR_IN ==> pdu.spec_payload_len() == if r.actual_length > 0 {
                    r.actual_length as int
                } else {
                    0
                }
            },
            _ => pdu.spec_payload_len() == 0,
        },
{
}

/// Reading a PDU back from its own wire bytes gives the same PDU: the first 48
/// bytes decode to its header fields, the reader then takes exactly its payload,
/// and that payload is what follows the header.
pub proof fn lemma_pdu_roundtrip(pdu: UsbipPdu)
    requires
        pdu.well_formed(),
    ensures
        pdu.spec_encode().len() == HEADER_SIZE + pdu.spec_data().len(),
        decodes_as(pdu.spec_encode().take(HEADER_SIZE as int), pdu),
        pdu.spec_payload_len() == pdu.spec_data().len(),
        pdu.spec_encode().skip(HEADER_SIZE as int) == pdu.spec_data(),
{
    match pdu {
        UsbipPdu::CmdSubmit(c) => lemma_cmd_submit_roundtrip(c),
        UsbipPdu::RetSubmit(r) => lemma_ret_submit_roundtrip(r),
        UsbipPdu::CmdUnlink(u) => lemma_cmd_unlink_roundtrip(u),
        UsbipPdu::RetUnlink(u) => lemma_ret_unlink_roundtrip(u),
    }
}

/// The USB/IP `devid` of a device: its bus number in bits 16..24 and its
/// device number in bits 0..8.
pub open spec fn spec_devid(bus_number: u8, device_number: u8) -> int {
    bus_number * 0x10000 + device_number
}

/// A devid gives its bus number back from its upper 16 bits and its device
/// number from its lower 16 bits.
pub proof fn lemma_devid_fields(bus_number: u8, device_number: u8)
    ensures
        (spec_devid(bus_number, device_number) as u32) >> 16u32 == bus_number as u32,
        (spec_devid(bus_number, device_number) as u32) & 0xffffu32 == device_number as u32,
        spec_devid(bus_number, device_number) < 0x1000000,
{
    let b: u32 = bus_number as u32;
    let d: u32 = device_number as u32;
    let v: u32 = (b * 0x10000 + d) as u32;
    assert(v >> 16u32 == b && v & 0xffffu32 == d) by (bit_vector)
        requires
            b < 256,
            d < 256,
            v == b * 0x10000 + d,
    ;
}

/// Compute USB/IP devid from bus and device numbers
pub fn make_devid(bus_number: u8, device_number: u8) -> (devid: u32)
    ensures
        devid == spec_devid(bus_number, device_number),
        devid >> 16u32 == bus_number as u32,
        devid & 0xffffu32 == device_number as u32,
{
    proof {
        lemma_devid_fields(bus_number, device_number);
    }
    let b: u32 = bus_number as u32;
    let d: u32 = device_number as u32;
    assert(((b << 16u32) | d) == b * 0x10000u32 + d) by (bit_vector)
        requires
            b < 256,
            d < 256,
    ;
    (b << 16u32) | d
}

} // verus!
