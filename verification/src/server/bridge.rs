//! Server-side bridge mode: the USB/IP `OP_REQ_IMPORT` / `OP_REP_IMPORT`
//! exchange done before the socket is handed to the kernel's `usbip_host` driver.
use crate::buffer::{be_u16, be_u32, u16_from_be, u16_of_be, u16_to_be, u32_to_be};
use crate::server::kernel_usbip::DeviceInfo;
use vstd::prelude::*;

verus! {

pub const USBIP_VERSION: u16 = 0x0111;

pub const OP_REQ_IMPORT: u16 = 0x8003;

pub const OP_REP_IMPORT: u16 = 0x0003;

/// The size of `OP_REQ_IMPORT`: version(2) + code(2) + status(4) + busid(32).
pub const OP_REQ_IMPORT_SIZE: usize = 40;

/// The code field of an import request (bytes 2 and 3, big-endian).
pub open spec fn request_code(req: Seq<u8>) -> u16 {
    u16_of_be(req[2], req[3])
}

/// Checks that the client's 40-byte request is `OP_REQ_IMPORT`; any other code
/// is returned as the error. The bus id in the request is not checked: the
/// Bridge handshake already named the device.
pub fn check_import_request(req: &[u8]) -> (r: Result<(), u16>)
    requires
        req@.len() == OP_REQ_IMPORT_SIZE,
    ensures
        request_code(req@) == OP_REQ_IMPORT ==> r is Ok,
        request_code(req@) != OP_REQ_IMPORT ==> r == Err::<(), u16>(request_code(req@)),
{
    let req_code = u16_from_be(req[2], req[3]);
    if req_code != OP_REQ_IMPORT {
        return Err(req_code);
    }
    Ok(())
}

/// The `OP_REP_IMPORT` reply: version, code, status 0 (success), then the
/// 312-byte device record; 320 bytes in all.
pub open spec fn spec_import_reply(info: DeviceInfo) -> Seq<u8> {
    be_u16(USBIP_VERSION) + be_u16(OP_REP_IMPORT) + be_u32(0) + info.spec_wire_bytes()
}

pub fn import_reply(info: &DeviceInfo) -> (reply: Vec<u8>)
    ensures
        reply@ == spec_import_reply(*info),
        reply@.len() == 320,
{
    let mut reply: Vec<u8> = Vec::with_capacity(320);
    let v = u16_to_be(USBIP_VERSION);
    let c = u16_to_be(OP_REP_IMPORT);
    let st = u32_to_be(0);
    reply.push(v[0]);
    reply.push(v[1]);
    reply.push(c[0]);
    reply.push(c[1]);
    reply.push(st[0]);
    reply.push(st[1]);
    reply.push(st[2]);
    reply.push(st[3]);
    let mut wire = info.to_wire_bytes();
    reply.append(&mut wire);
    assert(reply@ =~= spec_import_reply(*info));
    reply
}

} // verus!
