//! USB transfer execution on an attached device: which operation a request
//! asks of the device, and the answer built from what the device gives.
use crate::protocol::messages::{
    BulkTransferRequest, ControlTransferRequest, InterruptTransferRequest, TransferResponse,
};
use crate::protocol::types::DeviceId;
use vstd::prelude::*;

verus! {

/// A transfer operation on an opened device. A read fills a buffer of
/// `length` bytes; a write sends `data`.
#[derive(Debug, Clone)]
pub enum TransferOp {
    ReadControl { request_type: u8, request: u8, value: u16, index: u16, length: usize, timeout_ms: u64 },
    WriteControl { request_type: u8, request: u8, value: u16, index: u16, data: Vec<u8>, timeout_ms: u64 },
    ReadBulk { endpoint: u8, length: usize, timeout_ms: u64 },
    WriteBulk { endpoint: u8, data: Vec<u8>, timeout_ms: u64 },
    ReadInterrupt { endpoint: u8, length: usize, timeout_ms: u64 },
    WriteInterrupt { endpoint: u8, data: Vec<u8>, timeout_ms: u64 },
}

/// Bit 7 of `bmRequestType` or of an endpoint address: set for IN (device to host).
pub open spec fn is_in(b: u8) -> bool {
    b & 0x80u8 != 0
}

/// Bit 7 is set exactly for values from 0x80 up: an endpoint address or
/// request type at 0x80 or above is IN, below it OUT.
pub proof fn lemma_is_in(b: u8)
    ensures
        is_in(b) <==> b >= 0x80,
{
    assert((b & 0x80u8 != 0) <==> b >= 0x80) by (bit_vector);
}

/// The operation a control request asks for: IN reads `length` bytes, OUT writes `data`.
pub open spec fn is_control_op(op: TransferOp, req: ControlTransferRequest) -> bool {
    if is_in(req.request_type) {
        op == TransferOp::ReadControl {
            request_type: req.request_type,
            request: req.request,
            value: req.value,
            index: req.index,
            length: req.length as usize,
            timeout_ms: req.timeout_ms,
        }
    } else {
        op matches TransferOp::WriteControl { request_type, request, value, index, data, timeout_ms }
            && request_type == req.request_type && request == req.request && value == req.value
            && index == req.index && data@ == req.data@ && timeout_ms == req.timeout_ms
    }
}

/// The operation a bulk request asks for.
pub open spec fn is_bulk_op(op: TransferOp, req: BulkTransferRequest) -> bool {
    if is_in(req.endpoint) {
        op == TransferOp::ReadBulk {
            endpoint: req.endpoint,
            length: req.length as usize,
            timeout_ms: req.timeout_ms,
        }
    } else {
        op matches TransferOp::WriteBulk { endpoint, data, timeout_ms } && endpoint == req.endpoint
            && data@ == req.data@ && timeout_ms == req.timeout_ms
    }
}

/// The operation an interrupt request asks for.
pub open spec fn is_interrupt_op(op: TransferOp, req: InterruptTransferRequest) -> bool {
    if is_in(req.endpoint) {
        op == TransferOp::ReadInterrupt {
            endpoint: req.endpoint,
            length: req.length as usize,
            timeout_ms: req.timeout_ms,
        }
    } else {
        op matches TransferOp::WriteInterrupt { endpoint, data, timeout_ms } && endpoint
            == req.endpoint && data@ == req.data@ && timeout_ms == req.timeout_ms
    }
}

pub fn control_op(req: &ControlTransferRequest) -> (op: TransferOp)
    ensures
        is_control_op(op, *req),
{
    if req.request_type & 0x80 != 0 {
        TransferOp::ReadControl {
            request_type: req.request_type,
            request: req.request,
            value: req.value,
            index: req.index,
            length: req.length as usize,
            timeout_ms: req.timeout_ms,
        }
    } else {
        TransferOp::WriteControl {
            request_type: req.request_type,
            request: req.request,
            value: req.value,
            index: req.index,
            data: copy_bytes(&req.data),
            timeout_ms: req.timeout_ms,
        }
    }
}

pub fn bulk_op(req: &BulkTransferRequest) -> (op: TransferOp)
    ensures
        is_bulk_op(op, *req),
{
    if req.endpoint & 0x80 != 0 {
        TransferOp::ReadBulk {
            endpoint: req.endpoint,
            length: req.length as usize,
            timeout_ms: req.timeout_ms,
        }
    } else {
        TransferOp::WriteBulk {
            endpoint: req.endpoint,
            data: copy_bytes(&req.data),
            timeout_ms: req.timeout_ms,
        }
    }
}

pub fn interrupt_op(req: &InterruptTransferRequest) -> (op: TransferOp)
    ensures
        is_interrupt_op(op, *req),
{
    if req.endpoint & 0x80 != 0 {
        TransferOp::ReadInterrupt {
            endpoint: req.endpoint,
            length: req.length as usize,
            timeout_ms: req.timeout_ms,
        }
    } else {
        TransferOp::WriteInterrupt {
            endpoint: req.endpoint,
            data: copy_bytes(&req.data),
            timeout_ms: req.timeout_ms,
        }
    }
}

fn copy_bytes(v: &Vec<u8>) -> (r: Vec<u8>)
    ensures
        r@ == v@,
{
    let mut r: Vec<u8> = Vec::new();
    let mut i: usize = 0;
    while i < v.len()
        invariant
            i <= v@.len(),
            r@ == v@.take(i as int),
        decreases v@.len() - i,
    {
        r.push(v[i]);
        i = i + 1;
        assert(r@ =~= v@.take(i as int));
    }
    assert(v@.take(i as int) =~= v@);
    r
}

/// The answer for `session_id` on `device_id` to what the device gave: a
/// count and a buffer (a read's data is the buffer cut to the count; a write
/// carries no data), or an error text.
pub open spec fn is_answer(
    resp: TransferResponse,
    session_id: u64,
    device_id: DeviceId,
    read: bool,
    outcome: Result<(usize, Vec<u8>), String>,
) -> bool {
    &&& resp.session_id == session_id
    &&& resp.device_id == device_id
    &&& match outcome {
        Ok((n, buf)) => {
            &&& resp.success
            &&& resp.error_message is None
            &&& resp.bytes_transferred == n as u32
            &&& resp.data@ == if !read {
                Seq::<u8>::empty()
            } else if n <= buf@.len() {
                buf@.take(n as int)
            } else {
                buf@
            }
        },
        Err(e) => {
            &&& !resp.success
            &&& resp.data@ == Seq::<u8>::empty()
            &&& resp.bytes_transferred == 0
            &&& resp.error_message matches Some(t) && t@ == e@
        },
    }
}

/// The answer once the device has been asked, for each outcome it gives.
pub fn transfer_answer(
    session_id: u64,
    device_id: DeviceId,
    read: bool,
    outcome: Result<(usize, Vec<u8>), String>,
) -> (resp: TransferResponse)
    ensures
        is_answer(resp, session_id, device_id, read, outcome),
{
    match outcome {
        Ok((n, buf)) => {
            let data = if read {
                let mut b = buf;
                b.truncate(n);
                b
            } else {
                Vec::new()
            };
            TransferResponse {
                session_id,
                device_id,
                success: true,
                data,
                bytes_transferred: n as u32,
                error_message: None,
            }
        },
        Err(e) => TransferResponse {
            session_id,
            device_id,
            success: false,
            data: Vec::new(),
            bytes_transferred: 0,
            error_message: Some(e),
        },
    }
}

/// Runs a control transfer: the device function runs the request's operation
/// on the handle once (IN, bit 7 of the request type set, reads `length`
/// bytes; OUT writes `data`), and the answer is built from its outcome.
pub fn execute_control_transfer<H, F: Fn(&H, TransferOp) -> Result<(usize, Vec<u8>), String>>(
    device: &F,
    handle: &H,
    req: &ControlTransferRequest,
) -> (resp: TransferResponse)
    requires
        forall|h: &H, op: TransferOp| device.requires((h, op)),
    ensures
        exists|op: TransferOp, out: Result<(usize, Vec<u8>), String>| #[trigger]
            device.ensures((handle, op), out) && is_control_op(op, *req) && is_answer(
                resp,
                req.session_id,
                req.device_id,
                is_in(req.request_type),
                out,
            ),
{
    let op = control_op(req);
    let ghost g = op;
    let read = req.request_type & 0x80 != 0;
    let out = device(handle, op);
    let resp = transfer_answer(req.session_id, req.device_id, read, out);
    assert(device.ensures((handle, g), out));
    resp
}

/// Runs a bulk transfer: the device function runs the request's operation on
/// the handle once (IN, bit 7 of the endpoint set, reads `length` bytes; OUT
/// writes `data`), and the answer is built from its outcome.
pub fn execute_bulk_transfer<H, F: Fn(&H, TransferOp) -> Result<(usize, Vec<u8>), String>>(
    device: &F,
    handle: &H,
    req: &BulkTransferRequest,
) -> (resp: TransferResponse)
    requires
        forall|h: &H, op: TransferOp| device.requires((h, op)),
    ensures
        exists|op: TransferOp, out: Result<(usize, Vec<u8>), String>| #[trigger]
            device.ensures((handle, op), out) && is_bulk_op(op, *req) && is_answer(
                resp,
                req.session_id,
                req.device_id,
                is_in(req.endpoint),
                out,
            ),
{
    let op = bulk_op(req);
    let ghost g = op;
    let read = req.endpoint & 0x80 != 0;
    let out = device(handle, op);
    let resp = transfer_answer(req.session_id, req.device_id, read, out);
    assert(device.ensures((handle, g), out));
    resp
}

/// Runs an interrupt transfer: the device function runs the request's
/// operation on the handle once (IN, bit 7 of the endpoint set, reads
/// `length` bytes; OUT writes `data`), and the answer is built from its outcome.
pub fn execute_interrupt_transfer<H, F: Fn(&H, TransferOp) -> Result<(usize, Vec<u8>), String>>(
    device: &F,
    handle: &H,
    req: &InterruptTransferRequest,
) -> (resp: TransferResponse)
    requires
        forall|h: &H, op: TransferOp| device.requires((h, op)),
    ensures
        exists|op: TransferOp, out: Result<(usize, Vec<u8>), String>| #[trigger]
            device.ensures((handle, op), out) && is_interrupt_op(op, *req) && is_answer(
                resp,
                req.session_id,
                req.device_id,
                is_in(req.endpoint),
                out,
            ),
{
    let op = interrupt_op(req);
    let ghost g = op;
    let read = req.endpoint & 0x80 != 0;
    let out = device(handle, op);
    let resp = transfer_answer(req.session_id, req.device_id, read, out);
    assert(device.ensures((handle, g), out));
    resp
}

} // verus!
