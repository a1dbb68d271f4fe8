//! What the client commands compute before they talk to the server: hex
//! values given on the command line (with or without `0x`) and the transfer
//! requests built from them.
use crate::client::display::{parse_hex_data, spec_parse_hex_data, HexDataError};
use crate::protocol::messages::{
    BulkTransferRequest, ControlTransferRequest, InterruptTransferRequest,
};
use crate::protocol::types::DeviceId;
use crate::text::{parse_radix, spec_from_str_radix, to_chars, IntParseError};
use vstd::prelude::*;

verus! {

/// Whether `s` starts with `0x` or `0X`.
pub open spec fn has_hex_prefix(s: Seq<char>) -> bool {
    s.len() >= 2 && s[0] == '0' && (s[1] == 'x' || s[1] == 'X')
}

/// A hex value, with or without a leading `0x`/`0X`, no larger than `max`.
pub open spec fn spec_parse_hex_value(s: Seq<char>, max: nat) -> Result<nat, IntParseError> {
    if has_hex_prefix(s) {
        spec_from_str_radix(s.skip(2), 16, max)
    } else {
        spec_from_str_radix(s, 16, max)
    }
}

fn parse_hex_value(s: &str, max: u32) -> (r: Result<u32, IntParseError>)
    ensures
        match spec_parse_hex_value(s@, max as nat) {
            Ok(x) => r == Ok::<u32, IntParseError>(x as u32),
            Err(e) => r == Err::<u32, IntParseError>(e),
        },
{
    let v = to_chars(s);
    let n = v.len();
    if n >= 2 && v[0] == '0' && (v[1] == 'x' || v[1] == 'X') {
        assert(v@.subrange(2, n as int) =~= s@.skip(2));
        parse_radix(&v, 2, n, 16, max)
    } else {
        assert(v@.subrange(0, n as int) =~= s@);
        parse_radix(&v, 0, n, 16, max)
    }
}

/// Parses a byte given in hex, with or without `0x`.
pub fn parse_u8_hex(s: &str) -> (r: Result<u8, IntParseError>)
    ensures
        match spec_parse_hex_value(s@, 255) {
            Ok(x) => r == Ok::<u8, IntParseError>(x as u8),
            Err(e) => r == Err::<u8, IntParseError>(e),
        },
{
    proof {
        lemma_parse_bounded(s@, 255);
    }
    match parse_hex_value(s, 255) {
        Ok(x) => Ok(x as u8),
        Err(e) => Err(e),
    }
}

/// Parses a 16-bit value given in hex, with or without `0x`.
pub fn parse_u16_hex(s: &str) -> (r: Result<u16, IntParseError>)
    ensures
        match spec_parse_hex_value(s@, 0xffff) {
            Ok(x) => r == Ok::<u16, IntParseError>(x as u16),
            Err(e) => r == Err::<u16, IntParseError>(e),
        },
{
    proof {
        lemma_parse_bounded(s@, 0xffff);
    }
    match parse_hex_value(s, 0xffff) {
        Ok(x) => Ok(x as u16),
        Err(e) => Err(e),
    }
}

/// A parsed value never exceeds the bound it was parsed against.
proof fn lemma_parse_bounded(s: Seq<char>, max: nat)
    ensures
        spec_parse_hex_value(s, max) matches Ok(v) ==> v <= max,
{
    let d = if has_hex_prefix(s) { s.skip(2) } else { s };
    if d.len() > 0 {
        crate::text::lemma_scan_bounded(d, 16, max);
        crate::text::lemma_scan_bounded(d.drop_first(), 16, max);
    }
}

/// The payload of a transfer: the decoded hex text where one was given,
/// nothing otherwise.
pub open spec fn spec_payload(data: Option<Seq<char>>) -> Result<Seq<u8>, HexDataError> {
    match data {
        Some(h) => spec_parse_hex_data(h),
        None => Ok(Seq::empty()),
    }
}

pub open spec fn view_opt(data: Option<&str>) -> Option<Seq<char>> {
    match data {
        Some(h) => Some(h@),
        None => None,
    }
}

fn payload(data: Option<&str>) -> (r: Result<Vec<u8>, HexDataError>)
    ensures
        match spec_payload(view_opt(data)) {
            Ok(v) => r matches Ok(out) && out@ == v,
            Err(e) => r == Err::<Vec<u8>, HexDataError>(e),
        },
{
    match data {
        Some(hex) => parse_hex_data(hex),
        None => Ok(Vec::new()),
    }
}

/// The control transfer request that the `control` command sends.
pub fn control_request(
    session_id: u64,
    bus: u8,
    addr: u8,
    request_type: u8,
    request: u8,
    value: u16,
    index: u16,
    length: u16,
    data: Option<&str>,
    timeout_ms: u64,
) -> (r: Result<ControlTransferRequest, HexDataError>)
    ensures
        match spec_payload(view_opt(data)) {
            Ok(v) => r matches Ok(req) && req.data@ == v && req.session_id == session_id
                && req.device_id == (DeviceId { bus_number: bus, address: addr })
                && req.request_type == request_type && req.request == request && req.value
                == value && req.index == index && req.length == length && req.timeout_ms
                == timeout_ms,
            Err(e) => r == Err::<ControlTransferRequest, HexDataError>(e),
        },
{
    let data_bytes = payload(data)?;
    Ok(
        ControlTransferRequest {
            session_id,
            device_id: DeviceId { bus_number: bus, address: addr },
            request_type,
            request,
            value,
            index,
            data: data_bytes,
            length,
            timeout_ms,
        },
    )
}

/// The bulk transfer request that the `bulk` command sends.
pub fn bulk_request(
    session_id: u64,
    bus: u8,
    addr: u8,
    endpoint: u8,
    length: u32,
    data: Option<&str>,
    timeout_ms: u64,
) -> (r: Result<BulkTransferRequest, HexDataError>)
    ensures
        match spec_payload(view_opt(data)) {
            Ok(v) => r matches Ok(req) && req.data@ == v && req.session_id == session_id
                && req.device_id == (DeviceId { bus_number: bus, address: addr })
                && req.endpoint == endpoint && req.length == length && req.timeout_ms
                == timeout_ms,
            Err(e) => r == Err::<BulkTransferRequest, HexDataError>(e),
        },
{
    let data_bytes = payload(data)?;
    Ok(
        BulkTransferRequest {
            session_id,
            device_id: DeviceId { bus_number: bus, address: addr },
            endpoint,
            data: data_bytes,
            length,
            timeout_ms,
        },
    )
}

/// The interrupt transfer request that the `interrupt` command sends.
pub fn interrupt_request(
    session_id: u64,
    bus: u8,
    addr: u8,
    endpoint: u8,
    length: u32,
    data: Option<&str>,
    timeout_ms: u64,
) -> (r: Result<InterruptTransferRequest, HexDataError>)
    ensures
        match spec_payload(view_opt(data)) {
            Ok(v) => r matches Ok(req) && req.data@ == v && req.session_id == session_id
                && req.device_id == (DeviceId { bus_number: bus, address: addr })
                && req.endpoint == endpoint && req.length == length && req.timeout_ms
                == timeout_ms,
            Err(e) => r == Err::<InterruptTransferRequest, HexDataError>(e),
        },
{
    let data_bytes = payload(data)?;
    Ok(
        InterruptTransferRequest {
            session_id,
            device_id: DeviceId { bus_number: bus, address: addr },
            endpoint,
            data: data_bytes,
            length,
            timeout_ms,
        },
    )
}

} // verus!
