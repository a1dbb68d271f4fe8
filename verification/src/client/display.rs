//! Pretty-printing and hex dump: the text the client prints, and the hex
//! payloads it reads from the command line.
use crate::protocol::messages::TransferResponse;
use crate::protocol::types::{
    ConfigurationInfo, DeviceDescriptorTree, DeviceId, DeviceInfo, EndpointInfo, InterfaceInfo,
    UsbDirection, UsbSpeed, UsbTransferType,
};
use crate::text::{
    dec_chars, hex_chars, hex_padded, pad_right, push_dec, push_hex_padded, push_padded, push_repeat,
    repeat, string_push, IntParseError,
};
use vstd::prelude::*;
use vstd::utf8::encode_utf8;

verus! {

/// How `hex_dump` shows a byte in its text column: printable ASCII and space
/// as themselves, anything else as `.`.
pub open spec fn shown_char(b: u8) -> char {
    if 0x20 <= b <= 0x7e {
        b as char
    } else {
        '.'
    }
}

/// The hex cell of byte `b` at column `j`: an extra space before column 8,
/// two hex digits, a space.
pub open spec fn hex_cell(j: int, b: u8) -> Seq<char> {
    (if j == 8 {
        seq![' ']
    } else {
        Seq::empty()
    }) + hex_padded(b as nat, 2) + seq![' ']
}

/// The hex cells of the bytes of a line.
pub open spec fn hex_cells(chunk: Seq<u8>) -> Seq<char>
    decreases chunk.len(),
{
    if chunk.len() == 0 {
        Seq::empty()
    } else {
        hex_cells(chunk.drop_last()) + hex_cell(chunk.len() - 1, chunk.last())
    }
}

/// The blank cells that fill a short line of `len` bytes up to 16 columns
/// (`count` of them written so far).
pub open spec fn blank_cells(len: nat, count: nat) -> Seq<char>
    decreases count,
{
    if count == 0 {
        Seq::empty()
    } else {
        blank_cells(len, (count - 1) as nat) + (if len + count - 1 == 8 {
            seq![' ']
        } else {
            Seq::empty()
        }) + seq![' ', ' ', ' ']
    }
}

/// The text column of a line.
pub open spec fn shown_text(chunk: Seq<u8>) -> Seq<char> {
    chunk.map_values(|b: u8| shown_char(b))
}

/// One line of the dump: offset (8 hex digits), the hex cells, padding, then
/// the text between bars.
pub open spec fn dump_line(chunk: Seq<u8>, offset: nat) -> Seq<char> {
    hex_padded(offset, 8) + seq![' ', ' '] + hex_cells(chunk) + blank_cells(
        chunk.len(),
        (16 - chunk.len()) as nat,
    ) + seq![' ', '|'] + shown_text(chunk) + seq!['|', '\n']
}

/// The dump of `data`, whose first byte is at `offset`, 16 bytes a line.
pub open spec fn dump_from(data: Seq<u8>, offset: nat) -> Seq<char>
    decreases data.len(),
{
    if data.len() == 0 {
        Seq::empty()
    } else if data.len() <= 16 {
        dump_line(data, offset)
    } else {
        dump_line(data.take(16), offset) + dump_from(data.skip(16), offset + 16)
    }
}

fn shown(b: u8) -> (c: char)
    ensures
        c == shown_char(b),
{
    if 0x20 <= b && b <= 0x7e {
        b as char
    } else {
        '.'
    }
}

fn push_hex_cells(s: &mut String, data: &[u8], start: usize, end: usize)
    requires
        start < end <= data@.len(),
        end - start <= 16,
    ensures
        final(s)@ == old(s)@ + hex_cells(data@.subrange(start as int, end as int)),
{
    let ghost chunk = data@.subrange(start as int, end as int);
    let ghost s1 = s@;
    let len = end - start;
    let mut j: usize = 0;
    while j < len
        invariant
            j <= len == end - start,
            start < end <= data@.len(),
            chunk == data@.subrange(start as int, end as int),
            s@ == s1 + hex_cells(chunk.take(j as int)),
        decreases len - j,
    {
        let ghost before = s@;
        if j == 8 {
            string_push(s, ' ');
        }
        push_hex_padded(s, data[start + j] as u64, 2);
        string_push(s, ' ');
        assert(chunk.take(j + 1).drop_last() =~= chunk.take(j as int));
        assert(chunk.take(j + 1).last() == data@[start + j]);
        assert(s@ =~= before + hex_cell(j as int, data@[start + j]));
        j = j + 1;
    }
    assert(chunk.take(len as int) =~= chunk);
}

fn push_blank_cells(s: &mut String, len: usize)
    requires
        len <= 16,
    ensures
        final(s)@ == old(s)@ + blank_cells(len as nat, (16 - len) as nat),
{
    let ghost s2 = s@;
    let remaining = 16 - len;
    let mut k: usize = 0;
    while k < remaining
        invariant
            k <= remaining == 16 - len,
            s@ == s2 + blank_cells(len as nat, k as nat),
        decreases remaining - k,
    {
        if len + k == 8 {
            string_push(s, ' ');
        }
        string_push(s, ' ');
        string_push(s, ' ');
        string_push(s, ' ');
        assert(s@ =~= s2 + blank_cells(len as nat, (k + 1) as nat));
        k = k + 1;
    }
}

fn push_shown_text(s: &mut String, data: &[u8], start: usize, end: usize)
    requires
        start < end <= data@.len(),
    ensures
        final(s)@ == old(s)@ + shown_text(data@.subrange(start as int, end as int)),
{
    let ghost chunk = data@.subrange(start as int, end as int);
    let ghost s3 = s@;
    let len = end - start;
    let mut m: usize = 0;
    while m < len
        invariant
            m <= len == end - start,
            start < end <= data@.len(),
            chunk == data@.subrange(start as int, end as int),
            s@ == s3 + shown_text(chunk.take(m as int)),
        decreases len - m,
    {
        string_push(s, shown(data[start + m]));
        m = m + 1;
        assert(shown_text(chunk.take(m as int)) =~= shown_text(chunk.take(m - 1)).push(
            shown_char(data@[start + m - 1]),
        ));
    }
    assert(chunk.take(len as int) =~= chunk);
}

/// Appends one line of the dump for `data[start..end]`.
fn push_dump_line(s: &mut String, data: &[u8], start: usize, end: usize)
    requires
        start < end <= data@.len(),
        end - start <= 16,
    ensures
        final(s)@ == old(s)@ + dump_line(data@.subrange(start as int, end as int), start as nat),
{
    let ghost chunk = data@.subrange(start as int, end as int);
    let ghost s0 = s@;
    push_hex_padded(s, start as u64, 8);
    string_push(s, ' ');
    string_push(s, ' ');
    push_hex_cells(s, data, start, end);
    push_blank_cells(s, end - start);
    string_push(s, ' ');
    string_push(s, '|');
    push_shown_text(s, data, start, end);
    string_push(s, '|');
    string_push(s, '\n');
    assert(s@ =~= s0 + dump_line(chunk, start as nat));
}

/// The dump of `data`: 16 bytes a line, each line the offset, the bytes in
/// hex and the bytes as text.
pub fn hex_dump(data: &[u8]) -> (result: String)
    ensures
        result@ == dump_from(data@, 0),
{
    let mut result = String::new();
    let n = data.len();
    let mut start: usize = 0;
    assert(data@.skip(0) =~= data@);
    assert(result@ + dump_from(data@, 0) =~= dump_from(data@, 0));
    while start < n
        invariant
            start <= n == data@.len(),
            dump_from(data@, 0) == result@ + dump_from(data@.skip(start as int), start as nat),
        decreases n - start,
    {
        let end = if n - start > 16 {
            start + 16
        } else {
            n
        };
        let ghost rest = data@.skip(start as int);
        push_dump_line(&mut result, data, start, end);
        proof {
            if n - start > 16 {
                assert(rest.take(16) =~= data@.subrange(start as int, end as int));
                assert(rest.skip(16) =~= data@.skip(end as int));
            } else {
                assert(rest =~= data@.subrange(start as int, end as int));
                assert(data@.skip(end as int) =~= Seq::<u8>::empty());
            }
        }
        start = end;
    }
    assert(data@.skip(0) =~= data@);
    assert(data@.skip(start as int) =~= Seq::<u8>::empty());
    result
}

/// The name of a USB class code, as the device list shows it.
pub open spec fn spec_class_name(class: u8) -> Seq<char> {
    if class == 0x00 {
        "Per-Iface"@
    } else if class == 0x01 {
        "Audio"@
    } else if class == 0x02 {
        "CDC"@
    } else if class == 0x03 {
        "HID"@
    } else if class == 0x05 {
        "Physical"@
    } else if class == 0x06 {
        "Image"@
    } else if class == 0x07 {
        "Printer"@
    } else if class == 0x08 {
        "Storage"@
    } else if class == 0x09 {
        "Hub"@
    } else if class == 0x0A {
        "CDC-Data"@
    } else if class == 0x0B {
        "SmartCard"@
    } else if class == 0x0D {
        "ContentSec"@
    } else if class == 0x0E {
        "Video"@
    } else if class == 0x0F {
        "Healthcare"@
    } else if class == 0x10 {
        "AV"@
    } else if class == 0x11 {
        "Billboard"@
    } else if class == 0xDC {
        "Diagnostic"@
    } else if class == 0xE0 {
        "Wireless"@
    } else if class == 0xEF {
        "Misc"@
    } else if class == 0xFE {
        "App-Spec"@
    } else if class == 0xFF {
        "Vendor"@
    } else {
        "Unknown"@
    }
}

/// The USB class names of the device list, as a fixed table over every class
/// code: each of the listed codes has its own name (0x09 is "Hub", 0x03 "HID",
/// 0x08 "Storage", ...), and every other code is "Unknown".
pub proof fn lemma_class_name_table(class: u8)
    ensures
        class == 0x00 ==> spec_class_name(class) == "Per-Iface"@,
        class == 0x01 ==> spec_class_name(class) == "Audio"@,
        class == 0x02 ==> spec_class_name(class) == "CDC"@,
        class == 0x03 ==> spec_class_name(class) == "HID"@,
        class == 0x05 ==> spec_class_name(class) == "Physical"@,
        class == 0x06 ==> spec_class_name(class) == "Image"@,
        class == 0x07 ==> spec_class_name(class) == "Printer"@,
        class == 0x08 ==> spec_class_name(class) == "Storage"@,
        class == 0x09 ==> spec_class_name(class) == "Hub"@,
        class == 0x0A ==> spec_class_name(class) == "CDC-Data"@,
        class == 0x0B ==> spec_class_name(class) == "SmartCard"@,
        class == 0x0D ==> spec_class_name(class) == "ContentSec"@,
        class == 0x0E ==> spec_class_name(class) == "Video"@,
        class == 0x0F ==> spec_class_name(class) == "Healthcare"@,
        class == 0x10 ==> spec_class_name(class) == "AV"@,
        class == 0x11 ==> spec_class_name(class) == "Billboard"@,
        class == 0xDC ==> spec_class_name(class) == "Diagnostic"@,
        class == 0xE0 ==> spec_class_name(class) == "Wireless"@,
        class == 0xEF ==> spec_class_name(class) == "Misc"@,
        class == 0xFE ==> spec_class_name(class) == "App-Spec"@,
        class == 0xFF ==> spec_class_name(class) == "Vendor"@,
        class != 0x00 && class != 0x01 && class != 0x02 && class != 0x03 && class != 0x05 && class != 0x06 && class != 0x07 && class != 0x08 && class != 0x09 && class != 0x0A && class != 0x0B && class != 0x0D && class != 0x0E && class != 0x0F && class != 0x10 && class != 0x11 && class != 0xDC && class != 0xE0 && class != 0xEF && class != 0xFE && class != 0xFF ==> spec_class_name(class) == "Unknown"@,
{
}

/// The word each transfer type is shown by.
pub open spec fn transfer_word(t: UsbTransferType) -> Seq<char> {
    match t {
        UsbTransferType::Control => "Control"@,
        UsbTransferType::Isochronous => "Isochronous"@,
        UsbTransferType::Bulk => "Bulk"@,
        UsbTransferType::Interrupt => "Interrupt"@,
    }
}

/// An endpoint's line names its transfer type by that type's own word, right
/// after the direction (`        EP 0x02: OUT Bulk (...`): the direction word
/// (`IN` or `OUT`) starts at character 17, the type word at character 20 for
/// an IN endpoint and 21 for an OUT one. The four type words are distinct, so
/// the line tells the types apart.
pub proof fn lemma_endpoint_line_names_transfer(e: EndpointInfo)
    ensures
        ({
            let k: int = if e.direction == UsbDirection::In {
                20
            } else {
                21
            };
            let w = transfer_word(e.transfer_type);
            &&& k + w.len() <= endpoint_line(e).len()
            &&& endpoint_line(e).subrange(k, k + w.len()) == w
            &&& e.direction == UsbDirection::In ==> endpoint_line(e).subrange(17, 19) == "IN"@
            &&& e.direction == UsbDirection::Out ==> endpoint_line(e).subrange(17, 20) == "OUT"@
        }),
        forall|a: UsbTransferType, b: UsbTransferType| #[trigger] transfer_word(a) == #[trigger] transfer_word(b) ==> a == b,
{
    reveal_strlit("        EP 0x");
    reveal_strlit(": ");
    reveal_strlit("IN");
    reveal_strlit("OUT");
    reveal_strlit("Control");
    reveal_strlit("Isochronous");
    reveal_strlit("Bulk");
    reveal_strlit("Interrupt");
    reveal_with_fuel(hex_chars, 2);
    assert(hex_padded(e.address as nat, 2).len() == 2);
    let dir = if e.direction == UsbDirection::In { "IN"@ } else { "OUT"@ };
    let w = transfer_word(e.transfer_type);
    let head = "        EP 0x"@ + hex_padded(e.address as nat, 2) + ": "@ + dir + seq![' '];
    assert(endpoint_line(e) =~= head + w + (" (max "@ + dec_chars(e.max_packet_size as nat)
        + " bytes, interval "@ + dec_chars(e.interval as nat) + ")\n"@));
    assert(head.len() == if e.direction == UsbDirection::In { 20int } else { 21int });
    assert(head.subrange(17, (17 + dir.len()) as int) =~= dir);
    assert(endpoint_line(e).subrange(17, (17 + dir.len()) as int) =~= dir);
    assert((head + w + (" (max "@ + dec_chars(e.max_packet_size as nat) + " bytes, interval "@
        + dec_chars(e.interval as nat) + ")\n"@)).subrange(head.len() as int, (head.len() + w.len()) as int) =~= w);
    assert forall|a: UsbTransferType, b: UsbTransferType| #[trigger] transfer_word(a) == #[trigger] transfer_word(b) implies a == b by {
        if a != b {
            assert(transfer_word(a).len() != transfer_word(b).len() || transfer_word(a)[0] != transfer_word(b)[0]);
        }
    }
}

/// The short name of a USB class; the subclass does not change it.
pub fn format_class(class: u8, subclass: u8) -> (s: &'static str)
    ensures
        s@ == spec_class_name(class),
{
    match class {
        0x00 => "Per-Iface",
        0x01 => "Audio",
        0x02 => "CDC",
        0x03 => "HID",
        0x05 => "Physical",
        0x06 => "Image",
        0x07 => "Printer",
        0x08 => "Storage",
        0x09 => "Hub",
        0x0A => "CDC-Data",
        0x0B => "SmartCard",
        0x0D => "ContentSec",
        0x0E => "Video",
        0x0F => "Healthcare",
        0x10 => "AV",
        0x11 => "Billboard",
        0xDC => "Diagnostic",
        0xE0 => "Wireless",
        0xEF => "Misc",
        0xFE => "App-Spec",
        0xFF => "Vendor",
        _ => "Unknown",
    }
}

/// Why a hex payload cannot be read.
#[derive(Debug, Clone, Copy, PartialEq, Eq, Structural)]
pub enum HexDataError {
    /// The digits (spaces and colons aside) are odd in number.
    OddLength,
    /// The two characters at `position` are no hex byte.
    InvalidHex { position: usize, error: IntParseError },
}

impl HexDataError {
    pub open spec fn spec_message(self) -> Seq<char> {
        match self {
            HexDataError::OddLength => "Hex string must have even number of characters"@,
            HexDataError::InvalidHex { position, error } => "Invalid hex at position "@
                + dec_chars(position as nat) + ": "@ + error.spec_message(),
        }
    }

    /// The text of the error.
    pub fn message(&self) -> (s: String)
        ensures
            s@ == self.spec_message(),
    {
        match self {
            HexDataError::OddLength => String::from_str("Hex string must have even number of characters"),
            HexDataError::InvalidHex { position, error } => {
                let mut s = String::from_str("Invalid hex at position ");
                push_dec(&mut s, *position as u64);
                s.append(": ");
                let m = error.message();
                s.append(m.as_str());
                assert(s@ =~= self.spec_message());
                s
            },
        }
    }
}

/// The bytes of the payload without spaces and colons.
pub open spec fn cleaned(b: Seq<u8>) -> Seq<u8> {
    b.filter(|x: u8| x != 0x20u8 && x != 0x3au8)
}

/// The payload without one leading `0x`.
pub open spec fn strip_0x(c: Seq<u8>) -> Seq<u8> {
    if c.len() >= 2 && c[0] == 0x30u8 && c[1] == 0x78u8 {
        c.skip(2)
    } else {
        c
    }
}

/// The hex digits of a payload: its UTF-8 bytes without spaces, colons and a leading `0x`.
pub open spec fn hex_body(s: Seq<char>) -> Seq<u8> {
    strip_0x(cleaned(encode_utf8(s)))
}

/// The value of a byte as an ASCII hex digit (`0-9`, `a-f`, `A-F`).
pub open spec fn hex_digit(b: u8) -> Option<nat> {
    if 0x30 <= b <= 0x39 {
        Some((b - 0x30) as nat)
    } else if 0x61 <= b <= 0x66 {
        Some((b - 0x61 + 10) as nat)
    } else if 0x41 <= b <= 0x46 {
        Some((b - 0x41 + 10) as nat)
    } else {
        None
    }
}

/// The value of two bytes as a hex byte: both must be hex digits (no sign,
/// nothing else).
pub open spec fn pair_value(a: u8, b: u8) -> Result<nat, IntParseError> {
    match (hex_digit(a), hex_digit(b)) {
        (Some(x), Some(y)) => Ok(x * 16 + y),
        _ => Err(IntParseError::InvalidDigit),
    }
}

/// The bytes that the digit pairs from index `i` on give, or the first pair
/// (its index and error) that is no hex byte.
pub open spec fn decode_pairs(h: Seq<u8>, i: int) -> Result<Seq<u8>, (int, IntParseError)>
    decreases h.len() - i,
{
    if i < 0 || i + 2 > h.len() {
        Ok(Seq::empty())
    } else {
        match pair_value(h[i], h[i + 1]) {
            Err(e) => Err((i, e)),
            Ok(v) => match decode_pairs(h, i + 2) {
                Ok(r) => Ok(seq![v as u8] + r),
                Err(x) => Err(x),
            },
        }
    }
}

/// What `parse_hex_data` gives for the text `s`.
pub open spec fn spec_parse_hex_data(s: Seq<char>) -> Result<Seq<u8>, HexDataError> {
    let h = hex_body(s);
    if h.len() % 2 != 0 {
        Err(HexDataError::OddLength)
    } else {
        match decode_pairs(h, 0) {
            Ok(v) => Ok(v),
            Err((i, e)) => Err(HexDataError::InvalidHex { position: i as usize, error: e }),
        }
    }
}

/// `o` then `r`, for a result read in two parts.
pub open spec fn prepend(o: Seq<u8>, r: Result<Seq<u8>, (int, IntParseError)>) -> Result<
    Seq<u8>,
    (int, IntParseError),
> {
    match r {
        Ok(x) => Ok(o + x),
        Err(e) => Err(e),
    }
}

/// The payload bytes without spaces and colons, and where its digits start.
fn hex_body_of(hex_str: &str) -> (r: (Vec<u8>, usize))
    ensures
        r.1 <= r.0@.len(),
        r.0@.skip(r.1 as int) == hex_body(hex_str@),
{
    let bytes = hex_str.as_bytes();
    let mut clean: Vec<u8> = Vec::new();
    let mut i: usize = 0;
    while i < bytes.len()
        invariant
            i <= bytes@.len(),
            bytes@ == encode_utf8(hex_str@),
            clean@ == cleaned(bytes@.take(i as int)),
        decreases bytes@.len() - i,
    {
        assert(bytes@.take(i + 1).drop_last() =~= bytes@.take(i as int));
        proof {
            reveal_with_fuel(Seq::<u8>::filter, 1);
        }
        if bytes[i] != 0x20u8 && bytes[i] != 0x3au8 {
            clean.push(bytes[i]);
        }
        i = i + 1;
    }
    assert(bytes@.take(bytes@.len() as int) =~= bytes@);
    let start = if clean.len() >= 2 && clean[0] == 0x30u8 && clean[1] == 0x78u8 {
        2
    } else {
        0
    };
    assert(clean@.skip(0) =~= clean@);
    (clean, start)
}

fn hex_digit_of(b: u8) -> (r: Option<u8>)
    ensures
        match hex_digit(b) {
            Some(x) => r == Some(x as u8),
            None => r is None,
        },
{
    if 0x30 <= b && b <= 0x39 {
        Some(b - 0x30)
    } else if 0x61 <= b && b <= 0x66 {
        Some(b - 0x61 + 10)
    } else if 0x41 <= b && b <= 0x46 {
        Some(b - 0x41 + 10)
    } else {
        None
    }
}

fn pair_of(a: u8, b: u8) -> (r: Result<u8, IntParseError>)
    ensures
        match pair_value(a, b) {
            Ok(v) => r == Ok::<u8, IntParseError>(v as u8),
            Err(e) => r == Err::<u8, IntParseError>(e),
        },
{
    match (hex_digit_of(a), hex_digit_of(b)) {
        (Some(x), Some(y)) => Ok(x * 16 + y),
        _ => Err(IntParseError::InvalidDigit),
    }
}

/// Reads a hex payload from the command line: spaces and colons are
/// ignored, as is a leading `0x`; then each two bytes, both hex digits, are
/// one byte. Anything else (a sign, a non-ASCII character) is an error.
pub fn parse_hex_data(hex_str: &str) -> (r: Result<Vec<u8>, HexDataError>)
    ensures
        match spec_parse_hex_data(hex_str@) {
            Ok(v) => r matches Ok(out) && out@ == v,
            Err(e) => r == Err::<Vec<u8>, HexDataError>(e),
        },
{
    let (clean, start) = hex_body_of(hex_str);
    let ghost h = clean@.skip(start as int);
    let len = clean.len() - start;
    if len % 2 != 0 {
        return Err(HexDataError::OddLength);
    }
    let mut out: Vec<u8> = Vec::new();
    let mut i: usize = 0;
    while i < len
        invariant
            i <= len == h.len(),
            i % 2 == 0,
            len % 2 == 0,
            start + len == clean@.len(),
            h == clean@.skip(start as int),
            h == hex_body(hex_str@),
            clean@.len() <= usize::MAX,
            decode_pairs(h, 0) == prepend(out@, decode_pairs(h, i as int)),
        decreases len - i,
    {
        assert(h[i as int] == clean@[start + i]);
        assert(h[i + 1] == clean@[start + i + 1]);
        match pair_of(clean[start + i], clean[start + i + 1]) {
            Err(e) => {
                assert(i + 2 <= len);
                assert(decode_pairs(h, i as int) == Err::<Seq<u8>, (int, IntParseError)>(
                    (i as int, e),
                ));
                return Err(HexDataError::InvalidHex { position: i, error: e });
            },
            Ok(v) => {
                let ghost o = out@;
                out.push(v);
                proof {
                    match decode_pairs(h, i + 2) {
                        Ok(x) => {
                            assert(out@ + x =~= o + (seq![v] + x));
                        },
                        Err(_) => {},
                    }
                }
            },
        }
        i = i + 2;
    }
    Ok(out)
}

/// How the device list shows a speed.
pub open spec fn speed_label(s: UsbSpeed) -> Seq<char> {
    match s {
        UsbSpeed::Unknown => "?"@,
        UsbSpeed::Low => "1.5M"@,
        UsbSpeed::Full => "12M"@,
        UsbSpeed::High => "480M"@,
        UsbSpeed::Super => "5G"@,
        UsbSpeed::SuperPlus => "10G"@,
    }
}

/// The speed column of the device list: unknown "?", low "1.5M", full "12M",
/// high "480M", super "5G", super plus "10G"; no two speeds share a label.
pub proof fn lemma_speed_labels()
    ensures
        speed_label(UsbSpeed::Unknown) == "?"@,
        speed_label(UsbSpeed::Low) == "1.5M"@,
        speed_label(UsbSpeed::Full) == "12M"@,
        speed_label(UsbSpeed::High) == "480M"@,
        speed_label(UsbSpeed::Super) == "5G"@,
        speed_label(UsbSpeed::SuperPlus) == "10G"@,
        forall|a: UsbSpeed, b: UsbSpeed| #[trigger] speed_label(a) == #[trigger] speed_label(b) ==> a == b,
{
    reveal_strlit("?");
    reveal_strlit("1.5M");
    reveal_strlit("12M");
    reveal_strlit("480M");
    reveal_strlit("5G");
    reveal_strlit("10G");
    assert forall|a: UsbSpeed, b: UsbSpeed| #[trigger] speed_label(a) == #[trigger] speed_label(b) implies a == b by {
        if a != b {
            assert(speed_label(a).len() != speed_label(b).len() || speed_label(a)[0] != speed_label(b)[0]
                || speed_label(a)[1] != speed_label(b)[1]);
        }
    }
}

/// The text column of the hex dump shows a byte as itself exactly when it is
/// printable ASCII or a space (0x20 to 0x7e), and as `.` otherwise.
pub proof fn lemma_shown_char(b: u8)
    ensures
        0x20 <= b <= 0x7e ==> shown_char(b) as u32 == b as u32,
        !(0x20 <= b <= 0x7e) ==> shown_char(b) == '.',
{
}

fn speed_label_of(s: UsbSpeed) -> (r: &'static str)
    ensures
        r@ == speed_label(s),
{
    match s {
        UsbSpeed::Unknown => "?",
        UsbSpeed::Low => "1.5M",
        UsbSpeed::Full => "12M",
        UsbSpeed::High => "480M",
        UsbSpeed::Super => "5G",
        UsbSpeed::SuperPlus => "10G",
    }
}

/// A text, or `-` when there is none.
pub open spec fn or_dash(o: Option<String>) -> Seq<char> {
    match o {
        Some(t) => t@,
        None => "-"@,
    }
}

fn or_dash_of(o: &Option<String>) -> (r: &str)
    ensures
        r@ == or_dash(*o),
{
    match o {
        Some(t) => t.as_str(),
        None => "-",
    }
}

/// `bus:address` in decimal.
pub open spec fn bus_addr(d: DeviceInfo) -> Seq<char> {
    dec_chars(d.device_id.bus_number as nat) + seq![':'] + dec_chars(d.device_id.address as nat)
}

/// The row of a device in the list.
pub open spec fn device_row(d: DeviceInfo) -> Seq<char> {
    pad_right(bus_addr(d), 8) + seq![' '] + hex_padded(d.vendor_id as nat, 4) + seq![':']
        + hex_padded(d.product_id as nat, 4) + seq![' '] + pad_right(speed_label(d.speed), 6)
        + seq![' '] + pad_right(spec_class_name(d.class_code), 10) + seq![' '] + pad_right(
        or_dash(d.manufacturer),
        24,
    ) + seq![' '] + pad_right(or_dash(d.product), 24) + seq![' '] + or_dash(d.serial_number)
        + seq!['\n']
}

/// The rows of the devices, in order.
pub open spec fn device_rows(ds: Seq<DeviceInfo>) -> Seq<char>
    decreases ds.len(),
{
    if ds.len() == 0 {
        Seq::empty()
    } else {
        device_rows(ds.drop_last()) + device_row(ds.last())
    }
}

/// The header of the device list.
pub open spec fn list_header() -> Seq<char> {
    pad_right("Bus:Addr"@, 7) + seq![' '] + pad_right("VID:PID"@, 9) + seq![' '] + pad_right(
        "Speed"@,
        6,
    ) + seq![' '] + pad_right("Class"@, 10) + seq![' '] + pad_right("Manufacturer"@, 24) + seq![
        ' ',
    ] + pad_right("Product"@, 24) + " Serial\n"@ + repeat('-', 100) + seq!['\n']
}

/// What the device list prints.
pub open spec fn spec_device_list_text(ds: Seq<DeviceInfo>) -> Seq<char> {
    if ds.len() == 0 {
        "No USB devices found.\n"@
    } else {
        list_header() + device_rows(ds)
    }
}

fn push_char(s: &mut String, c: char)
    ensures
        final(s)@ == old(s)@ + seq![c],
{
    string_push(s, c);
    assert(s@ =~= old(s)@ + seq![c]);
}

fn push_device_row(s: &mut String, d: &DeviceInfo)
    ensures
        final(s)@ == old(s)@ + device_row(*d),
{
    let mut id = String::new();
    push_dec(&mut id, d.device_id.bus_number as u64);
    string_push(&mut id, ':');
    push_dec(&mut id, d.device_id.address as u64);
    assert(id@ =~= bus_addr(*d));
    let mut r = String::new();
    push_padded(&mut r, id.as_str(), 8);
    assert(r@ =~= pad_right(bus_addr(*d), 8));
    push_char(&mut r, ' ');
    push_hex_padded(&mut r, d.vendor_id as u64, 4);
    push_char(&mut r, ':');
    push_hex_padded(&mut r, d.product_id as u64, 4);
    push_char(&mut r, ' ');
    push_padded(&mut r, speed_label_of(d.speed), 6);
    push_char(&mut r, ' ');
    push_padded(&mut r, format_class(d.class_code, d.sub_class_code), 10);
    push_char(&mut r, ' ');
    push_padded(&mut r, or_dash_of(&d.manufacturer), 24);
    push_char(&mut r, ' ');
    push_padded(&mut r, or_dash_of(&d.product), 24);
    push_char(&mut r, ' ');
    r.append(or_dash_of(&d.serial_number));
    push_char(&mut r, '\n');
    assert(r@ == device_row(*d));
    s.append(r.as_str());
}

/// The text that lists devices: a header and a row per device, or a note that there are none.
pub fn device_list_text(devices: &[DeviceInfo]) -> (s: String)
    ensures
        s@ == spec_device_list_text(devices@),
{
    if devices.len() == 0 {
        return String::from_str("No USB devices found.\n");
    }
    let mut s = String::new();
    push_padded(&mut s, "Bus:Addr", 7);
    push_char(&mut s, ' ');
    push_padded(&mut s, "VID:PID", 9);
    push_char(&mut s, ' ');
    push_padded(&mut s, "Speed", 6);
    push_char(&mut s, ' ');
    push_padded(&mut s, "Class", 10);
    push_char(&mut s, ' ');
    push_padded(&mut s, "Manufacturer", 24);
    push_char(&mut s, ' ');
    push_padded(&mut s, "Product", 24);
    s.append(" Serial\n");
    push_repeat(&mut s, '-', 100);
    push_char(&mut s, '\n');
    assert(s@ =~= list_header());
    let mut i: usize = 0;
    while i < devices.len()
        invariant
            i <= devices@.len(),
            s@ == list_header() + device_rows(devices@.take(i as int)),
        decreases devices@.len() - i,
    {
        push_device_row(&mut s, &devices[i]);
        assert(devices@.take(i + 1).drop_last() =~= devices@.take(i as int));
        i = i + 1;
        assert(s@ =~= list_header() + device_rows(devices@.take(i as int)));
    }
    assert(devices@.take(devices@.len() as int) =~= devices@);
    s
}

/// What a transfer result prints: on success the count and, when data came
/// back, its dump; on failure the error text (or `Unknown error`).
pub open spec fn spec_transfer_result_text(resp: TransferResponse) -> Seq<char> {
    if resp.success {
        "Transfer OK: "@ + dec_chars(resp.bytes_transferred as nat) + " bytes transferred\n"@ + (
        if resp.data@.len() == 0 {
            Seq::empty()
        } else {
            dump_from(resp.data@, 0) + seq!['\n']
        })
    } else {
        "Transfer FAILED: "@ + match resp.error_message {
            Some(m) => m@,
            None => "Unknown error"@,
        } + seq!['\n']
    }
}

/// The text that reports a transfer.
pub fn transfer_result_text(resp: &TransferResponse) -> (s: String)
    ensures
        s@ == spec_transfer_result_text(*resp),
{
    if resp.success {
        let mut s = String::from_str("Transfer OK: ");
        push_dec(&mut s, resp.bytes_transferred as u64);
        s.append(" bytes transferred\n");
        if resp.data.len() != 0 {
            let d = hex_dump(resp.data.as_slice());
            s.append(d.as_str());
            push_char(&mut s, '\n');
        }
        assert(s@ =~= spec_transfer_result_text(*resp));
        s
    } else {
        let mut s = String::from_str("Transfer FAILED: ");
        match &resp.error_message {
            Some(m) => s.append(m.as_str()),
            None => s.append("Unknown error"),
        }
        push_char(&mut s, '\n');
        assert(s@ =~= spec_transfer_result_text(*resp));
        s
    }
}

/// `{:?}` of a speed: the variant's name.
pub open spec fn speed_debug(s: UsbSpeed) -> Seq<char> {
    match s {
        UsbSpeed::Unknown => "Unknown"@,
        UsbSpeed::Low => "Low"@,
        UsbSpeed::Full => "Full"@,
        UsbSpeed::High => "High"@,
        UsbSpeed::Super => "Super"@,
        UsbSpeed::SuperPlus => "SuperPlus"@,
    }
}

fn speed_debug_of(s: UsbSpeed) -> (r: &'static str)
    ensures
        r@ == speed_debug(s),
{
    match s {
        UsbSpeed::Unknown => "Unknown",
        UsbSpeed::Low => "Low",
        UsbSpeed::Full => "Full",
        UsbSpeed::High => "High",
        UsbSpeed::Super => "Super",
        UsbSpeed::SuperPlus => "SuperPlus",
    }
}

/// `{}` of a `bool`.
pub open spec fn bool_text(b: bool) -> Seq<char> {
    if b {
        "true"@
    } else {
        "false"@
    }
}

fn bool_text_of(b: bool) -> (r: &'static str)
    ensures
        r@ == bool_text(b),
{
    if b {
        "true"
    } else {
        "false"
    }
}

/// `a.b.c` in decimal.
pub open spec fn version_text(v: (u8, u8, u8)) -> Seq<char> {
    dec_chars(v.0 as nat) + seq!['.'] + dec_chars(v.1 as nat) + seq!['.'] + dec_chars(v.2 as nat)
}

/// `Name (cc:ss:pp)`: the class name and the three codes in hex.
pub open spec fn class_text(class: u8, subclass: u8, protocol: u8) -> Seq<char> {
    spec_class_name(class) + " ("@ + hex_padded(class as nat, 2) + seq![':'] + hex_padded(
        subclass as nat,
        2,
    ) + seq![':'] + hex_padded(protocol as nat, 2) + seq![')']
}

/// A labelled optional line: nothing without a text.
pub open spec fn optional_line(label: Seq<char>, o: Option<String>) -> Seq<char> {
    match o {
        Some(t) => label + t@ + seq!['\n'],
        None => Seq::empty(),
    }
}

/// The device part of the descriptor tree.
pub open spec fn device_section(d: DeviceInfo) -> Seq<char> {
    "Device: "@ + bus_addr(d) + seq!['\n'] + "  VID:PID:        "@ + hex_padded(d.vendor_id as nat, 4)
        + seq![':'] + hex_padded(d.product_id as nat, 4) + seq!['\n'] + "  USB Version:    "@
        + version_text(d.usb_version) + seq!['\n'] + "  Device Version: "@ + version_text(
        d.device_version,
    ) + seq!['\n'] + "  Class:          "@ + class_text(
        d.class_code,
        d.sub_class_code,
        d.protocol_code,
    ) + seq!['\n'] + "  Max Packet EP0: "@ + dec_chars(d.max_packet_size_ep0 as nat) + seq!['\n']
        + "  Speed:          "@ + speed_debug(d.speed) + seq!['\n'] + optional_line(
        "  Manufacturer:   "@,
        d.manufacturer,
    ) + optional_line("  Product:        "@, d.product) + optional_line(
        "  Serial:         "@,
        d.serial_number,
    ) + "  Configurations: "@ + dec_chars(d.num_configurations as nat) + seq!['\n']
}

/// The line of an endpoint.
pub open spec fn endpoint_line(e: EndpointInfo) -> Seq<char> {
    "        EP 0x"@ + hex_padded(e.address as nat, 2) + ": "@ + (match e.direction {
        UsbDirection::In => "IN"@,
        UsbDirection::Out => "OUT"@,
    }) + seq![' '] + (match e.transfer_type {
        UsbTransferType::Control => "Control"@,
        UsbTransferType::Isochronous => "Isochronous"@,
        UsbTransferType::Bulk => "Bulk"@,
        UsbTransferType::Interrupt => "Interrupt"@,
    }) + " (max "@ + dec_chars(e.max_packet_size as nat) + " bytes, interval "@ + dec_chars(
        e.interval as nat,
    ) + ")\n"@
}

pub open spec fn endpoint_lines(es: Seq<EndpointInfo>) -> Seq<char>
    decreases es.len(),
{
    if es.len() == 0 {
        Seq::empty()
    } else {
        endpoint_lines(es.drop_last()) + endpoint_line(es.last())
    }
}

/// The part of an interface (alternate setting), its endpoints included.
#[verifier::opaque]
pub open spec fn interface_section(i: InterfaceInfo) -> Seq<char> {
    seq!['\n'] + "    Interface "@ + dec_chars(i.interface_number as nat) + " (alt setting "@
        + dec_chars(i.setting_number as nat) + "):\n"@ + "      Class:     "@ + class_text(
        i.class_code,
        i.sub_class_code,
        i.protocol_code,
    ) + seq!['\n'] + "      Endpoints: "@ + dec_chars(i.num_endpoints as nat) + seq!['\n']
        + endpoint_lines(i.endpoints@)
}

pub open spec fn interface_sections(is: Seq<InterfaceInfo>) -> Seq<char>
    decreases is.len(),
{
    if is.len() == 0 {
        Seq::empty()
    } else {
        interface_sections(is.drop_last()) + interface_section(is.last())
    }
}

/// The part of a configuration, its interfaces included.
#[verifier::opaque]
pub open spec fn config_section(c: ConfigurationInfo) -> Seq<char> {
    seq!['\n'] + "  Configuration "@ + dec_chars(c.number as nat) + ":\n"@ + "    Interfaces:    "@
        + dec_chars(c.num_interfaces as nat) + seq!['\n'] + "    Max Power:     "@ + dec_chars(
        c.max_power_ma as nat,
    ) + " mA\n"@ + "    Self Powered:  "@ + bool_text(c.self_powered) + seq!['\n']
        + "    Remote Wakeup: "@ + bool_text(c.remote_wakeup) + seq!['\n'] + interface_sections(
        c.interfaces@,
    )
}

pub open spec fn config_sections(cs: Seq<ConfigurationInfo>) -> Seq<char>
    decreases cs.len(),
{
    if cs.len() == 0 {
        Seq::empty()
    } else {
        config_sections(cs.drop_last()) + config_section(cs.last())
    }
}

/// What the descriptor tree prints.
pub open spec fn spec_descriptor_tree_text(t: DeviceDescriptorTree) -> Seq<char> {
    device_section(t.device) + config_sections(t.configurations@)
}

fn push_class_text(r: &mut String, class: u8, subclass: u8, protocol: u8)
    ensures
        final(r)@ == old(r)@ + class_text(class, subclass, protocol),
{
    let mut t = String::new();
    t.append(format_class(class, subclass));
    t.append(" (");
    push_hex_padded(&mut t, class as u64, 2);
    push_char(&mut t, ':');
    push_hex_padded(&mut t, subclass as u64, 2);
    push_char(&mut t, ':');
    push_hex_padded(&mut t, protocol as u64, 2);
    push_char(&mut t, ')');
    assert(t@ =~= class_text(class, subclass, protocol));
    r.append(t.as_str());
}

fn push_version(r: &mut String, v: (u8, u8, u8))
    ensures
        final(r)@ == old(r)@ + version_text(v),
{
    let mut t = String::new();
    push_dec(&mut t, v.0 as u64);
    push_char(&mut t, '.');
    push_dec(&mut t, v.1 as u64);
    push_char(&mut t, '.');
    push_dec(&mut t, v.2 as u64);
    assert(t@ =~= version_text(v));
    r.append(t.as_str());
}

fn push_optional_line(r: &mut String, label: &str, o: &Option<String>)
    ensures
        final(r)@ == old(r)@ + optional_line(label@, *o),
{
    match o {
        Some(t) => {
            let ghost r0 = r@;
            r.append(label);
            r.append(t.as_str());
            push_char(r, '\n');
            assert(r@ =~= r0 + optional_line(label@, *o));
        },
        None => {
            assert(r@ =~= old(r)@ + optional_line(label@, *o));
        },
    }
}

#[verifier::rlimit(40)]
fn push_device_section(s: &mut String, d: &DeviceInfo)
    ensures
        final(s)@ == old(s)@ + device_section(*d),
{
    let mut r = String::new();
    r.append("Device: ");
    push_dec(&mut r, d.device_id.bus_number as u64);
    push_char(&mut r, ':');
    push_dec(&mut r, d.device_id.address as u64);
    push_char(&mut r, '\n');
    r.append("  VID:PID:        ");
    push_hex_padded(&mut r, d.vendor_id as u64, 4);
    push_char(&mut r, ':');
    push_hex_padded(&mut r, d.product_id as u64, 4);
    push_char(&mut r, '\n');
    r.append("  USB Version:    ");
    push_version(&mut r, d.usb_version);
    push_char(&mut r, '\n');
    r.append("  Device Version: ");
    push_version(&mut r, d.device_version);
    push_char(&mut r, '\n');
    r.append("  Class:          ");
    push_class_text(&mut r, d.class_code, d.sub_class_code, d.protocol_code);
    push_char(&mut r, '\n');
    r.append("  Max Packet EP0: ");
    push_dec(&mut r, d.max_packet_size_ep0 as u64);
    push_char(&mut r, '\n');
    r.append("  Speed:          ");
    r.append(speed_debug_of(d.speed));
    push_char(&mut r, '\n');
    push_optional_line(&mut r, "  Manufacturer:   ", &d.manufacturer);
    push_optional_line(&mut r, "  Product:        ", &d.product);
    push_optional_line(&mut r, "  Serial:         ", &d.serial_number);
    r.append("  Configurations: ");
    push_dec(&mut r, d.num_configurations as u64);
    push_char(&mut r, '\n');
    assert(r@ =~= device_section(*d));
    s.append(r.as_str());
}

fn push_endpoint_line(s: &mut String, e: &EndpointInfo)
    ensures
        final(s)@ == old(s)@ + endpoint_line(*e),
{
    let mut r = String::new();
    r.append("        EP 0x");
    push_hex_padded(&mut r, e.address as u64, 2);
    r.append(": ");
    match e.direction {
        UsbDirection::In => r.append("IN"),
        UsbDirection::Out => r.append("OUT"),
    }
    push_char(&mut r, ' ');
    match e.transfer_type {
        UsbTransferType::Control => r.append("Control"),
        UsbTransferType::Isochronous => r.append("Isochronous"),
        UsbTransferType::Bulk => r.append("Bulk"),
        UsbTransferType::Interrupt => r.append("Interrupt"),
    }
    r.append(" (max ");
    push_dec(&mut r, e.max_packet_size as u64);
    r.append(" bytes, interval ");
    push_dec(&mut r, e.interval as u64);
    r.append(")\n");
    assert(r@ =~= endpoint_line(*e));
    s.append(r.as_str());
}

fn push_interface_section(s: &mut String, i: &InterfaceInfo)
    ensures
        final(s)@ == old(s)@ + interface_section(*i),
{
    let mut r = String::new();
    push_char(&mut r, '\n');
    r.append("    Interface ");
    push_dec(&mut r, i.interface_number as u64);
    r.append(" (alt setting ");
    push_dec(&mut r, i.setting_number as u64);
    r.append("):\n");
    r.append("      Class:     ");
    push_class_text(&mut r, i.class_code, i.sub_class_code, i.protocol_code);
    push_char(&mut r, '\n');
    r.append("      Endpoints: ");
    push_dec(&mut r, i.num_endpoints as u64);
    push_char(&mut r, '\n');
    let ghost head = r@;
    let mut k: usize = 0;
    while k < i.endpoints.len()
        invariant
            k <= i.endpoints@.len(),
            r@ == head + endpoint_lines(i.endpoints@.take(k as int)),
        decreases i.endpoints@.len() - k,
    {
        push_endpoint_line(&mut r, &i.endpoints[k]);
        assert(i.endpoints@.take(k + 1).drop_last() =~= i.endpoints@.take(k as int));
        k = k + 1;
        assert(r@ =~= head + endpoint_lines(i.endpoints@.take(k as int)));
    }
    assert(i.endpoints@.take(i.endpoints@.len() as int) =~= i.endpoints@);
    assert(r@ =~= interface_section(*i)) by {
        reveal(interface_section);
    }
    s.append(r.as_str());
}

fn push_config_section(s: &mut String, c: &ConfigurationInfo)
    ensures
        final(s)@ == old(s)@ + config_section(*c),
{
    let mut r = String::new();
    push_char(&mut r, '\n');
    r.append("  Configuration ");
    push_dec(&mut r, c.number as u64);
    r.append(":\n");
    r.append("    Interfaces:    ");
    push_dec(&mut r, c.num_interfaces as u64);
    push_char(&mut r, '\n');
    r.append("    Max Power:     ");
    push_dec(&mut r, c.max_power_ma as u64);
    r.append(" mA\n");
    r.append("    Self Powered:  ");
    r.append(bool_text_of(c.self_powered));
    push_char(&mut r, '\n');
    r.append("    Remote Wakeup: ");
    r.append(bool_text_of(c.remote_wakeup));
    push_char(&mut r, '\n');
    let ghost head = r@;
    let mut k: usize = 0;
    while k < c.interfaces.len()
        invariant
            k <= c.interfaces@.len(),
            r@ == head + interface_sections(c.interfaces@.take(k as int)),
        decreases c.interfaces@.len() - k,
    {
        push_interface_section(&mut r, &c.interfaces[k]);
        assert(c.interfaces@.take(k + 1).drop_last() =~= c.interfaces@.take(k as int));
        k = k + 1;
        assert(r@ =~= head + interface_sections(c.interfaces@.take(k as int)));
    }
    assert(c.interfaces@.take(c.interfaces@.len() as int) =~= c.interfaces@);
    assert(r@ =~= config_section(*c)) by {
        reveal(config_section);
    }
    s.append(r.as_str());
}

/// The text that shows a device's descriptor tree: the device, then each
/// configuration with its interfaces and their endpoints.
pub fn descriptor_tree_text(tree: &DeviceDescriptorTree) -> (s: String)
    ensures
        s@ == spec_descriptor_tree_text(*tree),
{
    let mut s = String::new();
    push_device_section(&mut s, &tree.device);
    let ghost head = s@;
    let mut k: usize = 0;
    while k < tree.configurations.len()
        invariant
            k <= tree.configurations@.len(),
            s@ == head + config_sections(tree.configurations@.take(k as int)),
        decreases tree.configurations@.len() - k,
    {
        push_config_section(&mut s, &tree.configurations[k]);
        assert(tree.configurations@.take(k + 1).drop_last() =~= tree.configurations@.take(k as int));
        k = k + 1;
        assert(s@ =~= head + config_sections(tree.configurations@.take(k as int)));
    }
    assert(tree.configurations@.take(tree.configurations@.len() as int) =~= tree.configurations@);
    assert(s@ =~= spec_descriptor_tree_text(*tree));
    s
}

/// What `attach` prints once the server granted the device.
pub open spec fn spec_attached_line(d: DeviceId, session_id: u64) -> Seq<char> {
    "Attached to "@ + d.spec_display() + ", session_id = "@ + dec_chars(session_id as nat)
}

pub fn attached_line(d: DeviceId, session_id: u64) -> (s: String)
    ensures
        s@ == spec_attached_line(d, session_id),
{
    let mut s = String::from_str("Attached to ");
    let id = d.to_string();
    s.append(id.as_str());
    s.append(", session_id = ");
    push_dec(&mut s, session_id);
    s
}

/// What `detach` prints once the server released the device.
pub open spec fn spec_detached_line(d: DeviceId) -> Seq<char> {
    "Detached from "@ + d.spec_display()
}

pub fn detached_line(d: DeviceId) -> (s: String)
    ensures
        s@ == spec_detached_line(d),
{
    let mut s = String::from_str("Detached from ");
    let id = d.to_string();
    s.append(id.as_str());
    s
}

} // verus!
