//! The Linux kernel's vhci_hcd driver, seen through sysfs: its speed codes,
//! its port status table, and the line written to its `attach` file.
//!
//! Sysfs layout (single vhci_hcd.0 controller):
//! - `/sys/devices/platform/vhci_hcd.0/status`: list of ports (free/in-use)
//! - `/sys/devices/platform/vhci_hcd.0/attach`: write `<port> <sockfd> <devid> <speed>`
//! - `/sys/devices/platform/vhci_hcd.0/detach`: write `<port>` to release
use crate::protocol::types::UsbSpeed;
use crate::text::{
    dec_chars, int_chars, is_whitespace, parse_radix, push_dec, push_int, spec_from_str_radix,
    to_chars,
};
use vstd::prelude::*;

verus! {

/// USB speed codes used by vhci_hcd (match Linux USB core definitions)
#[derive(Debug, Clone, Copy, PartialEq, Eq, Structural)]
pub enum Speed {
    Low,
    Full,
    High,
    Wireless,
    Super,
    SuperPlus,
}

impl Speed {
    /// The Linux USB core code of a speed: 1 (low) to 6 (super plus).
    pub open spec fn spec_code(self) -> u8 {
        match self {
            Speed::Low => 1,
            Speed::Full => 2,
            Speed::High => 3,
            Speed::Wireless => 4,
            Speed::Super => 5,
            Speed::SuperPlus => 6,
        }
    }

    /// The vhci speed of a device whose USB speed is known; an unknown speed
    /// is taken as high speed, a reasonable default.
    pub fn from_rusb(s: UsbSpeed) -> (r: Self)
        ensures
            r == match s {
                UsbSpeed::Low => Speed::Low,
                UsbSpeed::Full => Speed::Full,
                UsbSpeed::High => Speed::High,
                UsbSpeed::Super => Speed::Super,
                UsbSpeed::SuperPlus => Speed::SuperPlus,
                UsbSpeed::Unknown => Speed::High,
            },
    {
        match s {
            UsbSpeed::Low => Speed::Low,
            UsbSpeed::Full => Speed::Full,
            UsbSpeed::High => Speed::High,
            UsbSpeed::Super => Speed::Super,
            UsbSpeed::SuperPlus => Speed::SuperPlus,
            _ => Speed::High,
        }
    }

    /// The speed a code names; any code outside 1 to 6 is taken as high speed.
    pub open spec fn of_code(code: u8) -> Speed {
        if code == 1 {
            Speed::Low
        } else if code == 2 {
            Speed::Full
        } else if code == 4 {
            Speed::Wireless
        } else if code == 5 {
            Speed::Super
        } else if code == 6 {
            Speed::SuperPlus
        } else {
            Speed::High
        }
    }

    /// The speed that a code from a bridge answer names; any code outside 1 to 6
    /// is taken as high speed.
    pub fn from_code(code: u8) -> (r: Self)
        ensures
            r == Speed::of_code(code),
            1 <= code <= 6 ==> r.spec_code() == code,
    {
        match code {
            1 => Speed::Low,
            2 => Speed::Full,
            3 => Speed::High,
            4 => Speed::Wireless,
            5 => Speed::Super,
            6 => Speed::SuperPlus,
            _ => Speed::High,
        }
    }

    pub fn as_u8(&self) -> (c: u8)
        ensures
            c == self.spec_code(),
    {
        match self {
            Speed::Low => 1,
            Speed::Full => 2,
            Speed::High => 3,
            Speed::Wireless => 4,
            Speed::Super => 5,
            Speed::SuperPlus => 6,
        }
    }
}

/// The vhci speed codes are the Linux USB core's: low 1, full 2, high 3,
/// wireless 4, super 5, super plus 6; and a bridge answer's code names the
/// speed with that code (anything else is high speed).
pub proof fn lemma_vhci_speed_table(code: u8)
    ensures
        Speed::Low.spec_code() == 1,
        Speed::Full.spec_code() == 2,
        Speed::High.spec_code() == 3,
        Speed::Wireless.spec_code() == 4,
        Speed::Super.spec_code() == 5,
        Speed::SuperPlus.spec_code() == 6,
        code == 1 ==> Speed::of_code(code) == Speed::Low,
        code == 2 ==> Speed::of_code(code) == Speed::Full,
        code == 3 ==> Speed::of_code(code) == Speed::High,
        code == 4 ==> Speed::of_code(code) == Speed::Wireless,
        code == 5 ==> Speed::of_code(code) == Speed::Super,
        code == 6 ==> Speed::of_code(code) == Speed::SuperPlus,
        !(1 <= code <= 6) ==> Speed::of_code(code) == Speed::High,
{
}

/// A speed's code names that speed again, and every code is between 1 and 6:
/// `Speed::from_code(s.as_u8())` gives back `s`.
pub proof fn lemma_speed_code_roundtrip(s: Speed)
    ensures
        1 <= s.spec_code() <= 6,
        Speed::of_code(s.spec_code()) == s,
{
}

/// The first index at or after `i` whose character satisfies whitespace-ness `ws`
/// (or the length).
pub open spec fn scan_while(s: Seq<char>, i: int, ws: bool) -> int
    decreases s.len() - i,
{
    if i < 0 || i >= s.len() || is_whitespace(s[i]) != ws {
        if i < 0 {
            0
        } else if i >= s.len() {
            s.len() as int
        } else {
            i
        }
    } else {
        scan_while(s, i + 1, ws)
    }
}

/// The bounds of the next whitespace-separated word at or after `i`: it starts
/// at the first non-whitespace character and ends at the next whitespace.
pub open spec fn word_at(s: Seq<char>, i: int) -> (int, int) {
    let a = scan_while(s, i, true);
    (a, scan_while(s, a, false))
}

/// What a line of the vhci status table says: the port number when the line
/// describes a free port (status 4), else nothing. The header line (first word
/// `hub`), lines of fewer than three words, and lines whose port or status is
/// not a number say nothing.
pub open spec fn spec_line_port(line: Seq<char>) -> Option<u32> {
    let (a0, b0) = word_at(line, 0);
    let (a1, b1) = word_at(line, b0);
    let (a2, b2) = word_at(line, b1);
    if a2 >= line.len() {
        None
    } else if line.subrange(a0, b0) == "hub"@ {
        None
    } else {
        match (
            spec_from_str_radix(line.subrange(a1, b1), 10, u32::MAX as nat),
            spec_from_str_radix(line.subrange(a2, b2), 10, u32::MAX as nat),
        ) {
            (Ok(port), Ok(status)) => if status == 4 {
                Some(port as u32)
            } else {
                None
            },
            _ => None,
        }
    }
}

/// The index of the first `\n` at or after `i` (or the length).
pub open spec fn line_end(s: Seq<char>, i: int) -> int
    decreases s.len() - i,
{
    if i < 0 {
        0
    } else if i >= s.len() || s[i] == '\n' {
        if i >= s.len() {
            s.len() as int
        } else {
            i
        }
    } else {
        line_end(s, i + 1)
    }
}

/// The line that starts at `pos` (as `str::lines` gives it): up to the next `\n`,
/// without a `\r` just before that `\n`.
pub open spec fn line_at(s: Seq<char>, pos: int) -> Seq<char> {
    let e = line_end(s, pos);
    if e < s.len() && e > pos && s[e - 1] == '\r' {
        s.subrange(pos, e - 1)
    } else {
        s.subrange(pos, e)
    }
}

/// The first free port that the status table lists from position `pos` on.
pub open spec fn spec_free_port_from(s: Seq<char>, pos: int) -> Option<u32>
    decreases s.len() + 1 - pos,
{
    if pos < 0 || pos >= s.len() {
        None
    } else {
        match spec_line_port(line_at(s, pos)) {
            Some(p) => Some(p),
            None => {
                proof {
                    lemma_line_end_bounds(s, pos);
                }
                spec_free_port_from(s, line_end(s, pos) + 1)
            },
        }
    }
}

pub proof fn lemma_scan_while_bounds(s: Seq<char>, i: int, ws: bool)
    requires
        0 <= i <= s.len(),
    ensures
        i <= scan_while(s, i, ws) <= s.len(),
    decreases s.len() - i,
{
    if i < s.len() && is_whitespace(s[i]) == ws {
        lemma_scan_while_bounds(s, i + 1, ws);
    }
}

pub proof fn lemma_line_end_bounds(s: Seq<char>, i: int)
    requires
        0 <= i <= s.len(),
    ensures
        i <= line_end(s, i) <= s.len(),
    decreases s.len() - i,
{
    if i < s.len() && s[i] != '\n' {
        lemma_line_end_bounds(s, i + 1);
    }
}

fn scan(v: &Vec<char>, lo: usize, hi: usize, i: usize, ws: bool) -> (r: usize)
    requires
        lo <= i <= hi <= v@.len(),
    ensures
        r as int == lo + scan_while(v@.subrange(lo as int, hi as int), i - lo, ws),
        i <= r <= hi,
{
    let ghost s = v@.subrange(lo as int, hi as int);
    let mut j = i;
    while j < hi && crate::text::whitespace_of(v[j]) == ws
        invariant
            lo <= i <= j <= hi <= v@.len(),
            s == v@.subrange(lo as int, hi as int),
            scan_while(s, i - lo, ws) == scan_while(s, j - lo, ws),
        decreases hi - j,
    {
        assert(s[j - lo] == v@[j as int]);
        j = j + 1;
    }
    proof {
        if j < hi {
            assert(s[j - lo] == v@[j as int]);
        }
    }
    j
}

fn line_port(v: &Vec<char>, lo: usize, hi: usize) -> (r: Option<u32>)
    requires
        lo <= hi <= v@.len(),
    ensures
        r == spec_line_port(v@.subrange(lo as int, hi as int)),
{
    let ghost s = v@.subrange(lo as int, hi as int);
    let a0 = scan(v, lo, hi, lo, true);
    let b0 = scan(v, lo, hi, a0, false);
    let a1 = scan(v, lo, hi, b0, true);
    let b1 = scan(v, lo, hi, a1, false);
    let a2 = scan(v, lo, hi, b1, true);
    let b2 = scan(v, lo, hi, a2, false);
    if a2 >= hi {
        return None;
    }
    proof {
        reveal_strlit("hub");
    }
    assert(s.subrange(a0 - lo, b0 - lo) =~= v@.subrange(a0 as int, b0 as int));
    assert(s.subrange(a1 - lo, b1 - lo) =~= v@.subrange(a1 as int, b1 as int));
    assert(s.subrange(a2 - lo, b2 - lo) =~= v@.subrange(a2 as int, b2 as int));
    let is_hub = b0 - a0 == 3 && v[a0] == 'h' && v[a0 + 1] == 'u' && v[a0 + 2] == 'b';
    proof {
        let w = v@.subrange(a0 as int, b0 as int);
        if is_hub {
            assert(w =~= "hub"@);
        } else if w == "hub"@ {
            assert(w[0] == 'h' && w[1] == 'u' && w[2] == 'b');
        }
    }
    if is_hub {
        return None;
    }
    let port = parse_radix(v, a1, b1, 10, u32::MAX);
    let status = parse_radix(v, a2, b2, 10, u32::MAX);
    match (port, status) {
        (Ok(p), Ok(st)) => if st == 4 {
            Some(p)
        } else {
            None
        },
        _ => None,
    }
}

/// Parses the vhci_hcd status file to find the first free port.
///
/// Status format (one line per port), header row first:
///   hub port sta spd dev      sockfd local_busid
///   hs  0000 004 000 00000000 000000 0-0
///   ss  0008 004 000 00000000 000000 0-0
/// Columns: hub (hs/ss), port, status (004 = free), speed, dev, sockfd, busid.
pub fn find_free_port(content: &str) -> (r: Option<u32>)
    ensures
        r == spec_free_port_from(content@, 0),
{
    let v = to_chars(content);
    let n = v.len();
    let mut pos: usize = 0;
    while pos < n
        invariant
            n == v@.len(),
            v@ == content@,
            pos <= n,
            spec_free_port_from(content@, 0) == spec_free_port_from(content@, pos as int),
        decreases n - pos,
    {
        let mut e = pos;
        while e < n && v[e] != '\n'
            invariant
                pos <= e <= n,
                n == v@.len(),
                line_end(v@, pos as int) == line_end(v@, e as int),
            decreases n - e,
        {
            e = e + 1;
        }
        let end = if e < n && e > pos && v[e - 1] == '\r' {
            e - 1
        } else {
            e
        };
        assert(line_at(v@, pos as int) == v@.subrange(pos as int, end as int));
        match line_port(&v, pos, end) {
            Some(p) => {
                return Some(p);
            },
            None => {},
        }
        assert(line_end(v@, e as int) == e);
        assert(spec_line_port(line_at(content@, pos as int)) is None);
        assert(spec_free_port_from(content@, pos as int) == spec_free_port_from(
            content@,
            e + 1,
        ));
        if e >= n {
            pos = n;
        } else {
            pos = e + 1;
        }
    }
    None
}

/// The line written to the vhci `attach` file: `port sockfd devid speed`.
pub open spec fn spec_attach_command(port: u32, sockfd: i32, devid: u32, speed: Speed) -> Seq<char> {
    dec_chars(port as nat) + seq![' '] + int_chars(sockfd as int) + seq![' '] + dec_chars(
        devid as nat,
    ) + seq![' '] + dec_chars(speed.spec_code() as nat)
}

/// `format!("{} {} {} {}", port, sockfd, devid, speed.as_u8())`.
pub fn attach_command(port: u32, sockfd: i32, devid: u32, speed: Speed) -> (s: String)
    ensures
        s@ == spec_attach_command(port, sockfd, devid, speed),
{
    let mut s = String::new();
    push_dec(&mut s, port as u64);
    crate::text::string_push(&mut s, ' ');
    push_int(&mut s, sockfd);
    crate::text::string_push(&mut s, ' ');
    push_dec(&mut s, devid as u64);
    crate::text::string_push(&mut s, ' ');
    push_dec(&mut s, speed.as_u8() as u64);
    assert(s@ =~= spec_attach_command(port, sockfd, devid, speed));
    s
}

/// `Path::new(path).is_dir()`: whether a directory stands at `path`. What is on
/// disk decides, so nothing is stated of the result.
#[verifier::external_body]
fn path_is_dir(path: &str) -> bool {
    std::path::Path::new(path).is_dir()
}

/// `io::Error::new(io::ErrorKind::NotFound, text)`.
#[verifier::external_body]
fn not_found(text: &str) -> std::io::Error {
    std::io::Error::new(std::io::ErrorKind::NotFound, text.to_string())
}

/// The sysfs directory of the `i`-th vhci_hcd controller.
pub open spec fn vhci_path(i: nat) -> Seq<char> {
    "/sys/devices/platform/vhci_hcd."@ + dec_chars(i)
}

/// The index of the first `true` in `present`, if any.
pub open spec fn spec_first_present(present: Seq<bool>) -> Option<nat>
    decreases present.len(),
{
    if present.len() == 0 {
        None
    } else {
        match spec_first_present(present.drop_last()) {
            Some(i) => Some(i),
            None => if present.last() {
                Some((present.len() - 1) as nat)
            } else {
                None
            },
        }
    }
}

/// The index of the first `true` in `present`, if any.
pub fn first_present(present: &[bool]) -> (r: Option<usize>)
    ensures
        match spec_first_present(present@) {
            Some(i) => r == Some(i as usize),
            None => r is None,
        },
{
    let mut i: usize = 0;
    while i < present.len()
        invariant
            i <= present@.len(),
            spec_first_present(present@.take(i as int)) is None,
        decreases present@.len() - i,
    {
        assert(present@.take(i + 1).drop_last() =~= present@.take(i as int));
        if present[i] {
            proof { lemma_first_present_prefix(present@, (i + 1) as nat); }
            return Some(i);
        }
        i = i + 1;
    }
    assert(present@.take(i as int) =~= present@);
    None
}

/// The first `true` is within the sequence.
proof fn lemma_first_present_bound(present: Seq<bool>)
    ensures
        spec_first_present(present) matches Some(i) ==> i < present.len(),
    decreases present.len(),
{
    if present.len() > 0 {
        lemma_first_present_bound(present.drop_last());
    }
}

/// Once a prefix holds a `true`, the first `true` of the whole is the prefix's.
proof fn lemma_first_present_prefix(present: Seq<bool>, k: nat)
    requires
        k <= present.len(),
        spec_first_present(present.take(k as int)) is Some,
    ensures
        spec_first_present(present) == spec_first_present(present.take(k as int)),
    decreases present.len() - k,
{
    if k < present.len() {
        assert(present.take((k + 1) as int).drop_last() =~= present.take(k as int));
        lemma_first_present_prefix(present, k + 1);
    } else {
        assert(present.take(k as int) =~= present);
    }
}

/// The outcome of looking for a controller, given which of the 32 directories
/// exist: the first one present, or an error when none is.
pub open spec fn vhci_outcome(present: Seq<bool>, r: Result<String, std::io::Error>) -> bool {
    &&& present.len() == 32
    &&& match spec_first_present(present) {
        Some(i) => r matches Ok(p) && p@ == vhci_path(i),
        None => r is Err,
    }
}

fn controller_path(i: u64) -> (p: String)
    ensures
        p@ == vhci_path(i as nat),
{
    let mut p = String::from_str("/sys/devices/platform/vhci_hcd.");
    push_dec(&mut p, i);
    p
}

/// The first of the controllers `vhci_hcd.0` to `vhci_hcd.31` whose directory
/// exists; an error when none does. What is on disk decides which are
/// present; for whatever it says, the result is the first one present.
pub fn find_vhci_path() -> (r: Result<String, std::io::Error>)
    ensures
        exists|present: Seq<bool>| #[trigger] vhci_outcome(present, r),
{
    let mut present: Vec<bool> = Vec::new();
    let mut i: u64 = 0;
    while i < 32
        invariant
            i <= 32,
            present@.len() == i,
        decreases 32 - i,
    {
        let p = controller_path(i);
        present.push(path_is_dir(p.as_str()));
        i = i + 1;
    }
    let first = first_present(present.as_slice());
    proof { lemma_first_present_bound(present@); }
    match first {
        Some(k) => {
            let p = controller_path(k as u64);
            let r: Result<String, std::io::Error> = Ok(p);
            assert(vhci_outcome(present@, r));
            r
        },
        None => {
            let r: Result<String, std::io::Error> = Err(
                not_found("vhci_hcd not found \u{2014} ensure kernel module is loaded (modprobe vhci-hcd)"),
            );
            assert(vhci_outcome(present@, r));
            r
        },
    }
}

/// Whether the first vhci_hcd controller is there. What is on disk decides.
pub fn is_available() -> bool {
    let p = controller_path(0);
    path_is_dir(p.as_str())
}

} // verus!
