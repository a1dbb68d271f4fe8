//! Server-side USB/IP export through the Linux kernel's `usbip_host` module:
//! sysfs bus ids, the device attributes read from sysfs, and the 312-byte
//! `usb_device` record that follows `OP_REP_IMPORT` on the wire.
use crate::buffer::{
    be_u16, be_u32, lemma_be_u32_roundtrip, read_be_u32, u16_of_be, u16_to_be, u32_to_be, zeros,
};
use crate::text::{
    dec_chars, parse_radix, push_dec, spec_from_str_radix, to_chars, trim, trim_bounds,
    IntParseError,
};
use vstd::prelude::*;
use vstd::utf8::encode_utf8;

verus! {

/// The Linux USB sysfs bus id of a device at `port_path` on `bus`: `bus-port_path`.
pub open spec fn spec_sysfs_busid(bus: u8, port_path: Seq<char>) -> Seq<char> {
    dec_chars(bus as nat) + seq!['-'] + port_path
}

/// Compute the Linux USB sysfs bus-id for a device at the given bus/port path.
/// Example: bus=1, port_path="2" gives "1-2"; bus=1, port_path="2.3" gives "1-2.3".
pub fn sysfs_busid(bus: u8, port_path: &str) -> (s: String)
    ensures
        s@ == spec_sysfs_busid(bus, port_path@),
{
    let mut s = String::new();
    push_dec(&mut s, bus as u64);
    s.append("-");
    s.append(port_path);
    proof {
        reveal_strlit("-");
    }
    assert(s@ =~= spec_sysfs_busid(bus, port_path@));
    s
}

/// A device directory under `/sys/bus/usb/devices`: its name and the
/// contents of its `busnum` and `devnum` files (`None` when unreadable).
pub struct SysfsEntry {
    pub name: String,
    pub busnum: Option<String>,
    pub devnum: Option<String>,
}

/// A sysfs number file as `read_sysfs_u32` reads it: trimmed, then a decimal
/// `u32`; `None` when missing or not a number.
pub open spec fn spec_sysfs_u32(o: Option<String>) -> Option<u32> {
    match o {
        None => None,
        Some(s) => match spec_from_str_radix(trim(s@), 10, u32::MAX as nat) {
            Ok(v) => Some(v as u32),
            Err(_) => None,
        },
    }
}

/// `read_sysfs_u32` on file contents already read.
pub fn sysfs_u32(o: &Option<String>) -> (r: Option<u32>)
    ensures
        r == spec_sysfs_u32(*o),
{
    match o {
        None => None,
        Some(s) => {
            let v = to_chars(s.as_str());
            let (a, b) = trim_bounds(&v, 0, v.len());
            assert(v@.subrange(0, v@.len() as int) =~= s@);
            match parse_radix(&v, a, b, 10, u32::MAX) {
                Ok(x) => Some(x),
                Err(_) => None,
            }
        },
    }
}

/// Whether `s` contains `c`.
fn contains_char(s: &Vec<char>, c: char) -> (b: bool)
    ensures
        b == s@.contains(c),
{
    let mut i: usize = 0;
    while i < s.len()
        invariant
            i <= s@.len(),
            forall|j: int| 0 <= j < i ==> s@[j] != c,
        decreases s@.len() - i,
    {
        if s[i] == c {
            return true;
        }
        i = i + 1;
    }
    false
}

/// The port path a device directory gives for `bus` and `address`, if it is that
/// device: an interface entry (with `:`) or a root hub (without `-`) never is;
/// otherwise its `busnum` and `devnum` (0 when unreadable) must match and its
/// name must start with `bus-`, which is then dropped.
pub open spec fn spec_entry_port_path(e: SysfsEntry, bus: u8, address: u8) -> Option<Seq<char>> {
    let prefix = dec_chars(bus as nat) + seq!['-'];
    let busnum = match spec_sysfs_u32(e.busnum) {
        Some(v) => v,
        None => 0,
    };
    let devnum = match spec_sysfs_u32(e.devnum) {
        Some(v) => v,
        None => 0,
    };
    if e.name@.contains(':') || !e.name@.contains('-') {
        None
    } else if busnum == bus as u32 && devnum == address as u32 && prefix.is_prefix_of(e.name@) {
        Some(e.name@.skip(prefix.len() as int))
    } else {
        None
    }
}

/// The first entry, in order, that is the device at `bus`/`address`, and its port path.
pub open spec fn spec_port_path(entries: Seq<SysfsEntry>, bus: u8, address: u8) -> Option<Seq<char>>
    decreases entries.len(),
{
    if entries.len() == 0 {
        None
    } else {
        match spec_entry_port_path(entries[0], bus, address) {
            Some(p) => Some(p),
            None => spec_port_path(entries.drop_first(), bus, address),
        }
    }
}

#[verifier::loop_isolation(false)]
fn entry_port_path(e: &SysfsEntry, bus: u8, address: u8) -> (r: Option<String>)
    ensures
        match spec_entry_port_path(*e, bus, address) {
            Some(p) => r matches Some(s) && s@ == p,
            None => r is None,
        },
{
    let name = to_chars(e.name.as_str());
    assert(name@ == e.name@);
    if contains_char(&name, ':') || !contains_char(&name, '-') {
        return None;
    }
    let busnum = match sysfs_u32(&e.busnum) {
        Some(v) => v,
        None => 0,
    };
    let devnum = match sysfs_u32(&e.devnum) {
        Some(v) => v,
        None => 0,
    };
    if busnum != bus as u32 || devnum != address as u32 {
        return None;
    }
    let mut prefix = String::new();
    push_dec(&mut prefix, bus as u64);
    string_push_dash(&mut prefix);
    let ghost prefix_spec = dec_chars(bus as nat) + seq!['-'];
    assert(prefix@ =~= prefix_spec);
    let p = to_chars(prefix.as_str());
    if p.len() > name.len() {
        assert(!prefix_spec.is_prefix_of(name@));
        return None;
    }
    let mut i: usize = 0;
    while i < p.len()
        invariant
            i <= p@.len() <= name@.len(),
            p@ == prefix_spec,
            forall|j: int| 0 <= j < i ==> p@[j] == name@[j],
        decreases p@.len() - i,
    {
        if p[i] != name[i] {
            assert(!prefix_spec.is_prefix_of(name@)) by {
                assert(name@.take(p@.len() as int)[i as int] != p@[i as int]);
            }
            return None;
        }
        i = i + 1;
    }
    assert(prefix_spec.is_prefix_of(name@)) by {
        assert(name@.take(p@.len() as int) =~= p@);
    }
    let mut rest = String::new();
    let mut k: usize = p.len();
    while k < name.len()
        invariant
            p@.len() <= k <= name@.len(),
            rest@ == name@.subrange(p@.len() as int, k as int),
        decreases name@.len() - k,
    {
        crate::text::string_push(&mut rest, name[k]);
        k = k + 1;
        assert(rest@ =~= name@.subrange(p@.len() as int, k as int));
    }
    assert(rest@ =~= name@.skip(p@.len() as int));
    Some(rest)
}

fn string_push_dash(s: &mut String)
    ensures
        final(s)@ == old(s)@.push('-'),
{
    crate::text::string_push(s, '-');
}

/// Finds the port path of the device at `bus`/`address` among the sysfs
/// device directories (the part of the device's directory name after `bus-`).
pub fn port_path_for_address(entries: &Vec<SysfsEntry>, bus: u8, address: u8) -> (r: Option<String>)
    ensures
        match spec_port_path(entries@, bus, address) {
            Some(p) => r matches Some(s) && s@ == p,
            None => r is None,
        },
{
    let mut i: usize = 0;
    assert(entries@.skip(0) =~= entries@);
    while i < entries.len()
        invariant
            i <= entries@.len(),
            spec_port_path(entries@, bus, address) == spec_port_path(
                entries@.skip(i as int),
                bus,
                address,
            ),
        decreases entries@.len() - i,
    {
        assert(entries@.skip(i as int)[0] == entries@[i as int]);
        assert(entries@.skip(i as int).drop_first() =~= entries@.skip(i + 1));
        match entry_port_path(&entries[i], bus, address) {
            Some(p) => {
                return Some(p);
            },
            None => {},
        }
        i = i + 1;
    }
    None
}

/// The sysfs attribute files a `DeviceInfo` is read from.
#[derive(Debug, Clone, Copy, PartialEq, Eq, Structural)]
pub enum SysfsAttr {
    Speed,
    BusNum,
    DevNum,
    IdVendor,
    IdProduct,
    BDeviceClass,
    BDeviceSubClass,
    BDeviceProtocol,
    BConfigurationValue,
    BNumConfigurations,
    BNumInterfaces,
}

impl SysfsAttr {
    /// The name of the attribute's file.
    pub open spec fn spec_file_name(self) -> Seq<char> {
        match self {
            SysfsAttr::Speed => "speed"@,
            SysfsAttr::BusNum => "busnum"@,
            SysfsAttr::DevNum => "devnum"@,
            SysfsAttr::IdVendor => "idVendor"@,
            SysfsAttr::IdProduct => "idProduct"@,
            SysfsAttr::BDeviceClass => "bDeviceClass"@,
            SysfsAttr::BDeviceSubClass => "bDeviceSubClass"@,
            SysfsAttr::BDeviceProtocol => "bDeviceProtocol"@,
            SysfsAttr::BConfigurationValue => "bConfigurationValue"@,
            SysfsAttr::BNumConfigurations => "bNumConfigurations"@,
            SysfsAttr::BNumInterfaces => "bNumInterfaces"@,
        }
    }

    /// The name of the attribute's file.
    pub fn file_name(&self) -> (s: &'static str)
        ensures
            s@ == self.spec_file_name(),
    {
        match self {
            SysfsAttr::Speed => "speed",
            SysfsAttr::BusNum => "busnum",
            SysfsAttr::DevNum => "devnum",
            SysfsAttr::IdVendor => "idVendor",
            SysfsAttr::IdProduct => "idProduct",
            SysfsAttr::BDeviceClass => "bDeviceClass",
            SysfsAttr::BDeviceSubClass => "bDeviceSubClass",
            SysfsAttr::BDeviceProtocol => "bDeviceProtocol",
            SysfsAttr::BConfigurationValue => "bConfigurationValue",
            SysfsAttr::BNumConfigurations => "bNumConfigurations",
            SysfsAttr::BNumInterfaces => "bNumInterfaces",
        }
    }
}

/// Why the device attributes cannot be read.
#[derive(Debug, Clone, Copy, PartialEq, Eq, Structural)]
pub enum SysfsError {
    /// The attribute is missing (for decimal attributes: or not a number).
    Missing(SysfsAttr),
    /// A hexadecimal attribute is not a number.
    Unparsable(SysfsAttr, IntParseError),
}

/// The contents of the sysfs attribute files of a device, as read
/// (`None` for a file that could not be read).
pub struct SysfsAttributes {
    pub speed: Option<String>,
    pub busnum: Option<String>,
    pub devnum: Option<String>,
    pub id_vendor: Option<String>,
    pub id_product: Option<String>,
    pub bcd_device: Option<String>,
    pub b_device_class: Option<String>,
    pub b_device_sub_class: Option<String>,
    pub b_device_protocol: Option<String>,
    pub b_configuration_value: Option<String>,
    pub b_num_configurations: Option<String>,
    pub b_num_interfaces: Option<String>,
}

/// Information the kernel needs in the 312-byte `usb_device` struct
/// that follows the OP_REP_IMPORT header.
pub struct DeviceInfo {
    pub busid: String,
    pub bus_num: u32,
    pub dev_num: u32,
    /// kernel USB_SPEED_* value
    pub speed: u32,
    pub vendor_id: u16,
    pub product_id: u16,
    pub bcd_device: u16,
    pub device_class: u8,
    pub device_subclass: u8,
    pub device_protocol: u8,
    pub configuration_value: u8,
    pub num_configurations: u8,
    pub num_interfaces: u8,
}

/// `s` without any number of leading `0x` (what `trim_start_matches("0x")` leaves).
pub open spec fn strip_hex_prefixes(s: Seq<char>) -> Seq<char>
    decreases s.len(),
{
    if s.len() >= 2 && s[0] == '0' && s[1] == 'x' {
        strip_hex_prefixes(s.skip(2))
    } else {
        s
    }
}

/// A hexadecimal attribute: trimmed, leading `0x`s dropped, then a hex `u32`.
pub open spec fn spec_hex_attr(o: Option<String>, attr: SysfsAttr) -> Result<u32, SysfsError> {
    match o {
        None => Err(SysfsError::Missing(attr)),
        Some(s) => match spec_from_str_radix(strip_hex_prefixes(trim(s@)), 16, u32::MAX as nat) {
            Ok(v) => Ok(v as u32),
            Err(e) => Err(SysfsError::Unparsable(attr, e)),
        },
    }
}

/// A decimal attribute: missing when unreadable or not a number.
pub open spec fn spec_dec_attr(o: Option<String>, attr: SysfsAttr) -> Result<u32, SysfsError> {
    match spec_sysfs_u32(o) {
        Some(v) => Ok(v),
        None => Err(SysfsError::Missing(attr)),
    }
}

/// The kernel `USB_SPEED_*` code of the sysfs `speed` text (in Mbit/s).
pub open spec fn spec_speed_code(t: Seq<char>) -> u32 {
    if t == "1.5"@ {
        1
    } else if t == "12"@ {
        2
    } else if t == "480"@ {
        3
    } else if t == "5000"@ {
        5
    } else if t == "10000"@ {
        6
    } else {
        0
    }
}

/// The index of the first `c` in `s`, or `s.len()`.
pub open spec fn find_char(s: Seq<char>, c: char) -> int
    decreases s.len(),
{
    if s.len() == 0 {
        0
    } else if s[0] == c {
        0
    } else {
        1 + find_char(s.drop_first(), c)
    }
}

/// A part of `bcdDevice` with its digits packed four bits each (the digits
/// read in base 16, so `10` is `0x10`), 0 when it is not a number.
pub open spec fn spec_bcd_part(s: Seq<char>) -> u16 {
    match spec_from_str_radix(s, 16, u16::MAX as nat) {
        Ok(v) => v as u16,
        Err(_) => 0,
    }
}

/// `bcdDevice` as `6.01` text becomes `0x0601` (and `2.10` becomes `0x0210`):
/// the part before the first `.` is the major byte, the part after it (up to a
/// next `.`, or `00` without one) the minor byte, each with its digits packed;
/// each is 0 when it is not a number.
pub open spec fn spec_bcd(o: Option<String>) -> u16 {
    let t = match o {
        Some(s) => trim(s@),
        None => Seq::empty(),
    };
    let d = find_char(t, '.');
    let maj = spec_bcd_part(t.take(d));
    let min = if d < t.len() {
        let rest = t.skip(d + 1);
        spec_bcd_part(rest.take(find_char(rest, '.')))
    } else {
        0
    };
    (((maj as int) % 256) * 256 + ((min as int) % 256)) as u16
}

/// The first attribute that cannot be read, in the order `from_sysfs` reads them.
pub open spec fn spec_sysfs_error(a: SysfsAttributes) -> Option<SysfsError> {
    if a.speed is None {
        Some(SysfsError::Missing(SysfsAttr::Speed))
    } else if let Err(e) = spec_dec_attr(a.busnum, SysfsAttr::BusNum) {
        Some(e)
    } else if let Err(e) = spec_dec_attr(a.devnum, SysfsAttr::DevNum) {
        Some(e)
    } else if let Err(e) = spec_hex_attr(a.id_vendor, SysfsAttr::IdVendor) {
        Some(e)
    } else if let Err(e) = spec_hex_attr(a.id_product, SysfsAttr::IdProduct) {
        Some(e)
    } else if let Err(e) = spec_hex_attr(a.b_device_class, SysfsAttr::BDeviceClass) {
        Some(e)
    } else if let Err(e) = spec_hex_attr(a.b_device_sub_class, SysfsAttr::BDeviceSubClass) {
        Some(e)
    } else if let Err(e) = spec_hex_attr(a.b_device_protocol, SysfsAttr::BDeviceProtocol) {
        Some(e)
    } else if let Err(e) = spec_dec_attr(a.b_configuration_value, SysfsAttr::BConfigurationValue) {
        Some(e)
    } else if let Err(e) = spec_dec_attr(a.b_num_configurations, SysfsAttr::BNumConfigurations) {
        Some(e)
    } else if let Err(e) = spec_dec_attr(a.b_num_interfaces, SysfsAttr::BNumInterfaces) {
        Some(e)
    } else {
        None
    }
}

/// The value of an attribute that reads fine.
pub open spec fn ok_of(r: Result<u32, SysfsError>) -> u32 {
    match r {
        Ok(v) => v,
        Err(_) => 0,
    }
}

fn hex_attr(o: &Option<String>, attr: SysfsAttr) -> (r: Result<u32, SysfsError>)
    ensures
        r == spec_hex_attr(*o, attr),
{
    match o {
        None => Err(SysfsError::Missing(attr)),
        Some(s) => {
            let v = to_chars(s.as_str());
            let (a, b) = trim_bounds(&v, 0, v.len());
            assert(v@.subrange(0, v@.len() as int) =~= s@);
            let mut start = a;
            while b - start >= 2 && v[start] == '0' && v[start + 1] == 'x'
                invariant
                    a <= start <= b <= v@.len(),
                    strip_hex_prefixes(trim(s@)) == strip_hex_prefixes(
                        v@.subrange(start as int, b as int),
                    ),
                decreases b - start,
            {
                assert(v@.subrange(start as int, b as int).skip(2) =~= v@.subrange(
                    start + 2,
                    b as int,
                ));
                start = start + 2;
            }
            assert(strip_hex_prefixes(v@.subrange(start as int, b as int)) == v@.subrange(
                start as int,
                b as int,
            ));
            match parse_radix(&v, start, b, 16, u32::MAX) {
                Ok(x) => Ok(x),
                Err(e) => Err(SysfsError::Unparsable(attr, e)),
            }
        },
    }
}

fn dec_attr(o: &Option<String>, attr: SysfsAttr) -> (r: Result<u32, SysfsError>)
    ensures
        r == spec_dec_attr(*o, attr),
{
    match sysfs_u32(o) {
        Some(v) => Ok(v),
        None => Err(SysfsError::Missing(attr)),
    }
}

fn speed_code(t: &Vec<char>, a: usize, b: usize) -> (c: u32)
    requires
        a <= b <= t@.len(),
    ensures
        c == spec_speed_code(t@.subrange(a as int, b as int)),
{
    let ghost s = t@.subrange(a as int, b as int);
    proof {
        lemma_speed_code_table(s);
        reveal_strlit("1.5");
        reveal_strlit("12");
        reveal_strlit("480");
        reveal_strlit("5000");
        reveal_strlit("10000");
    }
    let n = b - a;
    assert(forall|k: int| 0 <= k < n ==> s[k] == t@[a + k]);
    if n == 3 && t[a] == '1' && t[a + 1] == '.' && t[a + 2] == '5' {
        assert(s =~= "1.5"@);
        1
    } else if n == 2 && t[a] == '1' && t[a + 1] == '2' {
        assert(s =~= "12"@);
        2
    } else if n == 3 && t[a] == '4' && t[a + 1] == '8' && t[a + 2] == '0' {
        assert(s =~= "480"@);
        3
    } else if n == 4 && t[a] == '5' && t[a + 1] == '0' && t[a + 2] == '0' && t[a + 3] == '0' {
        assert(s =~= "5000"@);
        5
    } else if n == 5 && t[a] == '1' && t[a + 1] == '0' && t[a + 2] == '0' && t[a + 3] == '0' && t[a
        + 4] == '0' {
        assert(s =~= "10000"@);
        6
    } else {
        assert(s != "1.5"@ ==> s.len() != 3 || s[0] != '1' || s[1] != '.' || s[2] != '5');
        assert(s != "12"@ ==> s.len() != 2 || s[0] != '1' || s[1] != '2');
        assert(s != "480"@ ==> s.len() != 3 || s[0] != '4' || s[1] != '8' || s[2] != '0');
        assert(s != "5000"@ ==> s.len() != 4 || s[0] != '5' || s[1] != '0' || s[2] != '0' || s[3]
            != '0');
        assert(s != "10000"@ ==> s.len() != 5 || s[0] != '1' || s[1] != '0' || s[2] != '0' || s[3]
            != '0' || s[4] != '0');
        proof {
            if s == "1.5"@ {
                assert(s[0] == '1' && s[1] == '.' && s[2] == '5');
            }
            if s == "12"@ {
                assert(s[0] == '1' && s[1] == '2');
            }
            if s == "480"@ {
                assert(s[0] == '4' && s[1] == '8' && s[2] == '0');
            }
            if s == "5000"@ {
                assert(s[0] == '5' && s[1] == '0' && s[2] == '0' && s[3] == '0');
            }
            if s == "10000"@ {
                assert(s[0] == '1' && s[1] == '0' && s[2] == '0' && s[3] == '0' && s[4] == '0');
            }
        }
        0
    }
}

/// The index of the first `c` in `t[a..b]`, or `b`.
fn find(t: &Vec<char>, a: usize, b: usize, c: char) -> (i: usize)
    requires
        a <= b <= t@.len(),
    ensures
        a <= i <= b,
        i - a == find_char(t@.subrange(a as int, b as int), c),
{
    let mut i = a;
    while i < b && t[i] != c
        invariant
            a <= i <= b <= t@.len(),
            find_char(t@.subrange(a as int, b as int), c) == (i - a) + find_char(
                t@.subrange(i as int, b as int),
                c,
            ),
        decreases b - i,
    {
        assert(t@.subrange(i as int, b as int).drop_first() =~= t@.subrange(i + 1, b as int));
        i = i + 1;
    }
    i
}

fn bcd_part(t: &Vec<char>, a: usize, b: usize) -> (r: u16)
    requires
        a <= b <= t@.len(),
    ensures
        r == spec_bcd_part(t@.subrange(a as int, b as int)),
{
    match parse_radix(t, a, b, 16, 0xffff) {
        Ok(x) => x as u16,
        Err(_) => 0,
    }
}

fn bcd_device(o: &Option<String>) -> (r: u16)
    ensures
        r == spec_bcd(*o),
{
    let t = match o {
        Some(s) => to_chars(s.as_str()),
        None => Vec::new(),
    };
    let (a, b) = trim_bounds(&t, 0, t.len());
    let ghost tt = t@.subrange(a as int, b as int);
    proof {
        assert(t@.subrange(0, t@.len() as int) =~= t@);
        match o {
            Some(s) => {},
            None => {
                assert(tt =~= Seq::<char>::empty());
                assert(trim(Seq::<char>::empty()) =~= Seq::<char>::empty());
            },
        }
    }
    let d = find(&t, a, b, '.');
    assert(tt.take(d - a) =~= t@.subrange(a as int, d as int));
    let maj = bcd_part(&t, a, d);
    let min = if d < b {
        let e = find(&t, d + 1, b, '.');
        assert(tt.skip(d - a + 1) =~= t@.subrange(d + 1, b as int));
        assert(tt.skip(d - a + 1).take(e - (d + 1)) =~= t@.subrange(d + 1, e as int));
        bcd_part(&t, d + 1, e)
    } else {
        0
    };
    assert(((maj << 8u16) | (min & 0xffu16)) == (((maj as int) % 256) * 256 + ((min as int) % 256))
        as u16) by (bit_vector);
    (maj << 8u16) | (min & 0xffu16)
}

/// At most the first `k` bytes of `s`.
pub open spec fn kept(s: Seq<u8>, k: nat) -> Seq<u8> {
    if s.len() > k {
        s.take(k as int)
    } else {
        s
    }
}

/// `s` cut or padded with zero bytes to exactly `n` bytes.
pub open spec fn fit(s: Seq<u8>, n: nat) -> Seq<u8> {
    if s.len() >= n {
        s.take(n as int)
    } else {
        s + zeros((n - s.len()) as nat)
    }
}

/// The sysfs path the record names: `/sys/devices/pci0000:00/usb{bus}/{busid}`.
pub open spec fn spec_device_path(bus_num: u32, busid: Seq<char>) -> Seq<char> {
    "/sys/devices/pci0000:00/usb"@ + dec_chars(bus_num as nat) + seq!['/'] + busid
}

impl DeviceInfo {
    /// Read device info from the sysfs attribute files of a bound usbip-host device.
    pub fn from_sysfs(busid: &str, attrs: &SysfsAttributes) -> (r: Result<Self, SysfsError>)
        ensures
            match spec_sysfs_error(*attrs) {
                Some(e) => r == Err::<Self, SysfsError>(e),
                None => r matches Ok(info) && {
                    &&& info.busid@ == busid@
                    &&& info.bus_num == ok_of(spec_dec_attr(attrs.busnum, SysfsAttr::BusNum))
                    &&& info.dev_num == ok_of(spec_dec_attr(attrs.devnum, SysfsAttr::DevNum))
                    &&& info.speed == spec_speed_code(trim(attrs.speed->0@))
                    &&& info.vendor_id == ok_of(spec_hex_attr(attrs.id_vendor, SysfsAttr::IdVendor))
                        as u16
                    &&& info.product_id == ok_of(
                        spec_hex_attr(attrs.id_product, SysfsAttr::IdProduct),
                    ) as u16
                    &&& info.bcd_device == spec_bcd(attrs.bcd_device)
                    &&& info.device_class == ok_of(
                        spec_hex_attr(attrs.b_device_class, SysfsAttr::BDeviceClass),
                    ) as u8
                    &&& info.device_subclass == ok_of(
                        spec_hex_attr(attrs.b_device_sub_class, SysfsAttr::BDeviceSubClass),
                    ) as u8
                    &&& info.device_protocol == ok_of(
                        spec_hex_attr(attrs.b_device_protocol, SysfsAttr::BDeviceProtocol),
                    ) as u8
                    &&& info.configuration_value == ok_of(
                        spec_dec_attr(attrs.b_configuration_value, SysfsAttr::BConfigurationValue),
                    ) as u8
                    &&& info.num_configurations == ok_of(
                        spec_dec_attr(attrs.b_num_configurations, SysfsAttr::BNumConfigurations),
                    ) as u8
                    &&& info.num_interfaces == ok_of(
                        spec_dec_attr(attrs.b_num_interfaces, SysfsAttr::BNumInterfaces),
                    ) as u8
                },
            },
    {
        // /sys/.../speed is a string like "480" (Mbit/s), mapped to a kernel speed code.
        let speed = match &attrs.speed {
            None => {
                return Err(SysfsError::Missing(SysfsAttr::Speed));
            },
            Some(s) => {
                let v = to_chars(s.as_str());
                let (a, b) = trim_bounds(&v, 0, v.len());
                assert(v@.subrange(0, v@.len() as int) =~= s@);
                speed_code(&v, a, b)
            },
        };
        let bus_num = dec_attr(&attrs.busnum, SysfsAttr::BusNum)?;
        let dev_num = dec_attr(&attrs.devnum, SysfsAttr::DevNum)?;
        let vendor_id = hex_attr(&attrs.id_vendor, SysfsAttr::IdVendor)? as u16;
        let product_id = hex_attr(&attrs.id_product, SysfsAttr::IdProduct)? as u16;
        let bcd_device = bcd_device(&attrs.bcd_device);
        let device_class = hex_attr(&attrs.b_device_class, SysfsAttr::BDeviceClass)? as u8;
        let device_subclass = hex_attr(&attrs.b_device_sub_class, SysfsAttr::BDeviceSubClass)? as u8;
        let device_protocol = hex_attr(&attrs.b_device_protocol, SysfsAttr::BDeviceProtocol)? as u8;
        let configuration_value = dec_attr(
            &attrs.b_configuration_value,
            SysfsAttr::BConfigurationValue,
        )? as u8;
        let num_configurations = dec_attr(
            &attrs.b_num_configurations,
            SysfsAttr::BNumConfigurations,
        )? as u8;
        let num_interfaces = dec_attr(&attrs.b_num_interfaces, SysfsAttr::BNumInterfaces)? as u8;
        Ok(
            DeviceInfo {
                busid: String::from_str(busid),
                bus_num,
                dev_num,
                speed,
                vendor_id,
                product_id,
                bcd_device,
                device_class,
                device_subclass,
                device_protocol,
                configuration_value,
                num_configurations,
                num_interfaces,
            },
        )
    }

    /// The 312-byte on-wire `usb_device` record: the device path (at most 255
    /// bytes of it, so a NUL always ends it, padded to 256), the bus id (at most
    /// 32 bytes, padded to 32), then the numbers big-endian.
    pub open spec fn spec_wire_bytes(self) -> Seq<u8> {
        fit(kept(encode_utf8(spec_device_path(self.bus_num, self.busid@)), 255), 256) + fit(
            kept(encode_utf8(self.busid@), 32),
            32,
        ) + be_u32(self.bus_num) + be_u32(self.dev_num) + be_u32(self.speed) + be_u16(
            self.vendor_id,
        ) + be_u16(self.product_id) + be_u16(self.bcd_device) + seq![
            self.device_class,
            self.device_subclass,
            self.device_protocol,
            self.configuration_value,
            self.num_configurations,
            self.num_interfaces,
        ]
    }

    /// Serialise to the 312-byte on-wire usb_device struct.
    pub fn to_wire_bytes(&self) -> (out: Vec<u8>)
        ensures
            out@ == self.spec_wire_bytes(),
            out@.len() == 312,
            out@[255] == 0,
            read_be_u32(out@, 288) == self.bus_num,
            read_be_u32(out@, 292) == self.dev_num,
            read_be_u32(out@, 296) == self.speed,
            u16_of_be(out@[300], out@[301]) == self.vendor_id,
            u16_of_be(out@[302], out@[303]) == self.product_id,
            u16_of_be(out@[304], out@[305]) == self.bcd_device,
            out@[306] == self.device_class,
            out@[307] == self.device_subclass,
            out@[308] == self.device_protocol,
            out@[309] == self.configuration_value,
            out@[310] == self.num_configurations,
            out@[311] == self.num_interfaces,
    {
        proof {
            lemma_wire_record_layout(*self);
        }
        let mut out: Vec<u8> = Vec::with_capacity(312);
        // path (256 bytes): sysfs path, NUL-terminated
        let mut path = String::from_str("/sys/devices/pci0000:00/usb");
        push_dec(&mut path, self.bus_num as u64);
        crate::text::string_push(&mut path, '/');
        path.append(self.busid.as_str());
        assert(path@ =~= spec_device_path(self.bus_num, self.busid@));
        append_fit(&mut out, path.as_str().as_bytes(), 255, 256);
        // busid (32 bytes)
        append_fit(&mut out, self.busid.as_str().as_bytes(), 32, 32);
        // busnum, devnum, speed, ids, classes
        append_bytes(&mut out, u32_to_be(self.bus_num).as_slice());
        append_bytes(&mut out, u32_to_be(self.dev_num).as_slice());
        append_bytes(&mut out, u32_to_be(self.speed).as_slice());
        append_bytes(&mut out, u16_to_be(self.vendor_id).as_slice());
        append_bytes(&mut out, u16_to_be(self.product_id).as_slice());
        append_bytes(&mut out, u16_to_be(self.bcd_device).as_slice());
        out.push(self.device_class);
        out.push(self.device_subclass);
        out.push(self.device_protocol);
        out.push(self.configuration_value);
        out.push(self.num_configurations);
        out.push(self.num_interfaces);
        assert(out@ =~= self.spec_wire_bytes());
        out
    }
}

/// Appends `src`.
fn append_bytes(out: &mut Vec<u8>, src: &[u8])
    ensures
        final(out)@ == old(out)@ + src@,
{
    let mut i: usize = 0;
    while i < src.len()
        invariant
            i <= src@.len(),
            out@ == old(out)@ + src@.take(i as int),
        decreases src@.len() - i,
    {
        out.push(src[i]);
        i = i + 1;
        assert(out@ =~= old(out)@ + src@.take(i as int));
    }
    assert(src@.take(src@.len() as int) =~= src@);
}

/// Appends `src` cut or zero-padded to exactly `n` bytes.
fn append_fit(out: &mut Vec<u8>, src: &[u8], keep: usize, n: usize)
    requires
        keep <= n,
    ensures
        final(out)@ == old(out)@ + fit(kept(src@, keep as nat), n as nat),
{
    let m = if src.len() < keep {
        src.len()
    } else {
        keep
    };
    let mut i: usize = 0;
    while i < m
        invariant
            i <= m <= keep <= n,
            m <= src@.len(),
            out@ == old(out)@ + src@.take(i as int),
        decreases m - i,
    {
        out.push(src[i]);
        i = i + 1;
        assert(out@ =~= old(out)@ + src@.take(i as int));
    }
    let mut j: usize = m;
    while j < n
        invariant
            m <= j <= n,
            out@ == old(out)@ + src@.take(m as int) + zeros((j - m) as nat),
        decreases n - j,
    {
        out.push(0u8);
        j = j + 1;
        assert(out@ =~= old(out)@ + src@.take(m as int) + zeros((j - m) as nat));
    }
    assert(src@.len() <= keep ==> src@.take(m as int) =~= src@);
    assert(kept(src@, keep as nat) =~= src@.take(m as int));
    assert(out@ =~= old(out)@ + fit(kept(src@, keep as nat), n as nat));
}

/// The sysfs speed text (in Mbit/s) names the kernel `USB_SPEED_*` code by a
/// fixed table: `1.5` is low (1), `12` full (2), `480` high (3), `5000` super
/// (5), `10000` super plus (6); any other text is unknown (0). Each code other
/// than 0 comes from exactly one text.
pub proof fn lemma_speed_code_table(t: Seq<char>)
    ensures
        (spec_speed_code(t) == 1) == (t == "1.5"@),
        (spec_speed_code(t) == 2) == (t == "12"@),
        (spec_speed_code(t) == 3) == (t == "480"@),
        (spec_speed_code(t) == 5) == (t == "5000"@),
        (spec_speed_code(t) == 6) == (t == "10000"@),
        (spec_speed_code(t) == 0) == (t != "1.5"@ && t != "12"@ && t != "480"@ && t != "5000"@
            && t != "10000"@),
{
    reveal_strlit("1.5");
    reveal_strlit("12");
    reveal_strlit("480");
    reveal_strlit("5000");
    reveal_strlit("10000");
    assert("1.5"@.len() != "12"@.len());
    assert("1.5"@[0] != "480"@[0]);
    assert("12"@.len() != "480"@.len());
    assert("5000"@.len() != "10000"@.len());
    assert("12"@.len() != "5000"@.len());
    assert("1.5"@.len() != "5000"@.len());
}

/// The 312-byte `usb_device` record, by offset (the kernel's `struct
/// usbip_usb_device`): the path field (256 bytes) ends in a NUL, the bus id
/// takes bytes 256 to 288, then `busnum`, `devnum` and `speed` as big-endian
/// `u32`s at 288, 292 and 296, `idVendor`, `idProduct` and `bcdDevice` as
/// big-endian `u16`s at 300, 302 and 304, and the six one-byte fields
/// `bDeviceClass`, `bDeviceSubClass`, `bDeviceProtocol`,
/// `bConfigurationValue`, `bNumConfigurations`, `bNumInterfaces` at 306 to 311.
pub proof fn lemma_wire_record_layout(info: DeviceInfo)
    ensures
        info.spec_wire_bytes().len() == 312,
        info.spec_wire_bytes()[255] == 0,
        read_be_u32(info.spec_wire_bytes(), 288) == info.bus_num,
        read_be_u32(info.spec_wire_bytes(), 292) == info.dev_num,
        read_be_u32(info.spec_wire_bytes(), 296) == info.speed,
        u16_of_be(info.spec_wire_bytes()[300], info.spec_wire_bytes()[301]) == info.vendor_id,
        u16_of_be(info.spec_wire_bytes()[302], info.spec_wire_bytes()[303]) == info.product_id,
        u16_of_be(info.spec_wire_bytes()[304], info.spec_wire_bytes()[305]) == info.bcd_device,
        info.spec_wire_bytes()[306] == info.device_class,
        info.spec_wire_bytes()[307] == info.device_subclass,
        info.spec_wire_bytes()[308] == info.device_protocol,
        info.spec_wire_bytes()[309] == info.configuration_value,
        info.spec_wire_bytes()[310] == info.num_configurations,
        info.spec_wire_bytes()[311] == info.num_interfaces,
{
    let w = info.spec_wire_bytes();
    let path = kept(encode_utf8(spec_device_path(info.bus_num, info.busid@)), 255);
    let bid = kept(encode_utf8(info.busid@), 32);
    assert(fit(path, 256).len() == 256);
    assert(fit(bid, 32).len() == 32);
    assert(fit(path, 256)[255] == 0);
    lemma_be_u32_roundtrip(info.bus_num);
    lemma_be_u32_roundtrip(info.dev_num);
    lemma_be_u32_roundtrip(info.speed);
    lemma_be_u16_roundtrip(info.vendor_id);
    lemma_be_u16_roundtrip(info.product_id);
    lemma_be_u16_roundtrip(info.bcd_device);
    assert(w[288] == be_u32(info.bus_num)[0]);
    assert(w[289] == be_u32(info.bus_num)[1]);
    assert(w[290] == be_u32(info.bus_num)[2]);
    assert(w[291] == be_u32(info.bus_num)[3]);
    assert(w[292] == be_u32(info.dev_num)[0]);
    assert(w[293] == be_u32(info.dev_num)[1]);
    assert(w[294] == be_u32(info.dev_num)[2]);
    assert(w[295] == be_u32(info.dev_num)[3]);
    assert(w[296] == be_u32(info.speed)[0]);
    assert(w[297] == be_u32(info.speed)[1]);
    assert(w[298] == be_u32(info.speed)[2]);
    assert(w[299] == be_u32(info.speed)[3]);
    assert(w[300] == be_u16(info.vendor_id)[0]);
    assert(w[301] == be_u16(info.vendor_id)[1]);
    assert(w[302] == be_u16(info.product_id)[0]);
    assert(w[303] == be_u16(info.product_id)[1]);
    assert(w[304] == be_u16(info.bcd_device)[0]);
    assert(w[305] == be_u16(info.bcd_device)[1]);
}

/// Decoding the big-endian bytes of a `u16` gives the number back.
proof fn lemma_be_u16_roundtrip(n: u16)
    ensures
        u16_of_be(be_u16(n)[0], be_u16(n)[1]) == n,
        be_u16(n).len() == 2,
{
    let a = (n >> 8u16) as u8;
    let b = (n & 0xffu16) as u8;
    assert(((a as u16) << 8u16) | (b as u16) == n) by (bit_vector)
        requires
            a == (n >> 8u16) as u8,
            b == (n & 0xffu16) as u8,
    ;
}

} // verus!
