//! Text: parsing integers from strings, trimming whitespace, and formatting
//! numbers and padded columns the way `format!` does.
use vstd::prelude::*;

verus! {

/// Why a string is not an unsigned integer (the kinds of `std::num::IntErrorKind`
/// that an unsigned parse can give).
#[derive(Debug, Clone, Copy, PartialEq, Eq, Structural)]
pub enum IntParseError {
    Empty,
    InvalidDigit,
    PosOverflow,
}

impl IntParseError {
    /// The text that `std::num::ParseIntError` displays for this kind.
    pub fn message(&self) -> (s: String)
        ensures
            s@ == self.spec_message(),
    {
        match self {
            IntParseError::Empty => String::from_str("cannot parse integer from empty string"),
            IntParseError::InvalidDigit => String::from_str("invalid digit found in string"),
            IntParseError::PosOverflow => String::from_str("number too large to fit in target type"),
        }
    }

    pub open spec fn spec_message(self) -> Seq<char> {
        match self {
            IntParseError::Empty => "cannot parse integer from empty string"@,
            IntParseError::InvalidDigit => "invalid digit found in string"@,
            IntParseError::PosOverflow => "number too large to fit in target type"@,
        }
    }
}

/// The value of `c` as a digit in base `radix` (`char::to_digit`), for radix up to 36.
pub open spec fn digit_value(c: char, radix: nat) -> Option<nat> {
    let v: int = if '0' <= c && c <= '9' {
        c as int - '0' as int
    } else if 'a' <= c && c <= 'z' {
        c as int - 'a' as int + 10
    } else if 'A' <= c && c <= 'Z' {
        c as int - 'A' as int + 10
    } else {
        36
    };
    if v < radix {
        Some(v as nat)
    } else {
        None
    }
}

/// Reads the digits `d` left to right in base `radix`, stopping at the first
/// character that is no digit or the first point where the value passes `max`.
pub open spec fn scan_digits(d: Seq<char>, radix: nat, max: nat) -> Result<nat, IntParseError>
    decreases d.len(),
{
    if d.len() == 0 {
        Ok(0)
    } else {
        match scan_digits(d.drop_last(), radix, max) {
            Err(e) => Err(e),
            Ok(v) => match digit_value(d.last(), radix) {
                None => Err(IntParseError::InvalidDigit),
                Some(x) => if v * radix + x > max {
                    Err(IntParseError::PosOverflow)
                } else {
                    Ok(v * radix + x)
                },
            },
        }
    }
}

/// What `uN::from_str_radix(s, radix)` (and `s.parse::<uN>()` for radix 10) gives,
/// where `max` is `uN::MAX`: an optional leading `+`, then digits only.
pub open spec fn spec_from_str_radix(s: Seq<char>, radix: nat, max: nat) -> Result<
    nat,
    IntParseError,
> {
    if s.len() == 0 {
        Err(IntParseError::Empty)
    } else if s.len() == 1 && (s[0] == '+' || s[0] == '-') {
        Err(IntParseError::InvalidDigit)
    } else if s[0] == '+' {
        scan_digits(s.drop_first(), radix, max)
    } else {
        scan_digits(s, radix, max)
    }
}

pub proof fn lemma_scan_bounded(d: Seq<char>, radix: nat, max: nat)
    ensures
        scan_digits(d, radix, max) matches Ok(v) ==> v <= max,
    decreases d.len(),
{
    if d.len() > 0 {
        lemma_scan_bounded(d.drop_last(), radix, max);
    }
}

/// The characters of a string, as a vector.
pub fn to_chars(s: &str) -> (v: Vec<char>)
    ensures
        v@ == s@,
{
    let n = s.unicode_len();
    let mut v: Vec<char> = Vec::new();
    let mut i: usize = 0;
    while i < n
        invariant
            n == s@.len(),
            i <= n,
            v@ == s@.take(i as int),
        decreases n - i,
    {
        let c = s.get_char(i);
        v.push(c);
        i = i + 1;
        assert(v@ =~= s@.take(i as int));
    }
    assert(v@ =~= s@);
    v
}

fn digit_of(c: char, radix: u32) -> (r: Option<u32>)
    requires
        radix <= 36,
    ensures
        match digit_value(c, radix as nat) {
            Some(x) => r == Some(x as u32),
            None => r is None,
        },
{
    let v: u32 = if '0' <= c && c <= '9' {
        (c as u32) - ('0' as u32)
    } else if 'a' <= c && c <= 'z' {
        (c as u32) - ('a' as u32) + 10
    } else if 'A' <= c && c <= 'Z' {
        (c as u32) - ('A' as u32) + 10
    } else {
        36
    };
    if v < radix {
        Some(v)
    } else {
        None
    }
}

/// Parses `v[lo..hi]` as an unsigned integer in base `radix` no larger than `max`,
/// as `uN::from_str_radix` does.
pub fn parse_radix(v: &Vec<char>, lo: usize, hi: usize, radix: u32, max: u32) -> (r: Result<
    u32,
    IntParseError,
>)
    requires
        lo <= hi <= v@.len(),
        2 <= radix <= 36,
    ensures
        match spec_from_str_radix(v@.subrange(lo as int, hi as int), radix as nat, max as nat) {
            Ok(x) => r == Ok::<u32, IntParseError>(x as u32),
            Err(e) => r == Err::<u32, IntParseError>(e),
        },
{
    let ghost s = v@.subrange(lo as int, hi as int);
    if lo == hi {
        return Err(IntParseError::Empty);
    }
    if hi - lo == 1 && (v[lo] == '+' || v[lo] == '-') {
        return Err(IntParseError::InvalidDigit);
    }
    let start = if v[lo] == '+' {
        lo + 1
    } else {
        lo
    };
    let ghost digits = v@.subrange(start as int, hi as int);
    assert(v[lo as int] == '+' ==> digits =~= s.drop_first());
    assert(v[lo as int] != '+' ==> digits =~= s);
    let mut acc: u32 = 0;
    let mut i: usize = start;
    while i < hi
        invariant
            lo <= start <= i <= hi <= v@.len(),
            2 <= radix <= 36,
            digits == v@.subrange(start as int, hi as int),
            v@[lo as int] == '+' ==> digits == s.drop_first() && start == lo + 1,
            v@[lo as int] != '+' ==> digits == s && start == lo,
            s == v@.subrange(lo as int, hi as int),
            lo < hi,
            !(hi - lo == 1 && (v@[lo as int] == '+' || v@[lo as int] == '-')),
            scan_digits(v@.subrange(start as int, i as int), radix as nat, max as nat) == Ok::<
                nat,
                IntParseError,
            >(acc as nat),
        decreases hi - i,
    {
        let ghost prefix = v@.subrange(start as int, i as int);
        let ghost next = v@.subrange(start as int, i + 1);
        assert(next.drop_last() =~= prefix);
        assert(next.last() == v@[i as int]);
        match digit_of(v[i], radix) {
            None => {
                proof {
                    lemma_scan_prefix_err(digits, (i - start) as nat, radix as nat, max as nat);
                    assert(digits.take((i + 1 - start) as int) =~= next);
                }
                return Err(IntParseError::InvalidDigit);
            },
            Some(x) => {
                assert((acc as u64) * (radix as u64) <= 0xffffffffu64 * 36u64) by (nonlinear_arith)
                    requires
                        acc <= 0xffffffffu32,
                        radix <= 36,
                ;
                let wide: u64 = (acc as u64) * (radix as u64) + (x as u64);
                if wide > max as u64 {
                    proof {
                        lemma_scan_prefix_err(
                            digits,
                            (i - start) as nat,
                            radix as nat,
                            max as nat,
                        );
                        assert(digits.take((i + 1 - start) as int) =~= next);
                    }
                    return Err(IntParseError::PosOverflow);
                }
                acc = wide as u32;
                i = i + 1;
            },
        }
    }
    assert(v@.subrange(start as int, i as int) =~= digits);
    Ok(acc)
}

/// Once a prefix of the digits fails, the whole scan fails the same way.
proof fn lemma_scan_prefix_err(d: Seq<char>, k: nat, radix: nat, max: nat)
    requires
        k < d.len(),
    ensures
        scan_digits(d.take(k as int + 1), radix, max) is Err ==> scan_digits(d, radix, max)
            == scan_digits(d.take(k as int + 1), radix, max),
    decreases d.len() - k,
{
    if k + 1 < d.len() {
        lemma_scan_prefix_err(d, k + 1, radix, max);
        let t = d.take(k as int + 2);
        assert(t.drop_last() =~= d.take(k as int + 1));
        lemma_scan_prefix_err_step(d, (k + 1) as nat, radix, max);
    } else {
        assert(d.take(k as int + 1) =~= d);
    }
}

proof fn lemma_scan_prefix_err_step(d: Seq<char>, j: nat, radix: nat, max: nat)
    requires
        1 <= j < d.len(),
        d.take(j as int + 1).drop_last() == d.take(j as int),
    ensures
        scan_digits(d.take(j as int), radix, max) is Err ==> scan_digits(
            d.take(j as int + 1),
            radix,
            max,
        ) == scan_digits(d.take(j as int), radix, max),
{
}

/// `char::is_whitespace`: the Unicode `White_Space` characters.
pub open spec fn is_whitespace(c: char) -> bool {
    ||| ('\u{9}' <= c && c <= '\u{d}')
    ||| c == ' '
    ||| c == '\u{85}'
    ||| c == '\u{a0}'
    ||| c == '\u{1680}'
    ||| ('\u{2000}' <= c && c <= '\u{200a}')
    ||| c == '\u{2028}'
    ||| c == '\u{2029}'
    ||| c == '\u{202f}'
    ||| c == '\u{205f}'
    ||| c == '\u{3000}'
}

/// Whether `c` is whitespace (`char::is_whitespace`).
pub fn whitespace_of(c: char) -> (b: bool)
    ensures
        b == is_whitespace(c),
{
    ('\u{9}' <= c && c <= '\u{d}') || c == ' ' || c == '\u{85}' || c == '\u{a0}' || c
        == '\u{1680}' || ('\u{2000}' <= c && c <= '\u{200a}') || c == '\u{2028}' || c
        == '\u{2029}' || c == '\u{202f}' || c == '\u{205f}' || c == '\u{3000}'
}

/// `str::trim`: `s` without its leading and trailing whitespace.
pub open spec fn trim(s: Seq<char>) -> Seq<char> {
    trim_end(trim_start(s))
}

/// `str::trim_start`.
pub open spec fn trim_start(s: Seq<char>) -> Seq<char>
    decreases s.len(),
{
    if s.len() > 0 && is_whitespace(s[0]) {
        trim_start(s.drop_first())
    } else {
        s
    }
}

/// `str::trim_end`.
pub open spec fn trim_end(s: Seq<char>) -> Seq<char>
    decreases s.len(),
{
    if s.len() > 0 && is_whitespace(s.last()) {
        trim_end(s.drop_last())
    } else {
        s
    }
}

/// The bounds of `v[lo..hi]` once trimmed: `v[a..b]` is `trim(v[lo..hi])`.
pub fn trim_bounds(v: &Vec<char>, lo: usize, hi: usize) -> (r: (usize, usize))
    requires
        lo <= hi <= v@.len(),
    ensures
        lo <= r.0 <= r.1 <= hi,
        v@.subrange(r.0 as int, r.1 as int) == trim(v@.subrange(lo as int, hi as int)),
{
    let mut a = lo;
    while a < hi && whitespace_of(v[a])
        invariant
            lo <= a <= hi <= v@.len(),
            trim_start(v@.subrange(lo as int, hi as int)) == trim_start(
                v@.subrange(a as int, hi as int),
            ),
        decreases hi - a,
    {
        assert(v@.subrange(a as int, hi as int).drop_first() =~= v@.subrange(a + 1, hi as int));
        a = a + 1;
    }
    assert(trim_start(v@.subrange(a as int, hi as int)) == v@.subrange(a as int, hi as int));
    let mut b = hi;
    while b > a && whitespace_of(v[b - 1])
        invariant
            lo <= a <= b <= hi <= v@.len(),
            trim(v@.subrange(lo as int, hi as int)) == trim_end(v@.subrange(a as int, b as int)),
        decreases b - a,
    {
        assert(v@.subrange(a as int, b as int).drop_last() =~= v@.subrange(a as int, b - 1));
        b = b - 1;
    }
    (a, b)
}

/// The decimal digits of `n` (what `format!("{}", n)` writes).
pub open spec fn dec_chars(n: nat) -> Seq<char>
    decreases n,
{
    if n < 10 {
        seq![digit_char(n)]
    } else {
        dec_chars(n / 10) + seq![digit_char(n % 10)]
    }
}

/// The decimal text of a signed integer: a `-` before the digits of a negative one.
pub open spec fn int_chars(x: int) -> Seq<char> {
    if x < 0 {
        seq!['-'] + dec_chars((-x) as nat)
    } else {
        dec_chars(x as nat)
    }
}

/// Appends the decimal text of `x` (what `format!("{}", x)` writes).
pub fn push_int(s: &mut String, x: i32)
    ensures
        final(s)@ == old(s)@ + int_chars(x as int),
{
    if x < 0 {
        string_push(s, '-');
        push_dec(s, (-(x as i64)) as u64);
        assert(s@ =~= old(s)@ + int_chars(x as int));
    } else {
        push_dec(s, x as u64);
    }
}

/// The lower-case hexadecimal digits of `n` (what `format!("{:x}", n)` writes).
pub open spec fn hex_chars(n: nat) -> Seq<char>
    decreases n,
{
    if n < 16 {
        seq![digit_char(n)]
    } else {
        hex_chars(n / 16) + seq![digit_char(n % 16)]
    }
}

/// The character of a digit below 16, lower case.
pub open spec fn digit_char(d: nat) -> char {
    if d < 10 {
        (d + '0' as nat) as char
    } else {
        (d - 10 + 'a' as nat) as char
    }
}

/// `n` copies of `c`.
pub open spec fn repeat(c: char, n: nat) -> Seq<char> {
    Seq::new(n, |i: int| c)
}

/// `s` padded on the left with `fill` to at least `width` characters.
pub open spec fn pad_left(s: Seq<char>, width: nat, fill: char) -> Seq<char> {
    if s.len() < width {
        repeat(fill, (width - s.len()) as nat) + s
    } else {
        s
    }
}

/// `s` padded on the right with spaces to at least `width` characters
/// (what `format!("{:<width$}", s)` writes).
pub open spec fn pad_right(s: Seq<char>, width: nat) -> Seq<char> {
    if s.len() < width {
        s + repeat(' ', (width - s.len()) as nat)
    } else {
        s
    }
}

/// `format!("{:0width$x}", n)`: lower-case hex, zero-padded to `width`.
pub open spec fn hex_padded(n: nat, width: nat) -> Seq<char> {
    pad_left(hex_chars(n), width, '0')
}

/// `String::push`: appends one character.
#[verifier::external_body]
pub(crate) fn string_push(s: &mut String, c: char)
    ensures
        final(s)@ == old(s)@.push(c),
{
    s.push(c)
}

fn digit_to_char(d: u64) -> (c: char)
    requires
        d < 16,
    ensures
        c == digit_char(d as nat),
{
    if d < 10 {
        ((d as u8) + 48u8) as char
    } else {
        ((d as u8) + 87u8) as char
    }
}

/// Appends the decimal digits of `n`.
pub fn push_dec(s: &mut String, n: u64)
    ensures
        final(s)@ == old(s)@ + dec_chars(n as nat),
    decreases n,
{
    if n >= 10 {
        push_dec(s, n / 10);
    }
    string_push(s, digit_to_char(n % 10));
    assert(s@ =~= old(s)@ + dec_chars(n as nat));
}

/// Appends the lower-case hex digits of `n`.
pub fn push_hex(s: &mut String, n: u64)
    ensures
        final(s)@ == old(s)@ + hex_chars(n as nat),
    decreases n,
{
    if n >= 16 {
        push_hex(s, n / 16);
    }
    string_push(s, digit_to_char(n % 16));
    assert(s@ =~= old(s)@ + hex_chars(n as nat));
}

proof fn lemma_hex_len_pos(n: nat)
    ensures
        hex_chars(n).len() >= 1,
    decreases n,
{
    if n >= 16 {
        lemma_hex_len_pos(n / 16);
    }
}

/// The number of hex digits of `n`.
fn hex_len(n: u64) -> (l: usize)
    ensures
        l == hex_chars(n as nat).len(),
        l <= 16,
    decreases n,
{
    if n < 16 {
        1
    } else {
        let r = hex_len(n / 16);
        assert(hex_chars(n as nat) == hex_chars((n / 16) as nat) + seq![digit_char((n % 16) as nat)]);
        if r >= 16 {
            assert(false) by {
                reveal_with_fuel(pow16, 16);
                assert(pow16(15) == 0x1000000000000000);
                lemma_hex_len_bound((n / 16) as nat, 15);
            }
        }
        r + 1
    }
}

/// `16` to the power `k`.
spec fn pow16(k: nat) -> nat
    decreases k,
{
    if k == 0 {
        1
    } else {
        16 * pow16((k - 1) as nat)
    }
}

proof fn lemma_hex_len_bound(n: nat, k: nat)
    requires
        1 <= k,
        n < pow16(k),
    ensures
        hex_chars(n).len() <= k,
    decreases k,
{
    if n >= 16 {
        reveal_with_fuel(pow16, 2);
        lemma_hex_len_bound(n / 16, (k - 1) as nat);
    }
}

/// Appends `c` `count` times.
pub fn push_repeat(s: &mut String, c: char, count: usize)
    ensures
        final(s)@ == old(s)@ + repeat(c, count as nat),
{
    let mut i: usize = 0;
    while i < count
        invariant
            i <= count,
            s@ == old(s)@ + repeat(c, i as nat),
        decreases count - i,
    {
        string_push(s, c);
        i = i + 1;
        assert(s@ =~= old(s)@ + repeat(c, i as nat));
    }
}

/// Appends `format!("{:0width$x}", n)`.
pub fn push_hex_padded(s: &mut String, n: u64, width: usize)
    ensures
        final(s)@ == old(s)@ + hex_padded(n as nat, width as nat),
{
    let l = hex_len(n);
    let ghost start = s@;
    if l < width {
        push_repeat(s, '0', width - l);
    }
    push_hex(s, n);
    assert(s@ =~= start + hex_padded(n as nat, width as nat));
}

/// Appends `text` padded on the right with spaces to `width` characters.
pub fn push_padded(s: &mut String, text: &str, width: usize)
    ensures
        final(s)@ == old(s)@ + pad_right(text@, width as nat),
{
    let l = text.unicode_len();
    let ghost start = s@;
    s.append(text);
    if l < width {
        push_repeat(s, ' ', width - l);
    }
    assert(s@ =~= start + pad_right(text@, width as nat));
}

} // verus!
