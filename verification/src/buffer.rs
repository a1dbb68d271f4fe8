//! Byte buffers (`bytes::BytesMut`) and big-endian integer encodings.
use bytes::{Buf, BufMut, BytesMut};
use vstd::prelude::*;

verus! {

#[verifier::external_type_specification]
#[verifier::external_body]
pub struct ExBytesMut(BytesMut);

/// The bytes that a `BytesMut` holds, in order.
pub uninterp spec fn bytes_of(b: BytesMut) -> Seq<u8>;

/// The largest length a `BytesMut` may grow to (its allocation is capped at `isize::MAX`).
pub open spec fn buffer_limit() -> int {
    isize::MAX as int
}

/// The big-endian encoding of a `u16`.
pub open spec fn be_u16(n: u16) -> Seq<u8> {
    seq![(n >> 8u16) as u8, (n & 0xffu16) as u8]
}

/// The big-endian encoding of a `u32`.
pub open spec fn be_u32(n: u32) -> Seq<u8> {
    seq![
        (n >> 24u32) as u8,
        ((n >> 16u32) & 0xffu32) as u8,
        ((n >> 8u32) & 0xffu32) as u8,
        (n & 0xffu32) as u8,
    ]
}

/// The big-endian two's complement encoding of an `i32`.
pub open spec fn be_i32(n: i32) -> Seq<u8> {
    be_u32(n as u32)
}

/// The `u16` whose big-endian bytes are `a, b`.
pub open spec fn u16_of_be(a: u8, b: u8) -> u16 {
    ((a as u16) << 8u16) | (b as u16)
}

/// The `u32` whose big-endian bytes are `a, b, c, d`.
pub open spec fn u32_of_be(a: u8, b: u8, c: u8, d: u8) -> u32 {
    ((a as u32) << 24u32) | ((b as u32) << 16u32) | ((c as u32) << 8u32) | (d as u32)
}

/// The `u32` stored big-endian at offset `at` of `s`.
pub open spec fn read_be_u32(s: Seq<u8>, at: int) -> u32 {
    u32_of_be(s[at], s[at + 1], s[at + 2], s[at + 3])
}

/// The `i32` stored big-endian at offset `at` of `s`.
pub open spec fn read_be_i32(s: Seq<u8>, at: int) -> i32 {
    read_be_u32(s, at) as i32
}

/// `n` zero bytes.
pub open spec fn zeros(n: nat) -> Seq<u8> {
    Seq::new(n, |i: int| 0u8)
}

/// Decoding the big-endian bytes of a `u32` gives the number back.
pub proof fn lemma_be_u32_roundtrip(n: u32)
    ensures
        u32_of_be(be_u32(n)[0], be_u32(n)[1], be_u32(n)[2], be_u32(n)[3]) == n,
        be_u32(n).len() == 4,
{
    let a = (n >> 24u32) as u8;
    let b = ((n >> 16u32) & 0xffu32) as u8;
    let c = ((n >> 8u32) & 0xffu32) as u8;
    let d = (n & 0xffu32) as u8;
    assert(((a as u32) << 24u32) | ((b as u32) << 16u32) | ((c as u32) << 8u32) | (d as u32) == n)
        by (bit_vector)
        requires
            a == (n >> 24u32) as u8,
            b == ((n >> 16u32) & 0xffu32) as u8,
            c == ((n >> 8u32) & 0xffu32) as u8,
            d == (n & 0xffu32) as u8,
    ;
}

/// Decoding the big-endian bytes of an `i32` gives the number back.
pub proof fn lemma_be_i32_roundtrip(n: i32)
    ensures
        u32_of_be(be_i32(n)[0], be_i32(n)[1], be_i32(n)[2], be_i32(n)[3]) as i32 == n,
        be_i32(n).len() == 4,
{
    lemma_be_u32_roundtrip(n as u32);
    assert((n as u32) as i32 == n) by (bit_vector);
}

/// Big-endian `u32` from four bytes (what `u32::from_be_bytes` computes).
pub fn u32_from_be(a: u8, b: u8, c: u8, d: u8) -> (r: u32)
    ensures
        r == u32_of_be(a, b, c, d),
{
    ((a as u32) << 24u32) | ((b as u32) << 16u32) | ((c as u32) << 8u32) | (d as u32)
}

/// Big-endian `u16` from two bytes (what `u16::from_be_bytes` computes).
pub fn u16_from_be(a: u8, b: u8) -> (r: u16)
    ensures
        r == u16_of_be(a, b),
{
    ((a as u16) << 8u16) | (b as u16)
}

/// Big-endian bytes of a `u32` (what `u32::to_be_bytes` computes).
pub fn u32_to_be(n: u32) -> (r: [u8; 4])
    ensures
        r@ == be_u32(n),
{
    let r = [
        (n >> 24u32) as u8,
        ((n >> 16u32) & 0xffu32) as u8,
        ((n >> 8u32) & 0xffu32) as u8,
        (n & 0xffu32) as u8,
    ];
    assert(r@ =~= be_u32(n));
    r
}

/// Big-endian bytes of a `u16` (what `u16::to_be_bytes` computes).
pub fn u16_to_be(n: u16) -> (r: [u8; 2])
    ensures
        r@ == be_u16(n),
{
    let r = [(n >> 8u16) as u8, (n & 0xffu16) as u8];
    assert(r@ =~= be_u16(n));
    r
}

/// `BytesMut::with_capacity`: an empty buffer with room for `capacity` bytes.
#[verifier::external_body]
pub(crate) fn buf_with_capacity(capacity: usize) -> (b: BytesMut)
    requires
        capacity <= buffer_limit(),
    ensures
        bytes_of(b) == Seq::<u8>::empty(),
{
    BytesMut::with_capacity(capacity)
}

/// `BytesMut::len`: the number of bytes held.
#[verifier::external_body]
pub(crate) fn buf_len(b: &BytesMut) -> (n: usize)
    ensures
        n == bytes_of(*b).len(),
{
    b.len()
}

/// Indexing a `BytesMut` (through its `Deref` to `[u8]`): the byte at `i`.
#[verifier::external_body]
pub(crate) fn buf_byte(b: &BytesMut, i: usize) -> (v: u8)
    requires
        i < bytes_of(*b).len(),
    ensures
        v == bytes_of(*b)[i as int],
{
    b[i]
}

/// `BytesMut::reserve`: makes room for more bytes; the contents stay as they were.
#[verifier::external_body]
pub(crate) fn buf_reserve(b: &mut BytesMut, additional: usize)
    requires
        bytes_of(*old(b)).len() + additional <= buffer_limit(),
    ensures
        bytes_of(*final(b)) == bytes_of(*old(b)),
{
    b.reserve(additional)
}

/// `Buf::advance` on a `BytesMut`: drops the first `count` bytes.
#[verifier::external_body]
pub(crate) fn buf_advance(b: &mut BytesMut, count: usize)
    requires
        count <= bytes_of(*old(b)).len(),
    ensures
        bytes_of(*final(b)) == bytes_of(*old(b)).skip(count as int),
{
    b.advance(count)
}

/// `BytesMut::split_to`: removes the first `at` bytes and returns them.
#[verifier::external_body]
pub(crate) fn buf_split_to(b: &mut BytesMut, at: usize) -> (head: BytesMut)
    requires
        at <= bytes_of(*old(b)).len(),
    ensures
        bytes_of(head) == bytes_of(*old(b)).take(at as int),
        bytes_of(*final(b)) == bytes_of(*old(b)).skip(at as int),
{
    b.split_to(at)
}

/// `BytesMut::extend_from_slice`: appends the bytes of `data`.
#[verifier::external_body]
pub(crate) fn buf_extend_from_slice(b: &mut BytesMut, data: &[u8])
    requires
        bytes_of(*old(b)).len() + data@.len() <= buffer_limit(),
    ensures
        bytes_of(*final(b)) == bytes_of(*old(b)) + data@,
{
    b.extend_from_slice(data)
}

/// `BufMut::put_slice` on a `BytesMut`: appends the bytes of `data`.
#[verifier::external_body]
pub(crate) fn buf_put_slice(b: &mut BytesMut, data: &[u8])
    requires
        bytes_of(*old(b)).len() + data@.len() <= buffer_limit(),
    ensures
        bytes_of(*final(b)) == bytes_of(*old(b)) + data@,
{
    b.put_slice(data)
}

/// `BufMut::put_u32` on a `BytesMut`: appends `n` in big-endian order.
#[verifier::external_body]
pub(crate) fn buf_put_u32(b: &mut BytesMut, n: u32)
    requires
        bytes_of(*old(b)).len() + 4 <= buffer_limit(),
    ensures
        bytes_of(*final(b)) == bytes_of(*old(b)) + be_u32(n),
{
    b.put_u32(n)
}

/// `BufMut::put_i32` on a `BytesMut`: appends `n` in big-endian two's complement.
#[verifier::external_body]
pub(crate) fn buf_put_i32(b: &mut BytesMut, n: i32)
    requires
        bytes_of(*old(b)).len() + 4 <= buffer_limit(),
    ensures
        bytes_of(*final(b)) == bytes_of(*old(b)) + be_i32(n),
{
    b.put_i32(n)
}

} // verus!
