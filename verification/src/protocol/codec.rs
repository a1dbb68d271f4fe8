//! Length-prefixed frames: `[4 bytes: payload length (big-endian u32)][payload]`.
//!
//! The payload is the bincode encoding of a message; turning messages into
//! payload bytes and back is left to the caller, this codec frames and checks bytes.
use crate::buffer::{
    be_u32, buf_byte, buf_extend_from_slice, buf_len, buf_put_u32, buf_advance, buf_reserve,
    buf_split_to, buffer_limit, bytes_of, lemma_be_u32_roundtrip, read_be_u32, u32_from_be,
};
use crate::error::WolfUsbError;
use bytes::BytesMut;
use vstd::prelude::*;

verus! {

/// The largest payload a frame may carry: 16 MiB.
pub const MAX_FRAME_SIZE: u32 = 16 * 1024 * 1024;

/// The size of the length prefix.
pub const LENGTH_PREFIX_SIZE: usize = 4;

pub struct WolfUsbCodec;

/// What a decoder makes of the bytes received so far.
pub enum FrameOutcome {
    /// Not a whole frame yet: wait for more bytes.
    Incomplete,
    /// The length prefix announces more than `MAX_FRAME_SIZE`.
    TooLarge(u32),
    /// A whole frame: its payload, and the bytes after it.
    Frame(Seq<u8>, Seq<u8>),
}

/// How the received bytes `s` begin.
pub open spec fn spec_decode_frame(s: Seq<u8>) -> FrameOutcome {
    if s.len() < 4 {
        FrameOutcome::Incomplete
    } else {
        let length = read_be_u32(s, 0);
        if length > MAX_FRAME_SIZE {
            FrameOutcome::TooLarge(length)
        } else if s.len() < 4 + length {
            FrameOutcome::Incomplete
        } else {
            FrameOutcome::Frame(s.subrange(4, 4 + length), s.skip(4 + length))
        }
    }
}

/// The frame that carries `payload`: its length as a `u32`, big-endian, then the bytes.
pub open spec fn frame_bytes(payload: Seq<u8>) -> Seq<u8> {
    be_u32(payload.len() as u32) + payload
}

impl WolfUsbCodec {
    /// Takes one frame off the front of `src`, if a whole one is there.
    ///
    /// `Ok(None)` while the frame is incomplete (the bytes stay where they are);
    /// an error, with `src` untouched, when the length prefix exceeds `MAX_FRAME_SIZE`;
    /// otherwise the payload, removed from `src` with its prefix.
    pub fn decode_frame(&mut self, src: &mut BytesMut) -> (r: Result<Option<BytesMut>, WolfUsbError>)
        ensures
            match spec_decode_frame(bytes_of(*old(src))) {
                FrameOutcome::Incomplete => r matches Ok(None) && bytes_of(*final(src)) == bytes_of(
                    *old(src),
                ),
                FrameOutcome::TooLarge(size) => r matches Err(
                    WolfUsbError::FrameTooLarge { size: s, max: m },
                ) && s == size && m == MAX_FRAME_SIZE && bytes_of(*final(src)) == bytes_of(*old(src)),
                FrameOutcome::Frame(payload, rest) => r matches Ok(Some(p)) && bytes_of(p)
                    == payload && bytes_of(*final(src)) == rest,
            },
    {
        // Need at least 4 bytes for the length prefix
        if buf_len(src) < LENGTH_PREFIX_SIZE {
            return Ok(None);
        }
        // Peek at the length without consuming
        let length = u32_from_be(buf_byte(src, 0), buf_byte(src, 1), buf_byte(src, 2), buf_byte(src, 3));
        if length > MAX_FRAME_SIZE {
            return Err(WolfUsbError::FrameTooLarge { size: length, max: MAX_FRAME_SIZE });
        }
        let total_frame_size = LENGTH_PREFIX_SIZE + length as usize;
        // Wait for the full frame
        let have = buf_len(src);
        if have < total_frame_size {
            buf_reserve(src, total_frame_size - have);
            return Ok(None);
        }
        let ghost whole = bytes_of(*src);
        // Consume the length prefix
        buf_advance(src, LENGTH_PREFIX_SIZE);
        // Take the payload bytes
        let payload = buf_split_to(src, length as usize);
        assert(bytes_of(payload) =~= whole.subrange(4, 4 + length));
        assert(bytes_of(*src) =~= whole.skip(4 + length));
        Ok(Some(payload))
    }

    /// Appends the frame of `payload` to `dst`; a payload longer than
    /// `MAX_FRAME_SIZE` is refused and `dst` is left as it was. The error gives
    /// the payload's length (at most `u32::MAX`, where it is longer still).
    pub fn encode_frame(&mut self, payload: &[u8], dst: &mut BytesMut) -> (r: Result<(), WolfUsbError>)
        requires
            bytes_of(*old(dst)).len() + 4 + payload@.len() <= buffer_limit(),
        ensures
            payload@.len() > MAX_FRAME_SIZE ==> (r matches Err(
                WolfUsbError::FrameTooLarge { size: s, max: m },
            ) && s == reported_size(payload@.len()) && m == MAX_FRAME_SIZE && bytes_of(
                *final(dst),
            ) == bytes_of(*old(dst))),
            payload@.len() <= MAX_FRAME_SIZE ==> (r is Ok && bytes_of(*final(dst)) == bytes_of(
                *old(dst),
            ) + frame_bytes(payload@)),
    {
        if payload.len() > MAX_FRAME_SIZE as usize {
            let size: u32 = if payload.len() > u32::MAX as usize {
                u32::MAX
            } else {
                payload.len() as u32
            };
            return Err(WolfUsbError::FrameTooLarge { size, max: MAX_FRAME_SIZE });
        }
        let length = payload.len() as u32;
        buf_reserve(dst, LENGTH_PREFIX_SIZE + payload.len());
        buf_put_u32(dst, length);
        buf_extend_from_slice(dst, payload);
        Ok(())
    }
}

/// The size an oversized-frame error reports for a payload of `len` bytes:
/// the length itself, or `u32::MAX` where it does not fit.
pub open spec fn reported_size(len: nat) -> u32 {
    if len > u32::MAX {
        u32::MAX
    } else {
        len as u32
    }
}

/// A frame read back gives the payload that was framed, whatever follows it:
/// for every payload up to `MAX_FRAME_SIZE` bytes, decoding `frame_bytes(payload)`
/// followed by any bytes `rest` yields `payload` and leaves `rest`.
pub proof fn lemma_frame_roundtrip(payload: Seq<u8>, rest: Seq<u8>)
    requires
        payload.len() <= MAX_FRAME_SIZE,
    ensures
        spec_decode_frame(frame_bytes(payload) + rest) == FrameOutcome::Frame(payload, rest),
{
    let s = frame_bytes(payload) + rest;
    let n = payload.len() as u32;
    lemma_be_u32_roundtrip(n);
    assert(s[0] == be_u32(n)[0]);
    assert(s[1] == be_u32(n)[1]);
    assert(s[2] == be_u32(n)[2]);
    assert(s[3] == be_u32(n)[3]);
    assert(read_be_u32(s, 0) == n);
    assert(s.subrange(4, 4 + n) =~= payload);
    assert(s.skip(4 + n) =~= rest);
}

/// A prefix of a frame is never mistaken for a frame: every proper prefix of
/// `frame_bytes(payload)` is incomplete, so the decoder waits for the rest.
pub proof fn lemma_frame_prefix_incomplete(payload: Seq<u8>, k: int)
    requires
        payload.len() <= MAX_FRAME_SIZE,
        0 <= k < frame_bytes(payload).len(),
    ensures
        spec_decode_frame(frame_bytes(payload).take(k)) == FrameOutcome::Incomplete,
{
    let s = frame_bytes(payload).take(k);
    let n = payload.len() as u32;
    lemma_be_u32_roundtrip(n);
    if k >= 4 {
        assert(s[0] == be_u32(n)[0]);
        assert(s[1] == be_u32(n)[1]);
        assert(s[2] == be_u32(n)[2]);
        assert(s[3] == be_u32(n)[3]);
        assert(read_be_u32(s, 0) == n);
    }
}

} // verus!
