//! Framing of the socket protocol between this library and the core server: every message is
//! its JSON bytes behind a four-byte little-endian length.

use vstd::prelude::*;
use vstd::string::*;
use crate::common::bytes::{le32, push_le32, push_all};

verus! {

/// The number little-endian bytes `b0..b3` encode.
pub open spec fn le32_value(b0: u8, b1: u8, b2: u8, b3: u8) -> nat {
    b0 as nat + 256 * (b1 as nat) + 65536 * (b2 as nat) + 16777216 * (b3 as nat)
}

/// A framed message: the payload's length as four little-endian bytes, then the payload.
pub open spec fn framed(payload: Seq<u8>) -> Seq<u8> {
    le32(payload.len() as u32) + payload
}

/// The length a buffer's prefix announces.
pub open spec fn announced_len(buf: Seq<u8>) -> nat {
    le32_value(buf[0], buf[1], buf[2], buf[3])
}

/// Whether a buffer holds a whole frame at its start.
pub open spec fn holds_frame(buf: Seq<u8>) -> bool {
    buf.len() >= 4 && buf.len() >= 4 + announced_len(buf)
}

/// The four little-endian bytes of a word encode that word.
pub proof fn lemma_le32_value(x: u32)
    ensures
        le32_value(le32(x)[0], le32(x)[1], le32(x)[2], le32(x)[3]) == x,
{
    let b = le32(x);
    assert(b[0] == x % 256);
    assert(b[1] == (x / 256) % 256);
    assert(b[2] == (x / 0x10000) % 256);
    assert(b[3] == x / 0x1000000);
    assert(x % 256 + 256 * ((x / 256) % 256) + 65536 * ((x / 0x10000) % 256) + 16777216 * (x / 0x1000000) == x) by (nonlinear_arith);
}

/// Frames a payload: its length as four little-endian bytes, then the payload.
pub fn frame_message(payload: &[u8]) -> (r: Vec<u8>)
    requires
        payload@.len() <= u32::MAX,
    ensures
        r@ == framed(payload@),
{
    let len = payload.len() as u32;
    let mut buf: Vec<u8> = Vec::new();
    push_le32(&mut buf, len);
    push_all(&mut buf, payload);
    proof {
        assert(buf@ =~= framed(payload@));
    }
    buf
}

/// Finds the frame at the start of a buffer: the payload lies between the returned
/// positions and the rest of the buffer begins at the second. A buffer shorter than the
/// prefix, or than the payload it announces, is refused.
pub fn split_frame(buf: &[u8]) -> (r: Result<(usize, usize), String>)
    ensures
        buf@.len() < 4 ==> (r matches Err(e) && e@ == "Buffer too short for length prefix"@),
        buf@.len() >= 4 && !holds_frame(buf@) ==> (r matches Err(e) && e@ == "Buffer too short for payload"@),
        holds_frame(buf@) ==> r == Ok::<(usize, usize), String>((4usize, (4 + announced_len(buf@)) as usize)),
{
    if buf.len() < 4 {
        return Err(String::from_str("Buffer too short for length prefix"));
    }
    let len: u64 = buf[0] as u64 + 256 * (buf[1] as u64) + 65536 * (buf[2] as u64) + 16777216 * (buf[3] as u64);
    if (buf.len() as u64) < 4 + len {
        return Err(String::from_str("Buffer too short for payload"));
    }
    Ok((4, 4 + len as usize))
}

/// A frame followed by anything is split back into the payload and what follows.
pub proof fn lemma_split_after_frame(payload: Seq<u8>, rest: Seq<u8>)
    requires
        payload.len() <= u32::MAX,
    ensures
        holds_frame(framed(payload) + rest),
        announced_len(framed(payload) + rest) == payload.len(),
        (framed(payload) + rest).subrange(4, 4 + payload.len() as int) == payload,
        (framed(payload) + rest).subrange(4 + payload.len() as int, (framed(payload) + rest).len() as int) == rest,
{
    let x = payload.len() as u32;
    lemma_le32_value(x);
    let buf = framed(payload) + rest;
    assert(buf[0] == le32(x)[0] && buf[1] == le32(x)[1] && buf[2] == le32(x)[2] && buf[3] == le32(x)[3]);
    assert(buf.subrange(4, 4 + payload.len() as int) =~= payload);
    assert(buf.subrange(4 + payload.len() as int, buf.len() as int) =~= rest);
}

} // verus!
