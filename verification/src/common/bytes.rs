//! Byte-level encoders used by the device protocol.

use vstd::prelude::*;

verus! {

/// Big-endian bytes of a 16-bit word (`u16::to_be_bytes`).
pub open spec fn be16(x: u16) -> Seq<u8> {
    seq![(x / 256) as u8, (x % 256) as u8]
}

/// Little-endian bytes of a 16-bit word (`u16::to_le_bytes`).
pub open spec fn le16(x: u16) -> Seq<u8> {
    seq![(x % 256) as u8, (x / 256) as u8]
}

/// Big-endian bytes of a 32-bit word (`u32::to_be_bytes`).
pub open spec fn be32(x: u32) -> Seq<u8> {
    seq![
        (x / 0x1000000) as u8,
        ((x / 0x10000) % 256) as u8,
        ((x / 256) % 256) as u8,
        (x % 256) as u8,
    ]
}

/// Little-endian bytes of a 32-bit word (`u32::to_le_bytes`).
pub open spec fn le32(x: u32) -> Seq<u8> {
    seq![
        (x % 256) as u8,
        ((x / 256) % 256) as u8,
        ((x / 0x10000) % 256) as u8,
        (x / 0x1000000) as u8,
    ]
}

/// Two's-complement 16-bit pattern of a signed value (`x as u16`).
pub open spec fn i16_bits(x: i16) -> u16 {
    if x < 0 {
        (x + 65536) as u16
    } else {
        x as u16
    }
}

pub fn i16_to_bits(x: i16) -> (r: u16)
    ensures
        r == i16_bits(x),
{
    if x < 0 {
        (x as i32 + 65536) as u16
    } else {
        x as u16
    }
}

pub fn push_be16(v: &mut Vec<u8>, x: u16)
    ensures
        final(v)@ == old(v)@ + be16(x),
{
    v.push((x / 256) as u8);
    v.push((x % 256) as u8);
    proof {
        assert(final(v)@ =~= old(v)@ + be16(x));
    }
}

pub fn push_le16(v: &mut Vec<u8>, x: u16)
    ensures
        final(v)@ == old(v)@ + le16(x),
{
    v.push((x % 256) as u8);
    v.push((x / 256) as u8);
    proof {
        assert(final(v)@ =~= old(v)@ + le16(x));
    }
}

pub fn push_be32(v: &mut Vec<u8>, x: u32)
    ensures
        final(v)@ == old(v)@ + be32(x),
{
    v.push((x / 0x1000000) as u8);
    v.push(((x / 0x10000) % 256) as u8);
    v.push(((x / 256) % 256) as u8);
    v.push((x % 256) as u8);
    proof {
        assert(final(v)@ =~= old(v)@ + be32(x));
    }
}

pub fn push_le32(v: &mut Vec<u8>, x: u32)
    ensures
        final(v)@ == old(v)@ + le32(x),
{
    v.push((x % 256) as u8);
    v.push(((x / 256) % 256) as u8);
    v.push(((x / 0x10000) % 256) as u8);
    v.push((x / 0x1000000) as u8);
    proof {
        assert(final(v)@ =~= old(v)@ + le32(x));
    }
}

/// Appends a copy of `src`.
pub fn push_all(dst: &mut Vec<u8>, src: &[u8])
    ensures
        final(dst)@ == old(dst)@ + src@,
{
    let mut i: usize = 0;
    while i < src.len()
        invariant
            i <= src.len(),
            dst@ == old(dst)@ + src@.subrange(0, i as int),
        decreases src.len() - i,
    {
        dst.push(src[i]);
        i = i + 1;
        proof {
            assert(dst@ =~= old(dst)@ + src@.subrange(0, i as int));
        }
    }
    proof {
        assert(src@.subrange(0, src@.len() as int) =~= src@);
    }
}

/// The first 16 bytes of `b`, zero-padded to 16.
pub open spec fn pad16(b: Seq<u8>) -> Seq<u8> {
    Seq::new(16, |i: int| if i < b.len() { b[i] } else { 0u8 })
}

/// Appends `pad16(src)`.
pub fn push_pad16(dst: &mut Vec<u8>, src: &[u8])
    ensures
        final(dst)@ == old(dst)@ + pad16(src@),
{
    let mut i: usize = 0;
    while i < 16
        invariant
            i <= 16,
            dst@ == old(dst)@ + pad16(src@).subrange(0, i as int),
        decreases 16 - i,
    {
        if i < src.len() {
            dst.push(src[i]);
        } else {
            dst.push(0);
        }
        i = i + 1;
        proof {
            assert(dst@ =~= old(dst)@ + pad16(src@).subrange(0, i as int));
        }
    }
    proof {
        assert(pad16(src@).subrange(0, 16) =~= pad16(src@));
    }
}

} // verus!
