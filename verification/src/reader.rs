//! Byte cursor reader: offset-tracked extraction of fixed-width
//! little-endian integers and fixed-length NUL-padded byte strings from a
//! byte buffer. This is the single point where endianness and bounds
//! checking are enforced; every read checks the remaining length before
//! indexing and advances the cursor by exactly the bytes it consumed.

use crate::WadError;
use vstd::prelude::*;

verus! {

/// The unsigned 16-bit little-endian value stored at `off`.
pub open spec fn le_u16_at(b: Seq<u8>, off: int) -> int
    recommends
        0 <= off,
        off + 2 <= b.len(),
{
    b[off] + 256 * b[off + 1]
}

/// The signed 16-bit little-endian (two's complement) value stored at `off`.
pub open spec fn le_i16_at(b: Seq<u8>, off: int) -> int
    recommends
        0 <= off,
        off + 2 <= b.len(),
{
    if le_u16_at(b, off) >= 32768 {
        le_u16_at(b, off) - 65536
    } else {
        le_u16_at(b, off)
    }
}

/// The unsigned 32-bit little-endian value stored at `off`.
pub open spec fn le_u32_at(b: Seq<u8>, off: int) -> int
    recommends
        0 <= off,
        off + 4 <= b.len(),
{
    b[off] + 256 * b[off + 1] + 65536 * b[off + 2] + 16777216 * b[off + 3]
}

/// `s` with its trailing NUL padding bytes removed.
pub open spec fn strip_trailing_nuls(s: Seq<u8>) -> Seq<u8>
    decreases s.len(),
{
    if s.len() > 0 && s[s.len() - 1] == 0 {
        strip_trailing_nuls(s.drop_last())
    } else {
        s
    }
}

/// Stripping padding never lengthens a string, and what remains is a
/// prefix of the unstripped bytes.
pub proof fn lemma_strip_trailing_nuls_prefix(s: Seq<u8>)
    ensures
        strip_trailing_nuls(s).len() <= s.len(),
        strip_trailing_nuls(s) == s.subrange(0, strip_trailing_nuls(s).len() as int),
    decreases s.len(),
{
    if s.len() > 0 && s[s.len() - 1] == 0 {
        lemma_strip_trailing_nuls_prefix(s.drop_last());
        assert(s.drop_last().subrange(0, strip_trailing_nuls(s.drop_last()).len() as int)
            =~= s.subrange(0, strip_trailing_nuls(s.drop_last()).len() as int));
    } else {
        assert(s.subrange(0, s.len() as int) =~= s);
    }
}

/// Reads the little-endian u32 at `*pos`, advancing the cursor by 4.
/// Fails with `OutOfBounds`, leaving the cursor unmoved, when fewer than
/// 4 bytes remain.
pub fn read_u32_le(buf: &[u8], pos: &mut usize) -> (r: Result<u32, WadError>)
    ensures
        match r {
            Ok(v) => *old(pos) + 4 <= buf@.len() && *final(pos) == *old(pos) + 4 && v as int
                == le_u32_at(buf@, *old(pos) as int),
            Err(e) => e == WadError::OutOfBounds && *old(pos) + 4 > buf@.len() && *final(pos)
                == *old(pos),
        },
{
    if buf.len() < 4 || *pos > buf.len() - 4 {
        return Err(WadError::OutOfBounds);
    }
    let b0 = buf[*pos] as u32;
    let b1 = buf[*pos + 1] as u32;
    let b2 = buf[*pos + 2] as u32;
    let b3 = buf[*pos + 3] as u32;
    *pos = *pos + 4;
    Ok(b0 + 256 * b1 + 65536 * b2 + 16777216 * b3)
}

/// Reads the little-endian i16 at `*pos`, advancing the cursor by 2.
/// Fails with `OutOfBounds`, leaving the cursor unmoved, when fewer than
/// 2 bytes remain.
pub fn read_i16_le(buf: &[u8], pos: &mut usize) -> (r: Result<i16, WadError>)
    ensures
        match r {
            Ok(v) => *old(pos) + 2 <= buf@.len() && *final(pos) == *old(pos) + 2 && v as int
                == le_i16_at(buf@, *old(pos) as int),
            Err(e) => e == WadError::OutOfBounds && *old(pos) + 2 > buf@.len() && *final(pos)
                == *old(pos),
        },
{
    if buf.len() < 2 || *pos > buf.len() - 2 {
        return Err(WadError::OutOfBounds);
    }
    let b0 = buf[*pos] as i32;
    let b1 = buf[*pos + 1] as i32;
    let unsigned: i32 = b0 + 256 * b1;
    let signed: i32 = if unsigned >= 32768 {
        unsigned - 65536
    } else {
        unsigned
    };
    *pos = *pos + 2;
    Ok(signed as i16)
}

/// Reads exactly `len` bytes at `*pos` as a fixed-length string, strips
/// the trailing NUL padding, and advances the cursor by `len`. Fails with
/// `OutOfBounds`, leaving the cursor unmoved, when fewer than `len` bytes
/// remain.
pub fn read_fixed_string(buf: &[u8], pos: &mut usize, len: usize) -> (r: Result<
    Vec<u8>,
    WadError,
>)
    ensures
        match r {
            Ok(name) => *old(pos) + len <= buf@.len() && *final(pos) == *old(pos) + len && name@
                == strip_trailing_nuls(
                buf@.subrange(*old(pos) as int, *old(pos) + len),
            ),
            Err(e) => e == WadError::OutOfBounds && *old(pos) + len > buf@.len() && *final(pos)
                == *old(pos),
        },
{
    if *pos > buf.len() || len > buf.len() - *pos {
        return Err(WadError::OutOfBounds);
    }
    let ghost whole: Seq<u8> = buf@.subrange(*pos as int, *pos + len);
    let n: usize = buf.len();
    let mut name: Vec<u8> = Vec::new();
    let mut i: usize = 0;
    while i < len
        invariant
            i <= len,
            *pos + len <= n,
            n == buf@.len(),
            name@ == whole.subrange(0, i as int),
            whole == buf@.subrange(*pos as int, *pos + len),
        decreases len - i,
    {
        name.push(buf[*pos + i]);
        i = i + 1;
        assert(name@ =~= whole.subrange(0, i as int));
    }
    assert(name@ =~= whole);
    while name.len() > 0 && name[name.len() - 1] == 0
        invariant
            strip_trailing_nuls(name@) == strip_trailing_nuls(whole),
        decreases name.len(),
    {
        name.pop();
    }
    assert(name@ == strip_trailing_nuls(name@));
    *pos = *pos + len;
    Ok(name)
}

} // verus!
