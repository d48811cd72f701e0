//! The on-disk layout of a WAD archive, stated over the raw byte
//! sequence alone: where the header fields, directory entries and record
//! arrays live, and when they all fit inside the buffer. The decoder's
//! contracts are phrased in terms of these functions.

use crate::reader::{le_u32_at, strip_trailing_nuls};
use vstd::prelude::*;

verus! {

/// The expected 4-byte identification tag at the start of an archive:
/// the ASCII bytes of "WAD2".
pub open spec fn wad_tag() -> Seq<u8> {
    seq![87u8, 65u8, 68u8, 50u8]
}

/// The directory name of the vertex record lump: the ASCII bytes of
/// "VERTEXES".
pub open spec fn vertexes_lump_name() -> Seq<u8> {
    seq![86u8, 69u8, 82u8, 84u8, 69u8, 88u8, 69u8, 83u8]
}

/// The directory name of the line-definition record lump: the ASCII
/// bytes of "LINEDEFS".
pub open spec fn linedefs_lump_name() -> Seq<u8> {
    seq![76u8, 73u8, 78u8, 69u8, 68u8, 69u8, 70u8, 83u8]
}

/// The buffer is long enough to hold the 12-byte header.
pub open spec fn header_fits(b: Seq<u8>) -> bool {
    b.len() >= 12
}

/// The identification tag at offset 0, NUL padding stripped, is the
/// expected signature.
pub open spec fn tag_ok(b: Seq<u8>) -> bool {
    strip_trailing_nuls(b.subrange(0, 4)) == wad_tag()
}

/// The header's lump count, at offset 4.
pub open spec fn spec_numlumps(b: Seq<u8>) -> int {
    le_u32_at(b, 4)
}

/// The header's directory offset, at offset 8.
pub open spec fn spec_dirofs(b: Seq<u8>) -> int {
    le_u32_at(b, 8)
}

/// All `spec_numlumps(b)` 16-byte directory entries lie inside the buffer.
pub open spec fn directory_fits(b: Seq<u8>) -> bool {
    spec_dirofs(b) + 16 * spec_numlumps(b) <= b.len()
}

/// The file position field of the directory entry `i` of a directory
/// starting at byte offset `ofs`.
pub open spec fn dir_entry_filepos(b: Seq<u8>, ofs: int, i: int) -> int {
    le_u32_at(b, ofs + 16 * i)
}

/// The size field of the directory entry `i` of a directory starting at
/// byte offset `ofs`.
pub open spec fn dir_entry_size(b: Seq<u8>, ofs: int, i: int) -> int {
    le_u32_at(b, ofs + 16 * i + 4)
}

/// The name of the directory entry `i` of a directory starting at byte
/// offset `ofs`: 8 bytes with the trailing NUL padding stripped.
pub open spec fn dir_entry_name(b: Seq<u8>, ofs: int, i: int) -> Seq<u8> {
    strip_trailing_nuls(b.subrange(ofs + 16 * i + 8, ofs + 16 * i + 16))
}

/// The first index at or after `i`, among the `n` entries of the
/// directory starting at `ofs`, whose name is `name`; `-1` when no such
/// entry exists. On-disk order decides between duplicate names.
pub open spec fn spec_find_from(b: Seq<u8>, ofs: int, n: int, name: Seq<u8>, i: int) -> int
    decreases n - i,
{
    if i < 0 || i >= n {
        -1
    } else if dir_entry_name(b, ofs, i) == name {
        i
    } else {
        spec_find_from(b, ofs, n, name, i + 1)
    }
}

/// The index of the first directory entry of the archive named `name`,
/// or `-1` when absent.
pub open spec fn spec_find_lump(b: Seq<u8>, name: Seq<u8>) -> int {
    spec_find_from(b, spec_dirofs(b), spec_numlumps(b), name, 0)
}

/// The bytes of the directory entry `i` lie inside the buffer.
pub open spec fn lump_fits(b: Seq<u8>, ofs: int, i: int) -> bool {
    dir_entry_filepos(b, ofs, i) + dir_entry_size(b, ofs, i) <= b.len()
}

/// Either no directory entry is named `name`, or the first one so named
/// describes a byte range inside the buffer.
pub open spec fn named_lump_fits(b: Seq<u8>, name: Seq<u8>) -> bool {
    spec_find_lump(b, name) == -1 || lump_fits(b, spec_dirofs(b), spec_find_lump(b, name))
}

/// Every condition under which decoding a whole archive succeeds: the
/// header fits and carries the expected tag, the directory it declares
/// fits, and the vertex and line-definition lumps, where present, fit.
pub open spec fn wad_ok(b: Seq<u8>) -> bool {
    &&& header_fits(b)
    &&& tag_ok(b)
    &&& directory_fits(b)
    &&& named_lump_fits(b, vertexes_lump_name())
    &&& named_lump_fits(b, linedefs_lump_name())
}

} // verus!
