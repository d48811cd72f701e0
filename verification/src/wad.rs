//! Archive decoder and record extractor: reads the 12-byte header, the
//! directory of lump descriptors it points to, and the fixed-width vertex
//! and line-definition record arrays that the directory addresses.

use crate::layout::{
    dir_entry_filepos, dir_entry_name, dir_entry_size, directory_fits, header_fits,
    linedefs_lump_name, named_lump_fits, spec_dirofs, spec_find_from, spec_find_lump,
    spec_numlumps, tag_ok, vertexes_lump_name, wad_ok, wad_tag,
};
use crate::reader::{
    le_i16_at, le_u32_at, read_fixed_string, read_i16_le, read_u32_le, strip_trailing_nuls,
};
use crate::WadError;
use vstd::prelude::*;

verus! {

/// The archive header: identification tag, lump count, and the byte
/// offset of the directory.
#[derive(Debug)]
pub struct WadInfo {
    /// The 4-byte identification tag, NUL padding stripped.
    pub identification: Vec<u8>,
    /// How many 16-byte entries the directory holds.
    pub numlumps: u32,
    /// Byte offset of the first directory entry.
    pub infotableofs: u32,
}

/// One directory entry: a named, offset-addressed chunk of bytes
/// ("lump") inside the archive.
#[derive(Debug)]
pub struct FileLump {
    /// Byte offset of the lump's first byte.
    pub filepos: u32,
    /// Length of the lump in bytes.
    pub size: u32,
    /// The lump's name: at most 8 bytes, trailing NUL padding stripped,
    /// case-sensitive.
    pub name: Vec<u8>,
}

/// A 2D map coordinate decoded from a 4-byte vertex record.
#[derive(Clone, Copy, Debug, PartialEq, Eq, Structural)]
pub struct Vertex {
    pub x: i16,
    pub y: i16,
}

/// A wall segment decoded from a 14-byte line-definition record. `v1`
/// and `v2` index the vertex sequence; a sidedef field of -1 means no
/// sidedef on that side (a one-sided wall).
#[derive(Clone, Copy, Debug, PartialEq, Eq, Structural)]
pub struct Linedef {
    pub v1: i16,
    pub v2: i16,
    pub flags: i16,
    pub special: i16,
    pub tag: i16,
    pub right_sidedef: i16,
    pub left_sidedef: i16,
}

/// `h` holds exactly the header fields stored in the first 12 bytes of
/// `b`.
pub open spec fn is_header_of(h: WadInfo, b: Seq<u8>) -> bool {
    &&& h.identification@ == strip_trailing_nuls(b.subrange(0, 4))
    &&& h.numlumps as int == spec_numlumps(b)
    &&& h.infotableofs as int == spec_dirofs(b)
}

/// `dir` holds exactly the `n` directory entries stored in `b` from byte
/// offset `ofs` on, in on-disk order; every decoded name is at most the
/// 8 stored bytes long.
pub open spec fn is_directory_of(dir: Seq<FileLump>, b: Seq<u8>, ofs: int, n: int) -> bool {
    &&& dir.len() == n
    &&& forall|i: int|
        0 <= i < n ==> {
            &&& (#[trigger] dir[i]).filepos as int == dir_entry_filepos(b, ofs, i)
            &&& dir[i].size as int == dir_entry_size(b, ofs, i)
            &&& dir[i].name@ == dir_entry_name(b, ofs, i)
            &&& dir[i].name@.len() <= 8
        }
}

/// Copies a byte slice into a fresh vector.
fn copy_bytes(a: &[u8]) -> (r: Vec<u8>)
    ensures
        r@ == a@,
{
    let n: usize = a.len();
    let mut r: Vec<u8> = Vec::new();
    let mut i: usize = 0;
    while i < n
        invariant
            i <= n,
            n == a@.len(),
            r@ == a@.subrange(0, i as int),
        decreases n - i,
    {
        r.push(a[i]);
        i = i + 1;
        assert(r@ =~= a@.subrange(0, i as int));
    }
    assert(r@ =~= a@);
    r
}

/// Compares two byte strings for exact equality.
fn bytes_eq(a: &[u8], b: &[u8]) -> (r: bool)
    ensures
        r <==> a@ == b@,
{
    let n: usize = a.len();
    if n != b.len() {
        return false;
    }
    let mut i: usize = 0;
    while i < n
        invariant
            i <= n,
            n == a@.len(),
            n == b@.len(),
            forall|j: int| 0 <= j < i ==> a@[j] == b@[j],
        decreases n - i,
    {
        if a[i] != b[i] {
            return false;
        }
        i = i + 1;
    }
    proof {
        assert(a@ =~= b@);
    }
    true
}

/// The name of the vertex record lump, "VERTEXES", as a byte vector.
pub fn vertexes_name() -> (r: Vec<u8>)
    ensures
        r@ == vertexes_lump_name(),
{
    let mut r: Vec<u8> = Vec::new();
    r.push(86);
    r.push(69);
    r.push(82);
    r.push(84);
    r.push(69);
    r.push(88);
    r.push(69);
    r.push(83);
    proof {
        assert(r@ =~= vertexes_lump_name());
    }
    r
}

/// The name of the line-definition record lump, "LINEDEFS", as a byte
/// vector.
pub fn linedefs_name() -> (r: Vec<u8>)
    ensures
        r@ == linedefs_lump_name(),
{
    let mut r: Vec<u8> = Vec::new();
    r.push(76);
    r.push(73);
    r.push(78);
    r.push(69);
    r.push(68);
    r.push(69);
    r.push(70);
    r.push(83);
    proof {
        assert(r@ =~= linedefs_lump_name());
    }
    r
}

/// The expected identification tag, "WAD2", as a byte vector.
pub fn wad_tag_bytes() -> (r: Vec<u8>)
    ensures
        r@ == wad_tag(),
{
    let mut r: Vec<u8> = Vec::new();
    r.push(87);
    r.push(65);
    r.push(68);
    r.push(50);
    proof {
        assert(r@ =~= wad_tag());
    }
    r
}

/// Decodes the archive header at offset 0: the 4-byte tag, then the lump
/// count and the directory offset as little-endian u32. Fails with
/// `OutOfBounds` on a buffer shorter than 12 bytes and with
/// `InvalidHeader` when the tag is not the expected signature.
pub fn decode_header(buf: &[u8]) -> (r: Result<WadInfo, WadError>)
    ensures
        match r {
            Ok(h) => header_fits(buf@) && tag_ok(buf@) && is_header_of(h, buf@),
            Err(e) => {
                &&& (e == WadError::OutOfBounds || e == WadError::InvalidHeader)
                &&& (e == WadError::OutOfBounds <==> !header_fits(buf@))
                &&& (e == WadError::InvalidHeader <==> header_fits(buf@) && !tag_ok(buf@))
            },
        },
{
    let mut pos: usize = 0;
    let identification = match read_fixed_string(buf, &mut pos, 4) {
        Ok(t) => t,
        Err(e) => {
            return Err(e);
        },
    };
    let numlumps = match read_u32_le(buf, &mut pos) {
        Ok(v) => v,
        Err(e) => {
            return Err(e);
        },
    };
    let infotableofs = match read_u32_le(buf, &mut pos) {
        Ok(v) => v,
        Err(e) => {
            return Err(e);
        },
    };
    let expected = wad_tag_bytes();
    if !bytes_eq(identification.as_slice(), expected.as_slice()) {
        return Err(WadError::InvalidHeader);
    }
    Ok(WadInfo { identification, numlumps, infotableofs })
}

/// Decodes the directory that `info` declares: `info.numlumps`
/// consecutive 16-byte entries starting at byte `info.infotableofs`,
/// in on-disk order. Fails with `OutOfBounds` exactly when that table
/// runs past the end of the buffer.
pub fn decode_directory(buf: &[u8], info: &WadInfo) -> (r: Result<Vec<FileLump>, WadError>)
    ensures
        match r {
            Ok(dir) => info.infotableofs + 16 * info.numlumps <= buf@.len() && is_directory_of(
                dir@,
                buf@,
                info.infotableofs as int,
                info.numlumps as int,
            ),
            Err(e) => e == WadError::OutOfBounds && info.infotableofs + 16 * info.numlumps
                > buf@.len(),
        },
{
    let len64: u64 = buf.len() as u64;
    if (info.infotableofs as u64) + 16u64 * (info.numlumps as u64) > len64 {
        return Err(WadError::OutOfBounds);
    }
    let n: usize = info.numlumps as usize;
    let mut pos: usize = info.infotableofs as usize;
    let mut dir: Vec<FileLump> = Vec::new();
    let mut i: usize = 0;
    while i < n
        invariant
            i <= n,
            n == info.numlumps as int,
            info.infotableofs + 16 * info.numlumps <= buf@.len(),
            pos == info.infotableofs + 16 * i,
            dir@.len() == i,
            forall|j: int|
                0 <= j < i ==> {
                    &&& (#[trigger] dir@[j]).filepos as int == dir_entry_filepos(
                        buf@,
                        info.infotableofs as int,
                        j,
                    )
                    &&& dir@[j].size as int == dir_entry_size(buf@, info.infotableofs as int, j)
                    &&& dir@[j].name@ == dir_entry_name(buf@, info.infotableofs as int, j)
                    &&& dir@[j].name@.len() <= 8
                },
        decreases n - i,
    {
        let filepos = match read_u32_le(buf, &mut pos) {
            Ok(v) => v,
            Err(e) => {
                return Err(e);
            },
        };
        let size = match read_u32_le(buf, &mut pos) {
            Ok(v) => v,
            Err(e) => {
                return Err(e);
            },
        };
        let name = match read_fixed_string(buf, &mut pos, 8) {
            Ok(v) => v,
            Err(e) => {
                return Err(e);
            },
        };
        proof {
            crate::reader::lemma_strip_trailing_nuls_prefix(
                buf@.subrange(
                    info.infotableofs + 16 * (i as int) + 8,
                    info.infotableofs + 16 * (i as int) + 16,
                ),
            );
        }
        dir.push(FileLump { filepos, size, name });
        i = i + 1;
    }
    Ok(dir)
}

/// The first index at or after `i` whose entry is named `name`, `-1`
/// when no entry from `i` on is.
pub open spec fn first_match_from(dir: Seq<FileLump>, name: Seq<u8>, i: int) -> int
    decreases dir.len() - i,
{
    if i < 0 || i >= dir.len() {
        -1
    } else if dir[i].name@ == name {
        i
    } else {
        first_match_from(dir, name, i + 1)
    }
}

/// The index of the first entry of `dir` named `name`, `-1` when absent.
pub open spec fn first_match_idx(dir: Seq<FileLump>, name: Seq<u8>) -> int {
    first_match_from(dir, name, 0)
}

/// What the first-match index means: `-1` exactly when no entry at or
/// after `i` carries the name; otherwise it points at an entry with the
/// name and every earlier candidate's name differs — on-disk precedence.
pub proof fn lemma_first_match_from_props(dir: Seq<FileLump>, name: Seq<u8>, i: int)
    requires
        0 <= i <= dir.len(),
    ensures
        ({
            let r = first_match_from(dir, name, i);
            &&& r == -1 ==> forall|j: int| i <= j < dir.len() ==> (#[trigger] dir[j]).name@ != name
            &&& r != -1 ==> i <= r < dir.len() && dir[r].name@ == name && forall|j: int|
                i <= j < r ==> (#[trigger] dir[j]).name@ != name
        }),
    decreases dir.len() - i,
{
    if i < dir.len() && dir[i].name@ != name {
        lemma_first_match_from_props(dir, name, i + 1);
    }
}

/// When `dir` is the directory stored in `b`, searching the decoded
/// entries and searching the bytes agree on the first match.
pub proof fn lemma_first_match_agrees(
    dir: Seq<FileLump>,
    b: Seq<u8>,
    ofs: int,
    name: Seq<u8>,
    i: int,
)
    requires
        is_directory_of(dir, b, ofs, dir.len() as int),
        0 <= i <= dir.len(),
    ensures
        first_match_from(dir, name, i) == spec_find_from(b, ofs, dir.len() as int, name, i),
    decreases dir.len() - i,
{
    if i < dir.len() && dir[i].name@ != name {
        lemma_first_match_agrees(dir, b, ofs, name, i + 1);
    }
}

/// Linear scan of the directory for the first entry named `name` —
/// exactly, case-sensitively. Returns a copy of the first match in
/// on-disk order, or nothing when the name is absent, which is a normal
/// outcome and not an error.
pub fn find_lump(dir: &Vec<FileLump>, name: &[u8]) -> (r: Option<FileLump>)
    ensures
        ({
            let idx = first_match_idx(dir@, name@);
            match r {
                Some(l) => {
                    &&& 0 <= idx < dir@.len()
                    &&& l.filepos == dir@[idx].filepos
                    &&& l.size == dir@[idx].size
                    &&& l.name@ == dir@[idx].name@
                },
                None => idx == -1,
            }
        }),
{
    let n: usize = dir.len();
    let mut i: usize = 0;
    while i < n
        invariant
            i <= n,
            n == dir@.len(),
            forall|j: int| 0 <= j < i ==> (#[trigger] dir@[j]).name@ != name@,
        decreases n - i,
    {
        let l = &dir[i];
        if bytes_eq(l.name.as_slice(), name) {
            proof {
                lemma_first_match_from_props(dir@, name@, 0);
            }
            return Some(FileLump { filepos: l.filepos, size: l.size, name: copy_bytes(
                l.name.as_slice(),
            ) });
        }
        i = i + 1;
    }
    proof {
        lemma_first_match_from_props(dir@, name@, 0);
    }
    None
}

/// `vs` holds exactly the 4-byte vertex records stored in `b` from byte
/// `pos` on, as many as fit in `size` bytes — `size / 4`, integer
/// division, any remainder bytes left unread — and every record is read
/// from inside the lump's `size` bytes, never past them.
pub open spec fn is_vertex_records(vs: Seq<Vertex>, b: Seq<u8>, pos: int, size: int) -> bool {
    &&& vs.len() == size / 4
    &&& forall|i: int|
        0 <= i < vs.len() ==> {
            &&& (#[trigger] vs[i]).x as int == le_i16_at(b, pos + 4 * i)
            &&& vs[i].y as int == le_i16_at(b, pos + 4 * i + 2)
            &&& pos + 4 * i + 4 <= pos + size
        }
}

/// `ls` holds exactly the 14-byte line-definition records stored in `b`
/// from byte `pos` on, as many as fit in `size` bytes — `size / 14`,
/// integer division, any remainder bytes left unread — and every record
/// is read from inside the lump's `size` bytes, never past them.
pub open spec fn is_linedef_records(ls: Seq<Linedef>, b: Seq<u8>, pos: int, size: int) -> bool {
    &&& ls.len() == size / 14
    &&& forall|i: int|
        0 <= i < ls.len() ==> {
            &&& (#[trigger] ls[i]).v1 as int == le_i16_at(b, pos + 14 * i)
            &&& ls[i].v2 as int == le_i16_at(b, pos + 14 * i + 2)
            &&& ls[i].flags as int == le_i16_at(b, pos + 14 * i + 4)
            &&& ls[i].special as int == le_i16_at(b, pos + 14 * i + 6)
            &&& ls[i].tag as int == le_i16_at(b, pos + 14 * i + 8)
            &&& ls[i].right_sidedef as int == le_i16_at(b, pos + 14 * i + 10)
            &&& ls[i].left_sidedef as int == le_i16_at(b, pos + 14 * i + 12)
            &&& pos + 14 * i + 14 <= pos + size
        }
}

/// Decodes the vertex records of the lump `lump`: `lump.size / 4`
/// four-byte records read from `lump.filepos` on, remainder bytes
/// silently unread. Fails with `OutOfBounds` exactly when the lump's
/// declared byte range runs past the end of the buffer.
pub fn decode_vertexes_from(buf: &[u8], lump: &FileLump) -> (r: Result<Vec<Vertex>, WadError>)
    ensures
        match r {
            Ok(vs) => lump.filepos + lump.size <= buf@.len() && is_vertex_records(
                vs@,
                buf@,
                lump.filepos as int,
                lump.size as int,
            ),
            Err(e) => e == WadError::OutOfBounds && lump.filepos + lump.size > buf@.len(),
        },
{
    let len64: u64 = buf.len() as u64;
    if (lump.filepos as u64) + (lump.size as u64) > len64 {
        return Err(WadError::OutOfBounds);
    }
    let count: u32 = lump.size / 4;
    assert(4 * (lump.size as int / 4) <= lump.size as int);
    let mut vs: Vec<Vertex> = Vec::new();
    let mut pos: usize = lump.filepos as usize;
    let mut i: u32 = 0;
    while i < count
        invariant
            i <= count,
            count == lump.size as int / 4,
            4 * (count as int) <= lump.size as int,
            lump.filepos + lump.size <= buf@.len(),
            pos == lump.filepos + 4 * i,
            vs@.len() == i,
            forall|j: int|
                0 <= j < i ==> {
                    &&& (#[trigger] vs@[j]).x as int == le_i16_at(buf@, lump.filepos + 4 * j)
                    &&& vs@[j].y as int == le_i16_at(buf@, lump.filepos + 4 * j + 2)
                },
        decreases count - i,
    {
        let x = match read_i16_le(buf, &mut pos) {
            Ok(v) => v,
            Err(e) => {
                return Err(e);
            },
        };
        let y = match read_i16_le(buf, &mut pos) {
            Ok(v) => v,
            Err(e) => {
                return Err(e);
            },
        };
        vs.push(Vertex { x, y });
        i = i + 1;
    }
    Ok(vs)
}

/// Decodes the line-definition records of the lump `lump`:
/// `lump.size / 14` fourteen-byte records of seven signed 16-bit fields
/// read from `lump.filepos` on, remainder bytes silently unread. Fails
/// with `OutOfBounds` exactly when the lump's declared byte range runs
/// past the end of the buffer.
pub fn decode_linedefs_from(buf: &[u8], lump: &FileLump) -> (r: Result<Vec<Linedef>, WadError>)
    ensures
        match r {
            Ok(ls) => lump.filepos + lump.size <= buf@.len() && is_linedef_records(
                ls@,
                buf@,
                lump.filepos as int,
                lump.size as int,
            ),
            Err(e) => e == WadError::OutOfBounds && lump.filepos + lump.size > buf@.len(),
        },
{
    let len64: u64 = buf.len() as u64;
    if (lump.filepos as u64) + (lump.size as u64) > len64 {
        return Err(WadError::OutOfBounds);
    }
    let count: u32 = lump.size / 14;
    assert(14 * (lump.size as int / 14) <= lump.size as int);
    let mut ls: Vec<Linedef> = Vec::new();
    let mut pos: usize = lump.filepos as usize;
    let mut i: u32 = 0;
    while i < count
        invariant
            i <= count,
            count == lump.size as int / 14,
            14 * (count as int) <= lump.size as int,
            lump.filepos + lump.size <= buf@.len(),
            pos == lump.filepos + 14 * i,
            ls@.len() == i,
            forall|j: int|
                0 <= j < i ==> {
                    &&& (#[trigger] ls@[j]).v1 as int == le_i16_at(buf@, lump.filepos + 14 * j)
                    &&& ls@[j].v2 as int == le_i16_at(buf@, lump.filepos + 14 * j + 2)
                    &&& ls@[j].flags as int == le_i16_at(buf@, lump.filepos + 14 * j + 4)
                    &&& ls@[j].special as int == le_i16_at(buf@, lump.filepos + 14 * j + 6)
                    &&& ls@[j].tag as int == le_i16_at(buf@, lump.filepos + 14 * j + 8)
                    &&& ls@[j].right_sidedef as int == le_i16_at(buf@, lump.filepos + 14 * j + 10)
                    &&& ls@[j].left_sidedef as int == le_i16_at(buf@, lump.filepos + 14 * j + 12)
                },
        decreases count - i,
    {
        let v1 = match read_i16_le(buf, &mut pos) {
            Ok(v) => v,
            Err(e) => {
                return Err(e);
            },
        };
        let v2 = match read_i16_le(buf, &mut pos) {
            Ok(v) => v,
            Err(e) => {
                return Err(e);
            },
        };
        let flags = match read_i16_le(buf, &mut pos) {
            Ok(v) => v,
            Err(e) => {
                return Err(e);
            },
        };
        let special = match read_i16_le(buf, &mut pos) {
            Ok(v) => v,
            Err(e) => {
                return Err(e);
            },
        };
        let tag = match read_i16_le(buf, &mut pos) {
            Ok(v) => v,
            Err(e) => {
                return Err(e);
            },
        };
        let right_sidedef = match read_i16_le(buf, &mut pos) {
            Ok(v) => v,
            Err(e) => {
                return Err(e);
            },
        };
        let left_sidedef = match read_i16_le(buf, &mut pos) {
            Ok(v) => v,
            Err(e) => {
                return Err(e);
            },
        };
        ls.push(Linedef { v1, v2, flags, special, tag, right_sidedef, left_sidedef });
        i = i + 1;
    }
    Ok(ls)
}

/// Extracts the vertex records of the archive: looks up the first
/// directory entry named "VERTEXES" and decodes its 4-byte records.
/// An absent lump yields an empty sequence, not an error; a present
/// lump whose byte range runs past the buffer fails with `OutOfBounds`.
pub fn decode_vertex_records(buf: &[u8], dir: &Vec<FileLump>) -> (r: Result<Vec<Vertex>, WadError>)
    ensures
        ({
            let idx = first_match_idx(dir@, vertexes_lump_name());
            match r {
                Ok(vs) => {
                    if idx == -1 {
                        vs@.len() == 0
                    } else {
                        &&& dir@[idx].filepos + dir@[idx].size <= buf@.len()
                        &&& is_vertex_records(
                            vs@,
                            buf@,
                            dir@[idx].filepos as int,
                            dir@[idx].size as int,
                        )
                    }
                },
                Err(e) => e == WadError::OutOfBounds && 0 <= idx && dir@[idx].filepos
                    + dir@[idx].size > buf@.len(),
            }
        }),
{
    let name = vertexes_name();
    match find_lump(dir, name.as_slice()) {
        Some(lump) => decode_vertexes_from(buf, &lump),
        None => Ok(Vec::new()),
    }
}

/// Extracts the line-definition records of the archive: looks up the
/// first directory entry named "LINEDEFS" and decodes its 14-byte
/// records. An absent lump yields an empty sequence, not an error; a
/// present lump whose byte range runs past the buffer fails with
/// `OutOfBounds`.
pub fn decode_linedef_records(buf: &[u8], dir: &Vec<FileLump>) -> (r: Result<
    Vec<Linedef>,
    WadError,
>)
    ensures
        ({
            let idx = first_match_idx(dir@, linedefs_lump_name());
            match r {
                Ok(ls) => {
                    if idx == -1 {
                        ls@.len() == 0
                    } else {
                        &&& dir@[idx].filepos + dir@[idx].size <= buf@.len()
                        &&& is_linedef_records(
                            ls@,
                            buf@,
                            dir@[idx].filepos as int,
                            dir@[idx].size as int,
                        )
                    }
                },
                Err(e) => e == WadError::OutOfBounds && 0 <= idx && dir@[idx].filepos
                    + dir@[idx].size > buf@.len(),
            }
        }),
{
    let name = linedefs_name();
    match find_lump(dir, name.as_slice()) {
        Some(lump) => decode_linedefs_from(buf, &lump),
        None => Ok(Vec::new()),
    }
}

/// A fully decoded archive: the header, the directory in on-disk order,
/// and the vertex and line-definition record arrays the directory
/// addresses. All fields are independently owned values; nothing keeps
/// a reference into the raw buffer.
pub struct Wad {
    pub wad_info: WadInfo,
    pub file_lumps: Vec<FileLump>,
    pub vertexes: Vec<Vertex>,
    pub linedefs: Vec<Linedef>,
}

impl Wad {
    /// Decodes a whole archive from a raw byte buffer: header, then the
    /// directory the header declares, then the vertex and
    /// line-definition records the directory addresses. Succeeds exactly
    /// on the buffers `wad_ok` admits and yields fully decoded data;
    /// otherwise nothing partial comes back, only the one error that the
    /// first failing step reports.
    pub fn new(buf: &[u8]) -> (r: Result<Wad, WadError>)
        ensures
            match r {
                Ok(w) => {
                    &&& wad_ok(buf@)
                    &&& is_header_of(w.wad_info, buf@)
                    &&& is_directory_of(
                        w.file_lumps@,
                        buf@,
                        spec_dirofs(buf@),
                        spec_numlumps(buf@),
                    )
                    &&& ({
                        let vi = spec_find_lump(buf@, vertexes_lump_name());
                        if vi == -1 {
                            w.vertexes@.len() == 0
                        } else {
                            is_vertex_records(
                                w.vertexes@,
                                buf@,
                                dir_entry_filepos(buf@, spec_dirofs(buf@), vi),
                                dir_entry_size(buf@, spec_dirofs(buf@), vi),
                            )
                        }
                    })
                    &&& ({
                        let li = spec_find_lump(buf@, linedefs_lump_name());
                        if li == -1 {
                            w.linedefs@.len() == 0
                        } else {
                            is_linedef_records(
                                w.linedefs@,
                                buf@,
                                dir_entry_filepos(buf@, spec_dirofs(buf@), li),
                                dir_entry_size(buf@, spec_dirofs(buf@), li),
                            )
                        }
                    })
                },
                Err(e) => {
                    &&& !wad_ok(buf@)
                    &&& (e == WadError::InvalidHeader <==> header_fits(buf@) && !tag_ok(buf@))
                    &&& (e == WadError::OutOfBounds <==> !header_fits(buf@) || (tag_ok(buf@)
                        && !(directory_fits(buf@) && named_lump_fits(buf@, vertexes_lump_name())
                        && named_lump_fits(buf@, linedefs_lump_name()))))
                },
            },
    {
        let wad_info = match decode_header(buf) {
            Ok(h) => h,
            Err(e) => {
                return Err(e);
            },
        };
        let file_lumps = match decode_directory(buf, &wad_info) {
            Ok(d) => d,
            Err(e) => {
                return Err(e);
            },
        };
        proof {
            lemma_first_match_agrees(
                file_lumps@,
                buf@,
                wad_info.infotableofs as int,
                vertexes_lump_name(),
                0,
            );
            lemma_first_match_agrees(
                file_lumps@,
                buf@,
                wad_info.infotableofs as int,
                linedefs_lump_name(),
                0,
            );
            lemma_first_match_from_props(file_lumps@, vertexes_lump_name(), 0);
            lemma_first_match_from_props(file_lumps@, linedefs_lump_name(), 0);
        }
        let vertexes = match decode_vertex_records(buf, &file_lumps) {
            Ok(vs) => vs,
            Err(e) => {
                return Err(e);
            },
        };
        let linedefs = match decode_linedef_records(buf, &file_lumps) {
            Ok(ls) => ls,
            Err(e) => {
                return Err(e);
            },
        };
        Ok(Wad { wad_info, file_lumps, vertexes, linedefs })
    }
}

} // verus!
