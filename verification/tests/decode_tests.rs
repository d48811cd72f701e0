use doom_rust::wad::{
    decode_header, decode_linedef_records, decode_vertex_records, find_lump, FileLump, Wad,
};
use doom_rust::WadError;

fn push_u32(buf: &mut Vec<u8>, v: u32) {
    buf.extend_from_slice(&v.to_le_bytes());
}

fn push_i16(buf: &mut Vec<u8>, v: i16) {
    buf.extend_from_slice(&v.to_le_bytes());
}

fn push_name(buf: &mut Vec<u8>, name: &[u8]) {
    assert!(name.len() <= 8);
    let mut padded = [0u8; 8];
    padded[..name.len()].copy_from_slice(name);
    buf.extend_from_slice(&padded);
}

/// Builds a synthetic archive: 12-byte header, then the lump data in
/// order, then the directory table at the end.
fn build_wad(lumps: &[(&[u8], Vec<u8>)]) -> Vec<u8> {
    let mut data_region: Vec<u8> = Vec::new();
    let mut entries: Vec<(u32, u32)> = Vec::new();
    for (_, data) in lumps {
        entries.push(((12 + data_region.len()) as u32, data.len() as u32));
        data_region.extend_from_slice(data);
    }
    let dir_ofs = (12 + data_region.len()) as u32;
    let mut buf = Vec::new();
    buf.extend_from_slice(b"WAD2");
    push_u32(&mut buf, lumps.len() as u32);
    push_u32(&mut buf, dir_ofs);
    buf.extend_from_slice(&data_region);
    for ((name, _), (pos, size)) in lumps.iter().zip(entries) {
        push_u32(&mut buf, pos);
        push_u32(&mut buf, size);
        push_name(&mut buf, name);
    }
    buf
}

fn vertex_bytes(coords: &[(i16, i16)]) -> Vec<u8> {
    let mut data = Vec::new();
    for &(x, y) in coords {
        push_i16(&mut data, x);
        push_i16(&mut data, y);
    }
    data
}

fn linedef_bytes(records: &[[i16; 7]]) -> Vec<u8> {
    let mut data = Vec::new();
    for rec in records {
        for &f in rec {
            push_i16(&mut data, f);
        }
    }
    data
}

#[test]
fn round_trip_synthetic_archive() {
    let vertices = [(0i16, 0i16), (-300, 150), (32767, -32768)];
    let lines = [[0i16, 1, 1, 0, 0, 4, -1], [1, 2, 0, 52, 7, 0, 3]];
    let buf = build_wad(&[
        (b"VERTEXES", vertex_bytes(&vertices)),
        (b"LINEDEFS", linedef_bytes(&lines)),
    ]);
    let wad = Wad::new(&buf).unwrap();

    assert_eq!(wad.wad_info.identification, b"WAD2".to_vec());
    assert_eq!(wad.wad_info.numlumps, 2);
    assert_eq!(wad.wad_info.infotableofs, 12 + 12 + 28);

    assert_eq!(wad.file_lumps.len(), 2);
    assert_eq!(wad.file_lumps[0].name, b"VERTEXES".to_vec());
    assert_eq!(wad.file_lumps[0].filepos, 12);
    assert_eq!(wad.file_lumps[0].size, 12);
    assert_eq!(wad.file_lumps[1].name, b"LINEDEFS".to_vec());
    assert_eq!(wad.file_lumps[1].filepos, 24);
    assert_eq!(wad.file_lumps[1].size, 28);

    assert_eq!(wad.vertexes.len(), 3);
    for (v, &(x, y)) in wad.vertexes.iter().zip(vertices.iter()) {
        assert_eq!((v.x, v.y), (x, y));
    }

    assert_eq!(wad.linedefs.len(), 2);
    for (l, rec) in wad.linedefs.iter().zip(lines.iter()) {
        assert_eq!(
            [l.v1, l.v2, l.flags, l.special, l.tag, l.right_sidedef, l.left_sidedef],
            *rec
        );
    }
}

#[test]
fn single_vertex_scenario() {
    // header: tag "WAD2", lump_count = 1, directory_offset = 12;
    // one directory entry: file_position = 28, size = 4, name "VERTEXES";
    // one vertex record: x = -10, y = 20.
    let mut buf = Vec::new();
    buf.extend_from_slice(b"WAD2");
    push_u32(&mut buf, 1);
    push_u32(&mut buf, 12);
    push_u32(&mut buf, 28);
    push_u32(&mut buf, 4);
    push_name(&mut buf, b"VERTEXES");
    push_i16(&mut buf, -10);
    push_i16(&mut buf, 20);

    let wad = Wad::new(&buf).unwrap();
    assert_eq!(wad.vertexes.len(), 1);
    assert_eq!((wad.vertexes[0].x, wad.vertexes[0].y), (-10, 20));
    assert!(wad.linedefs.is_empty());
}

#[test]
fn find_lump_on_empty_directory_returns_nothing() {
    let dir: Vec<FileLump> = Vec::new();
    assert!(find_lump(&dir, b"VERTEXES").is_none());
}

#[test]
fn find_lump_returns_first_of_duplicates() {
    let buf = build_wad(&[
        (b"THINGS", vec![1, 2, 3, 4]),
        (b"THINGS", vec![5, 6]),
    ]);
    let wad = Wad::new(&buf).unwrap();
    let hit = find_lump(&wad.file_lumps, b"THINGS").unwrap();
    assert_eq!(hit.filepos, 12);
    assert_eq!(hit.size, 4);
    assert_eq!(hit.name, b"THINGS".to_vec());
}

#[test]
fn find_lump_is_case_sensitive() {
    let buf = build_wad(&[(b"things", vec![1, 2])]);
    let wad = Wad::new(&buf).unwrap();
    assert!(find_lump(&wad.file_lumps, b"THINGS").is_none());
}

#[test]
fn lump_past_buffer_end_is_out_of_bounds() {
    // A directory entry whose file_position + size exceeds the buffer
    // length must fail, not silently truncate the read.
    let mut buf = Vec::new();
    buf.extend_from_slice(b"WAD2");
    push_u32(&mut buf, 1);
    push_u32(&mut buf, 12);
    push_u32(&mut buf, 28);
    push_u32(&mut buf, 400);
    push_name(&mut buf, b"VERTEXES");
    push_i16(&mut buf, -10);
    push_i16(&mut buf, 20);

    assert!(matches!(Wad::new(&buf), Err(WadError::OutOfBounds)));
    let header = decode_header(&buf).unwrap();
    let dir = vec![FileLump { filepos: 28, size: 400, name: b"VERTEXES".to_vec() }];
    assert_eq!(header.numlumps, 1);
    assert_eq!(decode_vertex_records(&buf, &dir), Err(WadError::OutOfBounds));
}

#[test]
fn absent_linedefs_lump_yields_empty_sequence() {
    let buf = build_wad(&[(b"VERTEXES", vertex_bytes(&[(4, 5)]))]);
    let wad = Wad::new(&buf).unwrap();
    assert_eq!(wad.vertexes.len(), 1);
    assert!(wad.linedefs.is_empty());
    assert_eq!(decode_linedef_records(&buf, &wad.file_lumps), Ok(Vec::new()));
}

#[test]
fn record_count_is_size_over_width() {
    // An exact multiple yields size / width records.
    let buf = build_wad(&[(b"VERTEXES", vertex_bytes(&[(1, 2), (3, 4), (5, 6)]))]);
    let wad = Wad::new(&buf).unwrap();
    assert_eq!(wad.vertexes.len(), 3);
}

#[test]
fn remainder_bytes_are_silently_unread() {
    // 10 bytes at width 4: two records decoded, two bytes ignored.
    let mut data = vertex_bytes(&[(7, 8), (9, 10)]);
    data.extend_from_slice(&[0xaa, 0xbb]);
    let buf = build_wad(&[(b"VERTEXES", data)]);
    let wad = Wad::new(&buf).unwrap();
    assert_eq!(wad.vertexes.len(), 2);
    assert_eq!((wad.vertexes[1].x, wad.vertexes[1].y), (9, 10));
}

#[test]
fn wrong_tag_is_invalid_header() {
    let mut buf = build_wad(&[]);
    buf[0..4].copy_from_slice(b"IWAD");
    assert!(matches!(Wad::new(&buf), Err(WadError::InvalidHeader)));
}

#[test]
fn short_buffer_is_out_of_bounds() {
    let buf = b"WAD2\x01\x00".to_vec();
    assert!(matches!(Wad::new(&buf), Err(WadError::OutOfBounds)));
    assert!(matches!(decode_header(&buf), Err(WadError::OutOfBounds)));
}

#[test]
fn truncated_directory_is_out_of_bounds() {
    let mut buf = build_wad(&[(b"VERTEXES", vertex_bytes(&[(1, 2)]))]);
    // Claim one more directory entry than the buffer holds.
    buf[4..8].copy_from_slice(&2u32.to_le_bytes());
    assert!(matches!(Wad::new(&buf), Err(WadError::OutOfBounds)));
}

#[test]
fn lump_names_drop_nul_padding() {
    let buf = build_wad(&[(b"E1M1", vec![])]);
    let wad = Wad::new(&buf).unwrap();
    assert_eq!(wad.file_lumps[0].name, b"E1M1".to_vec());
    assert_eq!(wad.file_lumps[0].name.len(), 4);
}
