use doom_rust::reader::{read_fixed_string, read_i16_le, read_u32_le};
use doom_rust::WadError;

#[test]
fn read_u32_le_decodes_little_endian() {
    let buf = [0x78u8, 0x56, 0x34, 0x12, 0xff];
    let mut pos = 0usize;
    let v = read_u32_le(&buf, &mut pos).unwrap();
    assert_eq!(v, 0x12345678);
    assert_eq!(pos, 4);
}

#[test]
fn read_u32_le_out_of_bounds_leaves_cursor() {
    let buf = [1u8, 2, 3];
    let mut pos = 0usize;
    assert_eq!(read_u32_le(&buf, &mut pos), Err(WadError::OutOfBounds));
    assert_eq!(pos, 0);
}

#[test]
fn read_i16_le_decodes_negative_values() {
    // -10 is 0xfff6 in two's complement, 20 is 0x0014.
    let buf = [0xf6u8, 0xff, 0x14, 0x00];
    let mut pos = 0usize;
    assert_eq!(read_i16_le(&buf, &mut pos).unwrap(), -10);
    assert_eq!(read_i16_le(&buf, &mut pos).unwrap(), 20);
    assert_eq!(pos, 4);
}

#[test]
fn read_i16_le_extremes() {
    let buf = [0x00u8, 0x80, 0xff, 0x7f, 0xff, 0xff];
    let mut pos = 0usize;
    assert_eq!(read_i16_le(&buf, &mut pos).unwrap(), i16::MIN);
    assert_eq!(read_i16_le(&buf, &mut pos).unwrap(), i16::MAX);
    assert_eq!(read_i16_le(&buf, &mut pos).unwrap(), -1);
}

#[test]
fn read_i16_le_out_of_bounds_leaves_cursor() {
    let buf = [1u8, 2, 3];
    let mut pos = 2usize;
    assert_eq!(read_i16_le(&buf, &mut pos), Err(WadError::OutOfBounds));
    assert_eq!(pos, 2);
}

#[test]
fn read_fixed_string_strips_trailing_nuls() {
    let buf = *b"MAP01\0\0\0rest";
    let mut pos = 0usize;
    let name = read_fixed_string(&buf, &mut pos, 8).unwrap();
    assert_eq!(name, b"MAP01".to_vec());
    assert_eq!(pos, 8);
}

#[test]
fn read_fixed_string_keeps_inner_nuls() {
    let buf = *b"AB\0CD\0\0\0";
    let mut pos = 0usize;
    let name = read_fixed_string(&buf, &mut pos, 8).unwrap();
    assert_eq!(name, b"AB\0CD".to_vec());
}

#[test]
fn read_fixed_string_out_of_bounds_leaves_cursor() {
    let buf = *b"short";
    let mut pos = 2usize;
    assert_eq!(read_fixed_string(&buf, &mut pos, 8), Err(WadError::OutOfBounds));
    assert_eq!(pos, 2);
}
