//! The primitive field reader: little-endian decoding at a cursor, and
//! the fallible reads that report missing bytes.

use f1_telemetry::error::UnpackError;
use f1_telemetry::reader::{
    read_f32, read_i8, read_u16, read_u32, read_u64, read_u8, try_read_u16, try_read_u8,
};

#[test]
fn fixed_width_little_endian_reads_advance_the_cursor() {
    let mut buf: Vec<u8> = Vec::new();
    buf.push(0xAB);
    buf.push((-5i8) as u8);
    buf.extend_from_slice(&0x1234u16.to_le_bytes());
    buf.extend_from_slice(&0xDEAD_BEEFu32.to_le_bytes());
    buf.extend_from_slice(&0x0102_0304_0506_0708u64.to_le_bytes());
    buf.extend_from_slice(&(-1.5f32).to_le_bytes());

    let mut pos: usize = 0;
    assert_eq!(read_u8(&buf, &mut pos), 0xAB);
    assert_eq!(pos, 1);
    assert_eq!(read_i8(&buf, &mut pos), -5);
    assert_eq!(pos, 2);
    assert_eq!(read_u16(&buf, &mut pos), 0x1234);
    assert_eq!(pos, 4);
    assert_eq!(read_u32(&buf, &mut pos), 0xDEAD_BEEF);
    assert_eq!(pos, 8);
    assert_eq!(read_u64(&buf, &mut pos), 0x0102_0304_0506_0708);
    assert_eq!(pos, 16);
    assert_eq!(f32::from_bits(read_f32(&buf, &mut pos).bits), -1.5);
    assert_eq!(pos, 20);
}

#[test]
fn fallible_reads_report_requested_and_available() {
    let buf: Vec<u8> = vec![0x10];
    let mut pos: usize = 0;
    assert_eq!(try_read_u16(&buf, &mut pos), Err(UnpackError::Truncated { needed: 2, available: 1 }));
    assert_eq!(pos, 0); // a failed read leaves the cursor in place
    assert_eq!(try_read_u8(&buf, &mut pos), Ok(0x10));
    assert_eq!(pos, 1);
    assert_eq!(try_read_u8(&buf, &mut pos), Err(UnpackError::Truncated { needed: 1, available: 0 }));
    assert_eq!(pos, 1);
}
