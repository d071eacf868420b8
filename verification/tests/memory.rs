use cural::memory::read_value_u16;
use cural::memory::read_value_u32;
use cural::memory::read_value_u64;
use cural::memory::write_bytes_u16;
use cural::memory::write_bytes_u32;
use cural::memory::write_bytes_u64;
use cural::memory::zeroed_buffer;

#[test]
fn write_emits_exact_little_endian_bytes() {
    assert_eq!(write_bytes_u16(0x1234), vec![0x34, 0x12]);
    assert_eq!(write_bytes_u32(0xdead_beef), vec![0xef, 0xbe, 0xad, 0xde]);
    assert_eq!(
        write_bytes_u64(0x0102_0304_0506_0708),
        vec![0x08, 0x07, 0x06, 0x05, 0x04, 0x03, 0x02, 0x01]
    );
}

#[test]
fn read_interprets_exact_little_endian_bytes() {
    assert_eq!(read_value_u16(&vec![0x34, 0x12]), 0x1234);
    assert_eq!(read_value_u32(&vec![0xef, 0xbe, 0xad, 0xde]), 0xdead_beef);
    assert_eq!(
        read_value_u64(&vec![0x08, 0x07, 0x06, 0x05, 0x04, 0x03, 0x02, 0x01]),
        0x0102_0304_0506_0708
    );
}

#[test]
fn write_then_read_returns_the_value() {
    for value in [0u32, 1, 0xff, 0x100, 0xdead_beef, u32::MAX] {
        assert_eq!(read_value_u32(&write_bytes_u32(value)), value);
    }
    for value in [0u16, 0x00ff, 0xff00, u16::MAX] {
        assert_eq!(read_value_u16(&write_bytes_u16(value)), value);
    }
    for value in [0u64, 0x0102_0304_0506_0708, u64::MAX] {
        assert_eq!(read_value_u64(&write_bytes_u64(value)), value);
    }
}

#[test]
fn read_then_write_reproduces_the_bytes() {
    for bytes in [vec![0, 0, 0, 0], vec![1, 2, 3, 4], vec![0xff, 0xfe, 0x00, 0x80]] {
        assert_eq!(write_bytes_u32(read_value_u32(&bytes)), bytes);
    }
}

#[test]
fn unperformed_copy_reads_back_as_zero() {
    // read prepares a zero-initialized buffer of exactly the value's size;
    // a copy the OS refused leaves it untouched, so the caller receives the
    // zero value unchanged.
    let buffer = zeroed_buffer(4);
    assert_eq!(buffer, vec![0, 0, 0, 0]);
    assert_eq!(read_value_u32(&buffer), 0);
    assert_eq!(read_value_u64(&zeroed_buffer(8)), 0);
}
