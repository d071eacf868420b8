use cural::name::decode_name;

#[test]
fn decodes_up_to_first_zero() {
    // A fixed buffer ['a', 'b', 'c', 0, garbage, garbage] decodes to "abc":
    // the bytes after the terminator are never included.
    let buf: Vec<u8> = vec![b'a', b'b', b'c', 0, 0xde, 0xad];
    assert_eq!(decode_name(&buf), "abc");
}

#[test]
fn decodes_whole_buffer_without_terminator() {
    let buf: Vec<u8> = vec![b'x', b'y'];
    assert_eq!(decode_name(&buf), "xy");
}

#[test]
fn decodes_leading_zero_to_empty() {
    let buf: Vec<u8> = vec![0, b'h', b'i'];
    assert_eq!(decode_name(&buf), "");
}

#[test]
fn decodes_empty_buffer_to_empty() {
    let buf: Vec<u8> = Vec::new();
    assert_eq!(decode_name(&buf), "");
}

#[test]
fn decodes_high_bytes_as_single_byte_characters() {
    // Each byte is read as the character with that value; no multi-byte
    // decoding is performed.
    let buf: Vec<u8> = vec![0xe9, 0];
    let s = decode_name(&buf);
    assert_eq!(s.chars().count(), 1);
    assert_eq!(s.chars().next().unwrap() as u32, 0xe9);
}
