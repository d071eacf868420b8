//! The typed memory accessor's local half: the byte-exact encoding that
//! `write` copies into a foreign address space and the decoding that `read`
//! applies to the buffer copied back, for a sealed set of plain fixed-layout
//! shapes (little-endian unsigned integers of 16, 32 and 64 bits).
//!
//! The foreign copy itself is an OS service performed outside this crate,
//! and its success, failure or partial count is deliberately not surfaced:
//! `read` prepares a zero-initialized buffer of exactly the value's size, so
//! a copy that never happened hands the caller the zero value unchanged, and
//! `write` hands the OS exactly the value's bytes. The laws here pin the
//! byte-exact round trip down independently of that weakening.

use vstd::prelude::*;

verus! {

/// The bytes a 16-bit value is written as, least significant first.
pub open spec fn le_bytes_of_u16(value: u16) -> Seq<u8> {
    seq![(value & 0xff) as u8, ((value >> 8) & 0xff) as u8]
}

/// The value a 2-byte buffer is read back as.
pub open spec fn u16_of_le_bytes(bytes: Seq<u8>) -> u16
    recommends
        bytes.len() == 2,
{
    (bytes[0] as u16) | ((bytes[1] as u16) << 8)
}

/// The bytes a 32-bit value is written as, least significant first.
pub open spec fn le_bytes_of_u32(value: u32) -> Seq<u8> {
    seq![
        (value & 0xff) as u8,
        ((value >> 8) & 0xff) as u8,
        ((value >> 16) & 0xff) as u8,
        ((value >> 24) & 0xff) as u8,
    ]
}

/// The value a 4-byte buffer is read back as.
pub open spec fn u32_of_le_bytes(bytes: Seq<u8>) -> u32
    recommends
        bytes.len() == 4,
{
    (bytes[0] as u32) | ((bytes[1] as u32) << 8) | ((bytes[2] as u32) << 16) | ((bytes[3] as u32)
        << 24)
}

/// The bytes a 64-bit value is written as, least significant first.
pub open spec fn le_bytes_of_u64(value: u64) -> Seq<u8> {
    seq![
        (value & 0xff) as u8,
        ((value >> 8) & 0xff) as u8,
        ((value >> 16) & 0xff) as u8,
        ((value >> 24) & 0xff) as u8,
        ((value >> 32) & 0xff) as u8,
        ((value >> 40) & 0xff) as u8,
        ((value >> 48) & 0xff) as u8,
        ((value >> 56) & 0xff) as u8,
    ]
}

/// The value an 8-byte buffer is read back as.
pub open spec fn u64_of_le_bytes(bytes: Seq<u8>) -> u64
    recommends
        bytes.len() == 8,
{
    (bytes[0] as u64) | ((bytes[1] as u64) << 8) | ((bytes[2] as u64) << 16) | ((bytes[3] as u64)
        << 24) | ((bytes[4] as u64) << 32) | ((bytes[5] as u64) << 40) | ((bytes[6] as u64) << 48)
        | ((bytes[7] as u64) << 56)
}

/// The zero-initialized local buffer `read` prepares before asking the OS
/// to copy `len` foreign bytes into it. On a failed or partial copy the
/// caller receives these zeros (or a tail of them) unchanged.
pub fn zeroed_buffer(len: usize) -> (buffer: Vec<u8>)
    ensures
        buffer@.len() == len,
        forall|i: int| 0 <= i < len ==> buffer@[i] == 0u8,
{
    let mut buffer: Vec<u8> = Vec::new();
    let mut i: usize = 0;
    while i < len
        invariant
            i <= len,
            buffer@.len() == i,
            forall|k: int| 0 <= k < i ==> buffer@[k] == 0u8,
        decreases len - i,
    {
        buffer.push(0u8);
        i = i + 1;
    }
    buffer
}

/// The exact bytes `write::<u16>` copies to the foreign address.
pub fn write_bytes_u16(value: u16) -> (bytes: Vec<u8>)
    ensures
        bytes@ == le_bytes_of_u16(value),
        bytes@.len() == 2,
{
    let mut bytes: Vec<u8> = Vec::new();
    bytes.push((value & 0xff) as u8);
    bytes.push(((value >> 8) & 0xff) as u8);
    proof {
        assert(bytes@ =~= le_bytes_of_u16(value));
    }
    bytes
}

/// The value `read::<u16>` returns from the buffer the copy filled.
pub fn read_value_u16(buffer: &Vec<u8>) -> (value: u16)
    requires
        buffer@.len() == 2,
    ensures
        value == u16_of_le_bytes(buffer@),
{
    (buffer[0] as u16) | ((buffer[1] as u16) << 8)
}

/// The exact bytes `write::<u32>` copies to the foreign address.
pub fn write_bytes_u32(value: u32) -> (bytes: Vec<u8>)
    ensures
        bytes@ == le_bytes_of_u32(value),
        bytes@.len() == 4,
{
    let mut bytes: Vec<u8> = Vec::new();
    bytes.push((value & 0xff) as u8);
    bytes.push(((value >> 8) & 0xff) as u8);
    bytes.push(((value >> 16) & 0xff) as u8);
    bytes.push(((value >> 24) & 0xff) as u8);
    proof {
        assert(bytes@ =~= le_bytes_of_u32(value));
    }
    bytes
}

/// The value `read::<u32>` returns from the buffer the copy filled.
pub fn read_value_u32(buffer: &Vec<u8>) -> (value: u32)
    requires
        buffer@.len() == 4,
    ensures
        value == u32_of_le_bytes(buffer@),
{
    (buffer[0] as u32) | ((buffer[1] as u32) << 8) | ((buffer[2] as u32) << 16) | ((buffer[3]
        as u32) << 24)
}

/// The exact bytes `write::<u64>` copies to the foreign address.
pub fn write_bytes_u64(value: u64) -> (bytes: Vec<u8>)
    ensures
        bytes@ == le_bytes_of_u64(value),
        bytes@.len() == 8,
{
    let mut bytes: Vec<u8> = Vec::new();
    bytes.push((value & 0xff) as u8);
    bytes.push(((value >> 8) & 0xff) as u8);
    bytes.push(((value >> 16) & 0xff) as u8);
    bytes.push(((value >> 24) & 0xff) as u8);
    bytes.push(((value >> 32) & 0xff) as u8);
    bytes.push(((value >> 40) & 0xff) as u8);
    bytes.push(((value >> 48) & 0xff) as u8);
    bytes.push(((value >> 56) & 0xff) as u8);
    proof {
        assert(bytes@ =~= le_bytes_of_u64(value));
    }
    bytes
}

/// The value `read::<u64>` returns from the buffer the copy filled.
pub fn read_value_u64(buffer: &Vec<u8>) -> (value: u64)
    requires
        buffer@.len() == 8,
    ensures
        value == u64_of_le_bytes(buffer@),
{
    (buffer[0] as u64) | ((buffer[1] as u64) << 8) | ((buffer[2] as u64) << 16) | ((buffer[3]
        as u64) << 24) | ((buffer[4] as u64) << 32) | ((buffer[5] as u64) << 40) | ((buffer[6]
        as u64) << 48) | ((buffer[7] as u64) << 56)
}

/// Law: writing a 16-bit value and reading the same bytes back yields the
/// value again — the byte-exact copy contract, for every value.
pub proof fn lemma_round_trip_u16(value: u16)
    ensures
        u16_of_le_bytes(le_bytes_of_u16(value)) == value,
{
    let b0 = (value & 0xff) as u8;
    let b1 = ((value >> 8) & 0xff) as u8;
    assert((b0 as u16) | ((b1 as u16) << 8) == value) by (bit_vector)
        requires
            b0 == (value & 0xff) as u8,
            b1 == ((value >> 8) & 0xff) as u8,
    ;
}

/// Law: writing a 32-bit value and reading the same bytes back yields the
/// value again — the byte-exact copy contract, for every value.
pub proof fn lemma_round_trip_u32(value: u32)
    ensures
        u32_of_le_bytes(le_bytes_of_u32(value)) == value,
{
    let b0 = (value & 0xff) as u8;
    let b1 = ((value >> 8) & 0xff) as u8;
    let b2 = ((value >> 16) & 0xff) as u8;
    let b3 = ((value >> 24) & 0xff) as u8;
    assert((b0 as u32) | ((b1 as u32) << 8) | ((b2 as u32) << 16) | ((b3 as u32) << 24)
        == value) by (bit_vector)
        requires
            b0 == (value & 0xff) as u8,
            b1 == ((value >> 8) & 0xff) as u8,
            b2 == ((value >> 16) & 0xff) as u8,
            b3 == ((value >> 24) & 0xff) as u8,
    ;
}

/// Law: writing a 64-bit value and reading the same bytes back yields the
/// value again — the byte-exact copy contract, for every value.
pub proof fn lemma_round_trip_u64(value: u64)
    ensures
        u64_of_le_bytes(le_bytes_of_u64(value)) == value,
{
    let b0 = (value & 0xff) as u8;
    let b1 = ((value >> 8) & 0xff) as u8;
    let b2 = ((value >> 16) & 0xff) as u8;
    let b3 = ((value >> 24) & 0xff) as u8;
    let b4 = ((value >> 32) & 0xff) as u8;
    let b5 = ((value >> 40) & 0xff) as u8;
    let b6 = ((value >> 48) & 0xff) as u8;
    let b7 = ((value >> 56) & 0xff) as u8;
    assert((b0 as u64) | ((b1 as u64) << 8) | ((b2 as u64) << 16) | ((b3 as u64) << 24) | ((b4
        as u64) << 32) | ((b5 as u64) << 40) | ((b6 as u64) << 48) | ((b7 as u64) << 56)
        == value) by (bit_vector)
        requires
            b0 == (value & 0xff) as u8,
            b1 == ((value >> 8) & 0xff) as u8,
            b2 == ((value >> 16) & 0xff) as u8,
            b3 == ((value >> 24) & 0xff) as u8,
            b4 == ((value >> 32) & 0xff) as u8,
            b5 == ((value >> 40) & 0xff) as u8,
            b6 == ((value >> 48) & 0xff) as u8,
            b7 == ((value >> 56) & 0xff) as u8,
    ;
}

/// Law: reading a 2-byte buffer and writing the value back reproduces the
/// buffer byte for byte — the copy forgets nothing.
pub proof fn lemma_reverse_round_trip_u16(buffer: Seq<u8>)
    requires
        buffer.len() == 2,
    ensures
        le_bytes_of_u16(u16_of_le_bytes(buffer)) == buffer,
{
    let x = u16_of_le_bytes(buffer);
    let b0 = buffer[0];
    let b1 = buffer[1];
    assert((x & 0xff) as u8 == b0 && ((x >> 8) & 0xff) as u8 == b1) by (bit_vector)
        requires
            x == (b0 as u16) | ((b1 as u16) << 8),
    ;
    assert(le_bytes_of_u16(x) =~= buffer);
}

/// Law: reading a 4-byte buffer and writing the value back reproduces the
/// buffer byte for byte — the copy forgets nothing.
pub proof fn lemma_reverse_round_trip_u32(buffer: Seq<u8>)
    requires
        buffer.len() == 4,
    ensures
        le_bytes_of_u32(u32_of_le_bytes(buffer)) == buffer,
{
    let x = u32_of_le_bytes(buffer);
    let b0 = buffer[0];
    let b1 = buffer[1];
    let b2 = buffer[2];
    let b3 = buffer[3];
    assert((x & 0xff) as u8 == b0 && ((x >> 8) & 0xff) as u8 == b1 && ((x >> 16) & 0xff) as u8
        == b2 && ((x >> 24) & 0xff) as u8 == b3) by (bit_vector)
        requires
            x == (b0 as u32) | ((b1 as u32) << 8) | ((b2 as u32) << 16) | ((b3 as u32) << 24),
    ;
    assert(le_bytes_of_u32(x) =~= buffer);
}

/// Law: reading an 8-byte buffer and writing the value back reproduces the
/// buffer byte for byte — the copy forgets nothing.
pub proof fn lemma_reverse_round_trip_u64(buffer: Seq<u8>)
    requires
        buffer.len() == 8,
    ensures
        le_bytes_of_u64(u64_of_le_bytes(buffer)) == buffer,
{
    let x = u64_of_le_bytes(buffer);
    let b0 = buffer[0];
    let b1 = buffer[1];
    let b2 = buffer[2];
    let b3 = buffer[3];
    let b4 = buffer[4];
    let b5 = buffer[5];
    let b6 = buffer[6];
    let b7 = buffer[7];
    assert((x & 0xff) as u8 == b0 && ((x >> 8) & 0xff) as u8 == b1 && ((x >> 16) & 0xff) as u8
        == b2 && ((x >> 24) & 0xff) as u8 == b3 && ((x >> 32) & 0xff) as u8 == b4 && ((x >> 40)
        & 0xff) as u8 == b5 && ((x >> 48) & 0xff) as u8 == b6 && ((x >> 56) & 0xff) as u8
        == b7) by (bit_vector)
        requires
            x == (b0 as u64) | ((b1 as u64) << 8) | ((b2 as u64) << 16) | ((b3 as u64) << 24) | (
            (b4 as u64) << 32) | ((b5 as u64) << 40) | ((b6 as u64) << 48) | ((b7 as u64) << 56),
    ;
    assert(le_bytes_of_u64(x) =~= buffer);
}

/// Law: a copy the OS never performed leaves `read::<u32>`'s prepared
/// buffer all zero, and the caller receives the zero value unchanged.
pub proof fn lemma_unwritten_read_u32(buffer: Seq<u8>)
    requires
        buffer.len() == 4,
        forall|i: int| 0 <= i < 4 ==> buffer[i] == 0u8,
    ensures
        u32_of_le_bytes(buffer) == 0,
{
    assert((0u8 as u32) | ((0u8 as u32) << 8) | ((0u8 as u32) << 16) | ((0u8 as u32) << 24)
        == 0u32) by (bit_vector);
}

} // verus!
