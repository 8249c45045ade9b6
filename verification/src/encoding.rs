//! Little-endian unsigned 64-bit integers in byte buffers.

use vstd::prelude::*;

verus! {

/// Number of bytes that hold a `u64`.
pub const U64_LEN: usize = 8;

/// The integer that eight bytes spell, least significant byte first.
pub open spec fn le_u64(bytes: Seq<u8>) -> int
    recommends
        bytes.len() == 8,
{
    bytes[0] + bytes[1] * 0x100 + bytes[2] * 0x1_0000 + bytes[3] * 0x100_0000 + bytes[4]
        * 0x1_0000_0000 + bytes[5] * 0x100_0000_0000 + bytes[6] * 0x1_0000_0000_0000 + bytes[7]
        * 0x100_0000_0000_0000
}

/// The eight bytes of `value`, least significant byte first: its digits
/// in base 256.
pub open spec fn le_bytes(value: u64) -> Seq<u8> {
    let q1 = value / 0x100;
    let q2 = q1 / 0x100;
    let q3 = q2 / 0x100;
    let q4 = q3 / 0x100;
    let q5 = q4 / 0x100;
    let q6 = q5 / 0x100;
    let q7 = q6 / 0x100;
    seq![
        (value % 0x100) as u8,
        (q1 % 0x100) as u8,
        (q2 % 0x100) as u8,
        (q3 % 0x100) as u8,
        (q4 % 0x100) as u8,
        (q5 % 0x100) as u8,
        (q6 % 0x100) as u8,
        (q7 % 0x100) as u8,
    ]
}

/// Decoding the encoding of a value gives the value back.
pub proof fn lemma_le_roundtrip(value: u64)
    ensures
        le_bytes(value).len() == 8,
        le_u64(le_bytes(value)) == value,
{
    let q0 = value as int;
    let q1 = q0 / 0x100;
    let q2 = q1 / 0x100;
    let q3 = q2 / 0x100;
    let q4 = q3 / 0x100;
    let q5 = q4 / 0x100;
    let q6 = q5 / 0x100;
    let q7 = q6 / 0x100;
    assert(q0 == q0 % 0x100 + 0x100 * q1);
    assert(q1 == q1 % 0x100 + 0x100 * q2);
    assert(q2 == q2 % 0x100 + 0x100 * q3);
    assert(q3 == q3 % 0x100 + 0x100 * q4);
    assert(q4 == q4 % 0x100 + 0x100 * q5);
    assert(q5 == q5 % 0x100 + 0x100 * q6);
    assert(q6 == q6 % 0x100 + 0x100 * q7);
    assert(q1 < 0x100_0000_0000_0000);
    assert(q2 < 0x1_0000_0000_0000);
    assert(q3 < 0x100_0000_0000);
    assert(q4 < 0x1_0000_0000);
    assert(q5 < 0x100_0000);
    assert(q6 < 0x1_0000);
    assert(q7 < 0x100);
    assert(q7 % 0x100 == q7);
    let bytes = le_bytes(value);
    assert(bytes[0] == q0 % 0x100);
    assert(bytes[1] == q1 % 0x100);
    assert(bytes[2] == q2 % 0x100);
    assert(bytes[3] == q3 % 0x100);
    assert(bytes[4] == q4 % 0x100);
    assert(bytes[5] == q5 % 0x100);
    assert(bytes[6] == q6 % 0x100);
    assert(bytes[7] == q7);
}

/// Reads the little-endian `u64` that starts at `offset`.
pub fn read_u64_le(data: &[u8], offset: usize) -> (value: u64)
    requires
        offset + 8 <= data.len(),
    ensures
        value == le_u64(data@.subrange(offset as int, offset + 8)),
{
    let b0 = data[offset] as u64;
    let b1 = data[offset + 1] as u64;
    let b2 = data[offset + 2] as u64;
    let b3 = data[offset + 3] as u64;
    let b4 = data[offset + 4] as u64;
    let b5 = data[offset + 5] as u64;
    let b6 = data[offset + 6] as u64;
    let b7 = data[offset + 7] as u64;
    b0 + b1 * 0x100 + b2 * 0x1_0000 + b3 * 0x100_0000 + b4 * 0x1_0000_0000 + b5
        * 0x100_0000_0000 + b6 * 0x1_0000_0000_0000 + b7 * 0x100_0000_0000_0000
}

} // verus!
