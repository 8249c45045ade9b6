use clob_harness::encoding::read_u64_le;
use clob_harness::encoding::U64_LEN;

#[test]
fn read_u64_le_reads_least_significant_byte_first() {
    assert_eq!(read_u64_le(&[1, 0, 0, 0, 0, 0, 0, 0], 0), 1);
    assert_eq!(read_u64_le(&[0, 1, 0, 0, 0, 0, 0, 0], 0), 256);
    assert_eq!(read_u64_le(&[0, 0, 0, 0, 0, 0, 0, 1], 0), 1u64 << 56);
    assert_eq!(
        read_u64_le(&[0x08, 0x07, 0x06, 0x05, 0x04, 0x03, 0x02, 0x01], 0),
        0x0102_0304_0506_0708
    );
}

#[test]
fn read_u64_le_covers_the_whole_range() {
    assert_eq!(read_u64_le(&[0; 8], 0), 0);
    assert_eq!(read_u64_le(&[0xff; 8], 0), u64::MAX);
}

#[test]
fn read_u64_le_starts_at_the_offset() {
    let mut data = vec![0xeeu8; 20];
    data[5..13].copy_from_slice(&1_000_000u64.to_le_bytes());
    assert_eq!(read_u64_le(&data, 5), 1_000_000);
    assert_eq!(read_u64_le(&data, 12), u64::from_le_bytes([0, 0xee, 0xee, 0xee, 0xee, 0xee, 0xee, 0xee]));
}

#[test]
fn read_u64_le_agrees_with_std() {
    let mut value: u64 = 0x9e37_79b9_7f4a_7c15;
    for _ in 0..200 {
        value = value.wrapping_mul(6364136223846793005).wrapping_add(1442695040888963407);
        let bytes = value.to_le_bytes();
        assert_eq!(bytes.len(), U64_LEN);
        assert_eq!(read_u64_le(&bytes, 0), value);
    }
}
