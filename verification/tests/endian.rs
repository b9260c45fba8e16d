use arsenal::endian::{byte_at, merge_low, read_le, truncate, write_le};
use arsenal::instructions::Width;

#[test]
fn bytes_of_a_value() {
    let value = 0x0807_0605_0403_0201u64;
    for i in 0..8u8 {
        assert_eq!(byte_at(value, i), i + 1);
    }
    assert_eq!(byte_at(256, 0), 0);
    assert_eq!(byte_at(256, 1), 1);
}

#[test]
fn reading_and_writing_at_any_offset() {
    let mut bytes = vec![1u8, 2, 3, 4, 5, 6, 7, 8, 9];
    assert_eq!(read_le(&bytes, 0, Width::Byte), 1);
    assert_eq!(read_le(&bytes, 1, Width::Short), 0x0302);
    assert_eq!(read_le(&bytes, 3, Width::Int), 0x0706_0504);
    assert_eq!(read_le(&bytes, 1, Width::Long), 0x0908_0706_0504_0302);
    write_le(&mut bytes, 1, Width::Short, 0xaabb_ccdd);
    assert_eq!(bytes, vec![1, 0xdd, 0xcc, 4, 5, 6, 7, 8, 9]);
    write_le(&mut bytes, 5, Width::Int, 0x1_0000_0001);
    assert_eq!(bytes, vec![1, 0xdd, 0xcc, 4, 5, 1, 0, 0, 0]);
    write_le(&mut bytes, 0, Width::Long, u64::MAX);
    assert_eq!(bytes, vec![255, 255, 255, 255, 255, 255, 255, 255, 0]);
    write_le(&mut bytes, 8, Width::Byte, 0x102);
    assert_eq!(bytes[8], 2);
}

#[test]
fn low_bytes() {
    assert_eq!(truncate(0x1234_5678_9abc_def0, Width::Byte), 0xf0);
    assert_eq!(truncate(0x1234_5678_9abc_def0, Width::Short), 0xdef0);
    assert_eq!(truncate(0x1234_5678_9abc_def0, Width::Int), 0x9abc_def0);
    assert_eq!(truncate(0x1234_5678_9abc_def0, Width::Long), 0x1234_5678_9abc_def0);
    assert_eq!(merge_low(0x1111_1111_1111_1111, 0xabcd, Width::Byte), 0x1111_1111_1111_11cd);
    assert_eq!(merge_low(0x1111_1111_1111_1111, 0xabcd, Width::Short), 0x1111_1111_1111_abcd);
    assert_eq!(merge_low(0x1111_1111_1111_1111, 0xabcd, Width::Int), 0x1111_1111_0000_abcd);
    assert_eq!(merge_low(0x1111_1111_1111_1111, 0xabcd, Width::Long), 0xabcd);
    assert_eq!(merge_low(u64::MAX, 0, Width::Int), 0xffff_ffff_0000_0000);
}
