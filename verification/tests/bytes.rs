use swap_engine::bytes::{read_u16_le, read_u64_le, u32_to_le_bytes, u64_to_le_bytes};

#[test]
fn words_read_little_endian() {
    let data = [0xffu8, 1, 2, 3, 4, 5, 6, 7, 8, 9];
    assert_eq!(read_u64_le(&data, 1), 0x0807060504030201);
    assert_eq!(read_u16_le(&data, 8), 0x0908);
}

#[test]
fn words_write_little_endian_and_read_back() {
    assert_eq!(u64_to_le_bytes(0x0102030405060708), [8, 7, 6, 5, 4, 3, 2, 1]);
    assert_eq!(u32_to_le_bytes(0x0a0b0c0d), [0x0d, 0x0c, 0x0b, 0x0a]);
    for x in [0u64, 1, 255, 256, 0xdead_beef, u64::MAX] {
        assert_eq!(read_u64_le(&u64_to_le_bytes(x), 0), x);
    }
}
