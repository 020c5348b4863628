use lorawan::codec::{
    u16_from_le_bytes, u16_to_le_bytes, u24_from_le_bytes, u24_to_le_bytes, u32_from_le_bytes,
    u32_to_le_bytes, u64_from_le_bytes,
};

#[test]
fn u24_reads_little_endian() {
    assert_eq!(u24_from_le_bytes([0x01, 0x20, 0x00]), 0x002001);
    assert_eq!(u24_from_le_bytes([0x00, 0x81, 0x03]), 0x038100);
    assert_eq!(u24_from_le_bytes([0xff, 0xff, 0xff]), 0xffffff);
    assert_eq!(u24_from_le_bytes([0, 0, 0]), 0);
    assert_eq!(u24_from_le_bytes([1, 2, 3]), 0x030201);
}

#[test]
fn u24_writes_little_endian() {
    assert_eq!(u24_to_le_bytes(0x002001), [0x01, 0x20, 0x00]);
    assert_eq!(u24_to_le_bytes(0xffffff), [0xff, 0xff, 0xff]);
    assert_eq!(u24_to_le_bytes(0), [0, 0, 0]);
    assert_eq!(u24_to_le_bytes(0x030201), [1, 2, 3]);
}

#[test]
fn u24_round_trips() {
    for v in [0u32, 1, 0xff, 0x100, 0xffff, 0x10000, 0x123456, 0xfffffe, 0xffffff] {
        assert_eq!(u24_from_le_bytes(u24_to_le_bytes(v)), v);
    }
    for b in [[0u8, 0, 0], [1, 0, 0], [0, 1, 0], [0, 0, 1], [0xab, 0xcd, 0xef]] {
        assert_eq!(u24_to_le_bytes(u24_from_le_bytes(b)), b);
    }
}

#[test]
fn other_widths_agree_with_std() {
    for b in [[0u8, 0, 0, 0], [1, 2, 3, 4], [0xff, 0xfe, 0xfd, 0xfc], [0, 0, 0, 0x80]] {
        assert_eq!(u32_from_le_bytes(b), u32::from_le_bytes(b));
        assert_eq!(u32_to_le_bytes(u32::from_le_bytes(b)), b);
        assert_eq!(u16_from_le_bytes([b[0], b[1]]), u16::from_le_bytes([b[0], b[1]]));
        assert_eq!(u16_to_le_bytes(u16::from_le_bytes([b[2], b[3]])), [b[2], b[3]]);
    }
    let e = [0x01u8, 0x23, 0x45, 0x67, 0x89, 0xab, 0xcd, 0xef];
    assert_eq!(u64_from_le_bytes(e), u64::from_le_bytes(e));
    assert_eq!(u64_from_le_bytes(e), 0xefcdab8967452301);
}
