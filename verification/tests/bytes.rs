use emulator_hal::bytes::{
    u16_from_be_bytes, u16_from_le_bytes, u16_to_be_bytes, u16_to_le_bytes, u32_from_be_bytes,
    u32_from_le_bytes, u32_to_be_bytes, u32_to_le_bytes, u64_from_be_bytes, u64_from_le_bytes,
    u64_to_be_bytes, u64_to_le_bytes, ByteOrder,
};

#[test]
fn sixteen_bits() {
    assert_eq!(u16_to_be_bytes(0x1234), [0x12, 0x34]);
    assert_eq!(u16_to_le_bytes(0x1234), [0x34, 0x12]);
    assert_eq!(u16_from_be_bytes([0x12, 0x34]), 0x1234);
    assert_eq!(u16_from_le_bytes([0x12, 0x34]), 0x3412);
    assert_eq!(u16_to_be_bytes(0), [0, 0]);
    assert_eq!(u16_to_le_bytes(u16::MAX), [0xFF, 0xFF]);
    assert_eq!(u16_from_be_bytes([0xFF, 0xFF]), u16::MAX);
    assert_eq!(u16_from_le_bytes([0x01, 0x00]), 1);
}

#[test]
fn thirty_two_bits() {
    assert_eq!(u32_to_be_bytes(0x1234_5678), [0x12, 0x34, 0x56, 0x78]);
    assert_eq!(u32_to_le_bytes(0x1234_5678), [0x78, 0x56, 0x34, 0x12]);
    assert_eq!(u32_from_be_bytes([0x12, 0x34, 0x56, 0x78]), 0x1234_5678);
    assert_eq!(u32_from_le_bytes([0x12, 0x34, 0x56, 0x78]), 0x7856_3412);
    assert_eq!(u32_to_be_bytes(u32::MAX), [0xFF; 4]);
    assert_eq!(u32_from_le_bytes([0xFF; 4]), u32::MAX);
    assert_eq!(u32_to_le_bytes(1), [1, 0, 0, 0]);
    assert_eq!(u32_from_be_bytes([0, 0, 1, 0]), 256);
}

#[test]
fn sixty_four_bits() {
    assert_eq!(
        u64_to_be_bytes(0x0123_4567_89AB_CDEF),
        [0x01, 0x23, 0x45, 0x67, 0x89, 0xAB, 0xCD, 0xEF]
    );
    assert_eq!(
        u64_to_le_bytes(0x0123_4567_89AB_CDEF),
        [0xEF, 0xCD, 0xAB, 0x89, 0x67, 0x45, 0x23, 0x01]
    );
    assert_eq!(
        u64_from_be_bytes([0x01, 0x23, 0x45, 0x67, 0x89, 0xAB, 0xCD, 0xEF]),
        0x0123_4567_89AB_CDEF
    );
    assert_eq!(
        u64_from_le_bytes([0x01, 0x23, 0x45, 0x67, 0x89, 0xAB, 0xCD, 0xEF]),
        0xEFCD_AB89_6745_2301
    );
    assert_eq!(u64_to_be_bytes(u64::MAX), [0xFF; 8]);
    assert_eq!(u64_from_be_bytes([0xFF; 8]), u64::MAX);
    assert_eq!(u64_from_le_bytes([0, 0, 0, 0, 0, 0, 0, 0x80]), 1 << 63);
}

#[test]
fn agrees_with_the_standard_library() {
    let mut v: u64 = 0x9E37_79B9_7F4A_7C15;
    for _ in 0..1000 {
        v = v.wrapping_mul(6364136223846793005).wrapping_add(1442695040888963407);
        assert_eq!(u64_to_be_bytes(v), v.to_be_bytes());
        assert_eq!(u64_to_le_bytes(v), v.to_le_bytes());
        assert_eq!(u64_from_be_bytes(v.to_le_bytes()), u64::from_be_bytes(v.to_le_bytes()));
        assert_eq!(u64_from_le_bytes(v.to_be_bytes()), u64::from_le_bytes(v.to_be_bytes()));
        let w = (v >> 17) as u32;
        assert_eq!(u32_to_be_bytes(w), w.to_be_bytes());
        assert_eq!(u32_to_le_bytes(w), w.to_le_bytes());
        assert_eq!(u32_from_be_bytes(w.to_le_bytes()), u32::from_be_bytes(w.to_le_bytes()));
        assert_eq!(u32_from_le_bytes(w.to_le_bytes()), w);
        let h = (v >> 40) as u16;
        assert_eq!(u16_to_be_bytes(h), h.to_be_bytes());
        assert_eq!(u16_to_le_bytes(h), h.to_le_bytes());
        assert_eq!(u16_from_be_bytes(h.to_be_bytes()), h);
        assert_eq!(u16_from_le_bytes(h.to_be_bytes()), u16::from_le_bytes(h.to_be_bytes()));
    }
}

#[test]
fn byte_order_is_a_plain_value() {
    let order = ByteOrder::Big;
    let copy = order;
    assert_eq!(order, copy);
    assert_ne!(ByteOrder::Big, ByteOrder::Little);
    assert_eq!(format!("{:?}", ByteOrder::Little), "Little");
}
