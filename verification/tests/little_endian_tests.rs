use sc_evdev::little_endian::{i16_from_le_bytes, i16_to_le_bytes, u32_from_le_bytes, u32_to_le_bytes};

#[test]
fn i16_bytes_match_std() {
    for v in [0i16, 1, -1, 255, 256, -256, i16::MIN, i16::MAX, 12345, -12345] {
        assert_eq!(i16_to_le_bytes(v), v.to_le_bytes());
        let b = v.to_le_bytes();
        assert_eq!(i16_from_le_bytes(b[0], b[1]), v);
    }
}

#[test]
fn u32_bytes_match_std() {
    for v in [0u32, 1, 0xdead_beef, u32::MAX, 0x0102_0304] {
        assert_eq!(u32_to_le_bytes(v), v.to_le_bytes());
        let b = v.to_le_bytes();
        assert_eq!(u32_from_le_bytes(b[0], b[1], b[2], b[3]), v);
    }
}
