use loadcheck::frame::{decode, encode, FrameError, FRAME_LEN};

#[test]
fn encode_is_big_endian_with_marker() {
    assert_eq!(encode(1), [0, 0, 0, 1, 0x0B, 0x0A, 0x09, 0x08]);
    assert_eq!(encode(0x0102_0304), [1, 2, 3, 4, 0x0B, 0x0A, 0x09, 0x08]);
    assert_eq!(encode(u32::MAX), [255, 255, 255, 255, 0x0B, 0x0A, 0x09, 0x08]);
    assert_eq!(encode(1_000_000), [0x00, 0x0F, 0x42, 0x40, 0x0B, 0x0A, 0x09, 0x08]);
}

#[test]
fn decode_reads_first_four_bytes() {
    assert_eq!(decode(&[0, 0, 1, 0, 9, 9, 9, 9]), Ok(256));
    assert_eq!(decode(&[0x12, 0x34, 0x56, 0x78, 0, 0, 0, 0, 7]), Ok(0x1234_5678));
}

#[test]
fn decode_round_trips_encode() {
    for task in [0u32, 1, 7, 64, 65, 999_999, 1_000_000, u32::MAX] {
        let f = encode(task);
        assert_eq!(f.len(), FRAME_LEN);
        assert_eq!(decode(&f), Ok(task));
    }
}

#[test]
fn decode_rejects_short_input() {
    assert_eq!(decode(&[]), Err(FrameError::Short));
    assert_eq!(decode(&[0, 0, 0, 1, 11, 10, 9]), Err(FrameError::Short));
}
