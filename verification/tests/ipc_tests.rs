use audiocrab::ipc::{encode_frame, frame_length, socket_name_text, u32_from_le, u32_le_bytes};

#[test]
fn frames_carry_their_length_first() {
    let payload = b"{\"Play\":null}".to_vec();
    let frame = encode_frame(&payload);
    assert_eq!(&frame[..4], &(payload.len() as u32).to_le_bytes());
    assert_eq!(&frame[4..], &payload[..]);
    assert_eq!(frame_length([frame[0], frame[1], frame[2], frame[3]]), payload.len());
    assert_eq!(encode_frame(&Vec::new()), vec![0, 0, 0, 0]);
}

#[test]
fn little_endian_bytes_match_std() {
    for n in [0u32, 1, 255, 256, 65535, 16777216, 0xdead_beef, u32::MAX] {
        assert_eq!(u32_le_bytes(n), n.to_le_bytes());
        assert_eq!(u32_from_le(n.to_le_bytes()), n);
    }
    assert_eq!(frame_length([0x10, 0x27, 0, 0]), 10000);
    assert_eq!(socket_name_text(), "audiocrab.sock");
}
