use sails_rs::Encode;
use session_service::actions::ActionsForSession;
use session_service::payload::{build_signing_payload, MAX_SIGNED_ACTIONS};

fn delegate() -> [u8; 32] {
    let mut id = [0u8; 32];
    for (i, byte) in id.iter_mut().enumerate() {
        *byte = 0xa0 + i as u8;
    }
    id
}

#[test]
fn payload_bytes_are_exact() {
    let payload = build_signing_payload(&delegate(), 180_000, &vec![0, 1]);
    let mut expected = Vec::new();
    expected.extend_from_slice(b"<Bytes>");
    expected.extend_from_slice(&delegate());
    // 180_000 = 0x02bf20, least significant byte first, in 8 bytes
    expected.extend_from_slice(&[0x20, 0xbf, 0x02, 0, 0, 0, 0, 0]);
    // two actions: compact length 2 << 2, then one byte each
    expected.extend_from_slice(&[0x08, 0x00, 0x01]);
    expected.extend_from_slice(b"</Bytes>");
    assert_eq!(payload, expected);
    assert_eq!(payload.len(), 7 + 32 + 8 + 1 + 2 + 8);
}

#[test]
fn payload_of_no_actions_is_framing_and_fixed_fields() {
    let payload = build_signing_payload(&[0u8; 32], 0, &vec![]);
    let mut expected = b"<Bytes>".to_vec();
    expected.extend_from_slice(&[0u8; 41]);
    expected.extend_from_slice(b"</Bytes>");
    assert_eq!(payload, expected);
}

#[test]
fn payload_duration_is_little_endian() {
    let payload = build_signing_payload(&delegate(), 0x0102_0304_0506_0708, &vec![9]);
    assert_eq!(&payload[39..47], &[8, 7, 6, 5, 4, 3, 2, 1]);
    assert_eq!(&payload[47..], &[0x04, 9, b'<', b'/', b'B', b'y', b't', b'e', b's', b'>']);
}

fn length_prefix(actions: usize) -> Vec<u8> {
    let payload = build_signing_payload(&delegate(), 1, &vec![7u8; actions]);
    assert_eq!(&payload[payload.len() - 8 - actions..payload.len() - 8], &vec![7u8; actions][..]);
    payload[47..payload.len() - 8 - actions].to_vec()
}

#[test]
fn payload_length_prefix_grows_with_the_number_of_actions() {
    assert_eq!(length_prefix(1), vec![0x04]);
    assert_eq!(length_prefix(63), vec![0xfc]);
    assert_eq!(length_prefix(64), vec![0x01, 0x01]);
    assert_eq!(length_prefix(16_383), vec![0xfd, 0xff]);
    assert_eq!(length_prefix(16_384), vec![0x02, 0x00, 0x01, 0x00]);
    assert_eq!(length_prefix(70_000), vec![0xc2, 0x45, 0x04, 0x00]);
}

#[test]
fn payload_matches_the_codec_on_a_record_of_actions() {
    let actions = vec![ActionsForSession::StartGame, ActionsForSession::Move, ActionsForSession::Skip];
    let tags = ActionsForSession::tags(&actions);
    let encoded = (delegate(), 3_600_000u64, tags.clone()).encode();
    let payload = build_signing_payload(&delegate(), 3_600_000, &tags);
    assert_eq!(&payload[..7], b"<Bytes>");
    assert_eq!(&payload[7..payload.len() - 8], &encoded[..]);
    assert_eq!(&payload[payload.len() - 8..], b"</Bytes>");
}

#[test]
fn signed_action_limit_leaves_room_for_the_framing() {
    assert_eq!(MAX_SIGNED_ACTIONS as u64 + 60, u32::MAX as u64);
}

#[test]
fn payloads_of_different_requests_differ() {
    let base = build_signing_payload(&delegate(), 180_000, &vec![0, 1]);
    let mut other_delegate = delegate();
    other_delegate[31] ^= 1;
    let others = [
        build_signing_payload(&other_delegate, 180_000, &vec![0, 1]),
        build_signing_payload(&delegate(), 180_001, &vec![0, 1]),
        build_signing_payload(&delegate(), 180_000, &vec![1, 0]),
        build_signing_payload(&delegate(), 180_000, &vec![0]),
        build_signing_payload(&delegate(), 180_000, &vec![0, 1, 1]),
        build_signing_payload(&delegate(), 180_000, &vec![]),
        // 64 actions take a longer length prefix than 63
        build_signing_payload(&delegate(), 180_000, &vec![0; 63]),
        build_signing_payload(&delegate(), 180_000, &vec![0; 64]),
    ];
    for (i, payload) in others.iter().enumerate() {
        assert_ne!(payload, &base);
        for later in &others[i + 1..] {
            assert_ne!(payload, later);
        }
    }
}
