use wyze::frame::{scan, Frame, InvalidReason, PacketSource, PacketSyncType, ScanResult};
use wyze::packets::{AuthPacket, MacPacket, SensorCountPacket, VersionPacket};
use wyze::payload::{PacketHandle, PacketPayload};

const AUTH_RESPONSE: [u8; 7] = [0x55, 0xAA, 0x53, 0x03, 0x15, 0x01, 0x6A];

const VERSION_RESPONSE: [u8; 32] = [
    0x55, 0xAA, 0x53, 0x1C, 0x17, 0x30, 0x2E, 0x30, 0x2E, 0x30, 0x2E, 0x33, 0x30, 0x20, 0x56, 0x31,
    0x2E, 0x34, 0x20, 0x44, 0x6F, 0x6E, 0x67, 0x6C, 0x65, 0x20, 0x55, 0x44, 0x33, 0x55, 0x07, 0xC5,
];

const MAC_RESPONSE: [u8; 15] = [
    0x55, 0xAA, 0x43, 0x0B, 0x05, 0x37, 0x37, 0x37, 0x41, 0x46, 0x39, 0x42, 0x46, 0x03, 0x3F,
];

const SENSOR_COUNT_ACK: [u8; 7] = [0x55, 0xAA, 0x53, 0x2E, 0xFF, 0x02, 0x7F];

fn scan_frame(bytes: &[u8]) -> (Frame, usize) {
    match scan(bytes) {
        (ScanResult::Frame(frame), consumed) => (frame, consumed),
        other => panic!("no frame: {:?}", other),
    }
}

fn decode(frame: &Frame) -> PacketHandle {
    PacketHandle::parse(&frame.payload, frame.command_id(), frame.is_ack(), frame.sync_type)
        .unwrap()
}

#[test]
fn auth_frame_with_empty_payload() {
    let (frame, consumed) = scan_frame(&AUTH_RESPONSE);
    assert_eq!(consumed, 7);
    assert_eq!(frame.source, PacketSource::Bridge);
    assert_eq!(frame.sync_type, PacketSyncType::Async);
    assert_eq!(frame.command_id(), 0x15);
    assert!(!frame.is_ack());
    assert!(frame.payload.is_empty());
    assert_eq!(frame.checksum, 0x016A);
    let handle = decode(&frame);
    assert_eq!(handle.sync_type, PacketSyncType::Async);
    assert_eq!(handle.payload, PacketPayload::AuthPacket(AuthPacket::Response));
}

#[test]
fn version_response_splits_on_spaces() {
    let (frame, consumed) = scan_frame(&VERSION_RESPONSE);
    assert_eq!(consumed, 32);
    let handle = decode(&frame);
    assert_eq!(
        handle.payload,
        PacketPayload::VersionPacket(VersionPacket::Response {
            fw_version: "0.0.0.30".to_string(),
            hw_version: "V1.4".to_string(),
            hw_type: "Dongle".to_string(),
            magic: "UD3U".to_string(),
        })
    );
    assert_eq!(handle.sync_type, PacketSyncType::Async);
}

#[test]
fn mac_response_is_text() {
    let (frame, consumed) = scan_frame(&MAC_RESPONSE);
    assert_eq!(consumed, 15);
    let handle = decode(&frame);
    assert_eq!(
        handle.payload,
        PacketPayload::MacPacket(MacPacket::Response { mac: "777AF9BF".to_string() })
    );
    assert_eq!(handle.sync_type, PacketSyncType::Sync);
}

#[test]
fn ack_frame_names_the_command_in_field_a() {
    let (frame, consumed) = scan_frame(&SENSOR_COUNT_ACK);
    assert_eq!(consumed, 7);
    assert!(frame.is_ack());
    assert_eq!(frame.command_id(), 0x2E);
    assert!(frame.payload.is_empty());
    let handle = decode(&frame);
    assert_eq!(handle.payload, PacketPayload::SensorCountPacket(SensorCountPacket::Ack));
}

#[test]
fn flipped_checksum_byte_is_invalid() {
    let mut bytes = AUTH_RESPONSE;
    bytes[6] ^= 0xFF;
    let (result, consumed) = scan(&bytes);
    assert_eq!(
        result,
        ScanResult::Invalid(InvalidReason::Checksum { expected: 0x0195, computed: 0x016A })
    );
    assert_eq!(consumed, 7);
}

#[test]
fn auth_command_from_host() {
    let bytes = [0xAA, 0x55, 0x53, 0x04, 0x14, 0xFF, 0x02, 0x69];
    let (frame, consumed) = scan_frame(&bytes);
    assert_eq!(consumed, 8);
    assert_eq!(frame.source, PacketSource::Host);
    assert_eq!(frame.payload, vec![0xFF]);
    let handle = decode(&frame);
    assert_eq!(handle.payload, PacketPayload::AuthPacket(AuthPacket::Command { completion: 0xFF }));
}

#[test]
fn noise_before_the_marker_is_consumed() {
    let mut bytes = vec![0x3E, 0x00, 0x13];
    bytes.extend_from_slice(&MAC_RESPONSE);
    let (frame, consumed) = scan_frame(&bytes);
    assert_eq!(consumed, 18);
    assert_eq!(frame.payload, b"777AF9BF".to_vec());
}

#[test]
fn bytes_after_the_frame_are_left() {
    let mut bytes = AUTH_RESPONSE.to_vec();
    bytes.extend_from_slice(&[0x55, 0xAA, 0x99, 0x01, 0x02]);
    let (frame, consumed) = scan_frame(&bytes);
    assert_eq!(consumed, 7);
    assert_eq!(frame.command_id(), 0x15);
}

#[test]
fn unfinished_frame_is_no_frame() {
    for cut in 2..MAC_RESPONSE.len() {
        let mut bytes = vec![0x01, 0x02];
        bytes.extend_from_slice(&MAC_RESPONSE[..cut]);
        assert_eq!(scan(&bytes), (ScanResult::NoFrame, 2), "cut at {}", cut);
    }
}

#[test]
fn half_a_marker_at_the_end_is_kept() {
    assert_eq!(scan(&[0x00, 0x01, 0x55]), (ScanResult::NoFrame, 2));
    assert_eq!(scan(&[0x00, 0x01, 0xAA]), (ScanResult::NoFrame, 2));
    assert_eq!(scan(&[0x55]), (ScanResult::NoFrame, 0));
}

#[test]
fn buffer_without_marker_is_consumed_whole() {
    assert_eq!(scan(&[]), (ScanResult::NoFrame, 0));
    assert_eq!(scan(&[0x01, 0x02, 0x03]), (ScanResult::NoFrame, 3));
    assert_eq!(scan(&[0x55, 0x55, 0x01]), (ScanResult::NoFrame, 3));
    assert_eq!(scan(&[0xAA, 0xAA, 0x00, 0x55, 0x01]), (ScanResult::NoFrame, 5));
}

#[test]
fn unknown_type_byte_is_invalid() {
    let bytes = [0x00, 0x55, 0xAA, 0x44, 0x03, 0x15, 0x01, 0x6A];
    assert_eq!(
        scan(&bytes),
        (ScanResult::Invalid(InvalidReason::UnknownType { byte: 0x44 }), 4)
    );
}

#[test]
fn declared_length_below_three_is_invalid() {
    for length in 0..3u8 {
        let bytes = [0x55, 0xAA, 0x53, length, 0x15, 0x01, 0x6A, 0x00];
        assert_eq!(
            scan(&bytes),
            (ScanResult::Invalid(InvalidReason::BadLength { length }), 5)
        );
    }
}

#[test]
fn type_byte_is_judged_before_the_header_is_complete() {
    assert_eq!(
        scan(&[0x55, 0xAA, 0x00]),
        (ScanResult::Invalid(InvalidReason::UnknownType { byte: 0x00 }), 3)
    );
    assert_eq!(scan(&[0x55, 0xAA, 0x53]), (ScanResult::NoFrame, 0));
    assert_eq!(scan(&[0x55, 0xAA, 0x53, 0x03]), (ScanResult::NoFrame, 0));
}

#[test]
fn checksum_mismatch_reports_both_sums() {
    let mut bytes = MAC_RESPONSE;
    bytes[7] = 0x38;
    assert_eq!(
        scan(&bytes),
        (ScanResult::Invalid(InvalidReason::Checksum { expected: 0x033F, computed: 0x0340 }), 15)
    );
}

#[test]
fn encoded_frame_is_found_before_any_garbage() {
    let payloads: [&[u8]; 4] = [&[], &[0x01], &[0x55, 0xAA, 0x55], &[0xFF; 252]];
    let tails: [&[u8]; 4] = [&[], &[0x00], &[0x55, 0xAA, 0x53, 0x03], &[0xAA; 9]];
    for payload in payloads {
        for tail in tails {
            let frame =
                Frame::new(PacketSource::Host, PacketSyncType::Sync, 0x27, payload.to_vec())
                    .unwrap();
            let mut bytes = frame.encode();
            let length = bytes.len();
            assert_eq!(length, payload.len() + 7);
            bytes.extend_from_slice(tail);
            assert_eq!(scan(&bytes), (ScanResult::Frame(frame), length));
        }
    }
}

#[test]
fn encoded_ack_is_found_before_any_garbage() {
    for id in [0x00u8, 0x2E, 0x35, 0xFF] {
        let frame = Frame::ack(PacketSource::Bridge, PacketSyncType::Async, id);
        let mut bytes = frame.encode();
        assert_eq!(bytes.len(), 7);
        bytes.extend_from_slice(&[0x01, 0x02, 0x03]);
        let (found, consumed) = scan_frame(&bytes);
        assert_eq!(consumed, 7);
        assert!(found.is_ack());
        assert_eq!(found.command_id(), id);
        assert_eq!(found, frame);
    }
}

#[test]
fn any_single_corrupted_byte_is_refused() {
    let frame =
        Frame::new(PacketSource::Bridge, PacketSyncType::Async, 0x31, b"777B1962".to_vec())
            .unwrap();
    let bytes = frame.encode();
    // Type byte, identifier and payload; the length (index 3) is left out.
    for index in [2usize, 4, 5, 6, 7, 8, 9, 10, 11, 12] {
        for value in 0..=255u8 {
            if value == bytes[index] || (index == 4 && value == 0xFF) {
                continue;
            }
            let mut corrupted = bytes.clone();
            corrupted[index] = value;
            corrupted.extend_from_slice(&[0x10, 0x20]);
            let (result, _) = scan(&corrupted);
            assert!(
                matches!(result, ScanResult::Invalid(_)),
                "index {} value {}: {:?}",
                index,
                value,
                result
            );
        }
    }
}

#[test]
fn corrupted_ack_identifier_is_refused() {
    let bytes = SENSOR_COUNT_ACK;
    for value in 0..=255u8 {
        if value == bytes[3] {
            continue;
        }
        let mut corrupted = bytes;
        corrupted[3] = value;
        let (result, consumed) = scan(&corrupted);
        assert!(matches!(result, ScanResult::Invalid(InvalidReason::Checksum { .. })));
        assert_eq!(consumed, 7);
    }
}

#[test]
fn frame_new_refuses_sentinel_and_long_payload() {
    assert_eq!(Frame::new(PacketSource::Host, PacketSyncType::Sync, 0xFF, vec![]), None);
    assert_eq!(Frame::new(PacketSource::Host, PacketSyncType::Sync, 0x27, vec![0; 253]), None);
    let longest = Frame::new(PacketSource::Host, PacketSyncType::Sync, 0x27, vec![0; 252]);
    assert_eq!(longest.unwrap().length_or_id, 255);
}

#[test]
fn frame_encode_writes_the_known_frames() {
    let inquiry = Frame::new(PacketSource::Host, PacketSyncType::Sync, 0x27, vec![]).unwrap();
    assert_eq!(inquiry.encode(), vec![0xAA, 0x55, 0x43, 0x03, 0x27, 0x01, 0x6C]);
    assert_eq!(inquiry.checksum, 0x016C);
    let count =
        Frame::new(PacketSource::Bridge, PacketSyncType::Async, 0x2F, vec![0x02]).unwrap();
    assert_eq!(count.encode(), vec![0x55, 0xAA, 0x53, 0x04, 0x2F, 0x02, 0x01, 0x87]);
    let ack = Frame::ack(PacketSource::Bridge, PacketSyncType::Async, 0x2E);
    assert_eq!(ack.encode(), SENSOR_COUNT_ACK.to_vec());
    assert_eq!(ack.length_or_id, 0x2E);
    assert_eq!(ack.ack_or_id, 0xFF);
}

#[test]
fn sync_type_bytes() {
    assert_eq!(PacketSyncType::from_u8(0x53), Some(PacketSyncType::Async));
    assert_eq!(PacketSyncType::from_u8(0x43), Some(PacketSyncType::Sync));
    assert_eq!(PacketSyncType::from_u8(0x00), None);
    assert_eq!(PacketSyncType::from_u8(0x54), None);
    assert_eq!(PacketSyncType::Async.to_u8(), 0x53);
    assert_eq!(PacketSyncType::Sync.to_u8(), 0x43);
}

#[test]
fn frame_validity() {
    let good = Frame::new(PacketSource::Bridge, PacketSyncType::Async, 0x2F, vec![2]).unwrap();
    assert!(good.is_valid());
    assert!(Frame::ack(PacketSource::Host, PacketSyncType::Sync, 0x04).is_valid());
    let mut wrong_sum = good.clone();
    wrong_sum.checksum += 1;
    assert!(!wrong_sum.is_valid());
    let mut short = good.clone();
    short.length_or_id = 2;
    assert!(!short.is_valid());
    let mut long = good.clone();
    long.payload.push(0);
    assert!(!long.is_valid());
    let mut ack_with_payload = good.clone();
    ack_with_payload.ack_or_id = 0xFF;
    assert!(!ack_with_payload.is_valid());
    let (scanned, _) = scan_frame(&MAC_RESPONSE);
    assert!(scanned.is_valid());
}
