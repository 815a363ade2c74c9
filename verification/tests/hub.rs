use wyze::frame::{Frame, PacketSource, PacketSyncType};
use wyze::hub::{greeting, is_hub, on_frame, startup, Exchange, HubAction};

#[test]
fn bridge_is_known_by_vendor_and_product() {
    assert!(is_hub(0x1A86, 0xE024));
    assert!(!is_hub(0x1A86, 0xE025));
    assert!(!is_hub(0x1A87, 0xE024));
    assert!(!is_hub(0xE024, 0x1A86));
}

#[test]
fn startup_exchanges() {
    assert_eq!(
        startup(),
        vec![
            Exchange { request: vec![0xAA, 0x55, 0x43, 0x03, 0x27, 0x01, 0x6C], replies: 1 },
            Exchange { request: vec![0xAA, 0x55, 0x43, 0x03, 0x04, 0x01, 0x49], replies: 1 },
            Exchange { request: vec![0xAA, 0x55, 0x53, 0x03, 0x16, 0x01, 0x6B], replies: 1 },
            Exchange { request: vec![0xAA, 0x55, 0x53, 0x03, 0x2E, 0x01, 0x83], replies: 1 },
            Exchange { request: vec![0xAA, 0x55, 0x53, 0x04, 0x30, 0x05, 0x01, 0x8B], replies: 3 },
            Exchange { request: vec![0xAA, 0x55, 0x53, 0x04, 0x14, 0xFF, 0x02, 0x69], replies: 0 },
        ]
    );
}

#[test]
fn greeting_frames() {
    assert_eq!(
        greeting(),
        vec![
            vec![0xAA, 0x55, 0x43, 0x03, 0x04, 0x01, 0x49],
            vec![0xAA, 0x55, 0x53, 0x03, 0x16, 0x01, 0x6B],
            vec![0xAA, 0x55, 0x53, 0x03, 0x2E, 0x01, 0x83],
        ]
    );
}

#[test]
fn named_sensor_is_answered_with_a_request() {
    let frame =
        Frame::new(PacketSource::Bridge, PacketSyncType::Async, 0x31, vec![0x02, 0x37]).unwrap();
    let expected = HubAction::Send(vec![0xAA, 0x55, 0x53, 0x04, 0x30, 0x02, 0x01, 0x88]);
    assert_eq!(on_frame(&frame, false), expected);
    assert_eq!(on_frame(&frame, true), expected);
}

#[test]
fn named_sensor_without_payload_is_passed_over() {
    let frame = Frame::new(PacketSource::Bridge, PacketSyncType::Async, 0x31, vec![]).unwrap();
    assert_eq!(on_frame(&frame, true), HubAction::Nothing);
}

#[test]
fn other_frames_go_to_the_client() {
    let frame =
        Frame::new(PacketSource::Bridge, PacketSyncType::Async, 0x2F, vec![0x02]).unwrap();
    assert_eq!(
        on_frame(&frame, true),
        HubAction::Relay(vec![0x55, 0xAA, 0x53, 0x04, 0x2F, 0x02, 0x01, 0x87])
    );
    assert_eq!(on_frame(&frame, false), HubAction::Nothing);
    let ack = Frame::ack(PacketSource::Bridge, PacketSyncType::Async, 0x31);
    assert_eq!(
        on_frame(&ack, true),
        HubAction::Relay(vec![0x55, 0xAA, 0x53, 0x31, 0xFF, 0x02, 0x82])
    );
}
