use wyze::command::{
    frame_bytes, frame_packet, AckPacket, AddSensorPacket, AuthPacket, DeleteSensorCommandPacket, EnrPacket,
    GetKeyPacket, GetMacPacket, GetSensorCountPacket, GetSensorListPacket, GetVerPacket,
    InquiryPacket, Packable, Packet, PacketType, ReceivedPacket, SensorAlarmPacket,
    SensorEventPacket, SensorNotifySyncTimePacket, SensorScanPacket, SetRandomPacket,
    StartStopNetworkPacket, SyncTimeResponsePacket,
};
use wyze::frame::{scan, PacketSource, PacketSyncType, ScanResult};

fn described<P: Packet>(packet: &P) -> (PacketSyncType, u8) {
    (packet.get_packet_type(), packet.get_packet_id())
}

#[test]
fn namespaces_and_identifiers() {
    assert_eq!(described(&EnrPacket), (PacketSyncType::Sync, 0x02));
    assert_eq!(described(&AuthPacket::create_done()), (PacketSyncType::Async, 0x14));
    assert_eq!(described(&GetMacPacket), (PacketSyncType::Sync, 0x04));
    assert_eq!(described(&GetKeyPacket), (PacketSyncType::Sync, 0x06));
    assert_eq!(described(&InquiryPacket), (PacketSyncType::Sync, 0x27));
    assert_eq!(described(&GetVerPacket), (PacketSyncType::Async, 0x16));
    assert_eq!(described(&GetSensorCountPacket), (PacketSyncType::Async, 0x2E));
    assert_eq!(described(&SetRandomPacket::create([0; 16])), (PacketSyncType::Async, 0x21));
    assert_eq!(described(&StartStopNetworkPacket::create(true)), (PacketSyncType::Async, 0x1C));
    assert_eq!(described(&GetSensorListPacket::create(1)), (PacketSyncType::Async, 0x30));
    let event = SensorEventPacket { device_id: "777B1962".to_string(), device_type: 1 };
    assert_eq!(described(&event), (PacketSyncType::Async, 0x35));
    assert_eq!(described(&SensorAlarmPacket {}), (PacketSyncType::Async, 0x19));
    assert_eq!(described(&SensorScanPacket {}), (PacketSyncType::Async, 0x20));
    assert_eq!(described(&SensorNotifySyncTimePacket {}), (PacketSyncType::Async, 0x32));
    assert_eq!(described(&SyncTimeResponsePacket {}), (PacketSyncType::Async, 0x33));
    assert_eq!(described(&AddSensorPacket {}), (PacketSyncType::Async, 0x20));
    assert_eq!(described(&DeleteSensorCommandPacket {}), (PacketSyncType::Async, 0x25));
    assert_eq!(described(&AckPacket { for_packet_id: 0x35 }), (PacketSyncType::Async, 0xFF));
}

#[test]
fn auth_completion_values() {
    assert_eq!(AuthPacket::create_done().completion, 0xFF);
    assert_eq!(AuthPacket::create_blinking().completion, 0x00);
}

#[test]
fn creators_keep_their_argument() {
    let data = [1, 2, 3, 4, 5, 6, 7, 8, 9, 10, 11, 12, 13, 14, 15, 16];
    assert_eq!(SetRandomPacket::create(data).data, data);
    assert!(StartStopNetworkPacket::create(true).join_mode);
    assert!(!StartStopNetworkPacket::create(false).join_mode);
    assert_eq!(GetSensorListPacket::create(5).count, 5);
}

#[test]
fn bytes_of_each_packet() {
    assert_eq!(AuthPacket::create_done().to_bytes().to_vec(), vec![0x14, 0xFF]);
    assert_eq!(AuthPacket::create_blinking().to_bytes().to_vec(), vec![0x14, 0x00]);
    assert_eq!(GetMacPacket.to_bytes().to_vec(), vec![0x04]);
    assert_eq!(InquiryPacket.to_bytes().to_vec(), vec![0x27]);
    assert_eq!(GetVerPacket.to_bytes().to_vec(), vec![0x16]);
    assert_eq!(GetSensorCountPacket.to_bytes().to_vec(), vec![0x2E]);
    assert_eq!(StartStopNetworkPacket::create(true).to_bytes().to_vec(), vec![0x1C, 0x01]);
    assert_eq!(StartStopNetworkPacket::create(false).to_bytes().to_vec(), vec![0x1C, 0x00]);
    assert_eq!(GetSensorListPacket::create(5).to_bytes().to_vec(), vec![0x30, 0x05]);
    assert_eq!(DeleteSensorCommandPacket {}.to_bytes().to_vec(), vec![0x25]);
    assert_eq!(AckPacket { for_packet_id: 0x35 }.to_bytes().to_vec(), vec![0x35, 0xFF]);
}

#[test]
fn bytes_of_set_random() {
    let data = [0xA0, 0xA1, 0xA2, 0xA3, 0xA4, 0xA5, 0xA6, 0xA7, 8, 9, 10, 11, 12, 13, 14, 15];
    let bytes = SetRandomPacket::create(data).to_bytes();
    assert_eq!(bytes.len(), 17);
    assert_eq!(bytes[0], 0x21);
    assert_eq!(&bytes[1..], &data);
}

#[test]
fn bytes_of_a_packet_known_by_its_trait_alone() {
    let packet: &dyn Packet = &GetKeyPacket;
    assert_eq!(packet.to_bytes().to_vec(), vec![0x06]);
    let packet: &dyn Packet = &AuthPacket::create_done();
    assert_eq!(packet.to_bytes().to_vec(), vec![0x14]);
}

#[test]
fn frames_of_the_opening_commands() {
    assert_eq!(
        frame_packet(&InquiryPacket),
        Some(vec![0xAA, 0x55, 0x43, 0x03, 0x27, 0x01, 0x6C])
    );
    assert_eq!(frame_packet(&GetMacPacket), Some(vec![0xAA, 0x55, 0x43, 0x03, 0x04, 0x01, 0x49]));
    assert_eq!(frame_packet(&GetVerPacket), Some(vec![0xAA, 0x55, 0x53, 0x03, 0x16, 0x01, 0x6B]));
    assert_eq!(
        frame_packet(&GetSensorCountPacket),
        Some(vec![0xAA, 0x55, 0x53, 0x03, 0x2E, 0x01, 0x83])
    );
    assert_eq!(
        frame_packet(&GetSensorListPacket::create(5)),
        Some(vec![0xAA, 0x55, 0x53, 0x04, 0x30, 0x05, 0x01, 0x8B])
    );
    assert_eq!(
        frame_packet(&AuthPacket::create_done()),
        Some(vec![0xAA, 0x55, 0x53, 0x04, 0x14, 0xFF, 0x02, 0x69])
    );
}

#[test]
fn frame_of_an_acknowledgement_has_no_length() {
    let bytes = frame_packet(&AckPacket { for_packet_id: 0x35 }).unwrap();
    assert_eq!(bytes, vec![0xAA, 0x55, 0x53, 0x35, 0xFF, 0x02, 0x86]);
    match scan(&bytes) {
        (ScanResult::Frame(frame), 7) => {
            assert!(frame.is_ack());
            assert_eq!(frame.command_id(), 0x35);
            assert_eq!(frame.source, PacketSource::Host);
        },
        other => panic!("{:?}", other),
    }
}

#[test]
fn frame_of_set_random_is_found_by_a_scan() {
    let data = [0x55, 0xAA, 0x55, 0xAA, 4, 5, 6, 7, 8, 9, 10, 11, 12, 13, 14, 0xFF];
    let bytes = frame_packet(&SetRandomPacket::create(data)).unwrap();
    assert_eq!(bytes.len(), 23);
    assert_eq!(bytes[3], 19);
    match scan(&bytes) {
        (ScanResult::Frame(frame), 23) => {
            assert_eq!(frame.command_id(), 0x21);
            assert_eq!(frame.payload, data.to_vec());
            assert_eq!(frame.sync_type, PacketSyncType::Async);
        },
        other => panic!("{:?}", other),
    }
}

#[test]
fn received_packet_hands_out_the_packet() {
    let received = ReceivedPacket {
        lqi: 0x5C,
        packet_type: PacketType::GetSensorList,
        packet: GetSensorListPacket::create(3),
    };
    assert_eq!(received.lqi, 0x5C);
    assert_eq!(received.packet_type, PacketType::GetSensorList);
    assert_eq!(received.into_inner(), GetSensorListPacket::create(3));
}

#[test]
fn bytes_are_framed_whatever_they_begin_with() {
    let frame = frame_bytes(PacketSyncType::Async, 0x10, &vec![0x20, 0x01]).unwrap();
    assert_eq!(frame, vec![0xAA, 0x55, 0x53, 0x04, 0x20, 0x01, 0x01, 0x77]);
    match scan(&frame) {
        (ScanResult::Frame(found), 8) => {
            assert_eq!(found.command_id(), 0x20);
            assert_eq!(found.payload, vec![0x01]);
        },
        other => panic!("{:?}", other),
    }
}

#[test]
fn frame_counts_the_bytes_and_the_checksum() {
    for length in [1usize, 2, 17, 253] {
        let data = vec![0x21; length];
        let frame = frame_bytes(PacketSyncType::Sync, 0x21, &data).unwrap();
        assert_eq!(frame.len(), length + 6);
        assert_eq!(frame[..3], [0xAA, 0x55, 0x43]);
        assert_eq!(frame[3] as usize, length + 2);
        assert_eq!(frame[4..4 + length], data[..]);
        let sum = frame[..4 + length].iter().fold(0u16, |acc, x| acc.wrapping_add(*x as u16));
        assert_eq!(frame[4 + length..], [(sum >> 8) as u8, (sum & 0xFF) as u8]);
    }
}

#[test]
fn frame_needs_one_to_253_bytes() {
    assert_eq!(frame_bytes(PacketSyncType::Async, 0x21, &vec![]), None);
    assert_eq!(frame_bytes(PacketSyncType::Async, 0x21, &vec![0x21; 254]), None);
    assert!(frame_bytes(PacketSyncType::Async, 0x21, &vec![0x21; 253]).is_some());
}

#[test]
fn acknowledgement_is_an_identifier_and_the_sentinel() {
    assert_eq!(
        frame_bytes(PacketSyncType::Async, 0xFF, &vec![0x2E, 0xFF]),
        Some(vec![0xAA, 0x55, 0x53, 0x2E, 0xFF, 0x02, 0x7F])
    );
    assert_eq!(frame_bytes(PacketSyncType::Async, 0xFF, &vec![0x2E]), None);
    assert_eq!(frame_bytes(PacketSyncType::Async, 0xFF, &vec![0x2E, 0x00]), None);
    assert_eq!(frame_bytes(PacketSyncType::Async, 0xFF, &vec![0x2E, 0xFF, 0x00]), None);
}
