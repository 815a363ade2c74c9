use wyze::frame::PacketSyncType;
use wyze::packets::{AuthPacket, MacPacket, MessageType, SensorCountPacket, SensorListPacket};
use wyze::payload::{DecodeError, PacketKind, PacketPayload};
use wyze::registry::{PacketRegistry, RegistryEntry, RegistryError};

fn standard() -> Vec<RegistryEntry> {
    PacketRegistry::new().entries().clone()
}

#[test]
fn standard_table_is_the_protocol_table() {
    let entries = standard();
    assert_eq!(entries.len(), 6);
    assert_eq!(
        entries[0],
        RegistryEntry {
            kind: PacketKind::Inquiry,
            cmd_id: 0x27,
            rsp_id: 0x28,
            sync_type: PacketSyncType::Sync
        }
    );
    assert_eq!(
        entries[5],
        RegistryEntry {
            kind: PacketKind::Auth,
            cmd_id: 0x14,
            rsp_id: 0x15,
            sync_type: PacketSyncType::Async
        }
    );
    assert_eq!(PacketRegistry::entry_of(PacketKind::Mac), entries[1]);
}

#[test]
fn build_accepts_the_standard_table_in_any_order() {
    let mut entries = standard();
    entries.reverse();
    let registry = PacketRegistry::build(entries.clone()).unwrap();
    assert_eq!(registry.entries(), &entries);
}

#[test]
fn build_refuses_the_sentinel() {
    let mut entries = standard();
    entries[2].rsp_id = 0xFF;
    assert_eq!(
        PacketRegistry::build(entries).unwrap_err(),
        RegistryError::ReservedIdentifier { kind: PacketKind::Version }
    );
    let mut entries = standard();
    entries[4].cmd_id = 0xFF;
    assert_eq!(
        PacketRegistry::build(entries).unwrap_err(),
        RegistryError::ReservedIdentifier { kind: PacketKind::SensorList }
    );
}

#[test]
fn build_refuses_an_identifier_that_is_command_and_response() {
    let mut entries = standard();
    entries[3].rsp_id = entries[3].cmd_id;
    assert_eq!(
        PacketRegistry::build(entries).unwrap_err(),
        RegistryError::DuplicateIdentifier { id: 0x2E }
    );
    let mut entries = standard();
    entries[1].rsp_id = 0x27;
    assert_eq!(
        PacketRegistry::build(entries).unwrap_err(),
        RegistryError::DuplicateIdentifier { id: 0x27 }
    );
}

#[test]
fn build_refuses_a_repeated_identifier() {
    let mut entries = standard();
    entries[5].cmd_id = 0x04;
    assert_eq!(
        PacketRegistry::build(entries).unwrap_err(),
        RegistryError::DuplicateIdentifier { id: 0x04 }
    );
    let mut entries = standard();
    entries[0].rsp_id = 0x31;
    assert_eq!(
        PacketRegistry::build(entries).unwrap_err(),
        RegistryError::DuplicateIdentifier { id: 0x31 }
    );
}

#[test]
fn build_refuses_a_repeated_kind() {
    let mut entries = standard();
    entries.push(RegistryEntry {
        kind: PacketKind::Mac,
        cmd_id: 0x50,
        rsp_id: 0x51,
        sync_type: PacketSyncType::Sync,
    });
    assert_eq!(
        PacketRegistry::build(entries).unwrap_err(),
        RegistryError::DuplicateKind { kind: PacketKind::Mac }
    );
}

#[test]
fn build_refuses_a_missing_kind() {
    let mut entries = standard();
    entries.remove(3);
    assert_eq!(
        PacketRegistry::build(entries).unwrap_err(),
        RegistryError::MissingKind { kind: PacketKind::SensorCount }
    );
    assert_eq!(
        PacketRegistry::build(vec![]).unwrap_err(),
        RegistryError::MissingKind { kind: PacketKind::Inquiry }
    );
}

#[test]
fn build_checks_the_sentinel_first() {
    let mut entries = standard();
    entries.remove(0);
    entries[0].cmd_id = 0xFF;
    entries[1].cmd_id = entries[1].rsp_id;
    assert_eq!(
        PacketRegistry::build(entries).unwrap_err(),
        RegistryError::ReservedIdentifier { kind: PacketKind::Mac }
    );
}

#[test]
fn lookup_tells_command_from_response() {
    let registry = PacketRegistry::new();
    let (entry, role) = registry.lookup(0x30).unwrap();
    assert_eq!((entry.kind, role), (PacketKind::SensorList, MessageType::Command));
    let (entry, role) = registry.lookup(0x31).unwrap();
    assert_eq!((entry.kind, role), (PacketKind::SensorList, MessageType::Response));
    assert_eq!(registry.lookup(0x32), None);
    assert_eq!(registry.lookup(0xFF), None);
}

#[test]
fn decode_dispatches_on_the_identifier() {
    let registry = PacketRegistry::new();
    assert_eq!(
        registry.decode(0x05, MessageType::Response, b"777AF9BF"),
        Ok(PacketPayload::MacPacket(MacPacket::Response { mac: "777AF9BF".to_string() }))
    );
    // The table, not the role given, tells a command from a response.
    assert_eq!(
        registry.decode(0x2F, MessageType::Command, &[0x02]),
        Ok(PacketPayload::SensorCountPacket(SensorCountPacket::Response { count: 2 }))
    );
    assert_eq!(
        registry.decode(0x14, MessageType::Response, &[0xFF]),
        Ok(PacketPayload::AuthPacket(AuthPacket::Command { completion: 0xFF }))
    );
}

#[test]
fn decode_reads_an_ack_under_either_identifier() {
    let registry = PacketRegistry::new();
    for id in [0x2E, 0x2F] {
        assert_eq!(
            registry.decode(id, MessageType::Ack, &[]),
            Ok(PacketPayload::SensorCountPacket(SensorCountPacket::Ack))
        );
    }
}

#[test]
fn decode_reports_unknown_and_malformed() {
    let registry = PacketRegistry::new();
    assert_eq!(registry.decode(0x99, MessageType::Command, &[]), Err(DecodeError::UnknownCommand));
    assert_eq!(registry.decode(0x99, MessageType::Ack, &[]), Err(DecodeError::UnknownCommand));
    assert_eq!(registry.decode(0x05, MessageType::Response, &[0xFF]), Err(DecodeError::Malformed));
    assert_eq!(registry.decode(0x30, MessageType::Command, &[]), Err(DecodeError::Malformed));
}

#[test]
fn encode_names_identifier_namespace_and_bytes() {
    let registry = PacketRegistry::new();
    assert_eq!(
        registry.encode(&PacketPayload::SensorListPacket(SensorListPacket::Command { count: 5 })),
        (0x30, PacketSyncType::Async, vec![5])
    );
    assert_eq!(
        registry.encode(&PacketPayload::MacPacket(MacPacket::Response {
            mac: "AB".to_string()
        })),
        (0x05, PacketSyncType::Sync, vec![0x41, 0x42])
    );
    assert_eq!(
        registry.encode(&PacketPayload::AuthPacket(AuthPacket::Ack)),
        (0x14, PacketSyncType::Async, vec![])
    );
}

#[test]
fn decode_of_encode_under_another_table() {
    let mut entries = standard();
    for (i, entry) in entries.iter_mut().enumerate() {
        entry.cmd_id = 0x80 + 2 * i as u8;
        entry.rsp_id = 0x81 + 2 * i as u8;
    }
    entries.rotate_left(2);
    let registry = PacketRegistry::build(entries).unwrap();
    let values = [
        PacketPayload::MacPacket(MacPacket::Response { mac: "777AF9BF".to_string() }),
        PacketPayload::AuthPacket(AuthPacket::Command { completion: 9 }),
        PacketPayload::SensorCountPacket(SensorCountPacket::Ack),
    ];
    for value in values {
        let (id, _, bytes) = registry.encode(&value);
        assert!(id >= 0x80);
        assert_eq!(registry.decode(id, value.message_type(), &bytes), Ok(value));
    }
    assert_eq!(registry.decode(0x05, MessageType::Response, &[]), Err(DecodeError::UnknownCommand));
}

#[test]
fn standard_registry_agrees_with_the_fixed_dispatch() {
    let registry = PacketRegistry::new();
    let payloads: [&[u8]; 4] = [&[], &[0x01], b"a b c d", &[0xFF, 0x00]];
    for id in 0..=255u8 {
        for payload in payloads {
            assert_eq!(
                registry.decode(id, MessageType::Command, payload),
                PacketPayload::parse(payload, id, false)
            );
            assert_eq!(
                registry.decode(id, MessageType::Ack, payload),
                PacketPayload::parse(payload, id, true)
            );
        }
    }
}

#[test]
fn entry_of_a_kind_in_a_table_of_another_order() {
    let mut entries = standard();
    entries.swap(0, 4);
    let registry = PacketRegistry::build(entries).unwrap();
    let entry = registry.entry(PacketKind::SensorList);
    assert_eq!((entry.cmd_id, entry.rsp_id), (0x30, 0x31));
    let entry = registry.entry(PacketKind::Inquiry);
    assert_eq!((entry.cmd_id, entry.rsp_id, entry.sync_type), (0x27, 0x28, PacketSyncType::Sync));
}
