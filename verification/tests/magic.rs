use wyze::magic::{parse, PacketType, ParseError, RawMessage};

#[test]
fn raw_message_is_cut_out_after_the_noise() {
    let bytes = [
        0x3E, 0x55, 0xAA, 0x53, 0x0B, 0x31, 0x37, 0x37, 0x37, 0x42, 0x31, 0x39, 0x36, 0x32, 0x03,
        0x47, 0x09, 0x08,
    ];
    let (rest, message) = parse(&bytes).unwrap();
    assert_eq!(rest, &[0x09, 0x08]);
    assert_eq!(
        message,
        RawMessage { cmd_type: PacketType::Async, cmd_id: 0x31, payload: b"777B1962".to_vec() }
    );
}

#[test]
fn raw_message_with_a_wrong_checksum_is_refused() {
    assert_eq!(
        parse(&[0x55, 0xAA, 0x53, 0x03, 0x15, 0x01, 0x6B]),
        Err(ParseError::Checksum { expected: 0x016B, computed: 0x016A })
    );
    assert_eq!(
        parse(&[0x55, 0xAA, 0x43, 0x04, 0x28, 0x01, 0xEE, 0xEE]),
        Err(ParseError::Checksum { expected: 0xEEEE, computed: 0x016F })
    );
    let (rest, message) = parse(&[0x55, 0xAA, 0x43, 0x04, 0x28, 0x01, 0x01, 0x6F]).unwrap();
    assert!(rest.is_empty());
    assert_eq!(message, RawMessage { cmd_type: PacketType::Sync, cmd_id: 0x28, payload: vec![1] });
}

#[test]
fn raw_acknowledgement_has_no_payload() {
    let bytes = [0x55, 0xAA, 0x53, 0x2E, 0xFF, 0x02, 0x7F, 0x55];
    let (rest, message) = parse(&bytes).unwrap();
    assert_eq!(rest, &[0x55]);
    assert_eq!(message, RawMessage { cmd_type: PacketType::Async, cmd_id: 0xFF, payload: vec![] });
}

#[test]
fn raw_type_byte_must_name_a_namespace() {
    assert_eq!(
        parse(&[0x55, 0xAA, 0x99, 0x03, 0x15, 0x01, 0x6A]),
        Err(ParseError::UnknownType { byte: 0x99 })
    );
    assert_eq!(parse(&[0x00, 0x55, 0xAA, 0x00]), Err(ParseError::UnknownType { byte: 0x00 }));
}

#[test]
fn raw_message_begins_at_either_marker() {
    let (rest, message) = parse(&[0x01, 0xAA, 0x55, 0x53, 0x03, 0x16, 0x01, 0x6B, 0x02]).unwrap();
    assert_eq!(rest, &[0x02]);
    assert_eq!(message, RawMessage { cmd_type: PacketType::Async, cmd_id: 0x16, payload: vec![] });
    let (_, message) = parse(&[0xAA, 0x55, 0x43, 0x03, 0x27, 0x01, 0x6C]).unwrap();
    assert_eq!(message, RawMessage { cmd_type: PacketType::Sync, cmd_id: 0x27, payload: vec![] });
}

#[test]
fn raw_parse_wants_a_marker() {
    assert_eq!(parse(&[]), Err(ParseError::MissingLeader));
    assert_eq!(parse(&[0x01, 0x02, 0x55]), Err(ParseError::MissingLeader));
    assert_eq!(parse(&[0x55, 0x55, 0xAA, 0xAA, 0x01]), Err(ParseError::UnknownType { byte: 0xAA }));
    assert_eq!(parse(&[0x55, 0x01, 0xAA, 0x02]), Err(ParseError::MissingLeader));
}

#[test]
fn raw_parse_reports_missing_bytes() {
    assert_eq!(parse(&[0x55, 0xAA]), Err(ParseError::Incomplete));
    assert_eq!(parse(&[0x09, 0xAA, 0x55]), Err(ParseError::Incomplete));
    assert_eq!(parse(&[0x55, 0xAA, 0x53, 0x03]), Err(ParseError::Incomplete));
    assert_eq!(parse(&[0x55, 0xAA, 0x53, 0x03, 0x15, 0x01]), Err(ParseError::Incomplete));
    assert_eq!(parse(&[0x55, 0xAA, 0x53, 0x05, 0x15, 0x01, 0x02, 0x03]), Err(ParseError::Incomplete));
}

#[test]
fn raw_parse_refuses_a_short_length() {
    assert_eq!(
        parse(&[0x55, 0xAA, 0x53, 0x02, 0x15, 0x01, 0x6A]),
        Err(ParseError::BadLength { length: 2 })
    );
    assert_eq!(
        parse(&[0x55, 0xAA, 0x53, 0x00, 0x15, 0x01, 0x6A]),
        Err(ParseError::BadLength { length: 0 })
    );
}
