use wyze::frame::{Frame, InvalidReason, PacketSource, PacketSyncType, ScanResult};
use wyze::stream::{drain, FrameScanner};

fn sample_stream() -> Vec<u8> {
    let mut bytes = vec![0x3E];
    bytes.extend_from_slice(&[0x55, 0xAA, 0x53, 0x03, 0x15, 0x01, 0x6A]);
    bytes.extend_from_slice(&[0x00, 0x55]);
    bytes.extend_from_slice(&[0x55, 0xAA, 0x53, 0x2E, 0xFF, 0x02, 0x7F]);
    bytes.extend_from_slice(&[0x55, 0xAA, 0x47, 0x01]);
    bytes.extend_from_slice(&[
        0x55, 0xAA, 0x43, 0x0B, 0x05, 0x37, 0x37, 0x37, 0x41, 0x46, 0x39, 0x42, 0x46, 0x03, 0x40,
    ]);
    bytes.extend_from_slice(&[0xAA, 0x55, 0x53, 0x04, 0x30, 0x05, 0x01, 0x8B]);
    bytes.extend_from_slice(&[0x09, 0x55, 0xAA, 0x53, 0x04]);
    bytes
}

fn sample_results() -> Vec<ScanResult> {
    vec![
        ScanResult::Frame(
            Frame::new(PacketSource::Bridge, PacketSyncType::Async, 0x15, vec![]).unwrap(),
        ),
        ScanResult::Frame(Frame::ack(PacketSource::Bridge, PacketSyncType::Async, 0x2E)),
        ScanResult::Invalid(InvalidReason::UnknownType { byte: 0x47 }),
        ScanResult::Invalid(InvalidReason::Checksum { expected: 0x0340, computed: 0x033F }),
        ScanResult::Frame(
            Frame::new(PacketSource::Host, PacketSyncType::Async, 0x30, vec![0x05]).unwrap(),
        ),
    ]
}

#[test]
fn drain_reads_every_frame_and_refusal() {
    let bytes = sample_stream();
    let (results, consumed) = drain(&bytes);
    assert_eq!(results, sample_results());
    assert_eq!(consumed, bytes.len() - 4);
}

#[test]
fn drain_of_noise_reports_nothing() {
    assert_eq!(drain(&[]), (vec![], 0));
    assert_eq!(drain(&[0x01, 0x02, 0xAA]), (vec![], 2));
}

#[test]
fn two_pushes_give_what_one_pass_gives() {
    let bytes = sample_stream();
    let (whole, consumed) = drain(&bytes);
    for cut in 0..=bytes.len() {
        let mut scanner = FrameScanner::new();
        let mut results = scanner.push(&bytes[..cut]);
        results.extend(scanner.push(&bytes[cut..]));
        assert_eq!(results, whole, "cut at {}", cut);
        assert_eq!(scanner.pending(), &bytes[consumed..], "cut at {}", cut);
    }
}

#[test]
fn byte_by_byte_gives_what_one_pass_gives() {
    let bytes = sample_stream();
    let mut scanner = FrameScanner::new();
    let mut results = Vec::new();
    for byte in &bytes {
        results.extend(scanner.push(&[*byte]));
    }
    assert_eq!(results, sample_results());
    assert_eq!(scanner.pending(), &[0x55, 0xAA, 0x53, 0x04]);
}

#[test]
fn scanner_keeps_an_unfinished_frame() {
    let mut scanner = FrameScanner::new();
    assert!(scanner.pending().is_empty());
    assert_eq!(scanner.push(&[0x07, 0x55, 0xAA, 0x53, 0x03]), vec![]);
    assert_eq!(scanner.pending(), &[0x55, 0xAA, 0x53, 0x03]);
    let results = scanner.push(&[0x15, 0x01, 0x6A, 0x55]);
    assert_eq!(results.len(), 1);
    assert_eq!(scanner.pending(), &[0x55]);
}
