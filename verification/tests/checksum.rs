use wyze::checksum::{checksum, CHECKSUM_SEED};

#[test]
fn checksum_of_nothing_is_the_seed() {
    assert_eq!(CHECKSUM_SEED, 0x00FF);
    assert_eq!(checksum(&[]), 0x00FF);
}

#[test]
fn checksum_adds_every_byte_to_the_seed() {
    assert_eq!(checksum(&[0x53, 0x03, 0x15]), 0x016A);
    assert_eq!(checksum(&[0x53, 0x2E, 0xFF]), 0x027F);
    assert_eq!(checksum(&[0x43, 0x0B, 0x05, 0x37, 0x37, 0x37, 0x41, 0x46, 0x39, 0x42, 0x46]), 0x033F);
}

#[test]
fn checksum_equals_the_sum_over_marker_and_frame() {
    let frame = [0xAAu8, 0x55, 0x53, 0x04, 0x30, 0x05];
    let plain = frame.iter().fold(0u16, |acc, x| acc.wrapping_add(*x as u16));
    assert_eq!(checksum(&frame[2..]), plain);
    assert_eq!(plain, 0x018B);
}

#[test]
fn checksum_wraps_at_sixteen_bits() {
    let bytes = vec![0xFFu8; 257];
    // 0xFF + 257 * 0xFF = 0x100FE, which wraps to 0x00FE.
    assert_eq!(checksum(&bytes), 0x00FE);
}
