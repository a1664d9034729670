use tsplay::ts::is_sync;
use tsplay::ts::TsError;
use tsplay::ts::TsPacket;
use tsplay::ts::TS_PACKET_SIZE;

fn null_packet() -> Vec<u8> {
    let mut p = vec![0xFFu8; TS_PACKET_SIZE];
    p[0] = 0x47;
    p[1] = 0x1F;
    p[2] = 0xFF;
    p[3] = 0x10;
    p
}

fn packet_with_header(b1: u8, b2: u8, b3: u8) -> Vec<u8> {
    let mut p = vec![0xFFu8; TS_PACKET_SIZE];
    p[0] = 0x47;
    p[1] = b1;
    p[2] = b2;
    p[3] = b3;
    p
}

#[test]
fn new() {
    let data = null_packet();
    let _ts = TsPacket::new(&data).unwrap();
}

#[test]
fn is_sync_checks_first_byte() {
    assert!(is_sync(&[0x47, 0x00]));
    assert!(!is_sync(&[0x48]));
    assert!(!is_sync(&[]));
}

#[test]
fn new_rejects_missing_sync_byte() {
    let mut data = null_packet();
    data[0] = 0x48;
    assert_eq!(TsPacket::new(&data).unwrap_err(), TsError::NotSync);
}

#[test]
fn new_rejects_short_window() {
    let data = [0x47u8; 187];
    assert_eq!(TsPacket::new(&data).unwrap_err(), TsError::Short);
}

#[test]
fn header_fields_of_null_packet() {
    let data = null_packet();
    let ts = TsPacket::new(&data).unwrap();
    assert!(!ts.is_error());
    assert!(!ts.is_pusi());
    assert_eq!(ts.get_pid(), 0x1FFF);
    assert!(!ts.is_adaptation());
    assert!(ts.is_payload());
    assert_eq!(ts.get_cc(), 0x00);
}

#[test]
fn payload_window_without_adaptation() {
    let data = null_packet();
    let ts = TsPacket::new(&data).unwrap();
    assert!(ts.has_payload_room());
    assert_eq!(ts.get_payload_offset(), 4);
    assert_eq!(ts.get_payload().len(), 184);
}

#[test]
fn payload_window_with_adaptation() {
    // Adaptation flag set, adaptation length 10: payload starts at 15.
    let mut data = packet_with_header(0x00, 0x64, 0x30);
    data[4] = 10;
    let ts = TsPacket::new(&data).unwrap();
    assert!(ts.is_adaptation());
    assert_eq!(ts.get_adaptation_size(), 10);
    assert!(ts.has_payload_room());
    assert_eq!(ts.get_payload_offset(), 15);
    assert_eq!(ts.get_payload().len(), 188 - 15);
}

#[test]
fn oversized_adaptation_leaves_no_payload_room() {
    let mut data = packet_with_header(0x00, 0x64, 0x30);
    data[4] = 184;
    let ts = TsPacket::new(&data).unwrap();
    assert!(!ts.has_payload_room());
    data[4] = 183;
    let ts = TsPacket::new(&data).unwrap();
    assert!(ts.has_payload_room());
    assert_eq!(ts.get_payload().len(), 0);
}

#[test]
fn pes_start_prefix_detected() {
    let mut data = packet_with_header(0x42, 0x00, 0x10);
    data[4] = 0x00;
    data[5] = 0x00;
    data[6] = 0x01;
    let ts = TsPacket::new(&data).unwrap();
    assert!(ts.is_pes());
    data[6] = 0x02;
    let ts = TsPacket::new(&data).unwrap();
    assert!(!ts.is_pes());
}

#[test]
fn error_and_pusi_flags() {
    let data = packet_with_header(0xC0, 0x00, 0x10);
    let ts = TsPacket::new(&data).unwrap();
    assert!(ts.is_error());
    assert!(ts.is_pusi());
}
