use tsplay::application::PTS_MAX;
use tsplay::es::encode_pts;
use tsplay::es::PesPacket;

fn pes_with_pts(stream_id: u8, pts: u64) -> Vec<u8> {
    let mut p = vec![0u8; 20];
    p[0] = 0x00;
    p[1] = 0x00;
    p[2] = 0x01;
    p[3] = stream_id;
    p[7] = 0x80;
    p[8] = 5;
    let enc = encode_pts(pts);
    p[9..14].copy_from_slice(&enc);
    p
}

#[test]
fn pts_round_trip_exact() {
    for &pts in &[0u64, 1, 90, 9000, 1_234_567, PTS_MAX - 1, PTS_MAX] {
        let p = pes_with_pts(0xE0, pts);
        let pes = PesPacket::new(&p);
        assert!(pes.is_syntax_spec());
        assert!(pes.is_pts());
        assert_eq!(pes.get_pts(), Some(pts));
    }
}

#[test]
fn encode_pts_sets_marker_bits() {
    let enc = encode_pts(0);
    assert_eq!(enc, vec![0x21, 0x00, 0x01, 0x00, 0x01]);
}

#[test]
fn non_syntax_stream_ids_are_filtered() {
    for &sid in &[0xBCu8, 0xBE, 0xBF, 0xF0, 0xF1, 0xF2, 0xF8, 0xFF] {
        let p = pes_with_pts(sid, 9000);
        let pes = PesPacket::new(&p);
        assert!(!pes.is_syntax_spec());
        assert_eq!(pes.get_pts(), None);
    }
}

#[test]
fn absent_pts_flag_yields_none() {
    let mut p = pes_with_pts(0xE0, 9000);
    p[7] = 0x00;
    let pes = PesPacket::new(&p);
    assert!(!pes.is_pts());
    assert_eq!(pes.get_pts(), None);
}

#[test]
fn short_header_yields_none() {
    let p = [0x00u8, 0x00, 0x01, 0xE0, 0x00, 0x00, 0x00, 0x80, 0x05, 0x21, 0x00, 0x01, 0x00];
    let pes = PesPacket::new(&p);
    assert!(pes.is_pts());
    assert!(pes.is_syntax_spec());
    assert_eq!(pes.get_pts(), None);
}
