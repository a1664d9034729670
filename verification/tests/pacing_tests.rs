use tsplay::application::next_chunk;
use tsplay::application::pts_delta;
use tsplay::application::pts_to_ms;
use tsplay::application::supervise;
use tsplay::application::walk;
use tsplay::application::Pacer;
use tsplay::application::SupervisorStep;
use tsplay::application::Trigger;
use tsplay::application::PTS_MAX;
use tsplay::config::next_config;
use tsplay::config::Config;
use tsplay::es::encode_pts;
use tsplay::misc::compact;
use tsplay::misc::offset_calc;
use tsplay::misc::MAX_BUF;
use tsplay::mpeg::encode_pat;
use tsplay::mpeg::PatItem;
use tsplay::mpeg::PID_NONE;

fn psi_packet(pid: u16, payload: &[u8]) -> Vec<u8> {
    let mut p = vec![0xFFu8; 188];
    p[0] = 0x47;
    p[1] = 0x40 | ((pid >> 8) as u8 & 0x1F);
    p[2] = pid as u8;
    p[3] = 0x10;
    p[4..4 + payload.len()].copy_from_slice(payload);
    p
}

fn pmt_payload(program: u16, version: u8, entries: &[(u8, u16, u16)]) -> Vec<u8> {
    let entries_len: usize = entries.iter().map(|e| 5 + e.2 as usize).sum();
    let length = 13 + entries_len + 4;
    let mut p = vec![0u8; 4 + length];
    p[0] = 0x02;
    p[2] = ((length >> 8) & 0x0F) as u8;
    p[3] = (length & 0xFF) as u8;
    p[4] = (program >> 8) as u8;
    p[5] = (program & 0xFF) as u8;
    p[6] = (version & 0x1F) << 1;
    let mut ptr = 13;
    for &(stream_type, pid, es_len) in entries {
        p[ptr] = stream_type;
        p[ptr + 1] = 0xE0 | ((pid >> 8) as u8 & 0x1F);
        p[ptr + 2] = pid as u8;
        p[ptr + 3] = 0xF0 | ((es_len >> 8) as u8 & 0x0F);
        p[ptr + 4] = (es_len & 0xFF) as u8;
        ptr += 5 + es_len as usize;
    }
    p
}

fn null_packet() -> Vec<u8> {
    let mut p = vec![0xFFu8; 188];
    p[0] = 0x47;
    p[1] = 0x1F;
    p[2] = 0xFF;
    p[3] = 0x10;
    p
}

/// A PES-starting video packet with the given PTS.
fn pes_packet(pid: u16, pts: u64) -> Vec<u8> {
    let mut p = vec![0xFFu8; 188];
    p[0] = 0x47;
    p[1] = 0x40 | ((pid >> 8) as u8 & 0x1F);
    p[2] = pid as u8;
    p[3] = 0x10;
    p[4] = 0x00;
    p[5] = 0x00;
    p[6] = 0x01;
    p[7] = 0xE0;
    p[8] = 0x00;
    p[9] = 0x00;
    p[10] = 0x80;
    p[11] = 0x80;
    p[12] = 0x05;
    let enc = encode_pts(pts);
    p[13..18].copy_from_slice(&enc);
    p
}

/// A continuation video packet: payload present, no PES start.
fn filler_packet(pid: u16) -> Vec<u8> {
    let mut p = vec![0xFFu8; 188];
    p[0] = 0x47;
    p[1] = ((pid >> 8) as u8) & 0x1F;
    p[2] = pid as u8;
    p[3] = 0x10;
    p
}

#[test]
fn null_packet_only_keeps_session_idle() {
    let mut pacer = Pacer::new();
    let buf = null_packet();
    let r = walk(&mut pacer, &buf);
    assert_eq!(r.emits.len(), 0);
    assert_eq!(r.consumed, 188);
    assert_eq!(pacer.reference_pid, PID_NONE);
}

#[test]
fn minimal_pat_pmt_video_discovery() {
    let mut pacer = Pacer::new();
    let mut head = Vec::new();
    head.extend_from_slice(&psi_packet(0x0000, &encode_pat(1, 0, &vec![PatItem {
        program_number: 1,
        program_map_pid: 0x0100,
    }])));
    head.extend_from_slice(&psi_packet(0x0100, &pmt_payload(1, 0, &[(0x1B, 0x0200, 0)])));
    let r = walk(&mut pacer, &head);
    assert_eq!(pacer.reference_pid, 0x0200);
    assert_eq!(r.emits.len(), 0);
    assert_eq!(r.consumed, 2 * 188);

    // 15 video packets; PES starts carry 9000, 18000, then 9900 (regression).
    let mut body = Vec::new();
    body.extend_from_slice(&pes_packet(0x0200, 9000));
    for _ in 0..6 {
        body.extend_from_slice(&filler_packet(0x0200));
    }
    body.extend_from_slice(&pes_packet(0x0200, 18000));
    for _ in 0..6 {
        body.extend_from_slice(&filler_packet(0x0200));
    }
    let r = walk(&mut pacer, &body);
    // Rising PTS values alone never release anything.
    assert_eq!(r.emits.len(), 0);
    assert_eq!(pacer.pts_first, 9000);
    assert_eq!(pacer.pts_last, 18000);

    let mut tail = body.clone();
    tail.extend_from_slice(&pes_packet(0x0200, 9900));
    let mut pacer = Pacer::new();
    let mut fresh = head.clone();
    fresh.extend_from_slice(&tail);
    let r = walk(&mut pacer, &fresh);
    assert_eq!(pacer.reference_pid, 0x0200);
    assert_eq!(r.emits.len(), 1);
    let emit = r.emits[0];
    assert_eq!(emit.cursor, 17 * 188);
    assert_eq!(emit.delta_ms, pts_to_ms(pts_delta(9000, 9900)));
    assert_eq!(emit.delta_ms, 10);

    // Release in MTU-sized chunks; the short tail is held back.
    let mut w = 0;
    let mut chunks = Vec::new();
    while let Some((start, end)) = next_chunk(w, emit.cursor) {
        chunks.push(end - start);
        w = end;
    }
    assert_eq!(chunks, vec![MAX_BUF, MAX_BUF]);
    assert!(emit.cursor - w < MAX_BUF);
}

#[test]
fn empty_buffer_walks_nowhere() {
    let mut pacer = Pacer::new();
    let r = walk(&mut pacer, &[]);
    assert_eq!(r.emits.len(), 0);
    assert_eq!(r.consumed, 0);
    assert_eq!(pacer.reference_pid, PID_NONE);
}

#[test]
fn repeated_pts_does_not_release() {
    let mut pacer = Pacer::new();
    let mut buf = Vec::new();
    buf.extend_from_slice(&psi_packet(0x0000, &encode_pat(1, 0, &vec![PatItem {
        program_number: 1,
        program_map_pid: 0x0100,
    }])));
    buf.extend_from_slice(&psi_packet(0x0100, &pmt_payload(1, 0, &[(0x1B, 0x0200, 0)])));
    buf.extend_from_slice(&pes_packet(0x0200, 9000));
    buf.extend_from_slice(&pes_packet(0x0200, 9000));
    let r = walk(&mut pacer, &buf);
    assert_eq!(r.emits.len(), 0);
    assert_eq!(pacer.pts_first, 9000);
    assert_eq!(pacer.pts_last, 9000);
}

#[test]
fn program_zero_is_not_a_map_pid() {
    let mut pacer = Pacer::new();
    let mut buf = Vec::new();
    buf.extend_from_slice(&psi_packet(0x0000, &encode_pat(1, 0, &vec![
        PatItem { program_number: 0, program_map_pid: 0x0050 },
        PatItem { program_number: 1, program_map_pid: 0x0100 },
    ])));
    // A table on the network PID names a video stream, but must be ignored.
    buf.extend_from_slice(&psi_packet(0x0050, &pmt_payload(9, 0, &[(0x1B, 0x0300, 0)])));
    walk(&mut pacer, &buf);
    assert_eq!(pacer.reference_pid, PID_NONE);
    assert_eq!(pacer.pmt_pids, vec![0x0100]);

    buf.extend_from_slice(&psi_packet(0x0100, &pmt_payload(1, 0, &[(0x1B, 0x0200, 0)])));
    let mut pacer = Pacer::new();
    walk(&mut pacer, &buf);
    assert_eq!(pacer.reference_pid, 0x0200);
    assert!(pacer.pmt_pids.is_empty());
}

#[test]
fn audio_only_pmt_chooses_no_reference() {
    let mut pacer = Pacer::new();
    let mut buf = Vec::new();
    buf.extend_from_slice(&psi_packet(0x0000, &encode_pat(1, 0, &vec![PatItem {
        program_number: 1,
        program_map_pid: 0x0100,
    }])));
    buf.extend_from_slice(&psi_packet(0x0100, &pmt_payload(1, 0, &[(0x03, 0x0201, 0)])));
    walk(&mut pacer, &buf);
    assert_eq!(pacer.reference_pid, PID_NONE);
    assert_eq!(pacer.pmt_pids, vec![0x0100]);
}

#[test]
fn resync_after_garbage() {
    let mut pacer = Pacer::new();
    let mut buf = vec![0xAAu8; 37];
    buf.extend_from_slice(&null_packet());
    let r = walk(&mut pacer, &buf);
    assert_eq!(r.emits.len(), 0);
    assert_eq!(r.consumed, 37 + 188);
}

#[test]
fn short_tail_stops_the_scan() {
    let mut pacer = Pacer::new();
    let mut buf = null_packet();
    buf.extend_from_slice(&null_packet()[..100]);
    let r = walk(&mut pacer, &buf);
    assert_eq!(r.consumed, 188);
}

#[test]
fn pts_wraparound_delta() {
    assert_eq!(pts_delta(PTS_MAX - 45, 45), 90);
    assert_eq!(pts_to_ms(pts_delta(PTS_MAX - 45, 45)), 1);

    // The same boundary through the engine.
    let mut pacer = Pacer::new();
    let mut head = Vec::new();
    head.extend_from_slice(&psi_packet(0x0000, &encode_pat(1, 0, &vec![PatItem {
        program_number: 1,
        program_map_pid: 0x0100,
    }])));
    head.extend_from_slice(&psi_packet(0x0100, &pmt_payload(1, 0, &[(0x1B, 0x0200, 0)])));
    head.extend_from_slice(&pes_packet(0x0200, PTS_MAX - 45));
    head.extend_from_slice(&pes_packet(0x0200, 45));
    let r = walk(&mut pacer, &head);
    assert_eq!(r.emits.len(), 1);
    assert_eq!(r.emits[0].delta_ms, 1);
    assert_eq!(pacer.pts_first, PTS_MAX - 45);
    assert_eq!(pacer.pts_last, 45);
}

#[test]
fn datagram_bound_64_packets() {
    // 64 packets accumulated before the first regression: 9 full chunks of
    // 7 packets; the last packet is held because it is shorter than 7 * 188.
    let c = 64 * 188;
    let mut w = 0;
    let mut chunks = 0;
    while let Some((start, end)) = next_chunk(w, c) {
        assert_eq!(end - start, MAX_BUF);
        assert_eq!((end - start) % 188, 0);
        w = end;
        chunks += 1;
    }
    assert_eq!(chunks, 9);
    assert_eq!(c - w, 188);
}

#[test]
fn offset_calc_clips_to_total() {
    assert_eq!(offset_calc(0, 2000), (0, MAX_BUF));
    assert_eq!(offset_calc(1000, 2000), (1000, 2000));
    assert_eq!(offset_calc(0, 100), (0, 100));
}

#[test]
fn pts_delta_identities() {
    assert_eq!(pts_delta(5, 5), 0);
    assert_eq!(pts_delta(5, 6), 1);
    assert_eq!(pts_delta(0, PTS_MAX), PTS_MAX);
    assert!(pts_to_ms(pts_delta(123, PTS_MAX)) <= PTS_MAX / 90);
}

#[test]
fn compact_moves_tail_to_front() {
    let mut buf: Vec<u8> = (0..10).collect();
    compact(&mut buf, 7, 10);
    assert_eq!(buf[..3], [7, 8, 9]);
    assert_eq!(buf[3..], [3, 4, 5, 6, 7, 8, 9]);
    assert_eq!(buf.len(), 10);
}

#[test]
fn supervisor_selection() {
    assert_eq!(supervise(&Trigger::Hangup), SupervisorStep::ReloadConfig);
    assert_eq!(supervise(&Trigger::Terminate), SupervisorStep::Shutdown);
    assert_eq!(supervise(&Trigger::Interrupt), SupervisorStep::Shutdown);
    assert_eq!(supervise(&Trigger::SessionEnded), SupervisorStep::RestartSession);
}

#[test]
fn failed_reload_keeps_previous_config() {
    let current = Config { stream: Vec::new() };
    let kept = next_config(current, None);
    assert_eq!(kept.stream.len(), 0);
    let replaced = next_config(kept, Some(Config { stream: Vec::new() }));
    assert_eq!(replaced.stream.len(), 0);
}
