//! PTS arithmetic and the pacing engine: reference-PID discovery, PTS
//! regression detection, and the decisions that release buffered packets.

use crate::config::Config;
use crate::es::spec_get_pts;
use crate::es::PesPacket;
use crate::misc::offset_calc;
use crate::misc::MAX_BUF;
use crate::mpeg::spec_pat_items;
use crate::mpeg::spec_pmt_items;
use crate::mpeg::spec_psi_section_ok;
use crate::mpeg::spec_stream_type;
use crate::mpeg::Pat;
use crate::mpeg::PatItem;
use crate::mpeg::Pmt;
use crate::mpeg::PmtItem;
use crate::mpeg::StreamType;
use crate::mpeg::PID_NONE;
use crate::mpeg::PID_PAT;
use crate::ts::spec_is_pes;
use crate::ts::spec_is_payload;
use crate::ts::spec_is_pusi;
use crate::ts::spec_payload;
use crate::ts::spec_payload_fits;
use crate::ts::spec_pid;
use crate::ts::TsError;
use crate::ts::TsPacket;
use crate::ts::TS_PACKET_SIZE;
use crate::ts::TS_SYNC_BYTE;
use vstd::prelude::*;

verus! {

/// 90 clocks = 1 ms.
pub const PTS_CLOCK_MS: u64 = 90;

/// Sentinel above every 33-bit PTS value.
pub const PTS_NONE: u64 = 0x2_0000_0000;

/// Largest 33-bit PTS value.
pub const PTS_MAX: u64 = 0x1_FFFF_FFFF;

/// Milliseconds represented by a PTS duration.
pub open spec fn spec_pts_to_ms(pts: u64) -> u64 {
    pts / PTS_CLOCK_MS
}

/// Wrap-aware distance from `last` forward to `current`.
pub open spec fn spec_pts_delta(last_pts: u64, current_pts: u64) -> u64
    recommends
        last_pts <= PTS_MAX,
        current_pts <= PTS_MAX,
{
    if current_pts >= last_pts {
        (current_pts - last_pts) as u64
    } else {
        (current_pts + PTS_MAX - last_pts) as u64
    }
}

/// Converts PTS to milliseconds.
#[inline]
pub fn pts_to_ms(pts: u64) -> (r: u64)
    ensures
        r == spec_pts_to_ms(pts),
{
    pts / PTS_CLOCK_MS
}

/// Returns difference between previous PTS and current PTS.
#[inline]
pub fn pts_delta(last_pts: u64, current_pts: u64) -> (r: u64)
    requires
        last_pts <= PTS_MAX,
        current_pts <= PTS_MAX,
    ensures
        r == spec_pts_delta(last_pts, current_pts),
        r <= PTS_MAX,
{
    if current_pts >= last_pts {
        current_pts - last_pts
    } else {
        current_pts + PTS_MAX - last_pts
    }
}

/// The millisecond reading of a wrap-aware PTS distance never exceeds the
/// largest PTS expressed in milliseconds.
pub proof fn lemma_pts_delta_ms_range(a: u64, b: u64)
    requires
        a <= PTS_MAX,
        b <= PTS_MAX,
    ensures
        spec_pts_to_ms(spec_pts_delta(a, b)) <= PTS_MAX / PTS_CLOCK_MS,
{
}

/// The distance from a PTS to itself is zero.
pub proof fn lemma_pts_delta_same(a: u64)
    requires
        a <= PTS_MAX,
    ensures
        spec_pts_delta(a, a) == 0,
{
}

/// The distance to the next PTS tick is one.
pub proof fn lemma_pts_delta_successor(a: u64)
    requires
        a + 1 <= PTS_MAX,
    ensures
        spec_pts_delta(a, (a + 1) as u64) == 1,
{
}

/// The map PIDs of the PAT entries from index `i` on, skipping program 0.
pub open spec fn spec_pat_pid_list_from(items: Seq<PatItem>, i: int) -> Seq<u16>
    decreases items.len() - i,
{
    if i < 0 || i >= items.len() {
        Seq::empty()
    } else if items[i].program_number != 0 {
        seq![items[i].program_map_pid] + spec_pat_pid_list_from(items, i + 1)
    } else {
        spec_pat_pid_list_from(items, i + 1)
    }
}

/// The map PIDs named by a PAT, in order, with the network PID (program 0)
/// left out.
pub open spec fn spec_pat_pid_list(items: Seq<PatItem>) -> Seq<u16> {
    spec_pat_pid_list_from(items, 0)
}

/// The first entry from index `i` on that classifies as video.
pub open spec fn spec_first_video_from(items: Seq<PmtItem>, i: int) -> Option<PmtItem>
    decreases items.len() - i,
{
    if i < 0 || i >= items.len() {
        None
    } else if spec_stream_type(items[i].stream_type) == StreamType::Video {
        Some(items[i])
    } else {
        spec_first_video_from(items, i + 1)
    }
}

/// The first PMT entry that classifies as video.
pub open spec fn spec_first_video(items: Seq<PmtItem>) -> Option<PmtItem> {
    spec_first_video_from(items, 0)
}

/// The pacing state of one session.
#[verifier::ext_equal]
pub ghost struct PacerView {
    /// Map PIDs learned from the PAT, still awaiting their PMT.
    pub pmt_pids: Seq<u16>,
    /// The elementary PID whose PTS values drive pacing; PID_NONE until
    /// discovered.
    pub reference_pid: u16,
    /// Anchor: the PTS the current pacing window was opened at.
    pub pts_first: u64,
    /// The highest PTS seen in the current window.
    pub pts_last: u64,
}

impl PacerView {
    /// Both anchors stay within the 33-bit PTS range.
    pub open spec fn wf(self) -> bool {
        self.pts_first <= PTS_MAX && self.pts_last <= PTS_MAX
    }
}

/// A fresh session: nothing learned, anchors unset.
pub open spec fn spec_initial_pacer() -> PacerView {
    PacerView { pmt_pids: Seq::empty(), reference_pid: PID_NONE, pts_first: 0, pts_last: 0 }
}

/// Reference-PID discovery on one packet, applied only while no reference
/// PID is chosen: a PAT (PID 0, nothing learned yet) contributes its map
/// PIDs; a packet on a learned map PID is parsed as a PMT, and its first
/// video entry becomes the reference PID, clearing the learned set.
pub open spec fn spec_discover(st: PacerView, b: Seq<u8>) -> PacerView {
    let pid = spec_pid(b);
    let st1 = if pid == PID_PAT && st.pmt_pids.len() == 0 && spec_payload_fits(b)
        && spec_psi_section_ok(spec_payload(b)) {
        PacerView { pmt_pids: st.pmt_pids + spec_pat_pid_list(spec_pat_items(spec_payload(b))), ..st }
    } else {
        st
    };
    if st1.pmt_pids.contains(pid) && spec_payload_fits(b) && spec_psi_section_ok(spec_payload(b)) {
        match spec_first_video(spec_pmt_items(spec_payload(b))) {
            Some(item) => PacerView {
                pmt_pids: Seq::empty(),
                reference_pid: item.elementary_pid,
                ..st1
            },
            None => st1,
        }
    } else {
        st1
    }
}

/// PTS tracking: the first PTS anchors the window; a higher PTS only
/// advances `pts_last`; a lower PTS closes the window, reports the distance
/// from the anchor in milliseconds, and opens a new window at the old
/// `pts_last`.
pub open spec fn spec_pts_track(st: PacerView, pts: u64) -> (PacerView, Option<u64>)
    recommends
        st.wf(),
        pts <= PTS_MAX,
{
    let first = if st.pts_first == 0 {
        pts
    } else {
        st.pts_first
    };
    let last = if st.pts_first == 0 {
        pts
    } else {
        st.pts_last
    };
    if pts > last {
        (PacerView { pts_first: first, pts_last: pts, ..st }, None)
    } else if pts < last {
        (
            PacerView { pts_first: last, pts_last: pts, ..st },
            Some(spec_pts_to_ms(spec_pts_delta(first, pts))),
        )
    } else {
        (PacerView { pts_first: first, pts_last: last, ..st }, None)
    }
}

/// What one framed packet does to the pacing state, and the millisecond
/// distance reported if it closes a pacing window: discovery first, then,
/// only on the reference PID with a payload-starting PES, PTS tracking.
pub open spec fn spec_observe(st: PacerView, b: Seq<u8>) -> (PacerView, Option<u64>)
    recommends
        st.wf(),
        b.len() == 188,
{
    let st1 = if st.reference_pid == PID_NONE {
        spec_discover(st, b)
    } else {
        st
    };
    if spec_pid(b) == st1.reference_pid && spec_is_pusi(b) && spec_is_payload(b)
        && spec_payload_fits(b) && spec_is_pes(b) {
        match spec_get_pts(spec_payload(b)) {
            Some(pts) => spec_pts_track(st1, pts),
            None => (st1, None),
        }
    } else {
        (st1, None)
    }
}

/// Whether a PID is among the learned map PIDs.
fn contains_pid(pids: &Vec<u16>, pid: u16) -> (r: bool)
    ensures
        r == pids@.contains(pid),
{
    let mut i: usize = 0;
    while i < pids.len()
        invariant
            i <= pids@.len(),
            forall|j: int| 0 <= j < i ==> pids@[j] != pid,
        decreases pids@.len() - i,
    {
        if pids[i] == pid {
            return true;
        }
        i += 1;
    }
    false
}

/// The first PMT entry that classifies as video, if any.
fn first_video(items: &Vec<PmtItem>) -> (r: Option<PmtItem>)
    ensures
        r == spec_first_video(items@),
{
    let mut i: usize = 0;
    while i < items.len()
        invariant
            i <= items@.len(),
            spec_first_video(items@) == spec_first_video_from(items@, i as int),
        decreases items@.len() - i,
    {
        let item = items[i];
        if item.get_stream_type() == StreamType::Video {
            return Some(item);
        }
        i += 1;
    }
    None
}

/// Per-session pacing state: the learned map PIDs, the chosen reference
/// PID, and the two PTS anchors. It persists across read cycles within a
/// session and is discarded on reload or termination.
///
/// Only a video entry can become the reference PID: a stream whose PMTs
/// name no video keeps the reference unset, collects no release points,
/// and so never paces.
pub struct Pacer {
    /// Map PIDs learned from the PAT, still awaiting their PMT.
    pub pmt_pids: Vec<u16>,
    /// The elementary PID whose PTS values drive pacing; PID_NONE until
    /// discovered.
    pub reference_pid: u16,
    /// Anchor: the PTS the current pacing window was opened at.
    pub pts_first: u64,
    /// The highest PTS seen in the current window.
    pub pts_last: u64,
}

impl View for Pacer {
    type V = PacerView;

    open spec fn view(&self) -> PacerView {
        PacerView {
            pmt_pids: self.pmt_pids@,
            reference_pid: self.reference_pid,
            pts_first: self.pts_first,
            pts_last: self.pts_last,
        }
    }
}

impl Pacer {
    /// Both anchors stay within the 33-bit PTS range.
    pub open spec fn wf(&self) -> bool {
        self@.wf()
    }

    /// A fresh session state.
    pub fn new() -> (r: Pacer)
        ensures
            r@ == spec_initial_pacer(),
            r.wf(),
    {
        let r = Pacer { pmt_pids: Vec::new(), reference_pid: PID_NONE, pts_first: 0, pts_last: 0 };
        proof {
            assert(r@ =~= spec_initial_pacer());
        }
        r
    }

    /// Reference-PID discovery on one packet.
    fn discover(&mut self, ts: &TsPacket)
        requires
            old(self).wf(),
            ts.wf(),
        ensures
            final(self).wf(),
            final(self)@ == spec_discover(old(self)@, ts@),
    {
        let ghost pre = self@;
        let pid = ts.get_pid();
        if pid == PID_PAT && self.pmt_pids.len() == 0 && ts.has_payload_room() {
            match Pat::new(ts) {
                Ok(pat) => {
                    let ghost pids0 = self.pmt_pids@;
                    let mut i: usize = 0;
                    while i < pat.items.len()
                        invariant
                            i <= pat.items@.len(),
                            pids0 + spec_pat_pid_list(pat.items@) == self.pmt_pids@
                                + spec_pat_pid_list_from(pat.items@, i as int),
                            self.reference_pid == pre.reference_pid,
                            self.pts_first == pre.pts_first,
                            self.pts_last == pre.pts_last,
                        decreases pat.items@.len() - i,
                    {
                        let item = pat.items[i];
                        let ghost pids_before = self.pmt_pids@;
                        if item.program_number != 0 {
                            self.pmt_pids.push(item.program_map_pid);
                        }
                        proof {
                            assert(spec_pat_pid_list_from(pat.items@, i as int) == (if item.program_number
                                != 0 {
                                seq![item.program_map_pid] + spec_pat_pid_list_from(
                                    pat.items@,
                                    i as int + 1,
                                )
                            } else {
                                spec_pat_pid_list_from(pat.items@, i as int + 1)
                            }));
                            assert(pids_before + spec_pat_pid_list_from(pat.items@, i as int)
                                =~= self.pmt_pids@ + spec_pat_pid_list_from(pat.items@, i as int + 1));
                        }
                        i += 1;
                    }
                    proof {
                        assert(spec_pat_pid_list_from(pat.items@, pat.items@.len() as int)
                            =~= Seq::<u16>::empty());
                        assert(self.pmt_pids@ =~= pids0 + spec_pat_pid_list(pat.items@));
                    }
                },
                Err(_) => {},
            }
        }
        let ghost st1 = self@;
        proof {
            assert(st1 =~= (if spec_pid(ts@) == PID_PAT && pre.pmt_pids.len() == 0
                && spec_payload_fits(ts@) && spec_psi_section_ok(spec_payload(ts@)) {
                PacerView {
                    pmt_pids: pre.pmt_pids + spec_pat_pid_list(spec_pat_items(spec_payload(ts@))),
                    ..pre
                }
            } else {
                pre
            }));
        }
        if contains_pid(&self.pmt_pids, pid) && ts.has_payload_room() {
            match Pmt::new(ts) {
                Ok(pmt) => {
                    match first_video(&pmt.items) {
                        Some(item) => {
                            self.reference_pid = item.elementary_pid;
                            self.pmt_pids.clear();
                        },
                        None => {},
                    }
                },
                Err(_) => {},
            }
        }
        proof {
            assert(self@ =~= spec_discover(pre, ts@));
        }
    }

    /// PTS tracking for one reference-PID PTS sample.
    fn track_pts(&mut self, pts: u64) -> (r: Option<u64>)
        requires
            old(self).wf(),
            pts <= PTS_MAX,
        ensures
            final(self).wf(),
            final(self)@ == spec_pts_track(old(self)@, pts).0,
            r == spec_pts_track(old(self)@, pts).1,
    {
        if self.pts_first == 0 {
            self.pts_first = pts;
            self.pts_last = pts;
        }
        if pts > self.pts_last {
            self.pts_last = pts;
            None
        } else if pts < self.pts_last {
            let delta = pts_to_ms(pts_delta(self.pts_first, pts));
            self.pts_first = self.pts_last;
            self.pts_last = pts;
            Some(delta)
        } else {
            None
        }
    }

    /// Applies one framed packet to the pacing state; reports the
    /// millisecond distance of the closed window when the packet's PTS
    /// falls below the highest seen (wrap or reordering boundary).
    pub fn observe(&mut self, ts: &TsPacket) -> (r: Option<u64>)
        requires
            old(self).wf(),
            ts.wf(),
        ensures
            final(self).wf(),
            final(self)@ == spec_observe(old(self)@, ts@).0,
            r == spec_observe(old(self)@, ts@).1,
    {
        let pid = ts.get_pid();
        if self.reference_pid == PID_NONE {
            self.discover(ts);
        }
        if pid == self.reference_pid && ts.is_pusi() && ts.is_payload() && ts.has_payload_room()
            && ts.is_pes() {
            let pes = PesPacket::new(ts.get_payload());
            match pes.get_pts() {
                Some(pts) => self.track_pts(pts),
                None => None,
            }
        } else {
            None
        }
    }
}

/// One pacing release point found by a scan: release buffered bytes up to
/// `cursor`, then sleep; `delta_ms` is the millisecond width of the closed
/// pacing window.
#[derive(Debug, Clone, Copy, PartialEq, Eq, Structural)]
pub struct Emit {
    /// Byte offset just past the packet that closed the window.
    pub cursor: usize,
    /// Millisecond distance from the window's anchor.
    pub delta_ms: u64,
}

/// What one scan of a filled buffer produced.
#[derive(Debug)]
pub struct WalkResult {
    /// The release points, in buffer order.
    pub emits: Vec<Emit>,
    /// Where the scan stopped: the end of the last framed packet region;
    /// bytes from here on await more data.
    pub consumed: usize,
}

/// The outcome of scanning a buffer from a cursor: the final pacing state,
/// the release points as (cursor, delta_ms) pairs, and the stop position.
#[verifier::ext_equal]
pub ghost struct ScanModel {
    pub st: PacerView,
    pub emits: Seq<(int, u64)>,
    pub consumed: int,
}

/// The scan: at a non-sync byte advance by one; on a sync byte with fewer
/// than 188 bytes left stop (more data is needed); otherwise observe the
/// 188-byte packet, advance past it, and record a release point whenever
/// the packet closed a pacing window.
pub open spec fn spec_scan(buf: Seq<u8>, c: int, st: PacerView) -> ScanModel
    decreases buf.len() - c,
{
    if c < 0 || c >= buf.len() {
        ScanModel { st, emits: Seq::empty(), consumed: c }
    } else if buf[c] != TS_SYNC_BYTE {
        spec_scan(buf, c + 1, st)
    } else if buf.len() - c < 188 {
        ScanModel { st, emits: Seq::empty(), consumed: c }
    } else {
        let stepped = spec_observe(st, buf.subrange(c, c + 188));
        let rest = spec_scan(buf, c + 188, stepped.0);
        match stepped.1 {
            Some(delta) => ScanModel {
                st: rest.st,
                emits: seq![(c + 188, delta)] + rest.emits,
                consumed: rest.consumed,
            },
            None => rest,
        }
    }
}

/// The (cursor, delta_ms) pairs carried by a list of release points.
pub open spec fn spec_emits_view(emits: Seq<Emit>) -> Seq<(int, u64)> {
    Seq::new(emits.len(), |i: int| (emits[i].cursor as int, emits[i].delta_ms))
}

/// Release points come out in buffer order: every cursor lies past the scan
/// position and at or before the stop position, and they never decrease, so
/// releasing up to each cursor in turn sends every byte at most once.
pub proof fn lemma_scan_emits_ordered(buf: Seq<u8>, c: int, st: PacerView)
    requires
        0 <= c <= buf.len(),
    ensures
        ({
            let m = spec_scan(buf, c, st);
            &&& c <= m.consumed <= buf.len()
            &&& forall|i: int|
                0 <= i < m.emits.len() ==> c + 188 <= (#[trigger] m.emits[i]).0 <= m.consumed
            &&& forall|i: int, j: int|
                0 <= i <= j < m.emits.len() ==> (#[trigger] m.emits[i]).0
                    <= (#[trigger] m.emits[j]).0
        }),
    decreases buf.len() - c,
{
    let m = spec_scan(buf, c, st);
    if c >= buf.len() {
    } else if buf[c] != TS_SYNC_BYTE {
        lemma_scan_emits_ordered(buf, c + 1, st);
    } else if buf.len() - c < 188 {
    } else {
        let stepped = spec_observe(st, buf.subrange(c, c + 188));
        lemma_scan_emits_ordered(buf, c + 188, stepped.0);
    }
}

/// Scans filled buffer bytes for TS packets, resyncing byte-by-byte,
/// learning the reference PID, and collecting the pacing release points.
pub fn walk(pacer: &mut Pacer, buf: &[u8]) -> (r: WalkResult)
    requires
        old(pacer).wf(),
        buf@.len() <= usize::MAX - 188,
    ensures
        final(pacer).wf(),
        final(pacer)@ == spec_scan(buf@, 0, old(pacer)@).st,
        spec_emits_view(r.emits@) == spec_scan(buf@, 0, old(pacer)@).emits,
        r.consumed == spec_scan(buf@, 0, old(pacer)@).consumed,
        r.consumed <= buf@.len(),
        forall|i: int|
            0 <= i < r.emits@.len() ==> (#[trigger] r.emits@[i]).cursor <= r.consumed,
        forall|i: int, j: int|
            0 <= i <= j < r.emits@.len() ==> (#[trigger] r.emits@[i]).cursor
                <= (#[trigger] r.emits@[j]).cursor,
{
    let ghost st0 = pacer@;
    let n = buf.len();
    let mut c: usize = 0;
    let mut emits: Vec<Emit> = Vec::new();
    let mut short_stop = false;
    while !short_stop && c < n
        invariant
            pacer.wf(),
            c <= n,
            n == buf@.len(),
            n <= usize::MAX - 188,
            spec_scan(buf@, 0, st0).st == spec_scan(buf@, c as int, pacer@).st,
            spec_scan(buf@, 0, st0).emits == spec_emits_view(emits@) + spec_scan(
                buf@,
                c as int,
                pacer@,
            ).emits,
            spec_scan(buf@, 0, st0).consumed == spec_scan(buf@, c as int, pacer@).consumed,
            short_stop ==> spec_scan(buf@, c as int, pacer@) == (ScanModel {
                st: pacer@,
                emits: Seq::<(int, u64)>::empty(),
                consumed: c as int,
            }),
        decreases n - c + (if short_stop {
            0int
        } else {
            1int
        }),
    {
        let ghost c0 = c as int;
        let ghost pre = pacer@;
        let tail = &buf[c..n];
        match TsPacket::new(tail) {
            Ok(ts) => {
                proof {
                    assert(ts@ =~= buf@.subrange(c0, c0 + 188));
                }
                let e = pacer.observe(&ts);
                c += TS_PACKET_SIZE;
                let ghost emits_before = emits@;
                match e {
                    Some(delta) => {
                        emits.push(Emit { cursor: c, delta_ms: delta });
                    },
                    None => {},
                }
                proof {
                    let rest = spec_scan(buf@, c as int, pacer@);
                    assert(spec_scan(buf@, c0, pre) == (match spec_observe(pre, ts@).1 {
                        Some(delta) => ScanModel {
                            st: rest.st,
                            emits: seq![(c0 + 188, delta)] + rest.emits,
                            consumed: rest.consumed,
                        },
                        None => rest,
                    }));
                    match e {
                        Some(delta) => {
                            assert(spec_emits_view(emits@) =~= spec_emits_view(emits_before)
                                + seq![(c as int, delta)]);
                            assert(spec_emits_view(emits_before) + (seq![(c0 + 188, delta)]
                                + rest.emits) =~= spec_emits_view(emits@) + rest.emits);
                        },
                        None => {},
                    }
                }
            },
            Err(TsError::NotSync) => {
                proof {
                    assert(spec_scan(buf@, c0, pacer@) == spec_scan(buf@, c0 + 1, pacer@));
                }
                c += 1;
            },
            Err(TsError::Short) => {
                proof {
                    assert(spec_scan(buf@, c0, pacer@) == (ScanModel {
                        st: pacer@,
                        emits: Seq::<(int, u64)>::empty(),
                        consumed: c0,
                    }));
                }
                short_stop = true;
            },
        }
    }
    proof {
        assert(spec_scan(buf@, c as int, pacer@) == (ScanModel {
            st: pacer@,
            emits: Seq::<(int, u64)>::empty(),
            consumed: c as int,
        }));
        assert(spec_emits_view(emits@) + Seq::<(int, u64)>::empty() =~= spec_emits_view(emits@));
        lemma_scan_emits_ordered(buf@, 0, st0);
        assert forall|i: int| 0 <= i < emits@.len() implies (#[trigger] emits@[i]).cursor
            <= c by {
            assert(spec_emits_view(emits@)[i] == (emits@[i].cursor as int, emits@[i].delta_ms));
        }
        assert forall|i: int, j: int| 0 <= i <= j < emits@.len() implies (#[trigger] emits@[i]).cursor
            <= (#[trigger] emits@[j]).cursor by {
            assert(spec_emits_view(emits@)[i] == (emits@[i].cursor as int, emits@[i].delta_ms));
            assert(spec_emits_view(emits@)[j] == (emits@[j].cursor as int, emits@[j].delta_ms));
        }
    }
    WalkResult { emits, consumed: c }
}

/// The next release window: `MAX_BUF` bytes from the write offset, exactly
/// when that many parsed bytes are waiting.
pub open spec fn spec_next_chunk(w: int, c: int) -> Option<(int, int)> {
    if c - w >= MAX_BUF {
        Some((w, w + MAX_BUF))
    } else {
        None
    }
}

/// Computes the next chunk to submit to the sink: a full `MAX_BUF` run from
/// the write offset, or nothing when fewer parsed bytes wait (the tail is
/// held for the next pass).
pub fn next_chunk(w_offset: usize, c_offset: usize) -> (r: Option<(usize, usize)>)
    requires
        w_offset <= c_offset,
        c_offset <= usize::MAX - MAX_BUF,
    ensures
        match r {
            Some(chunk) => spec_next_chunk(w_offset as int, c_offset as int) == Some(
                (chunk.0 as int, chunk.1 as int),
            ),
            None => spec_next_chunk(w_offset as int, c_offset as int) is None,
        },
{
    let (start, end) = offset_calc(w_offset, c_offset);
    if end - start < MAX_BUF {
        None
    } else {
        Some((start, end))
    }
}

/// Every release window is exactly 7 TS packets long: a whole multiple of
/// the packet size, and never more than one MTU-sized datagram.
pub proof fn lemma_chunk_is_whole_packets(w: int, c: int)
    ensures
        match spec_next_chunk(w, c) {
            Some(chunk) => chunk.1 - chunk.0 == MAX_BUF && (chunk.1 - chunk.0) % (
            TS_PACKET_SIZE as int) == 0,
            None => true,
        },
{
}

/// An external trigger the supervisor selects among.
#[derive(Debug, Clone, Copy, PartialEq, Eq, Structural)]
pub enum Trigger {
    /// Reload request (hangup signal).
    Hangup,
    /// Shutdown request (terminate signal).
    Terminate,
    /// Shutdown request (interrupt signal).
    Interrupt,
    /// The active pacing session ended without error.
    SessionEnded,
}

/// What the supervisor does on a trigger.
#[derive(Debug, Clone, Copy, PartialEq, Eq, Structural)]
pub enum SupervisorStep {
    /// Re-read the configuration; on success replace the active one, on
    /// failure keep the previous one. The active session is replaced.
    ReloadConfig,
    /// Stop and exit.
    Shutdown,
    /// Start a fresh session for the active configuration.
    RestartSession,
}

/// The supervisor's selection rule.
pub open spec fn spec_supervise(t: Trigger) -> SupervisorStep {
    match t {
        Trigger::Hangup => SupervisorStep::ReloadConfig,
        Trigger::Terminate => SupervisorStep::Shutdown,
        Trigger::Interrupt => SupervisorStep::Shutdown,
        Trigger::SessionEnded => SupervisorStep::RestartSession,
    }
}

/// Decides what the supervisor does next: hangup reloads, terminate and
/// interrupt shut down, a session that ended is restarted.
pub fn supervise(t: &Trigger) -> (r: SupervisorStep)
    ensures
        r == spec_supervise(*t),
{
    match t {
        Trigger::Hangup => SupervisorStep::ReloadConfig,
        Trigger::Terminate => SupervisorStep::Shutdown,
        Trigger::Interrupt => SupervisorStep::Shutdown,
        Trigger::SessionEnded => SupervisorStep::RestartSession,
    }
}

/// The application: the active configuration and where it was read from.
pub struct Application {
    /// The active configuration.
    pub config: Config,
    /// The path the configuration is re-read from on reload.
    pub config_path: String,
}

impl Application {
    /// Wraps a parsed configuration and its path.
    pub fn new(config: Config, config_path: String) -> (r: Self)
        ensures
            r.config == config,
            r.config_path == config_path,
    {
        Self { config, config_path }
    }
}

} // verus!
