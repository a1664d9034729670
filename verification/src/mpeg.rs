//! Program Specific Information: PAT and PMT section parsing and elementary
//! stream classification.

use crate::bytes::read_u16_at;
use crate::bytes::spec_u16_at;
use crate::ts::spec_payload;
use crate::ts::spec_payload_fits;
use crate::ts::TsPacket;
use vstd::prelude::*;

verus! {

/// PID carrying the Program Association Table.
pub const PID_PAT: u16 = 0x0000;

/// PID of null packets.
pub const PID_NULL: u16 = 0x1FFF;

/// Sentinel outside the 13-bit PID range: no PID chosen.
pub const PID_NONE: u16 = 0x2000;

/// Why a PSI section could not be parsed from a packet payload.
#[derive(Debug, Clone, Copy, PartialEq, Eq, Structural)]
pub enum PsiError {
    /// The payload is too short to hold the section length bytes.
    SectionLengthMissing,
    /// The section extends past the payload or cannot hold the fixed header.
    SectionOutOfRange,
}

/// MPEG-TS elementary stream classification.
#[derive(Debug, Clone, Copy, PartialEq, Eq, Structural)]
pub enum StreamType {
    /// Video stream:
    ///
    /// Pmt stream_type:
    ///   0x01 - ISO/IEC 11172 Video
    ///   0x02 - ISO/IEC 13818-2 Video
    ///   0x10 - ISO/IEC 14496-2 Visual
    ///   0x1B - ISO/IEC 14496-10 Video | H.264
    ///   0x24 - ISO/IEC 23008-2 Video | H.265
    Video,
    /// Audio stream:
    ///
    /// Pmt stream_type:
    ///   0x03 - ISO/IEC 11172 Audio
    ///   0x04 - ISO/IEC 13818-3 Audio
    ///   0x0F - ISO/IEC 13818-7 Audio (ADTS)
    ///   0x11 - ISO/IEC 14496-3 Audio (LATM)
    Audio,
    /// Private data.
    Data,
}

/// The classification of a PMT stream_type tag.
pub open spec fn spec_stream_type(stream_type: u8) -> StreamType {
    if stream_type == 0x01 || stream_type == 0x02 || stream_type == 0x10 || stream_type == 0x1B
        || stream_type == 0x24 {
        StreamType::Video
    } else if stream_type == 0x03 || stream_type == 0x04 || stream_type == 0x0F || stream_type
        == 0x11 {
        StreamType::Audio
    } else {
        StreamType::Data
    }
}

/// Section length: the low 12 bits of bytes 2-3 of a PSI payload.
pub open spec fn spec_section_length(p: Seq<u8>) -> int
    recommends
        p.len() >= 4,
{
    (spec_u16_at(p, 2) & 0x0FFF) as int
}

/// The payload holds the section length bytes, and the section fits inside
/// the payload and holds at least the fixed PSI header and CRC.
pub open spec fn spec_psi_section_ok(p: Seq<u8>) -> bool {
    &&& p.len() >= 4
    &&& spec_section_length(p) >= 9
    &&& spec_section_length(p) + 4 <= p.len()
}

/// PSI version number: bits 5..1 of byte 6.
pub open spec fn spec_psi_version(p: Seq<u8>) -> u8
    recommends
        p.len() >= 7,
{
    (p[6] & 0x3E) >> 1
}

/// One program association entry.
#[derive(Debug, Clone, Copy, PartialEq, Eq, Structural)]
pub struct PatItem {
    /// Program to which the program_map_pid applies; 0 names the network PID.
    pub program_number: u16,
    /// 13-bit PID of the packets carrying this program's PMT.
    pub program_map_pid: u16,
}

/// Number of whole 4-byte entries between the PSI header and the CRC.
pub open spec fn spec_pat_item_count(p: Seq<u8>) -> int
    recommends
        spec_psi_section_ok(p),
{
    (spec_section_length(p) - 9) / 4
}

/// The `i`-th 4-byte program association entry.
pub open spec fn spec_pat_item(p: Seq<u8>, i: int) -> PatItem
    recommends
        spec_psi_section_ok(p),
        0 <= i < spec_pat_item_count(p),
{
    PatItem {
        program_number: spec_u16_at(p, 9 + 4 * i),
        program_map_pid: spec_u16_at(p, 9 + 4 * i + 2) & 0x1FFF,
    }
}

/// All program association entries of a PAT payload, in section order.
pub open spec fn spec_pat_items(p: Seq<u8>) -> Seq<PatItem>
    recommends
        spec_psi_section_ok(p),
{
    Seq::new(spec_pat_item_count(p) as nat, |i: int| spec_pat_item(p, i))
}

/// Program Association Table.
#[derive(Debug)]
pub struct Pat {
    /// Label identifying this transport stream within a network.
    pub transport_stream_id: u16,
    /// Version of the table, incremented modulo 32 on change.
    pub version_number: u8,
    /// List of PatItems.
    pub items: Vec<PatItem>,
}

impl Pat {
    /// Parses a PAT section from the packet payload: entries are the 4-byte
    /// records from offset 9 up to the section length; the trailing CRC is
    /// not consumed.
    pub fn new(ts: &TsPacket) -> (r: Result<Self, PsiError>)
        requires
            ts.wf(),
            spec_payload_fits(ts@),
        ensures
            (match r {
                Ok(pat) => {
                    let p = spec_payload(ts@);
                    &&& spec_psi_section_ok(p)
                    &&& pat.transport_stream_id == spec_u16_at(p, 4)
                    &&& pat.version_number == spec_psi_version(p)
                    &&& pat.items@ == spec_pat_items(p)
                },
                Err(PsiError::SectionLengthMissing) => spec_payload(ts@).len() < 4,
                Err(PsiError::SectionOutOfRange) => spec_payload(ts@).len() >= 4
                    && !spec_psi_section_ok(spec_payload(ts@)),
            }),
    {
        let payload = ts.get_payload();
        if payload.len() < 4 {
            return Err(PsiError::SectionLengthMissing);
        }
        let raw = read_u16_at(payload, 2);
        proof {
            assert(raw & 0x0FFF <= 0x0FFF) by (bit_vector);
        }
        let length = (raw & 0x0FFF) as usize;
        if payload.len() - 4 < length || length < 9 {
            return Err(PsiError::SectionOutOfRange);
        }
        let transport_stream_id = read_u16_at(payload, 4);
        let version_number = (payload[6] & 0x3E) >> 1;
        let count = (length - 9) / 4;
        let mut items: Vec<PatItem> = Vec::new();
        let mut i: usize = 0;
        while i < count
            invariant
                count == spec_pat_item_count(payload@),
                spec_psi_section_ok(payload@),
                length == spec_section_length(payload@),
                payload@.len() >= length + 4,
                i <= count,
                items@.len() == i,
                forall|j: int| 0 <= j < i ==> items@[j] == spec_pat_item(payload@, j),
            decreases count - i,
        {
            let off = 9 + 4 * i;
            let program_number = read_u16_at(payload, off);
            let program_map_pid = read_u16_at(payload, off + 2) & 0x1FFF;
            items.push(PatItem { program_number, program_map_pid });
            i += 1;
        }
        proof {
            assert(items@ =~= spec_pat_items(payload@));
        }
        Ok(Self { transport_stream_id, version_number, items })
    }
}

/// Every program_map_pid a PAT parse emits fits in 13 bits.
pub proof fn lemma_pat_pid_is_13_bits(p: Seq<u8>, i: int)
    requires
        0 <= i < spec_pat_items(p).len(),
    ensures
        spec_pat_items(p)[i].program_map_pid <= 0x1FFF,
{
    let v = spec_u16_at(p, 9 + 4 * i + 2);
    assert(v & 0x1FFF <= 0x1FFF) by (bit_vector);
}

/// The masked 13-bit map PID carried by the `i`-th 4-byte entry bytes.
pub open spec fn spec_pat_entry_pid(p: Seq<u8>, i: int) -> u16
    recommends
        spec_psi_section_ok(p),
        0 <= i < spec_pat_item_count(p),
{
    spec_u16_at(p, 9 + 4 * i + 2) & 0x1FFF
}

/// A PAT whose entries all carry map PIDs in the assignable range emits only
/// PIDs in that range.
pub proof fn lemma_pat_pids_in_range(p: Seq<u8>)
    requires
        spec_psi_section_ok(p),
        forall|i: int|
            0 <= i < spec_pat_item_count(p) ==> 0x0010 <= #[trigger] spec_pat_entry_pid(p, i)
                <= 0x1FFE,
    ensures
        forall|i: int|
            0 <= i < spec_pat_items(p).len() ==> 0x0010 <= #[trigger] spec_pat_items(
                p,
            )[i].program_map_pid <= 0x1FFE,
{
    assert forall|i: int| 0 <= i < spec_pat_items(p).len() implies 0x0010
        <= #[trigger] spec_pat_items(p)[i].program_map_pid <= 0x1FFE by {
        assert(0 <= i < spec_pat_item_count(p));
        assert(spec_pat_items(p)[i] == spec_pat_item(p, i));
        assert(spec_pat_entry_pid(p, i) == spec_pat_item(p, i).program_map_pid);
    }
}

/// A big-endian pair of bytes reassembles to the 16-bit value they came from.
proof fn lemma_u16_be_bytes(hi: u8, lo: u8, v: u16)
    requires
        hi == (v >> 8) as u8,
        lo == (v & 0xFF) as u8,
    ensures
        (((hi as u16) << 8) | (lo as u16)) == v,
{
    assert((((((v >> 8) as u8) as u16) << 8) | (((v & 0xFF) as u8) as u16)) == v) by (bit_vector);
}

/// The 4-byte entry starting at offset `9 + 4j` carries this item's fields
/// in big-endian order.
spec fn spec_pat_entry_encoded(p: Seq<u8>, item: PatItem, j: int) -> bool {
    &&& p[9 + 4 * j] == (item.program_number >> 8) as u8
    &&& p[9 + 4 * j + 1] == (item.program_number & 0xFF) as u8
    &&& p[9 + 4 * j + 2] == (item.program_map_pid >> 8) as u8
    &&& p[9 + 4 * j + 3] == (item.program_map_pid & 0xFF) as u8
}

/// Builds a PAT section payload naming the given programs. Parsing the
/// result recovers exactly these entries, in order, together with the
/// transport stream id and the version.
pub fn encode_pat(transport_stream_id: u16, version_number: u8, items: &Vec<PatItem>) -> (r: Vec<
    u8,
>)
    requires
        version_number < 32,
        items@.len() <= 1021,
        forall|i: int| 0 <= i < items@.len() ==> (#[trigger] items@[i]).program_map_pid <= 0x1FFF,
    ensures
        r@.len() == 13 + 4 * items@.len(),
        spec_psi_section_ok(r@),
        spec_section_length(r@) == 9 + 4 * items@.len(),
        spec_u16_at(r@, 4) == transport_stream_id,
        spec_psi_version(r@) == version_number,
        spec_pat_items(r@) == items@,
{
    let k = items.len();
    let length: u16 = (9 + 4 * k) as u16;
    let mut out: Vec<u8> = Vec::new();
    out.push(0x00);  // table_id
    out.push(0x00);
    out.push(((length >> 8) & 0x0F) as u8);
    out.push((length & 0xFF) as u8);
    out.push((transport_stream_id >> 8) as u8);
    out.push((transport_stream_id & 0xFF) as u8);
    out.push((version_number & 0x1F) << 1);
    out.push(0x00);  // section_number
    out.push(0x00);  // last_section_number
    let mut i: usize = 0;
    while i < k
        invariant
            k == items@.len(),
            k <= 1021,
            i <= k,
            out@.len() == 9 + 4 * i,
            out@[2] == ((length >> 8) & 0x0F) as u8,
            out@[3] == (length & 0xFF) as u8,
            out@[4] == (transport_stream_id >> 8) as u8,
            out@[5] == (transport_stream_id & 0xFF) as u8,
            out@[6] == (version_number & 0x1F) << 1,
            forall|j: int| 0 <= j < i ==> spec_pat_entry_encoded(out@, items@[j], j),
        decreases k - i,
    {
        let item = items[i];
        out.push((item.program_number >> 8) as u8);
        out.push((item.program_number & 0xFF) as u8);
        out.push((item.program_map_pid >> 8) as u8);
        out.push((item.program_map_pid & 0xFF) as u8);
        i += 1;
        proof {
            assert forall|j: int| 0 <= j < i implies spec_pat_entry_encoded(out@, items@[j], j) by {
                assert(spec_pat_entry_encoded(out@, items@[i - 1], i - 1));
            }
        }
    }
    out.push(0x00);  // CRC placeholder
    out.push(0x00);
    out.push(0x00);
    out.push(0x00);
    proof {
        let p = out@;
        assert(length <= 0x0FFF);
        assert((((((length >> 8) & 0x0F) as u8 as u16) << 8) | ((length & 0xFF) as u8 as u16))
            & 0x0FFF == length) by (bit_vector)
            requires
                length <= 0x0FFF,
        ;
        assert(spec_section_length(p) == 9 + 4 * items@.len());
        lemma_u16_be_bytes(p[4], p[5], transport_stream_id);
        assert(((((version_number & 0x1F) << 1) as u8) & 0x3E) >> 1 == version_number)
            by (bit_vector)
            requires
                version_number < 32,
        ;
        assert forall|j: int| 0 <= j < items@.len() implies spec_pat_item(p, j) == items@[j] by {
            assert(spec_pat_entry_encoded(p, items@[j], j));
            lemma_u16_be_bytes(p[9 + 4 * j], p[9 + 4 * j + 1], items@[j].program_number);
            lemma_u16_be_bytes(p[9 + 4 * j + 2], p[9 + 4 * j + 3], items@[j].program_map_pid);
            let pid = items@[j].program_map_pid;
            assert(pid & 0x1FFF == pid) by (bit_vector)
                requires
                    pid <= 0x1FFF,
            ;
        }
        assert(spec_pat_items(p) =~= items@);
    }
    out
}

/// One elementary stream named by a PMT.
#[derive(Debug, Clone, Copy, PartialEq, Eq, Structural)]
pub struct PmtItem {
    /// Type tag of the program element carried on the elementary PID.
    pub stream_type: u8,
    /// 13-bit PID of the packets carrying this program element.
    pub elementary_pid: u16,
}

impl PmtItem {
    /// Classifies the stream_type tag.
    pub fn get_stream_type(&self) -> (r: StreamType)
        ensures
            r == spec_stream_type(self.stream_type),
    {
        match self.stream_type {
            0x01 | 0x02 | 0x10 | 0x1B | 0x24 => StreamType::Video,
            0x03 | 0x04 | 0x0F | 0x11 => StreamType::Audio,
            _ => StreamType::Data,
        }
    }
}

/// Descriptor bytes that precede the entry list: low 12 bits of bytes 11-12.
pub open spec fn spec_program_info_length(p: Seq<u8>) -> int
    recommends
        p.len() >= 13,
{
    (spec_u16_at(p, 11) & 0x0FFF) as int
}

/// es_info_length of the entry starting at `ptr`.
pub open spec fn spec_pmt_es_len(p: Seq<u8>, ptr: int) -> int
    recommends
        0 <= ptr,
        ptr + 5 <= p.len(),
{
    (spec_u16_at(p, ptr + 3) & 0x0FFF) as int
}

/// The entry whose 5 fixed bytes start at `ptr`.
pub open spec fn spec_pmt_item_at(p: Seq<u8>, ptr: int) -> PmtItem
    recommends
        0 <= ptr,
        ptr + 5 <= p.len(),
{
    PmtItem { stream_type: p[ptr], elementary_pid: spec_u16_at(p, ptr + 1) & 0x1FFF }
}

/// Bytes left before the CRC, clipped at zero: the walker's measure.
pub open spec fn spec_pmt_measure(p: Seq<u8>, ptr: int) -> int {
    if spec_section_length(p) - 4 - ptr >= 0 {
        spec_section_length(p) - 4 - ptr
    } else {
        0
    }
}

/// The entries emitted by walking from `ptr`: one per step of
/// `5 + es_info_length`, while 5 fixed bytes fit before the CRC.
pub open spec fn spec_pmt_items_from(p: Seq<u8>, ptr: int) -> Seq<PmtItem>
    recommends
        spec_psi_section_ok(p),
    decreases spec_pmt_measure(p, ptr),
{
    if ptr + 5 <= spec_section_length(p) - 4 {
        seq![spec_pmt_item_at(p, ptr)] + spec_pmt_items_from(p, ptr + 5 + spec_pmt_es_len(p, ptr))
    } else {
        Seq::empty()
    }
}

/// All elementary stream entries of a PMT payload, in section order.
pub open spec fn spec_pmt_items(p: Seq<u8>) -> Seq<PmtItem>
    recommends
        spec_psi_section_ok(p),
{
    spec_pmt_items_from(p, 13 + spec_program_info_length(p))
}

/// Program Map Table.
#[derive(Debug)]
pub struct Pmt {
    /// Program to which this map applies.
    pub program_number: u16,
    /// Version of the section, incremented modulo 32 on change.
    pub version_number: u8,
    /// List of PmtItem.
    pub items: Vec<PmtItem>,
}

impl Pmt {
    /// Parses a PMT section from the packet payload: the entry walker starts
    /// past the program descriptors and advances by `5 + es_info_length`
    /// while an entry's fixed bytes fit before the CRC.
    pub fn new(ts: &TsPacket) -> (r: Result<Self, PsiError>)
        requires
            ts.wf(),
            spec_payload_fits(ts@),
        ensures
            (match r {
                Ok(pmt) => {
                    let p = spec_payload(ts@);
                    &&& spec_psi_section_ok(p)
                    &&& pmt.program_number == spec_u16_at(p, 4)
                    &&& pmt.version_number == spec_psi_version(p)
                    &&& pmt.items@ == spec_pmt_items(p)
                },
                Err(PsiError::SectionLengthMissing) => spec_payload(ts@).len() < 4,
                Err(PsiError::SectionOutOfRange) => spec_payload(ts@).len() >= 4
                    && !spec_psi_section_ok(spec_payload(ts@)),
            }),
    {
        let payload = ts.get_payload();
        if payload.len() < 4 {
            return Err(PsiError::SectionLengthMissing);
        }
        let raw = read_u16_at(payload, 2);
        proof {
            assert(raw & 0x0FFF <= 0x0FFF) by (bit_vector);
        }
        let length = (raw & 0x0FFF) as usize;
        if payload.len() - 4 < length || length < 9 {
            return Err(PsiError::SectionOutOfRange);
        }
        let program_number = read_u16_at(payload, 4);
        let version_number = (payload[6] & 0x3E) >> 1;
        let raw_info = read_u16_at(payload, 11);
        proof {
            assert(raw_info & 0x0FFF <= 0x0FFF) by (bit_vector);
        }
        let program_info_length = (raw_info & 0x0FFF) as usize;
        let mut items: Vec<PmtItem> = Vec::new();
        // Skip descriptor section.
        let mut ptr: usize = 13 + program_info_length;
        let ghost start = ptr as int;
        while ptr + 5 <= length - 4
            invariant
                spec_psi_section_ok(payload@),
                length == spec_section_length(payload@),
                payload@.len() >= length + 4,
                length <= 0x0FFF,
                ptr <= 0x2100,
                spec_pmt_items_from(payload@, start) == items@ + spec_pmt_items_from(
                    payload@,
                    ptr as int,
                ),
            decreases spec_pmt_measure(payload@, ptr as int),
        {
            let stream_type = payload[ptr];
            let elementary_pid = read_u16_at(payload, ptr + 1) & 0x1FFF;
            items.push(PmtItem { stream_type, elementary_pid });
            let raw_es = read_u16_at(payload, ptr + 3);
            proof {
                assert(raw_es & 0x0FFF <= 0x0FFF) by (bit_vector);
            }
            let es_info_length = (raw_es & 0x0FFF) as usize;
            let ghost old_ptr = ptr as int;
            let ghost old_items = items@;
            ptr += 5 + es_info_length;
            proof {
                assert(spec_pmt_items_from(payload@, old_ptr) == seq![
                    spec_pmt_item_at(payload@, old_ptr),
                ] + spec_pmt_items_from(payload@, ptr as int));
                assert(old_items + spec_pmt_items_from(payload@, ptr as int) =~= old_items.drop_last()
                    + spec_pmt_items_from(payload@, old_ptr));
            }
        }
        proof {
            assert(spec_pmt_items_from(payload@, ptr as int) =~= Seq::<PmtItem>::empty());
            assert(items@ =~= spec_pmt_items(payload@));
        }
        Ok(Self { program_number, version_number, items })
    }
}

/// The walk from `ptr` never leaves the section when each advance stays
/// before the CRC: whenever an entry's fixed bytes fit, its advance lands in
/// bounds too.
pub open spec fn spec_pmt_walk_bounded(p: Seq<u8>, ptr: int) -> bool
    decreases spec_pmt_measure(p, ptr),
{
    if ptr + 5 <= spec_section_length(p) - 4 {
        spec_pmt_walk_bounded(p, ptr + 5 + spec_pmt_es_len(p, ptr))
    } else {
        ptr <= spec_section_length(p) - 4
    }
}

/// Total advance of the walk from `ptr`: the sum of `5 + es_info_length`
/// over every emitted entry.
pub open spec fn spec_pmt_advance_sum(p: Seq<u8>, ptr: int) -> int
    decreases spec_pmt_measure(p, ptr),
{
    if ptr + 5 <= spec_section_length(p) - 4 {
        5 + spec_pmt_es_len(p, ptr) + spec_pmt_advance_sum(p, ptr + 5 + spec_pmt_es_len(p, ptr))
    } else {
        0
    }
}

/// For a PMT payload whose walk stays in bounds, the start offset plus the
/// sum of `5 + es_info_length` across the emitted entries is at most the
/// section length less the 4 CRC bytes.
pub proof fn lemma_pmt_walk_within_section(p: Seq<u8>, ptr: int)
    requires
        spec_pmt_walk_bounded(p, ptr),
    ensures
        ptr + spec_pmt_advance_sum(p, ptr) <= spec_section_length(p) - 4,
    decreases spec_pmt_measure(p, ptr),
{
    if ptr + 5 <= spec_section_length(p) - 4 {
        lemma_pmt_walk_within_section(p, ptr + 5 + spec_pmt_es_len(p, ptr));
    }
}

} // verus!
