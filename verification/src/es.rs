//! PES packet inspection: stream-id gating and extraction of the 33-bit
//! presentation timestamp carried in bytes 9..14 of a PES header.

use vstd::prelude::*;

verus! {

/// The stream id (byte 3) names a stream whose PES header follows the
/// common syntax; the ids below carry no header fields after the length.
pub open spec fn spec_is_syntax_spec(p: Seq<u8>) -> bool {
    &&& p.len() > 3
    &&& p[3] != 0xBC  // program_stream_map
    &&& p[3] != 0xBE  // padding_stream
    &&& p[3] != 0xBF  // private_stream_2
    &&& p[3] != 0xF0  // ECM
    &&& p[3] != 0xF1  // EMM
    &&& p[3] != 0xF2  // DSMCC_stream
    &&& p[3] != 0xF8  // ITU-T Rec. H.222.1 type E
    &&& p[3] != 0xFF  // program_stream_directory
}

/// The PTS_DTS_flags high bit (byte 7) announces a PTS field.
pub open spec fn spec_is_pts(p: Seq<u8>) -> bool {
    p.len() > 7 && (p[7] & 0x80) != 0
}

/// The 33-bit PTS assembled from five marker-bit-encoded bytes.
pub open spec fn spec_pts_decode5(b9: u8, b10: u8, b11: u8, b12: u8, b13: u8) -> u64 {
    (((b9 & 0x0E) as u64) << 29) | ((b10 as u64) << 22) | (((b11 & 0xFE) as u64) << 14) | ((
    b12 as u64) << 7) | ((b13 as u64) >> 1)
}

/// The PTS carried in bytes 9..14 of a PES header.
pub open spec fn spec_pts_value(p: Seq<u8>) -> u64
    recommends
        p.len() >= 14,
{
    spec_pts_decode5(p[9], p[10], p[11], p[12], p[13])
}

/// What `PesPacket::get_pts` returns: the PTS value exactly when the stream
/// is syntax-bearing, the PTS flag is set, and the header reaches byte 13.
pub open spec fn spec_get_pts(p: Seq<u8>) -> Option<u64> {
    if spec_is_pts(p) && spec_is_syntax_spec(p) && p.len() >= 14 {
        Some(spec_pts_value(p))
    } else {
        None
    }
}

/// The five marker-bit-encoded bytes that carry a 33-bit PTS.
pub open spec fn spec_pts_encode5(pts: u64) -> Seq<u8>
    recommends
        pts <= crate::application::PTS_MAX,
{
    seq![
        (0x21u64 | (((pts >> 29) as u64) & 0x0E)) as u8,
        ((pts >> 22) & 0xFF) as u8,
        ((((pts >> 14) as u64) & 0xFE) | 0x01) as u8,
        ((pts >> 7) & 0xFF) as u8,
        (((pts << 1) & 0xFF) | 0x01) as u8,
    ]
}

/// A PES value assembled from five bytes is at most the 33-bit maximum.
pub proof fn lemma_pts_decode5_bounded(b9: u8, b10: u8, b11: u8, b12: u8, b13: u8)
    ensures
        spec_pts_decode5(b9, b10, b11, b12, b13) <= crate::application::PTS_MAX,
{
    assert((((b9 & 0x0E) as u64) << 29) | ((b10 as u64) << 22) | (((b11 & 0xFE) as u64) << 14) | ((
    b12 as u64) << 7) | ((b13 as u64) >> 1) <= 0x1_FFFF_FFFFu64) by (bit_vector);
}

/// Decoding the five bytes that encode a 33-bit PTS recovers it exactly, so
/// a PES header whose bytes 9..14 carry the encoding yields that PTS.
pub proof fn lemma_pts_round_trip(pts: u64)
    requires
        pts <= crate::application::PTS_MAX,
    ensures
        spec_pts_decode5(
            spec_pts_encode5(pts)[0],
            spec_pts_encode5(pts)[1],
            spec_pts_encode5(pts)[2],
            spec_pts_encode5(pts)[3],
            spec_pts_encode5(pts)[4],
        ) == pts,
{
    let b9 = (0x21u64 | (((pts >> 29) as u64) & 0x0E)) as u8;
    let b10 = ((pts >> 22) & 0xFF) as u8;
    let b11 = ((((pts >> 14) as u64) & 0xFE) | 0x01) as u8;
    let b12 = ((pts >> 7) & 0xFF) as u8;
    let b13 = (((pts << 1) & 0xFF) | 0x01) as u8;
    assert(pts <= 0x1_FFFF_FFFFu64 ==> (((b9 & 0x0E) as u64) << 29) | ((b10 as u64) << 22) | (((b11
        & 0xFE) as u64) << 14) | ((b12 as u64) << 7) | ((b13 as u64) >> 1) == pts) by (bit_vector)
        requires
            b9 == (0x21u64 | (((pts >> 29) as u64) & 0x0E)) as u8,
            b10 == ((pts >> 22) & 0xFF) as u8,
            b11 == ((((pts >> 14) as u64) & 0xFE) | 0x01) as u8,
            b12 == ((pts >> 7) & 0xFF) as u8,
            b13 == (((pts << 1) & 0xFF) | 0x01) as u8,
    ;
}

/// A view over the payload bytes of one PES packet.
#[derive(Debug)]
pub struct PesPacket<'a> {
    pes: &'a [u8],
}

impl<'a> View for PesPacket<'a> {
    type V = Seq<u8>;

    closed spec fn view(&self) -> Seq<u8> {
        self.pes@
    }
}

impl<'a> PesPacket<'a> {
    /// Wraps a payload as a PES packet view.
    pub fn new(pes: &'a [u8]) -> (r: Self)
        ensures
            r@ == pes@,
    {
        Self { pes }
    }

    /// Whether the stream id names a syntax-bearing stream.
    #[inline]
    pub fn is_syntax_spec(&self) -> (r: bool)
        ensures
            r == spec_is_syntax_spec(self@),
    {
        if self.pes.len() > 3 {
            match self.pes[3] {
                0xBC => false,  // program_stream_map
                0xBE => false,  // padding_stream
                0xBF => false,  // private_stream_2
                0xF0 => false,  // ECM
                0xF1 => false,  // EMM
                0xF2 => false,  // DSMCC_stream
                0xF8 => false,  // ITU-T Rec. H.222.1 type E
                0xFF => false,  // program_stream_directory
                _ => true,
            }
        } else {
            false
        }
    }

    /// Whether the header flags announce a PTS field.
    #[inline]
    pub fn is_pts(&self) -> (r: bool)
        ensures
            r == spec_is_pts(self@),
    {
        if self.pes.len() > 7 {
            (self.pes[7] & 0x80) != 0
        } else {
            false
        }
    }

    /// Extracts the 33-bit PTS, present only on syntax-bearing streams whose
    /// flags announce one and whose header reaches byte 13.
    #[inline]
    pub fn get_pts(&self) -> (r: Option<u64>)
        ensures
            r == spec_get_pts(self@),
            match r {
                Some(pts) => pts <= crate::application::PTS_MAX,
                None => true,
            },
    {
        if !(self.is_pts() && self.is_syntax_spec()) {
            return None;
        }
        if self.pes.len() < 14 {
            return None;
        }
        let pts = (((self.pes[9] & 0x0E) as u64) << 29) | ((self.pes[10] as u64) << 22) | (((
        self.pes[11] & 0xFE) as u64) << 14) | ((self.pes[12] as u64) << 7) | ((self.pes[13]
            as u64) >> 1);
        proof {
            lemma_pts_decode5_bounded(self@[9], self@[10], self@[11], self@[12], self@[13]);
        }
        Some(pts)
    }
}

/// Writes a PTS into the five marker-bit-encoded bytes that occupy bytes
/// 9..14 of a PES header.
pub fn encode_pts(pts: u64) -> (r: Vec<u8>)
    requires
        pts <= crate::application::PTS_MAX,
    ensures
        r@ == spec_pts_encode5(pts),
        r@.len() == 5,
        spec_pts_decode5(r@[0], r@[1], r@[2], r@[3], r@[4]) == pts,
{
    let mut out: Vec<u8> = Vec::new();
    out.push((0x21u64 | ((pts >> 29) & 0x0E)) as u8);
    out.push(((pts >> 22) & 0xFF) as u8);
    out.push((((pts >> 14) & 0xFE) | 0x01) as u8);
    out.push(((pts >> 7) & 0xFF) as u8);
    out.push((((pts << 1) & 0xFF) | 0x01) as u8);
    proof {
        lemma_pts_round_trip(pts);
        assert(out@ =~= spec_pts_encode5(pts));
    }
    out
}

} // verus!
