//! TS framing: locating and validating fixed-size 188-byte transport-stream
//! packets and exposing their header fields and payload.

use vstd::prelude::*;

verus! {

pub const TS_SYNC_BYTE: u8 = 0x47;
pub const TS_PACKET_SIZE: usize = 188;

/// A byte sequence begins with the TS sync byte.
pub open spec fn spec_is_sync(b: Seq<u8>) -> bool {
    b.len() > 0 && b[0] == TS_SYNC_BYTE
}

/// Whether a buffer begins with the TS sync byte.
#[inline]
pub fn is_sync(ts: &[u8]) -> (r: bool)
    ensures
        r == spec_is_sync(ts@),
{
    if ts.len() > 0 {
        ts[0] == TS_SYNC_BYTE
    } else {
        false
    }
}

/// Why a byte window could not be framed as a TS packet.
#[derive(Debug, Clone, Copy, PartialEq, Eq, Structural)]
pub enum TsError {
    /// The window does not begin with the sync byte.
    NotSync,
    /// The window begins with the sync byte but holds fewer than 188 bytes.
    Short,
}

/// transport_error_indicator: high bit of byte 1.
pub open spec fn spec_is_error(b: Seq<u8>) -> bool
    recommends
        b.len() >= 188,
{
    (b[1] & 0x80) != 0x00
}

/// payload_unit_start_indicator: bit 6 of byte 1.
pub open spec fn spec_is_pusi(b: Seq<u8>) -> bool
    recommends
        b.len() >= 188,
{
    (b[1] & 0x40) != 0x00
}

/// 13-bit packet identifier from bytes 1 and 2.
pub open spec fn spec_pid(b: Seq<u8>) -> u16
    recommends
        b.len() >= 188,
{
    (((b[1] & 0x1F) as u16) << 8) | (b[2] as u16)
}

/// Adaptation-field-present flag: bit 5 of byte 3.
pub open spec fn spec_is_adaptation(b: Seq<u8>) -> bool
    recommends
        b.len() >= 188,
{
    (b[3] & 0x20) != 0x00
}

/// Payload-present flag: bit 4 of byte 3.
pub open spec fn spec_is_payload(b: Seq<u8>) -> bool
    recommends
        b.len() >= 188,
{
    (b[3] & 0x10) != 0x00
}

/// 4-bit continuity counter: low bits of byte 3.
pub open spec fn spec_cc(b: Seq<u8>) -> u8
    recommends
        b.len() >= 188,
{
    b[3] & 0x0F
}

/// Adaptation field length: byte 4.
pub open spec fn spec_adaptation_size(b: Seq<u8>) -> u8
    recommends
        b.len() >= 188,
{
    b[4]
}

/// Byte offset at which the payload begins: 4 without an adaptation field,
/// otherwise the length byte plus the adaptation field itself follow first.
pub open spec fn spec_payload_offset(b: Seq<u8>) -> int
    recommends
        b.len() >= 188,
{
    if !spec_is_adaptation(b) {
        4
    } else {
        5 + spec_adaptation_size(b)
    }
}

/// The adaptation field leaves the payload offset inside the packet.
pub open spec fn spec_payload_fits(b: Seq<u8>) -> bool
    recommends
        b.len() >= 188,
{
    spec_payload_offset(b) <= 188
}

/// The packet payload: the bytes from the payload offset to the packet end.
pub open spec fn spec_payload(b: Seq<u8>) -> Seq<u8>
    recommends
        b.len() >= 188,
        spec_payload_fits(b),
{
    b.subrange(spec_payload_offset(b), 188)
}

/// The payload begins with the PES start prefix 00 00 01.
pub open spec fn spec_is_pes(b: Seq<u8>) -> bool
    recommends
        b.len() >= 188,
        spec_payload_fits(b),
{
    let p = spec_payload(b);
    p.len() >= 3 && p[0] == 0x00 && p[1] == 0x00 && p[2] == 0x01
}

/// A view over one framed 188-byte TS packet.
#[derive(Debug)]
pub struct TsPacket<'a> {
    ts: &'a [u8],
}

impl<'a> View for TsPacket<'a> {
    type V = Seq<u8>;

    closed spec fn view(&self) -> Seq<u8> {
        self.ts@
    }
}

impl<'a> TsPacket<'a> {
    /// A framed packet holds exactly 188 bytes and begins with the sync byte.
    pub open spec fn wf(&self) -> bool {
        self@.len() == 188 && self@[0] == TS_SYNC_BYTE
    }

    /// Frames the first 188 bytes of `ts`, or reports why it cannot.
    pub fn new(ts: &'a [u8]) -> (r: Result<TsPacket<'a>, TsError>)
        ensures
            match r {
                Ok(p) => spec_is_sync(ts@) && ts@.len() >= 188 && p@ == ts@.subrange(0, 188)
                    && p.wf(),
                Err(TsError::NotSync) => !spec_is_sync(ts@),
                Err(TsError::Short) => spec_is_sync(ts@) && ts@.len() < 188,
            },
    {
        if !is_sync(ts) {
            return Err(TsError::NotSync);
        }
        if ts.len() < TS_PACKET_SIZE {
            return Err(TsError::Short);
        }
        Ok(TsPacket { ts: &ts[0..TS_PACKET_SIZE] })
    }

    /// transport_error_indicator.
    #[inline]
    pub fn is_error(&self) -> (r: bool)
        requires
            self.wf(),
        ensures
            r == spec_is_error(self@),
    {
        (self.ts[1] & 0x80) != 0x00
    }

    /// payload_unit_start_indicator.
    #[inline]
    pub fn is_pusi(&self) -> (r: bool)
        requires
            self.wf(),
        ensures
            r == spec_is_pusi(self@),
    {
        (self.ts[1] & 0x40) != 0x00
    }

    /// The 13-bit PID.
    #[inline]
    pub fn get_pid(&self) -> (r: u16)
        requires
            self.wf(),
        ensures
            r == spec_pid(self@),
    {
        (((self.ts[1] & 0x1F) as u16) << 8) | (self.ts[2] as u16)
    }

    /// adaptation_field_control: adaptation field present.
    #[inline]
    pub fn is_adaptation(&self) -> (r: bool)
        requires
            self.wf(),
        ensures
            r == spec_is_adaptation(self@),
    {
        (self.ts[3] & 0x20) != 0x00
    }

    /// adaptation_field_control: payload present.
    #[inline]
    pub fn is_payload(&self) -> (r: bool)
        requires
            self.wf(),
        ensures
            r == spec_is_payload(self@),
    {
        (self.ts[3] & 0x10) != 0x00
    }

    /// continuity_counter.
    #[inline]
    pub fn get_cc(&self) -> (r: u8)
        requires
            self.wf(),
        ensures
            r == spec_cc(self@),
    {
        self.ts[3] & 0x0F
    }

    /// adaptation_field_length.
    #[inline]
    pub fn get_adaptation_size(&self) -> (r: u8)
        requires
            self.wf(),
        ensures
            r == spec_adaptation_size(self@),
    {
        self.ts[4]
    }

    /// Whether the payload offset stays inside the 188-byte packet; false on
    /// a malformed adaptation field length.
    #[inline]
    pub fn has_payload_room(&self) -> (r: bool)
        requires
            self.wf(),
        ensures
            r == spec_payload_fits(self@),
    {
        if !self.is_adaptation() {
            true
        } else {
            self.get_adaptation_size() <= 183
        }
    }

    /// Packet payload offset calculation.
    #[inline]
    pub fn get_payload_offset(&self) -> (r: u8)
        requires
            self.wf(),
            spec_payload_fits(self@),
        ensures
            r as int == spec_payload_offset(self@),
    {
        if !self.is_adaptation() {
            4
        } else {
            4 + 1 + self.get_adaptation_size()
        }
    }

    /// Packet payload getting.
    #[inline]
    pub fn get_payload(&self) -> (r: &'a [u8])
        requires
            self.wf(),
            spec_payload_fits(self@),
        ensures
            r@ == spec_payload(self@),
    {
        let offset = self.get_payload_offset();
        &self.ts[offset as usize..TS_PACKET_SIZE]
    }

    /// Whether the payload begins with the PES start prefix 00 00 01.
    #[inline]
    pub fn is_pes(&self) -> (r: bool)
        requires
            self.wf(),
            spec_payload_fits(self@),
        ensures
            r == spec_is_pes(self@),
    {
        let payload = self.get_payload();
        payload.len() >= 3 && payload[0] == 0x00 && payload[1] == 0x00 && payload[2] == 0x01
    }
}

/// Every 188-byte window that begins with the sync byte and carries a
/// well-formed adaptation field length frames to a packet whose payload
/// offset is 4, or lies in 5..=187, and whose payload holds the rest of the
/// 188 bytes.
pub proof fn lemma_framed_payload_window(b: Seq<u8>)
    requires
        b.len() == 188,
        b[0] == TS_SYNC_BYTE,
        spec_is_adaptation(b) ==> spec_adaptation_size(b) <= 182,
    ensures
        spec_payload_offset(b) == 4 || (5 <= spec_payload_offset(b) <= 187),
        spec_payload(b).len() == 188 - spec_payload_offset(b),
{
}

} // verus!
