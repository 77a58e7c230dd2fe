//! One motion sample: the twelve bytes of a motion burst, their fields, and
//! the test that tells a reliable sample from an unreliable one.

use vstd::prelude::*;
use crate::error::SensorError;

verus! {

/// Number of bytes in one motion burst.
pub const MOTION_BURST_LEN: usize = 12;

/// A sample with a surface quality below this is suspect.
pub const QUALITY_FLOOR: u8 = 0x19;

/// The upper shutter value that, together with a low quality, marks a sample
/// as unreliable.
pub const SHUTTER_CEILING: u8 = 0x1F;

/// Defines the structure of motion data
#[derive(Debug, Clone, Copy, PartialEq, Eq)]
pub struct MotionDelta {
    /// Motion in the x direction
    pub x: i16,
    /// Motion in the y direction
    pub y: i16,
}

/// The fields of a motion burst, in the order in which the chip sends them.
#[derive(Debug, Clone, Copy, PartialEq, Eq)]
pub struct MotionRaw {
    pub dr: u8,
    pub obs: u8,
    pub x: i16,
    pub y: i16,
    pub quality: u8,
    pub raw_sum: u8,
    pub raw_max: u8,
    pub raw_min: u8,
    pub shutter_upper: u8,
    pub shutter_lower: u8,
}

/// The signed sixteen-bit number whose low byte is `lo` and whose high byte
/// is `hi`, in two's complement.
pub open spec fn le_i16(lo: u8, hi: u8) -> i16 {
    let unsigned: int = lo + 256 * hi;
    if unsigned < 0x8000 {
        unsigned as i16
    } else {
        (unsigned - 0x1_0000) as i16
    }
}

impl MotionRaw {
    /// The fields of a burst of twelve bytes. The two deltas are
    /// little-endian.
    pub open spec fn parse(bytes: Seq<u8>) -> MotionRaw {
        MotionRaw {
            dr: bytes[0],
            obs: bytes[1],
            x: le_i16(bytes[2], bytes[3]),
            y: le_i16(bytes[4], bytes[5]),
            quality: bytes[6],
            raw_sum: bytes[7],
            raw_max: bytes[8],
            raw_min: bytes[9],
            shutter_upper: bytes[10],
            shutter_lower: bytes[11],
        }
    }

    /// Whether the sample can be relied on: the chip flags motion data as
    /// ready (top bit of `dr`), and it is not the case that the quality is
    /// below the floor while the upper shutter value sits at its ceiling.
    pub open spec fn reliable(self) -> bool {
        (self.dr & 0x80) != 0 && !(self.quality < QUALITY_FLOOR && self.shutter_upper
            == SHUTTER_CEILING)
    }

    /// The motion that the sample reports.
    pub open spec fn delta(self) -> MotionDelta {
        MotionDelta { x: self.x, y: self.y }
    }

    /// Computes [`MotionRaw::parse`].
    pub fn from_bytes(bytes: &[u8; 12]) -> (raw: MotionRaw)
        ensures
            raw == MotionRaw::parse(bytes@),
    {
        MotionRaw {
            dr: bytes[0],
            obs: bytes[1],
            x: i16_from_le(bytes[2], bytes[3]),
            y: i16_from_le(bytes[4], bytes[5]),
            quality: bytes[6],
            raw_sum: bytes[7],
            raw_max: bytes[8],
            raw_min: bytes[9],
            shutter_upper: bytes[10],
            shutter_lower: bytes[11],
        }
    }

    /// Tests [`MotionRaw::reliable`].
    pub fn is_reliable(&self) -> (ok: bool)
        ensures
            ok == self.reliable(),
    {
        (self.dr & 0x80) != 0 && !(self.quality < QUALITY_FLOOR && self.shutter_upper
            == SHUTTER_CEILING)
    }
}

/// What a motion burst amounts to: the motion it reports where the sample is
/// reliable, [`SensorError::InvalidMotion`] where it is not.
pub open spec fn motion_of(bytes: Seq<u8>) -> Result<MotionDelta, SensorError> {
    let raw = MotionRaw::parse(bytes);
    if raw.reliable() {
        Ok(raw.delta())
    } else {
        Err(SensorError::InvalidMotion)
    }
}

/// Computes [`le_i16`].
pub fn i16_from_le(lo: u8, hi: u8) -> (value: i16)
    ensures
        value == le_i16(lo, hi),
{
    let unsigned: u16 = (hi as u16) * 256 + (lo as u16);
    if unsigned < 0x8000 {
        unsigned as i16
    } else {
        ((unsigned as i32) - 0x1_0000) as i16
    }
}

/// Computes [`motion_of`] for the twelve bytes of one motion burst.
pub fn decode_motion(bytes: &[u8; 12]) -> (result: Result<MotionDelta, SensorError>)
    ensures
        result == motion_of(bytes@),
{
    let raw = MotionRaw::from_bytes(bytes);
    if raw.is_reliable() {
        Ok(MotionDelta { x: raw.x, y: raw.y })
    } else {
        Err(SensorError::InvalidMotion)
    }
}

/// A sample whose data-ready bit is clear is unreliable, whatever its other
/// fields hold.
pub proof fn lemma_not_ready_is_unreliable(raw: MotionRaw)
    requires
        raw.dr < 0x80,
    ensures
        !raw.reliable(),
{
    let dr = raw.dr;
    assert(dr < 0x80 ==> (dr & 0x80) == 0) by (bit_vector);
}

/// For a sample whose data-ready bit is set, reliability is decided by
/// quality and shutter alone; the quality floor itself is reliable.
pub proof fn lemma_ready_reliability(raw: MotionRaw)
    requires
        raw.dr >= 0x80,
    ensures
        raw.reliable() <==> (raw.quality >= 0x19 || raw.shutter_upper != 0x1F),
{
    let dr = raw.dr;
    assert(dr >= 0x80 ==> (dr & 0x80) != 0) by (bit_vector);
}

/// A burst whose first byte has the top bit clear never yields motion.
pub proof fn lemma_not_ready_burst(bytes: Seq<u8>)
    requires
        bytes.len() == 12,
        bytes[0] < 0x80,
    ensures
        motion_of(bytes) == Err::<MotionDelta, SensorError>(SensorError::InvalidMotion),
{
    lemma_not_ready_is_unreliable(MotionRaw::parse(bytes));
}

/// The deltas of a burst in plain arithmetic: low byte plus 256 times high
/// byte, less 65536 where that reaches 32768.
pub proof fn lemma_le_i16(lo: u8, hi: u8)
    ensures
        hi < 0x80 ==> le_i16(lo, hi) == lo + 256 * hi,
        hi >= 0x80 ==> le_i16(lo, hi) == lo + 256 * hi - 65536,
{
}

} // verus!
