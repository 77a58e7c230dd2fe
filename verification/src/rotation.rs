//! Orientation of the sensor's axes.

use vstd::prelude::*;

verus! {

/// Orientation register bit: exchange the x and y axes.
pub const SWAP_XY: u8 = 0b1000_0000;

/// Orientation register bit: invert the y axis.
pub const INVERT_Y: u8 = 0b0100_0000;

/// Orientation register bit: invert the x axis.
pub const INVERT_X: u8 = 0b0010_0000;

/// Enumeration of valid rotation settings
#[derive(Debug, Clone, Copy, PartialEq, Eq)]
pub enum RotationDegrees {
    _0,
    _90,
    _180,
    _270,
}

impl RotationDegrees {
    /// The value of the orientation register for this rotation.
    pub open spec fn orientation(self) -> u8 {
        match self {
            RotationDegrees::_0 => SWAP_XY | INVERT_X | INVERT_Y,
            RotationDegrees::_90 => INVERT_Y,
            RotationDegrees::_180 => SWAP_XY,
            RotationDegrees::_270 => INVERT_X,
        }
    }

    /// The angle in degrees.
    pub open spec fn angle(self) -> u16 {
        match self {
            RotationDegrees::_0 => 0,
            RotationDegrees::_90 => 90,
            RotationDegrees::_180 => 180,
            RotationDegrees::_270 => 270,
        }
    }

    /// Computes [`RotationDegrees::orientation`].
    pub fn orientation_bits(&self) -> (bits: u8)
        ensures
            bits == self.orientation(),
    {
        match self {
            RotationDegrees::_0 => SWAP_XY | INVERT_X | INVERT_Y,
            RotationDegrees::_90 => INVERT_Y,
            RotationDegrees::_180 => SWAP_XY,
            RotationDegrees::_270 => INVERT_X,
        }
    }

    /// Computes [`RotationDegrees::angle`].
    pub fn degrees(&self) -> (angle: u16)
        ensures
            angle == self.angle(),
    {
        match self {
            RotationDegrees::_0 => 0,
            RotationDegrees::_90 => 90,
            RotationDegrees::_180 => 180,
            RotationDegrees::_270 => 270,
        }
    }

    /// The rotation of the given angle. Only 0, 90, 180 and 270 degrees name
    /// one; every other angle is turned away.
    pub fn from_degrees(angle: u16) -> (rotation: Option<RotationDegrees>)
        ensures
            rotation is Some <==> (angle == 0 || angle == 90 || angle == 180 || angle == 270),
            rotation is Some ==> rotation->0.angle() == angle,
    {
        if angle == 0 {
            Some(RotationDegrees::_0)
        } else if angle == 90 {
            Some(RotationDegrees::_90)
        } else if angle == 180 {
            Some(RotationDegrees::_180)
        } else if angle == 270 {
            Some(RotationDegrees::_270)
        } else {
            None
        }
    }
}

/// The orientation register values as numbers, one per rotation, all
/// different.
pub proof fn lemma_orientation_values()
    ensures
        RotationDegrees::_0.orientation() == 0xE0,
        RotationDegrees::_90.orientation() == 0x40,
        RotationDegrees::_180.orientation() == 0x80,
        RotationDegrees::_270.orientation() == 0x20,
{
    assert((0b1000_0000u8 | 0b0010_0000u8 | 0b0100_0000u8) == 0xE0u8) by (bit_vector);
}

/// Two rotations with the same orientation register value are the same
/// rotation.
pub proof fn lemma_orientation_injective(a: RotationDegrees, b: RotationDegrees)
    requires
        a.orientation() == b.orientation(),
    ensures
        a == b,
{
    lemma_orientation_values();
}

} // verus!
