//! The vendor's calibration recipe: its register tables and the two values
//! that it trims from what the chip reads back.
//!
//! The tables are vendor constants. Nothing is known of what the individual
//! writes mean; the chip only produces usable readings after it has received
//! them in exactly this order.

use vstd::prelude::*;

verus! {

/// Opens the recipe: five writes before the first probe.
pub const BLOCK_A: [(u8, u8); 5] = [
    (0x7F, 0x00),
    (0x55, 0x01),
    (0x50, 0x07),
    (0x7F, 0x0E),
    (0x43, 0x10),
];

/// Five writes between the first probe and the second.
pub const BLOCK_B: [(u8, u8); 5] = [
    (0x7F, 0x00),
    (0x51, 0x7B),
    (0x50, 0x00),
    (0x55, 0x00),
    (0x7F, 0x0E),
];

/// The fixed head of the trim block; the two trimmed values follow it.
pub const BLOCK_C_HEAD: [(u8, u8); 4] = [
    (0x7F, 0x00),
    (0x61, 0xAD),
    (0x51, 0x70),
    (0x7F, 0x0E),
];

/// The main body of the recipe.
pub const BLOCK_D: [(u8, u8); 59] = [
    (0x7F, 0x00),
    (0x61, 0xAD),
    (0x7F, 0x03),
    (0x40, 0x00),
    (0x7F, 0x05),
    (0x41, 0xB3),
    (0x43, 0xF1),
    (0x45, 0x14),
    (0x5B, 0x32),
    (0x5F, 0x34),
    (0x7B, 0x08),
    (0x7F, 0x06),
    (0x44, 0x1B),
    (0x40, 0xBF),
    (0x4E, 0x3F),
    (0x7F, 0x08),
    (0x65, 0x20),
    (0x6A, 0x18),
    (0x7F, 0x09),
    (0x4F, 0xAF),
    (0x5F, 0x40),
    (0x48, 0x80),
    (0x49, 0x80),
    (0x57, 0x77),
    (0x60, 0x78),
    (0x61, 0x78),
    (0x62, 0x08),
    (0x63, 0x50),
    (0x7F, 0x0A),
    (0x45, 0x60),
    (0x7F, 0x00),
    (0x4D, 0x11),
    (0x55, 0x80),
    (0x74, 0x21),
    (0x75, 0x1F),
    (0x4A, 0x78),
    (0x4B, 0x78),
    (0x44, 0x08),
    (0x45, 0x50),
    (0x64, 0xFF),
    (0x65, 0x1F),
    (0x7F, 0x14),
    (0x65, 0x67),
    (0x66, 0x08),
    (0x63, 0x70),
    (0x7F, 0x15),
    (0x48, 0x48),
    (0x7F, 0x07),
    (0x41, 0x0D),
    (0x43, 0x14),
    (0x4B, 0x0E),
    (0x45, 0x0F),
    (0x44, 0x42),
    (0x4C, 0x80),
    (0x7F, 0x10),
    (0x5B, 0x02),
    (0x7F, 0x07),
    (0x40, 0x41),
    (0x70, 0x00),
];

/// Written once the chip has had ten milliseconds to take in the main body.
pub const BLOCK_E: [(u8, u8); 14] = [
    (0x32, 0x44),
    (0x7F, 0x07),
    (0x40, 0x40),
    (0x7F, 0x06),
    (0x62, 0xF0),
    (0x63, 0x00),
    (0x7F, 0x0D),
    (0x48, 0xC0),
    (0x6F, 0xD5),
    (0x7F, 0x00),
    (0x5B, 0xA0),
    (0x4E, 0xA8),
    (0x5A, 0x50),
    (0x40, 0x80),
];

/// Switches the LED pulsing on; closes the recipe.
pub const BLOCK_F: [(u8, u8); 3] = [
    (0x7F, 0x14),
    (0x6F, 0x1C),
    (0x7F, 0x00),
];

/// The register probed before [`PATCH_REGISTER`] is written.
pub const PATCH_PROBE: u8 = 0x67;

/// The register whose value depends on the first probe.
pub const PATCH_REGISTER: u8 = 0x48;

/// The register probed to decide whether the trim block is written at all.
pub const TRIM_PROBE: u8 = 0x73;

/// The register that holds the first value to trim.
pub const TRIM_FIRST: u8 = 0x70;

/// The register that holds the second value to trim.
pub const TRIM_SECOND: u8 = 0x71;

/// The value for [`PATCH_REGISTER`]: `0x04` where the top bit of the probe is
/// set, `0x02` where it is clear.
pub open spec fn patch_for(probe: u8) -> u8 {
    if (probe & 0x80) != 0 {
        0x04
    } else {
        0x02
    }
}

/// The first trimmed value. A raw value of at most 28 is lifted by 14; what
/// then exceeds 28 is raised by 11; the result is capped at `0x3F`. Both steps
/// apply in turn, so a raw value from 15 to 28 gains 25.
pub open spec fn trimmed_first(raw: u8) -> u8 {
    let lifted: int = if raw <= 28 {
        raw + 14
    } else {
        raw as int
    };
    let raised: int = if lifted > 28 {
        lifted + 11
    } else {
        lifted
    };
    if raised > 0x3F {
        0x3Fu8
    } else {
        raised as u8
    }
}

/// The second trimmed value: 45 percent of the raw value, rounded down.
pub open spec fn trimmed_second(raw: u8) -> u8 {
    ((raw * 45) / 100) as u8
}

/// The trim block for two trimmed values: the fixed head, then the two values
/// written back to the registers they were read from.
pub open spec fn block_c(first: u8, second: u8) -> Seq<(u8, u8)> {
    BLOCK_C_HEAD@ + seq![(TRIM_FIRST, first), (TRIM_SECOND, second)]
}

/// Computes [`patch_for`].
pub fn choose_patch(probe: u8) -> (value: u8)
    ensures
        value == patch_for(probe),
{
    if (probe & 0x80) != 0 {
        0x04
    } else {
        0x02
    }
}

/// Computes [`trimmed_first`]. The sums are taken in sixteen bits, so no raw
/// value wraps round before the cap applies.
pub fn trim_first(raw: u8) -> (value: u8)
    ensures
        value == trimmed_first(raw),
{
    let mut wide: u16 = raw as u16;
    if wide <= 28 {
        wide = wide + 14;
    }
    if wide > 28 {
        wide = wide + 11;
    }
    if wide > 0x3F {
        0x3F
    } else {
        wide as u8
    }
}

/// Computes [`trimmed_second`]. The product is taken in sixteen bits.
pub fn trim_second(raw: u8) -> (value: u8)
    ensures
        value == trimmed_second(raw),
{
    let scaled: u16 = (raw as u16) * 45 / 100;
    scaled as u8
}

/// The pair at `index` of the trim block for two trimmed values.
pub(crate) fn block_c_pair(first: u8, second: u8, index: usize) -> (pair: (u8, u8))
    requires
        index < 6,
    ensures
        pair == block_c(first, second)[index as int],
{
    if index < 4 {
        BLOCK_C_HEAD[index]
    } else if index == 4 {
        (TRIM_FIRST, first)
    } else {
        (TRIM_SECOND, second)
    }
}

/// The first trimmed value in closed form, and its bound.
pub proof fn lemma_trimmed_first(raw: u8)
    ensures
        raw <= 14 ==> trimmed_first(raw) == raw + 14,
        15 <= raw <= 27 ==> trimmed_first(raw) == raw + 25,
        raw == 28 ==> trimmed_first(raw) == 53,
        29 <= raw <= 52 ==> trimmed_first(raw) == raw + 11,
        raw >= 52 ==> trimmed_first(raw) == 0x3F,
        trimmed_first(raw) <= 0x3F,
{
}

/// The second trimmed value never exceeds the raw one, nor 114.
pub proof fn lemma_trimmed_second(raw: u8)
    ensures
        trimmed_second(raw) * 100 <= raw * 45 < trimmed_second(raw) * 100 + 100,
        trimmed_second(raw) <= raw,
        trimmed_second(raw) <= 114,
{
}

/// The patch value is one of two, and the top bit of the probe alone decides.
pub proof fn lemma_patch_for(probe: u8)
    ensures
        probe >= 0x80 ==> patch_for(probe) == 0x04,
        probe < 0x80 ==> patch_for(probe) == 0x02,
{
    assert(probe >= 0x80 <==> (probe & 0x80) != 0) by (bit_vector);
}

} // verus!
