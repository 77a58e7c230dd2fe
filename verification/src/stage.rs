//! The stages that the driver's operations are made of.
//!
//! A stage is a run of requests that follow one another without a decision:
//! a table of writes, a row of reads, one delay. What comes after a stage
//! may depend on what its last request brought back. Two stages repeat
//! their request until the chip's answer lets them go on: waiting for a
//! grabbed frame, and collecting its pixels.

use vstd::prelude::*;
use crate::bus::{read_bulk, write_bulk, Event, Output, Request};
use crate::calibration::{
    block_c, block_c_pair, choose_patch, patch_for, trim_first, trim_second, trimmed_first,
    trimmed_second, BLOCK_A, BLOCK_B, BLOCK_D, BLOCK_E, BLOCK_F, PATCH_PROBE, PATCH_REGISTER,
    TRIM_FIRST, TRIM_PROBE, TRIM_SECOND,
};
use crate::error::SensorError;
use crate::frame::{completes, completes_pixel, FRAME_SIZE};
use crate::identity::Id;
use crate::motion::{decode_motion, motion_of};
use crate::register::{
    MOTION, MOTION_BURST, ORIENTATION, POWER_UP_RESET, PRODUCT_ID, PRODUCT_REVISION,
    RAW_DATA_GRAB, RAW_DATA_GRAB_STATUS,
};
use crate::rotation::RotationDegrees;

verus! {

/// Written to the reset register to restart the chip.
pub const RESET_COMMAND: u8 = 0x5A;

/// Milliseconds that the chip needs after a reset.
pub const RESET_SETTLE_MS: u32 = 20;

/// Registers read and thrown away after a reset, from the motion register
/// upwards, to clear stale motion latches.
pub const FLUSH_COUNT: usize = 5;

/// Milliseconds between the main body of the recipe and its second part.
pub const BODY_SETTLE_MS: u32 = 10;

/// Milliseconds between the second part of the recipe and its close.
pub const TAIL_SETTLE_MS: u32 = 240;

/// Milliseconds between the switch to frame-grab mode and the trigger.
pub const FRAME_SETTLE_MS: u32 = 10;

/// The bits of the grab status register of which one must be set before
/// pixels can be read.
pub const FRAME_READY_MASK: u8 = 0b1100_0000;

/// Written to the grab register to start the pixel stream.
pub const FRAME_START_COMMAND: u8 = 0x00;

/// Switches the chip into raw-frame-grab mode.
pub const FRAME_SETUP: [(u8, u8); 8] = [
    (0x7F, 0x07),
    (0x4C, 0x00),
    (0x7F, 0x08),
    (0x6A, 0x38),
    (0x7F, 0x00),
    (0x55, 0x04),
    (0x40, 0x80),
    (0x4D, 0x11),
];

/// Asks the chip to grab a frame.
pub const FRAME_TRIGGER: [(u8, u8); 2] = [
    (0x7F, 0x00),
    (0x58, 0xFF),
];

/// A stage of an operation, with the values it has to remember.
#[derive(Debug, Clone, Copy, PartialEq, Eq)]
pub enum Stage {
    /// No operation is in flight.
    Idle,
    /// Restart the chip.
    Reset,
    /// Let the chip come up.
    ResetSettle,
    /// Read the motion registers and throw the values away.
    Flush,
    /// First table of the recipe.
    BlockA,
    /// Read the register that decides the patch.
    PatchProbe,
    /// Write the patch.
    Patch { value: u8 },
    /// Second table of the recipe.
    BlockB,
    /// Read the register that decides whether to trim.
    TrimProbe,
    /// Read the first value to trim.
    TrimFirst,
    /// Read the second value to trim; the first is already trimmed.
    TrimSecond { first: u8 },
    /// Write the trim block.
    BlockC { first: u8, second: u8 },
    /// Main body of the recipe.
    BlockD,
    /// Let the chip take in the main body.
    BodySettle,
    /// Second part of the recipe.
    BlockE,
    /// Let the chip take in the second part.
    TailSettle,
    /// Close of the recipe.
    BlockF,
    /// Read the product id to check it.
    CheckProduct,
    /// Read the revision to check both.
    CheckRevision { product_id: u8 },
    /// Write the orientation register.
    Rotate { bits: u8 },
    /// Read the product id to report it.
    IdProduct,
    /// Read the revision to report both.
    IdRevision { product_id: u8 },
    /// Read one motion burst.
    Motion,
    /// Switch the chip to frame-grab mode.
    FrameSetup,
    /// Let the chip switch.
    FrameSettle,
    /// Trigger a grab.
    FrameTrigger,
    /// Read the grab status until a frame is there.
    FrameWait,
    /// Start the pixel stream.
    FrameStart,
    /// Read fragments until every pixel is complete.
    FramePixels,
}

/// Where an operation goes when a stage is through.
#[derive(Debug, Clone, Copy, PartialEq)]
pub enum Next {
    /// On to another stage.
    Enter(Stage),
    /// The operation ends well.
    Finish(Output),
    /// The operation ends badly.
    Fail(SensorError),
}

impl Stage {
    /// The requests of the stage, in order. A stage that repeats lists its
    /// request once for each time that the answer must let it go on.
    pub open spec fn requests(self) -> Seq<Request> {
        match self {
            Stage::Idle => Seq::empty(),
            Stage::Reset => write_bulk(seq![(POWER_UP_RESET, RESET_COMMAND)]),
            Stage::ResetSettle => seq![Request::Delay { ms: RESET_SETTLE_MS }],
            Stage::Flush => read_bulk(MOTION, FLUSH_COUNT as nat),
            Stage::BlockA => write_bulk(BLOCK_A@),
            Stage::PatchProbe => read_bulk(PATCH_PROBE, 1),
            Stage::Patch { value } => write_bulk(seq![(PATCH_REGISTER, value)]),
            Stage::BlockB => write_bulk(BLOCK_B@),
            Stage::TrimProbe => read_bulk(TRIM_PROBE, 1),
            Stage::TrimFirst => read_bulk(TRIM_FIRST, 1),
            Stage::TrimSecond { .. } => read_bulk(TRIM_SECOND, 1),
            Stage::BlockC { first, second } => write_bulk(block_c(first, second)),
            Stage::BlockD => write_bulk(BLOCK_D@),
            Stage::BodySettle => seq![Request::Delay { ms: BODY_SETTLE_MS }],
            Stage::BlockE => write_bulk(BLOCK_E@),
            Stage::TailSettle => seq![Request::Delay { ms: TAIL_SETTLE_MS }],
            Stage::BlockF => write_bulk(BLOCK_F@),
            Stage::CheckProduct => read_bulk(PRODUCT_ID, 1),
            Stage::CheckRevision { .. } => read_bulk(PRODUCT_REVISION, 1),
            Stage::Rotate { bits } => write_bulk(seq![(ORIENTATION, bits)]),
            Stage::IdProduct => read_bulk(PRODUCT_ID, 1),
            Stage::IdRevision { .. } => read_bulk(PRODUCT_REVISION, 1),
            Stage::Motion => seq![Request::ReadBurst { address: MOTION_BURST }],
            Stage::FrameSetup => write_bulk(FRAME_SETUP@),
            Stage::FrameSettle => seq![Request::Delay { ms: FRAME_SETTLE_MS }],
            Stage::FrameTrigger => write_bulk(FRAME_TRIGGER@),
            Stage::FrameWait => read_bulk(RAW_DATA_GRAB_STATUS, 1),
            Stage::FrameStart => write_bulk(seq![(RAW_DATA_GRAB, FRAME_START_COMMAND)]),
            Stage::FramePixels => Seq::new(
                FRAME_SIZE as nat,
                |i: int| Request::read_of(RAW_DATA_GRAB),
            ),
        }
    }

    /// Whether the stage asks its request once more after `event`, in place
    /// of going on. Waiting for a frame repeats while neither ready bit of
    /// the status is set; collecting pixels repeats on every fragment that
    /// does not complete a pixel.
    pub open spec fn repeats(self, event: Event) -> bool {
        match self {
            Stage::FrameWait => (event.byte() & FRAME_READY_MASK) == 0,
            Stage::FramePixels => !completes(event.byte()),
            _ => false,
        }
    }

    /// Where the operation goes when the last request of the stage has been
    /// answered with `event`. The idle stage has no request and is never
    /// left; what stands for it here is of no account.
    pub open spec fn leave(self, event: Event) -> Next {
        match self {
            Stage::Idle => Next::Finish(Output::Ready),
            Stage::Reset => Next::Enter(Stage::ResetSettle),
            Stage::ResetSettle => Next::Enter(Stage::Flush),
            Stage::Flush => Next::Enter(Stage::BlockA),
            Stage::BlockA => Next::Enter(Stage::PatchProbe),
            Stage::PatchProbe => Next::Enter(Stage::Patch { value: patch_for(event.byte()) }),
            Stage::Patch { .. } => Next::Enter(Stage::BlockB),
            Stage::BlockB => Next::Enter(Stage::TrimProbe),
            Stage::TrimProbe => if event.byte() == 0 {
                Next::Enter(Stage::TrimFirst)
            } else {
                Next::Enter(Stage::BlockD)
            },
            Stage::TrimFirst => Next::Enter(
                Stage::TrimSecond { first: trimmed_first(event.byte()) },
            ),
            Stage::TrimSecond { first } => Next::Enter(
                Stage::BlockC { first, second: trimmed_second(event.byte()) },
            ),
            Stage::BlockC { .. } => Next::Enter(Stage::BlockD),
            Stage::BlockD => Next::Enter(Stage::BodySettle),
            Stage::BodySettle => Next::Enter(Stage::BlockE),
            Stage::BlockE => Next::Enter(Stage::TailSettle),
            Stage::TailSettle => Next::Enter(Stage::BlockF),
            Stage::BlockF => Next::Enter(Stage::CheckProduct),
            Stage::CheckProduct => Next::Enter(
                Stage::CheckRevision { product_id: event.byte() },
            ),
            Stage::CheckRevision { product_id } => {
                let id = Id { product_id, revision: event.byte() };
                if id.is_paa5100je() {
                    Next::Enter(Stage::Rotate { bits: RotationDegrees::_0.orientation() })
                } else {
                    Next::Fail(SensorError::InvalidId(id))
                }
            },
            Stage::Rotate { .. } => Next::Finish(Output::Ready),
            Stage::IdProduct => Next::Enter(Stage::IdRevision { product_id: event.byte() }),
            Stage::IdRevision { product_id } => Next::Finish(
                Output::Identified(Id { product_id, revision: event.byte() }),
            ),
            Stage::Motion => match event {
                Event::Burst(bytes) => match motion_of(bytes@) {
                    Ok(delta) => Next::Finish(Output::Motion(delta)),
                    Err(error) => Next::Fail(error),
                },
                _ => Next::Fail(SensorError::InvalidMotion),
            },
            Stage::FrameSetup => Next::Enter(Stage::FrameSettle),
            Stage::FrameSettle => Next::Enter(Stage::FrameTrigger),
            Stage::FrameTrigger => Next::Enter(Stage::FrameWait),
            Stage::FrameWait => Next::Enter(Stage::FrameStart),
            Stage::FrameStart => Next::Enter(Stage::FramePixels),
            Stage::FramePixels => Next::Finish(Output::Frame),
        }
    }

    /// Number of requests in the stage.
    pub fn count(&self) -> (n: usize)
        ensures
            n == self.requests().len(),
            (*self != Stage::Idle) ==> n > 0,
    {
        match self {
            Stage::Idle => 0,
            Stage::Flush => FLUSH_COUNT,
            Stage::BlockA => 5,
            Stage::BlockB => 5,
            Stage::BlockC { .. } => 6,
            Stage::BlockD => 59,
            Stage::BlockE => 14,
            Stage::BlockF => 3,
            Stage::FrameSetup => 8,
            Stage::FrameTrigger => 2,
            Stage::FramePixels => FRAME_SIZE,
            _ => 1,
        }
    }

    /// The request at `index` of the stage.
    pub(crate) fn request(&self, index: usize) -> (request: Request)
        requires
            index < self.requests().len(),
        ensures
            request == self.requests()[index as int],
    {
        match self {
            Stage::Idle => Request::read(0),
            Stage::Reset => Request::write(POWER_UP_RESET, RESET_COMMAND),
            Stage::ResetSettle => Request::Delay { ms: RESET_SETTLE_MS },
            Stage::Flush => Request::read(MOTION + (index as u8)),
            Stage::BlockA => Request::write(BLOCK_A[index].0, BLOCK_A[index].1),
            Stage::PatchProbe => Request::read(PATCH_PROBE),
            Stage::Patch { value } => Request::write(PATCH_REGISTER, *value),
            Stage::BlockB => Request::write(BLOCK_B[index].0, BLOCK_B[index].1),
            Stage::TrimProbe => Request::read(TRIM_PROBE),
            Stage::TrimFirst => Request::read(TRIM_FIRST),
            Stage::TrimSecond { .. } => Request::read(TRIM_SECOND),
            Stage::BlockC { first, second } => {
                let pair = block_c_pair(*first, *second, index);
                Request::write(pair.0, pair.1)
            },
            Stage::BlockD => Request::write(BLOCK_D[index].0, BLOCK_D[index].1),
            Stage::BodySettle => Request::Delay { ms: BODY_SETTLE_MS },
            Stage::BlockE => Request::write(BLOCK_E[index].0, BLOCK_E[index].1),
            Stage::TailSettle => Request::Delay { ms: TAIL_SETTLE_MS },
            Stage::BlockF => Request::write(BLOCK_F[index].0, BLOCK_F[index].1),
            Stage::CheckProduct => Request::read(PRODUCT_ID),
            Stage::CheckRevision { .. } => Request::read(PRODUCT_REVISION),
            Stage::Rotate { bits } => Request::write(ORIENTATION, *bits),
            Stage::IdProduct => Request::read(PRODUCT_ID),
            Stage::IdRevision { .. } => Request::read(PRODUCT_REVISION),
            Stage::Motion => Request::ReadBurst { address: MOTION_BURST },
            Stage::FrameSetup => Request::write(FRAME_SETUP[index].0, FRAME_SETUP[index].1),
            Stage::FrameSettle => Request::Delay { ms: FRAME_SETTLE_MS },
            Stage::FrameTrigger => Request::write(FRAME_TRIGGER[index].0, FRAME_TRIGGER[index].1),
            Stage::FrameWait => Request::read(RAW_DATA_GRAB_STATUS),
            Stage::FrameStart => Request::write(RAW_DATA_GRAB, FRAME_START_COMMAND),
            Stage::FramePixels => Request::read(RAW_DATA_GRAB),
        }
    }

    /// Tests [`Stage::repeats`].
    pub fn repeats_on(&self, event: &Event) -> (again: bool)
        ensures
            again == self.repeats(*event),
    {
        match self {
            Stage::FrameWait => (event.byte_or_zero() & FRAME_READY_MASK) == 0,
            Stage::FramePixels => !completes_pixel(event.byte_or_zero()),
            _ => false,
        }
    }

    /// Computes [`Stage::leave`].
    pub fn leave_on(&self, event: &Event) -> (next: Next)
        ensures
            next == self.leave(*event),
            next matches Next::Enter(stage) ==> stage != Stage::Idle,
    {
        let byte = event.byte_or_zero();
        match self {
            Stage::Idle => Next::Finish(Output::Ready),
            Stage::Reset => Next::Enter(Stage::ResetSettle),
            Stage::ResetSettle => Next::Enter(Stage::Flush),
            Stage::Flush => Next::Enter(Stage::BlockA),
            Stage::BlockA => Next::Enter(Stage::PatchProbe),
            Stage::PatchProbe => Next::Enter(Stage::Patch { value: choose_patch(byte) }),
            Stage::Patch { .. } => Next::Enter(Stage::BlockB),
            Stage::BlockB => Next::Enter(Stage::TrimProbe),
            Stage::TrimProbe => if byte == 0 {
                Next::Enter(Stage::TrimFirst)
            } else {
                Next::Enter(Stage::BlockD)
            },
            Stage::TrimFirst => Next::Enter(Stage::TrimSecond { first: trim_first(byte) }),
            Stage::TrimSecond { first } => Next::Enter(
                Stage::BlockC { first: *first, second: trim_second(byte) },
            ),
            Stage::BlockC { .. } => Next::Enter(Stage::BlockD),
            Stage::BlockD => Next::Enter(Stage::BodySettle),
            Stage::BodySettle => Next::Enter(Stage::BlockE),
            Stage::BlockE => Next::Enter(Stage::TailSettle),
            Stage::TailSettle => Next::Enter(Stage::BlockF),
            Stage::BlockF => Next::Enter(Stage::CheckProduct),
            Stage::CheckProduct => Next::Enter(Stage::CheckRevision { product_id: byte }),
            Stage::CheckRevision { product_id } => {
                let id = Id { product_id: *product_id, revision: byte };
                if id.matches_paa5100je() {
                    Next::Enter(Stage::Rotate { bits: RotationDegrees::_0.orientation_bits() })
                } else {
                    Next::Fail(SensorError::InvalidId(id))
                }
            },
            Stage::Rotate { .. } => Next::Finish(Output::Ready),
            Stage::IdProduct => Next::Enter(Stage::IdRevision { product_id: byte }),
            Stage::IdRevision { product_id } => Next::Finish(
                Output::Identified(Id { product_id: *product_id, revision: byte }),
            ),
            Stage::Motion => match event {
                Event::Burst(bytes) => match decode_motion(bytes) {
                    Ok(delta) => Next::Finish(Output::Motion(delta)),
                    Err(error) => Next::Fail(error),
                },
                _ => Next::Fail(SensorError::InvalidMotion),
            },
            Stage::FrameSetup => Next::Enter(Stage::FrameSettle),
            Stage::FrameSettle => Next::Enter(Stage::FrameTrigger),
            Stage::FrameTrigger => Next::Enter(Stage::FrameWait),
            Stage::FrameWait => Next::Enter(Stage::FrameStart),
            Stage::FrameStart => Next::Enter(Stage::FramePixels),
            Stage::FramePixels => Next::Finish(Output::Frame),
        }
    }
}

/// Every request that the driver makes is addressed as the chip expects: a
/// write carries the write bit in its address byte, a read does not.
pub proof fn lemma_requests_are_addressed(stage: Stage, index: int)
    requires
        0 <= index < stage.requests().len(),
    ensures
        match stage.requests()[index] {
            Request::Write { address, .. } => address >= 0x80,
            Request::Read { address } => address < 0x80,
            Request::ReadBurst { address } => address < 0x80,
            Request::Delay { .. } => true,
        },
{
    assert forall|register: u8| (#[trigger] (register | 0x80u8)) >= 0x80 by {
        assert((register | 0x80u8) >= 0x80) by (bit_vector);
    }
}

} // verus!
