//! The sensor handle.
//!
//! A handle starts an operation when asked and then leads the caller through
//! it, one request at a time:
//!
//! 1. Start the operation. The call returns the first [`Action`].
//! 2. While the action is [`Action::Perform`], perform the request and hand
//!    the outcome to [`PixArtSensor::resume`], which returns the next action.
//! 3. [`Action::Finished`] or [`Action::Failed`] ends the operation.
//!
//! One operation is in flight at a time. The sensor never gives one up by
//! itself; a caller that starts another operation gives up the one in
//! flight, which is how a caller with a deadline gets out of a capture that
//! the chip does not answer.

use vstd::prelude::*;
use crate::bus::{Action, Event, Request};
use crate::frame::FRAME_SIZE;
use crate::paa5100je::{Paa5100je, State};
use crate::register::{MOTION_BURST, ORIENTATION, POWER_UP_RESET, PRODUCT_ID};
use crate::rotation::RotationDegrees;
use crate::stage::{Stage, FRAME_SETUP, RESET_COMMAND};

verus! {

/// Enumeration of the sensor type. This acts as the sensor instance.
pub enum PixArtSensor {
    /// PAA5100JE Near-field Optical Flow Sensor
    Paa5100je(Paa5100je),
}

impl View for PixArtSensor {
    type V = State;

    open spec fn view(&self) -> State {
        match self {
            PixArtSensor::Paa5100je(chip) => chip@,
        }
    }
}

impl PixArtSensor {
    /// Instantiate a new PAA5100JE Near-field Optical Flow Sensor with its
    /// initialisation in flight. [`PixArtSensor::poll`] gives the first
    /// request. The chip gives no usable readings before initialisation has
    /// finished well; where it failed, the sensor is of no use but to
    /// [`PixArtSensor::wake`] it.
    pub fn new_paa5100je() -> (sensor: PixArtSensor)
        ensures
            sensor@ == State::fresh(),
            sensor@.cursor.poll() == Action::Perform(
                Request::write_of(POWER_UP_RESET, RESET_COMMAND),
            ),
            sensor@.wf(),
    {
        PixArtSensor::Paa5100je(Paa5100je::new())
    }

    /// Get the product ID and revision number
    ///
    /// Reads the product id register, then the revision register, and
    /// finishes with [`crate::bus::Output::Identified`].
    pub fn id(&mut self) -> (action: Action)
        ensures
            (final(self)@, action) == old(self)@.begin(Stage::IdProduct),
            action == Action::Perform(Request::read_of(PRODUCT_ID)),
            final(self)@.wf(),
    {
        match self {
            PixArtSensor::Paa5100je(chip) => chip.begin(Stage::IdProduct),
        }
    }

    /// Set the sensor's rotation
    ///
    /// One write of the orientation register with the bits of `rotation`.
    pub fn set_rotation(&mut self, rotation: RotationDegrees) -> (action: Action)
        ensures
            (final(self)@, action) == old(self)@.begin(
                Stage::Rotate { bits: rotation.orientation() },
            ),
            action == Action::Perform(Request::write_of(ORIENTATION, rotation.orientation())),
            final(self)@.wf(),
    {
        let bits = rotation.orientation_bits();
        match self {
            PixArtSensor::Paa5100je(chip) => chip.begin(Stage::Rotate { bits }),
        }
    }

    /// Retrieve motion data from the sensor.
    ///
    /// The raw motion data is validated before being returned.
    /// If the raw data fails validation, SensorError::InvalidMotion is returned.
    pub fn get_motion(&mut self) -> (action: Action)
        ensures
            (final(self)@, action) == old(self)@.begin(Stage::Motion),
            action == Action::Perform(Request::ReadBurst { address: MOTION_BURST }),
            final(self)@.wf(),
    {
        match self {
            PixArtSensor::Paa5100je(chip) => chip.begin(Stage::Motion),
        }
    }

    /// Capture a full frame from the sensor.
    ///
    /// Warning: this is very slow. The chip is polled until it has grabbed a
    /// frame, however long that takes, and every pixel takes at least two
    /// reads. A caller that wants a bound counts the requests and, at its
    /// limit, starts another operation. When the operation has finished,
    /// [`PixArtSensor::frame`] holds the frame.
    pub fn capture_frame(&mut self) -> (action: Action)
        ensures
            (final(self)@, action) == old(self)@.begin(Stage::FrameSetup),
            action == Action::Perform(Request::write_of(FRAME_SETUP[0].0, FRAME_SETUP[0].1)),
            final(self)@.wf(),
    {
        match self {
            PixArtSensor::Paa5100je(chip) => chip.begin(Stage::FrameSetup),
        }
    }

    /// Resets and restarts the sensor.
    ///
    /// It appears that the sensor shuts itself down if no change has been detected for an extended period.
    /// Use this function to wake it up again.
    pub fn wake(&mut self) -> (action: Action)
        ensures
            (final(self)@, action) == old(self)@.begin(Stage::Reset),
            action == Action::Perform(Request::write_of(POWER_UP_RESET, RESET_COMMAND)),
            final(self)@.wf(),
    {
        match self {
            PixArtSensor::Paa5100je(chip) => chip.begin(Stage::Reset),
        }
    }

    /// Takes the outcome of the request that the sensor is waiting on and
    /// says what to do next.
    pub fn resume(&mut self, event: Event) -> (action: Action)
        ensures
            (final(self)@, action) == old(self)@.step(event),
            old(self)@.wf(),
            final(self)@.wf(),
    {
        match self {
            PixArtSensor::Paa5100je(chip) => chip.resume(event),
        }
    }

    /// What the sensor is waiting for: its pending request, or nothing.
    pub fn poll(&self) -> (action: Action)
        ensures
            action == self@.cursor.poll(),
            self@.wf(),
    {
        match self {
            PixArtSensor::Paa5100je(chip) => chip.poll(),
        }
    }

    /// The frame that the last capture assembled, row after row. While a
    /// capture is in flight it holds the pixels assembled so far.
    pub fn frame(&self) -> (frame: &[u8; FRAME_SIZE])
        ensures
            frame@ == self@.frame,
            self@.wf(),
    {
        match self {
            PixArtSensor::Paa5100je(chip) => chip.frame(),
        }
    }
}

} // verus!
