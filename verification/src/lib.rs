//! Protocol driver for the PAA5100JE near-field optical flow sensor.
//!
//! The driver holds the chip's register protocol and nothing else: it owns
//! no bus and no timer. [`PixArtSensor`] starts an operation and then says,
//! request by request, what is to be done on the bus; the caller does it and
//! reports back. The modules [`dialogue`] and [`scripts`] state, and prove,
//! which requests each operation makes and how it ends.

pub mod bus;
pub mod calibration;
pub mod cursor;
pub mod dialogue;
pub mod error;
pub mod frame;
pub mod identity;
pub mod motion;
pub mod paa5100je;
pub mod register;
pub mod rotation;
pub mod scripts;
pub mod sensor;
pub mod stage;

pub use bus::{Action, Event, Output, Request};
pub use error::SensorError;
pub use frame::FRAME_SIZE;
pub use identity::Id;
pub use motion::MotionDelta;
pub use rotation::RotationDegrees;
pub use sensor::PixArtSensor;
