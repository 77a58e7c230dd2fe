//! What can go wrong between the driver and the chip.

use vstd::prelude::*;
use embedded_hal_async::spi::ErrorKind;
use crate::identity::Id;

verus! {

/// Makes `embedded_hal_async::spi::ErrorKind` known to the verifier as an
/// opaque type. Nothing is claimed of it: the driver never looks inside a
/// value of it, it only hands the value on to the caller.
#[verifier::external_type_specification]
#[verifier::external_body]
pub struct ExErrorKind(ErrorKind);

/// Enumeration of possible errors encountered by the sensor driver
#[derive(Debug, Clone, Copy, PartialEq)]
pub enum SensorError {
    /// An error occurred during SPI comms.
    Spi(ErrorKind),
    /// ID or revision number retrieved from the sensor was invalid.
    InvalidId(Id),
    /// Motion data retrieved from sensor did not pass validation.
    InvalidMotion,
}

impl SensorError {
    /// The error that stands for a failed bus transaction of the given kind.
    pub fn from_kind(kind: ErrorKind) -> (error: SensorError)
        ensures
            error == SensorError::Spi(kind),
    {
        SensorError::Spi(kind)
    }
}

} // verus!
