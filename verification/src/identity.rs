//! Product identification.

use vstd::prelude::*;

verus! {

/// The product id that a PAA5100JE reports.
pub const PAA5100JE_PRODUCT_ID: u8 = 0x49;

/// The newest revision of the PAA5100JE that this driver knows.
pub const PAA5100JE_MAX_REVISION: u8 = 0x01;

/// Defines product identification information
#[derive(Debug, Clone, Copy, PartialEq, Eq)]
pub struct Id {
    /// Product ID number retrieved from the PRODUCT_ID register
    pub product_id: u8,
    /// Product revision number retrieved from the PRODUCT_REVISION register
    pub revision: u8,
}

impl Id {
    /// Whether this identification is that of a PAA5100JE this driver can
    /// run: the product id is `0x49` and the revision at most `0x01`.
    pub open spec fn is_paa5100je(self) -> bool {
        self.product_id == PAA5100JE_PRODUCT_ID && self.revision <= PAA5100JE_MAX_REVISION
    }

    /// Tests [`Id::is_paa5100je`].
    pub fn matches_paa5100je(&self) -> (ok: bool)
        ensures
            ok == self.is_paa5100je(),
    {
        self.product_id == PAA5100JE_PRODUCT_ID && self.revision <= PAA5100JE_MAX_REVISION
    }
}

} // verus!
