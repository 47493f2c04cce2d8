//! Matter support: the source of commissioning data

use vstd::prelude::*;
use crate::error::NumericError;

verus! {

/// A source of the commissioning data of a Matter device
pub trait CommissioningDataFetcher {
    /// Reads discriminator and passcode from device firmware
    fn read_commissioning_data(&self) -> Result<(u16, u32), NumericError>;
}

/// Reads Matter data (commissioning and device attestation data) from files of RIOT's VFS
pub struct VfsDataFetcher;

} // verus!
