//! RIOT's hardware random number generator

use vstd::prelude::*;

verus! {

/// Errors of reading from the hardware RNG
#[derive(Debug)]
#[non_exhaustive]
pub enum HWRNGError {
    Other,
}

/// RIOT's hwrng module, read through its driver
#[derive(Debug)]
pub struct HWRNG;

} // verus!
