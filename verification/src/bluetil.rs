//! Bluetil tools for BLE Advertising Data (AD)

use vstd::prelude::*;
use crate::error::NumericError;

verus! {

/// Return value of bluetil for a field that is not found
pub const BLUETIL_AD_NOTFOUND: isize = -1;
/// Return value of bluetil for a buffer that is too small
pub const BLUETIL_AD_NOMEM: isize = -2;

/// A buffer of BLE Advertising Data
pub struct Ad<B>(B);

impl<B> Ad<B> {
    /// The buffer
    pub closed spec fn spec_buffer(&self) -> B {
        self.0
    }

    /// Advertising data in the buffer `buffer`
    pub fn from_buffer(buffer: B) -> (ad: Self)
        ensures
            ad.spec_buffer() == buffer,
    {
        Ad(buffer)
    }

    /// Give back the buffer
    pub fn destroy(self) -> (b: B)
        ensures
            b == self.spec_buffer(),
    {
        self.0
    }
}

/// Errors of bluetil
#[derive(Debug, PartialEq, Eq, Structural)]
pub enum Error {
    NotFound,
    NoMem,
}

impl Error {
    /// The bluetil error an error number stands for; bluetil reports no other numbers.
    pub fn from_numeric(e: NumericError) -> (r: Self)
        requires
            e.spec_number() == BLUETIL_AD_NOTFOUND || e.spec_number() == BLUETIL_AD_NOMEM,
        ensures
            e.spec_number() == BLUETIL_AD_NOTFOUND ==> r == Error::NotFound,
            e.spec_number() == BLUETIL_AD_NOMEM ==> r == Error::NoMem,
    {
        if e.number() == BLUETIL_AD_NOTFOUND {
            Error::NotFound
        } else {
            Error::NoMem
        }
    }
}

} // verus!
