//! The error type of CoAP message building

use vstd::prelude::*;
use crate::error::NumericError;

verus! {

/// Thin wrapper around NumericError, as CoAP message building reports it
#[derive(Debug)]
pub struct Error(pub NumericError);

impl From<NumericError> for Error {
    fn from(e: NumericError) -> (r: Error) {
        Error(e)
    }
}

impl vstd::std_specs::convert::FromSpecImpl<NumericError> for Error {
    open spec fn obeys_from_spec() -> bool {
        true
    }

    open spec fn from_spec(e: NumericError) -> Error {
        Error(e)
    }
}

} // verus!
