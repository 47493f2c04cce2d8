//! RIOT's system random number generator

use vstd::prelude::*;

verus! {

/// The global random number generator available in RIOT
///
/// The numbers come from RIOT's `random_*` functions; the state is global, so this handle is
/// copyable.
#[derive(Copy, Clone, Debug)]
pub struct Random {
    _private: (),
}

impl Random {
    /// Access the system random number generator
    pub fn new() -> (r: Self) {
        Random { _private: () }
    }
}

} // verus!
