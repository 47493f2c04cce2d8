//! The LEDs of a board (RIOT's `LED<n>_{ON,OFF,TOGGLE}` macros)
//!
//! RIOT defines the LEDs 0 to 7; a board may have any of them. Switching happens through the
//! macros; this module holds the handles.

use vstd::prelude::*;

verus! {

/// The Ith LED
///
/// LEDs are accessible safely; any not implemented on a board are silently ignored.
pub struct LED<const I: u8> {
    _private: (),
}

/// The indicated LED is not present on the current board.
#[derive(Debug)]
pub struct LedNotPresent;

impl<const I: u8> LED<I> {
    /// Accesses the LED numbered `I` (see [Self::new_unchecked]).
    pub fn new() -> (l: Self)
        requires
            I < 8,
    {
        Self::new_unchecked()
    }

    /// Accesses the LED numbered `I`, one of RIOT's LEDs 0 to 7.
    ///
    /// It is not an error if this board does not have a LED with that number; the resulting
    /// handle's operations then have no effect.
    pub fn new_unchecked() -> (l: Self)
        requires
            I < 8,
    {
        LED { _private: () }
    }

    /// Accesses the LED numbered `I` if the board has it, as its `LED<I>_IS_PRESENT` macro tells
    /// (`present`).
    pub fn new_checked(present: bool) -> (r: Result<Self, LedNotPresent>)
        requires
            I < 8,
        ensures
            r is Ok <==> present,
    {
        if present {
            Ok(LED { _private: () })
        } else {
            Err(LedNotPresent)
        }
    }
}

} // verus!
