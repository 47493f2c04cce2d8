//! Modes of GNRC packet snips, and the error of running out of packet buffer space

use vstd::prelude::*;

verus! {

/// Error type for snip operations that need free buffer space
#[derive(Debug)]
pub struct NotEnoughSpace;

/// Base trait for snip modes (Shared and Writable)
pub trait Mode {}

/// Marker type indicating a snip is not writable (the default in GNRC)
pub struct Shared();

impl Mode for Shared {}

/// Marker type indicating that a snip is writable by the reference owner
pub struct Writable();

impl Mode for Writable {}

} // verus!
