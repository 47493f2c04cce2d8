//! Thread identifiers

use vstd::prelude::*;

verus! {

/// The number of threads RIOT is configured for (`MAXTHREADS`)
pub const MAXTHREADS: i16 = 32;

/// The process identifier that stands for no thread (`KERNEL_PID_UNDEF`)
pub const KERNEL_PID_UNDEF: i16 = 0;
/// The lowest thread identifier (`KERNEL_PID_FIRST`)
pub const KERNEL_PID_FIRST: i16 = 1;
/// The highest thread identifier (`KERNEL_PID_LAST`)
pub const KERNEL_PID_LAST: i16 = MAXTHREADS;
/// The identifier that stands for an interrupt service routine (`KERNEL_PID_ISR`)
pub const KERNEL_PID_ISR: i16 = MAXTHREADS + 1;

/// Wrapper around a valid (not necessarily running, but in-range) process identifier
#[derive(Debug, Clone, Copy, PartialEq, Eq, Structural)]
pub struct KernelPID(i16);

impl KernelPID {
    /// The identifier as a number
    pub closed spec fn spec_pid(self) -> i16 {
        self.0
    }

    /// The identifier for `pid`, if it is in the range of thread identifiers
    pub fn new(pid: i16) -> (r: Option<Self>)
        ensures
            r is Some <==> KERNEL_PID_FIRST <= pid <= KERNEL_PID_LAST,
            r matches Some(p) ==> p.spec_pid() == pid,
    {
        if KERNEL_PID_FIRST <= pid && pid <= KERNEL_PID_LAST {
            Some(KernelPID(pid))
        } else {
            None
        }
    }

    /// The identifier as a number
    pub fn pid(&self) -> (p: i16)
        ensures
            p == self.spec_pid(),
    {
        self.0
    }
}

} // verus!
