//! Error numbers of RIOT's C library (newlib numbering), as positive constants
//!
//! These are the values that RIOT functions return negated, and that
//! [crate::error::NumericError::from_constant] takes.

use vstd::prelude::*;

verus! {

/// I/O error
pub const EIO: isize = 5;
/// No such device or address
pub const ENXIO: isize = 6;
/// Resource temporarily unavailable
pub const EAGAIN: isize = 11;
/// Not enough memory
pub const ENOMEM: isize = 12;
/// Device or resource busy
pub const EBUSY: isize = 16;
/// No such device
pub const ENODEV: isize = 19;
/// Invalid argument
pub const EINVAL: isize = 22;
/// No space left on device
pub const ENOSPC: isize = 28;
/// Operation not supported on socket
pub const EOPNOTSUPP: isize = 95;
/// Connection timed out
pub const ETIMEDOUT: isize = 116;
/// Socket is not connected
pub const ENOTCONN: isize = 128;
/// Operation not supported
pub const ENOTSUP: isize = 134;
/// Value too large for defined data type
pub const EOVERFLOW: isize = 139;

} // verus!
