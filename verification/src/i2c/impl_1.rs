//! Transactions: sequences of reads and writes to one address
//!
//! RIOT's driver issues a repeated start condition when a read or write follows an operation
//! that was flagged not to stop; consecutive operations of the same direction are sent without a
//! new start condition, as one scatter-gather transfer.

use vstd::prelude::*;
use crate::error::NegativeErrorExt;
use crate::error::NumericError;
use crate::errno;

verus! {

/// Driver flag: do not issue a stop condition after the transfer
pub const I2C_NOSTOP: u8 = 0x04;
/// Driver flag: do not issue a start condition (nor the address) before the transfer
pub const I2C_NOSTART: u8 = 0x08;

/// An error of a driver call
#[derive(Debug)]
pub struct Error(pub NumericError);

/// Which side of an acknowledgement was missing
#[derive(Debug, PartialEq, Eq, Structural)]
pub enum NoAcknowledgeSource {
    Address,
    Data,
    Unknown,
}

/// Kinds of I²C errors, as embedded-hal knows them
#[derive(Debug, PartialEq, Eq, Structural)]
pub enum ErrorKind {
    Bus,
    ArbitrationLoss,
    NoAcknowledge(NoAcknowledgeSource),
    Overrun,
    Other,
}

/// The kind of error that the (negative) error number of an I²C driver call stands for
pub open spec fn spec_kind(number: int) -> ErrorKind {
    if number == -errno::EIO {
        ErrorKind::NoAcknowledge(NoAcknowledgeSource::Data)
    } else if number == -errno::ENXIO {
        ErrorKind::NoAcknowledge(NoAcknowledgeSource::Address)
    } else if number == -errno::EAGAIN {
        ErrorKind::ArbitrationLoss
    } else {
        ErrorKind::Other
    }
}

impl Error {
    /// The kind of the error, following the list documented with RIOT's I²C functions
    pub fn kind(&self) -> (k: ErrorKind)
        ensures
            k == spec_kind(self.0.spec_number()),
    {
        let n = self.0.number();
        if n == -errno::EIO {
            ErrorKind::NoAcknowledge(NoAcknowledgeSource::Data)
        } else if n == -errno::ENXIO {
            ErrorKind::NoAcknowledge(NoAcknowledgeSource::Address)
        } else if n == -errno::ETIMEDOUT {
            ErrorKind::Other
        } else if n == -errno::EINVAL {
            ErrorKind::Other
        } else if n == -errno::EOPNOTSUPP {
            ErrorKind::Other
        } else if n == -errno::EAGAIN {
            ErrorKind::ArbitrationLoss
        } else {
            ErrorKind::Other
        }
    }
}

/// The direction of one operation of a transaction
#[derive(Debug, Clone, Copy, PartialEq, Eq, Structural)]
pub enum Direction {
    Read,
    Write,
}

/// How one operation of a transaction is passed to the driver: the address argument and the flags
#[derive(Debug, Clone, Copy, PartialEq, Eq, Structural)]
pub struct Step {
    pub address: u16,
    pub flags: u8,
}

/// The driver call for operation `i` of a transaction to `address` with directions `ops`
///
/// Every operation but the last keeps the bus (no stop condition). An operation whose direction
/// differs from the one before it (and the first one) starts with the address; one that continues
/// in the same direction is sent without start condition and address.
pub open spec fn spec_step(ops: Seq<Direction>, address: u8, i: int) -> Step {
    let nostop = if i == ops.len() - 1 { 0u8 } else { I2C_NOSTOP };
    if i == 0 || ops[i - 1] != ops[i] {
        Step { address: address as u16, flags: nostop }
    } else {
        Step { address: 0, flags: I2C_NOSTART | nostop }
    }
}

/// Each driver call of a transaction is decided by the operation just before it: a call that
/// continues in the direction of the previous operation goes without start condition and address
/// (`I2C_NOSTART`), one that changes direction (and the first) starts with the address; every
/// call but the last keeps the bus (`I2C_NOSTOP`).
pub proof fn law_step_follows_previous_operation(ops: Seq<Direction>, address: u8)
    ensures
        forall|i: int|
            0 < i < ops.len() ==> (#[trigger] spec_step(ops, address, i)).address == (if ops[i - 1]
                == ops[i] {
                0u16
            } else {
                address as u16
            }),
        forall|i: int|
            0 <= i < ops.len() ==> ((#[trigger] spec_step(ops, address, i)).flags & I2C_NOSTART
                != 0) == (i > 0 && ops[i - 1] == ops[i]),
        forall|i: int|
            0 <= i < ops.len() ==> ((#[trigger] spec_step(ops, address, i)).flags & I2C_NOSTOP
                != 0) == (i < ops.len() - 1),
{
    assert forall|i: int| 0 <= i < ops.len() implies ((#[trigger] spec_step(ops, address, i)).flags
        & I2C_NOSTART != 0) == (i > 0 && ops[i - 1] == ops[i]) && (spec_step(ops, address, i).flags
        & I2C_NOSTOP != 0) == (i < ops.len() - 1) by {
        assert((0x08u8 | 0x04u8) & 0x08u8 != 0 && (0x08u8 | 0x04u8) & 0x04u8 != 0) by (bit_vector);
        assert((0x08u8 | 0u8) & 0x08u8 != 0 && (0x08u8 | 0u8) & 0x04u8 == 0) by (bit_vector);
        assert(0x04u8 & 0x08u8 == 0 && 0x04u8 & 0x04u8 != 0) by (bit_vector);
        assert(0u8 & 0x08u8 == 0 && 0u8 & 0x04u8 == 0) by (bit_vector);
    }
}

/// The driver calls a transaction of operations in the directions `ops` makes, in order
pub fn plan_transaction(ops: &[Direction], address: u8) -> (steps: Vec<Step>)
    requires
        ops@.len() >= 1,
    ensures
        steps@.len() == ops@.len(),
        forall|i: int| 0 <= i < ops@.len() ==> steps@[i] == spec_step(ops@, address, i),
        forall|i: int|
            0 < i < ops@.len() ==> (#[trigger] steps@[i]).address == (if ops@[i - 1] == ops@[i] {
                0u16
            } else {
                address as u16
            }),
        forall|i: int|
            0 <= i < ops@.len() ==> ((#[trigger] steps@[i]).flags & I2C_NOSTART != 0) == (i > 0
                && ops@[i - 1] == ops@[i]),
        forall|i: int|
            0 <= i < ops@.len() ==> ((#[trigger] steps@[i]).flags & I2C_NOSTOP != 0) == (i < ops@.len()
                - 1),
{
    proof {
        law_step_follows_previous_operation(ops@, address);
    }
    let last_index = ops.len() - 1;
    let mut steps: Vec<Step> = Vec::new();
    let mut i: usize = 0;
    while i < ops.len()
        invariant
            i <= ops@.len(),
            last_index == ops@.len() - 1,
            steps@.len() == i,
            forall|j: int| 0 <= j < i ==> steps@[j] == spec_step(ops@, address, j),
        decreases ops@.len() - i,
    {
        let this_operation = ops[i];
        let maybe_nostop: u8 = if i == last_index {
            0
        } else {
            I2C_NOSTOP
        };
        let repeated = i > 0 && ops[i - 1] == this_operation;
        let step = if !repeated {
            Step { address: address as u16, flags: maybe_nostop }
        } else {
            Step { address: 0, flags: I2C_NOSTART | maybe_nostop }
        };
        steps.push(step);
        i = i + 1;
    }
    steps
}

/// Where a transaction stands after one of its driver calls returned
#[derive(Debug)]
pub enum TransactionProgress {
    /// The call succeeded and more calls follow
    Continue,
    /// The last call succeeded: the transaction is complete
    Done,
    /// The call failed; the transaction ends with this error, and no further call is made
    Failed(Error),
}

/// Where a transaction of `count` driver calls stands after call `index` returned `code`: a
/// negative code is an error that ends it, otherwise it goes on to the next call or is done
/// after the last one.
pub fn transaction_progress(index: usize, count: usize, code: i32) -> (r: TransactionProgress)
    requires
        index < count,
    ensures
        code < 0 ==> (r matches TransactionProgress::Failed(e) && e.0.spec_number() == code),
        code >= 0 && index + 1 < count ==> r is Continue,
        code >= 0 && index + 1 == count ==> r is Done,
{
    match code.negative_to_error() {
        Err(e) => TransactionProgress::Failed(Error(e)),
        Ok(_) => {
            if index + 1 < count {
                TransactionProgress::Continue
            } else {
                TransactionProgress::Done
            }
        },
    }
}

/// In a transaction, only the last driver call releases the bus, and the first one always starts
/// with the address.
pub proof fn law_transaction_stops_once(ops: Seq<Direction>, address: u8)
    requires
        ops.len() >= 1,
    ensures
        spec_step(ops, address, 0).address == address,
        spec_step(ops, address, ops.len() - 1).flags & I2C_NOSTOP == 0,
        forall|i: int| 0 <= i < ops.len() - 1 ==> #[trigger] spec_step(ops, address, i).flags & I2C_NOSTOP != 0,
{
    assert(I2C_NOSTART & 0u8 == 0 && (0u8 & I2C_NOSTOP) == 0 && (I2C_NOSTART | 0u8) & I2C_NOSTOP == 0) by (bit_vector);
    assert((I2C_NOSTART | I2C_NOSTOP) & I2C_NOSTOP != 0 && I2C_NOSTOP & I2C_NOSTOP != 0) by (bit_vector);
}

} // verus!
