//! Error handling of the blocking read and write operations

use vstd::prelude::*;

verus! {

/// Errors of the blocking I²C operations
#[derive(Debug, PartialEq, Eq, Structural)]
pub enum Error {
    AcquireError,
    WriteError(i32),
    ReadError(i32),
}

/// The result of acquiring the bus: zero is success.
pub fn check_acquire(err: i32) -> (r: Result<(), Error>)
    ensures
        r is Ok <==> err == 0,
        r is Err ==> r == Err::<(), Error>(Error::AcquireError),
{
    if err != 0 {
        Err(Error::AcquireError)
    } else {
        Ok(())
    }
}

/// The result of a write: zero is success, any other value is reported in the error.
pub fn check_write(err: i32) -> (r: Result<(), Error>)
    ensures
        r is Ok <==> err == 0,
        r is Err ==> r == Err::<(), Error>(Error::WriteError(err)),
{
    if err != 0 {
        Err(Error::WriteError(err))
    } else {
        Ok(())
    }
}

/// The result of a read: zero is success, any other value is reported in the error.
pub fn check_read(err: i32) -> (r: Result<(), Error>)
    ensures
        r is Ok <==> err == 0,
        r is Err ==> r == Err::<(), Error>(Error::ReadError(err)),
{
    if err != 0 {
        Err(Error::ReadError(err))
    } else {
        Ok(())
    }
}

} // verus!
