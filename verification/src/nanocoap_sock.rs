//! Outcomes of the functions of RIOT's `nanocoap_sock.h`
//!
//! The requests themselves are made by RIOT; what they return is interpreted here.

use vstd::prelude::*;

verus! {

/// The possible errors of a nanocoap client
#[derive(Debug, PartialEq, Eq, Structural)]
pub enum NanocoapClientErrors {
    /// The CoAP socket couldn't be created
    CreateSockErr,
    /// An unexpected error occurred
    UnexpectedErr,
    /// The CoAP request failed
    RequestErr,
    /// Couldn't fetch the content for the given URL
    FailedToFetchUrlContent,
    /// An invalid URL was provided
    InvalidURL,
    /// The provided buffer is too small
    BufferSizeNotSufficient,
    /// An invalid argument was provided
    InvalidArgument,
}

/// The possible errors of a nanocoap server
#[derive(Debug, PartialEq, Eq, Structural)]
pub enum NanocoapServerErrors {
    /// When binding to the local endpoint fails or packets are dropped
    BindingLocalOrDroppedPacketsErr,
}

/// The outcome of a request (GET, PUT, POST, their non-confirmable forms and raw requests): a
/// negative result is a failed request, any other is the length of the response payload.
pub fn request_outcome(res: isize) -> (r: Result<usize, NanocoapClientErrors>)
    ensures
        r is Ok <==> res >= 0,
        r matches Ok(n) ==> n == res,
        r is Err ==> r == Err::<usize, NanocoapClientErrors>(NanocoapClientErrors::RequestErr),
{
    if res < 0 {
        Err(NanocoapClientErrors::RequestErr)
    } else {
        Ok(res as usize)
    }
}

/// The outcome of a DELETE request: a negative result is a failed request.
pub fn delete_outcome(res: isize) -> (r: Result<(), NanocoapClientErrors>)
    ensures
        r is Ok <==> res >= 0,
        r is Err ==> r == Err::<(), NanocoapClientErrors>(NanocoapClientErrors::RequestErr),
{
    if res < 0 {
        Err(NanocoapClientErrors::RequestErr)
    } else {
        Ok(())
    }
}

/// The outcome of creating or connecting the client's socket: a negative result is a failure.
pub fn connect_outcome(res: isize) -> (r: Result<(), NanocoapClientErrors>)
    ensures
        r is Ok <==> res >= 0,
        r is Err ==> r == Err::<(), NanocoapClientErrors>(NanocoapClientErrors::CreateSockErr),
{
    if res < 0 {
        Err(NanocoapClientErrors::CreateSockErr)
    } else {
        Ok(())
    }
}

/// The outcome of running the server: it only returns on failure, which is reported as -1.
pub fn server_outcome(res: isize) -> (r: Result<(), NanocoapServerErrors>)
    ensures
        r is Ok <==> res != -1,
        r is Err ==> r == Err::<(), NanocoapServerErrors>(
            NanocoapServerErrors::BindingLocalOrDroppedPacketsErr,
        ),
{
    if res == -1 {
        Err(NanocoapServerErrors::BindingLocalOrDroppedPacketsErr)
    } else {
        Ok(())
    }
}

/// A nanocoap server that is to serve on the local endpoint `local` (of the socket layer's
/// endpoint type `E`)
pub struct NanocoapServer<E> {
    local: E,
}

impl<E> NanocoapServer<E> {
    /// The local endpoint
    pub closed spec fn spec_local(&self) -> E {
        self.local
    }

    /// A server for the local endpoint `local`
    pub fn new(local: E) -> (s: Self)
        ensures
            s.spec_local() == local,
    {
        NanocoapServer { local }
    }

    /// The local endpoint, to be bound when the server runs
    pub fn local(&mut self) -> (l: &mut E)
        ensures
            *l == old(self).spec_local(),
            final(self).spec_local() == *final(l),
    {
        &mut self.local
    }
}

/// The message ID that follows `msg_id` for the next request; after 65535 the IDs start over
/// at 0, as RIOT's 16-bit message ID counter does
pub fn next_msg_id(msg_id: u16) -> (r: u16)
    ensures
        r == (msg_id + 1) % 0x1_0000,
        r == msg_id.wrapping_add(1),
{
    msg_id.wrapping_add(1)
}

} // verus!
