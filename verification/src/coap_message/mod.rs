//! Building CoAP responses in a Gcoap [PacketBuffer]
//!
//! A [ResponseMessage] tracks whether a payload was written: options can only be added before
//! that, and the length of the finished message counts the payload marker and the payload.

use vstd::prelude::*;
use crate::gcoap::{PacketBuffer, window_write};
use crate::error::NumericError;
use crate::errno;

pub mod impl_0_3;

pub use impl_0_3::Error;

verus! {

/// A CoAP option: its number and value
pub struct MessageOption<'a> {
    number: u16,
    value: &'a [u8],
}

impl<'a> MessageOption<'a> {
    /// The option number
    pub closed spec fn spec_number(&self) -> u16 {
        self.number
    }

    /// The option value
    pub closed spec fn spec_value(&self) -> Seq<u8> {
        self.value@
    }

    /// The option `number` with value `value`
    pub fn new(number: u16, value: &'a [u8]) -> (o: Self)
        ensures
            o.spec_number() == number,
            o.spec_value() == value@,
    {
        MessageOption { number, value }
    }

    /// The option number
    pub fn number(&self) -> (n: u16)
        ensures
            n == self.spec_number(),
    {
        self.number
    }

    /// The option value
    pub fn value(&self) -> (v: &'a [u8])
        ensures
            v@ == self.spec_value(),
    {
        self.value
    }
}

/// The options of a message, in the order in which they stand in it, each as its number and value
pub struct OptionsIterator<'a> {
    options: Vec<(u16, &'a [u8])>,
    position: usize,
}

impl<'a> OptionsIterator<'a> {
    /// The options not handed out yet
    pub closed spec fn remaining(&self) -> Seq<(u16, Seq<u8>)> {
        self.options@.subrange(self.position as int, self.options@.len() as int).map_values(
            |o: (u16, &'a [u8])| (o.0, o.1@),
        )
    }

    #[verifier::type_invariant]
    spec fn well_formed(self) -> bool {
        self.position <= self.options@.len()
    }

    /// Iterate over `options`, which were read from a message in this order
    pub fn new(options: Vec<(u16, &'a [u8])>) -> (it: Self)
        ensures
            it.remaining() == options@.map_values(|o: (u16, &'a [u8])| (o.0, o.1@)),
    {
        let it = OptionsIterator { options, position: 0 };
        assert(it.options@.subrange(0, it.options@.len() as int) == it.options@);
        it
    }

    /// The next option, if any is left
    pub fn next(&mut self) -> (r: Option<MessageOption<'a>>)
        ensures
            old(self).remaining().len() == 0 ==> r is None && final(self).remaining() == old(
                self,
            ).remaining(),
            old(self).remaining().len() > 0 ==> (r matches Some(o) && (o.spec_number(), o.spec_value())
                == old(self).remaining()[0] && final(self).remaining() == old(
                self,
            ).remaining().drop_first()),
    {
        proof {
            use_type_invariant(&*self);
        }
        if self.position < self.options.len() {
            let (number, value) = self.options[self.position];
            self.position = self.position + 1;
            assert(self.remaining() =~= old(self).remaining().drop_first());
            Some(MessageOption::new(number, value))
        } else {
            None
        }
    }
}

/// A response being built in a packet buffer on which the response was initialized
pub struct ResponseMessage<'b> {
    message: PacketBuffer<'b>,
    payload_written: Option<usize>,
}

/// The number of payload bytes (including the marker) that a written payload of length
/// `written` takes in the message
pub open spec fn payload_used(written: Option<usize>) -> int {
    match written {
        None => 0,
        Some(x) => x + 1,
    }
}

impl<'b> ResponseMessage<'b> {
    /// The packet buffer
    pub closed spec fn spec_message(&self) -> &PacketBuffer<'b> {
        &self.message
    }

    /// The length of the payload written so far (None before any payload was written)
    pub closed spec fn spec_payload_written(&self) -> Option<usize> {
        self.payload_written
    }

    /// Start building a response in `buf`, whose response header was initialized
    pub fn new(buf: PacketBuffer<'b>) -> (m: Self)
        ensures
            m.spec_message() == &buf,
            m.spec_payload_written() is None,
    {
        ResponseMessage { message: buf, payload_written: None }
    }

    /// The packet buffer
    pub fn message(&self) -> (m: &PacketBuffer<'b>)
        ensures
            m == self.spec_message(),
    {
        &self.message
    }

    /// Set the response code
    pub fn set_code(&mut self, code: u8)
        ensures
            final(self).spec_message().bytes() == old(self).spec_message().bytes().update(1, code),
            final(self).spec_message().spec_payload_start() == old(self).spec_message().spec_payload_start(),
            final(self).spec_message().spec_payload_len() == old(self).spec_message().spec_payload_len(),
            final(self).spec_payload_written() == old(self).spec_payload_written(),
    {
        self.message.set_code_raw(code);
    }

    /// Whether an option may be added: only before the payload
    pub fn check_add_option(&self) -> (r: Result<(), Error>)
        ensures
            r is Ok <==> self.spec_payload_written() is None,
            r matches Err(e) ==> e.0.spec_number() == -errno::EINVAL,
    {
        if self.payload_written.is_some() {
            return Err(Error(NumericError::from_constant(errno::EINVAL)));
        }
        Ok(())
    }

    /// Record that an option was added, and nanocoap moved the payload window to
    /// `payload_start` with length `payload_len`
    pub fn option_added(&mut self, payload_start: usize, payload_len: usize) -> (ok: bool)
        ensures
            ok <==> payload_start + payload_len <= old(self).spec_message().bytes().len(),
            final(self).spec_message().bytes() == old(self).spec_message().bytes(),
            final(self).spec_payload_written() == old(self).spec_payload_written(),
            ok ==> final(self).spec_message().spec_payload_start() == payload_start
                && final(self).spec_message().spec_payload_len() == payload_len,
    {
        self.message.set_payload_window(payload_start, payload_len)
    }

    /// The space available for the payload marker and the payload
    pub fn available_space(&self) -> (n: usize)
        ensures
            n == self.spec_message().spec_payload_len(),
    {
        self.message.payload().len()
    }

    /// Set the payload to `data`: the payload marker and the data are written at the start of
    /// the payload window, if they fit there.
    pub fn set_payload(&mut self, data: &[u8]) -> (r: Result<(), Error>)
        ensures
            final(self).spec_payload_written() == Some(data@.len() as usize),
            r is Ok <==> data@.len() + 1 <= old(self).spec_message().spec_payload_len(),
            r matches Err(e) ==> e.0.spec_number() == -errno::EINVAL,
            final(self).spec_message().spec_payload_start() == old(self).spec_message().spec_payload_start(),
            final(self).spec_message().spec_payload_len() == old(self).spec_message().spec_payload_len(),
            r is Ok ==> final(self).spec_message().bytes() == window_write(
                old(self).spec_message().bytes(),
                old(self).spec_message().spec_payload_start() as int,
                seq![0xffu8] + data@,
            ),
            r is Err ==> final(self).spec_message().bytes() == old(self).spec_message().bytes(),
    {
        self.payload_written = Some(data.len());
        if self.message.write_payload(data) {
            Ok(())
        } else {
            Err(Error(NumericError::from_constant(errno::EINVAL)))
        }
    }

    /// Shorten the written payload to `len` bytes
    ///
    /// This is an error before any payload was written, and for lengths beyond the payload space.
    pub fn truncate(&mut self, len: usize) -> (r: Result<(), Error>)
        requires
            old(self).spec_payload_written() is Some ==> old(self).spec_message().spec_payload_len() >= 1,
        ensures
            r is Ok <==> (old(self).spec_payload_written() is Some && len + 1 <= old(self).spec_message().spec_payload_len()),
            r matches Err(e) ==> e.0.spec_number() == -errno::EINVAL,
            r is Ok ==> final(self).spec_payload_written() == Some(len),
            r is Err ==> final(self).spec_payload_written() == old(self).spec_payload_written(),
            final(self).spec_message() == old(self).spec_message(),
    {
        if self.payload_written.is_none() {
            return Err(Error(NumericError::from_constant(errno::EINVAL)));
        }
        let pl_len = self.message.payload().len() - 1;
        if len > pl_len {
            return Err(Error(NumericError::from_constant(errno::EINVAL)));
        }
        self.payload_written = Some(len);
        Ok(())
    }

    /// The total length of the response message: header, options, and the payload with its
    /// marker if one was written
    pub fn finish(&self) -> (l: isize)
        requires
            self.spec_message().spec_payload_start() + payload_used(self.spec_payload_written())
                <= isize::MAX,
            self.spec_message().spec_payload_start() + payload_used(self.spec_payload_written())
                <= self.spec_message().bytes().len(),
        ensures
            l == self.spec_message().spec_payload_start() + payload_used(self.spec_payload_written()),
    {
        let used = match self.payload_written {
            None => 0,
            Some(x) => x + 1,
        };
        self.message.get_length(used) as isize
    }
}

/// After a payload of `data` was set on a response, the finished message is the part before the
/// payload window, the payload marker and the data: one byte more than the data.
pub proof fn law_finish_after_set_payload<'b>(m: ResponseMessage<'b>, data: Seq<u8>)
    requires
        m.spec_payload_written() == Some(data.len() as usize),
        data.len() <= usize::MAX,
    ensures
        m.spec_message().spec_payload_start() + payload_used(m.spec_payload_written())
            == m.spec_message().spec_payload_start() + data.len() + 1,
{
}

} // verus!
