//! Typed message ports
//!
//! A thread states which message types it expects on which type numbers through a chain of
//! [MessageSemantics]: starting from [NoConfiguredMessages], every
//! [split_off] reserves one more type number, and gives a
//! [ReceivePort] (for decoding what comes in) and a [SendPort] (through which other threads send
//! messages of exactly that type to this thread).

use vstd::prelude::*;
use core::marker::PhantomData;
use crate::thread::KernelPID;
use crate::msg::{MsgT, MsgSender, is_sender_of};

verus! {

/// Thread-bound information carrier that indicates that a given type number was reserved for this
/// given content type.
pub struct ReceivePort<TYPE, const TYPENO: u16> {
    _types: PhantomData<TYPE>,
}

/// Object through which messages of a precise type can be sent to a precise thread.
pub struct SendPort<TYPE, const TYPENO: u16> {
    destination: KernelPID,
    _phantom: PhantomData<TYPE>,
}

impl<TYPE, const TYPENO: u16> SendPort<TYPE, TYPENO> {
    /// The thread the port sends to
    pub closed spec fn spec_destination(&self) -> KernelPID {
        self.destination
    }

    /// Access the port's destination
    pub fn destination(&self) -> (d: KernelPID)
        ensures
            d == self.spec_destination(),
    {
        self.destination
    }

    /// What an attempt to send `data` through this port comes to, given what `msg_try_send`
    /// reported: 1 means the message was delivered; on any other result the data is handed back
    /// to the caller.
    pub fn try_send_outcome(&self, result: i32, data: TYPE) -> (r: Result<(), TYPE>)
        ensures
            result == 1 ==> r is Ok,
            result != 1 ==> r == Err::<(), TYPE>(data),
    {
        if result == 1 {
            Ok(())
        } else {
            Err(data)
        }
    }
}

/// A message that was received by a thread with the message semantics `S`, and not decoded yet
pub struct ReceivedMessage<S: MessageSemantics> {
    msg: MsgT,
    _phantom: PhantomData<S>,
}

impl<S: MessageSemantics> ReceivedMessage<S> {
    /// The received message
    pub closed spec fn spec_msg(&self) -> MsgT {
        self.msg
    }

    /// The message `msg` as received by a thread that is configured with `_semantics`
    pub fn new(_semantics: &S, msg: MsgT) -> (m: Self)
        ensures
            m.spec_msg() == msg,
    {
        ReceivedMessage { msg, _phantom: PhantomData }
    }

    /// What `msg_try_receive` came to: a message when it reported 1, none otherwise
    pub fn try_receive_outcome(semantics: &S, result: i32, msg: MsgT) -> (r: Option<Self>)
        ensures
            result == 1 ==> (r matches Some(m) && m.spec_msg() == msg),
            result != 1 ==> r is None,
    {
        if result == 1 {
            Some(Self::new(semantics, msg))
        } else {
            None
        }
    }

    /// Who sent the message
    pub fn sender(&self) -> (s: MsgSender)
        ensures
            is_sender_of(s, self.spec_msg().sender_pid),
    {
        MsgSender::from_pid(self.msg.sender_pid)
    }

    /// Decode the message if it came in through `_port`, that is, if it carries the port's type
    /// number: then its sender and content are returned; otherwise the message is handed back,
    /// to be tried on another port.
    pub fn decode<TYPE, const TYPENO: u16>(self, _port: &ReceivePort<TYPE, TYPENO>) -> (r: Result<
        (MsgSender, u32),
        Self,
    >)
        ensures
            self.spec_msg().type_ == TYPENO ==> (r matches Ok((s, v)) && is_sender_of(
                s,
                self.spec_msg().sender_pid,
            ) && v == self.spec_msg().value),
            self.spec_msg().type_ != TYPENO ==> (r matches Err(m) && m.spec_msg() == self.spec_msg()),
    {
        if self.msg.type_ == TYPENO {
            let sender = self.sender();
            Ok((sender, self.msg.value))
        } else {
            Err(self)
        }
    }
}

/// Types that indicate the current thread's readiness to receive some set of messages
pub trait MessageSemantics: Sized {
    /// The set of type numbers that are reserved
    spec fn known(&self) -> Set<u16>;

    /// Whether a type number is reserved
    fn typeno_is_known(&self, typeno: u16) -> (r: bool)
        ensures
            r == self.known().contains(typeno),
    ;
}

/// The MessageSemantics of a thread that has made no commitment to receive any messages.
pub struct NoConfiguredMessages;

impl MessageSemantics for NoConfiguredMessages {
    open spec fn known(&self) -> Set<u16> {
        Set::empty()
    }

    fn typeno_is_known(&self, typeno: u16) -> (r: bool) {
        false
    }
}

/// The MessageSemantics of a thread that accepts messages of type `TYPE` with number `TYPENO`,
/// and all those of `TAIL`
pub struct Processing<TAIL: MessageSemantics, TYPE, const TYPENO: u16> {
    tail: TAIL,
    _type: PhantomData<TYPE>,
}

impl<TAIL: MessageSemantics, TYPE, const TYPENO: u16> MessageSemantics for Processing<
    TAIL,
    TYPE,
    TYPENO,
> {
    closed spec fn known(&self) -> Set<u16> {
        self.tail.known().insert(TYPENO)
    }

    fn typeno_is_known(&self, typeno: u16) -> (r: bool) {
        if typeno == TYPENO {
            true
        } else {
            self.tail.typeno_is_known(typeno)
        }
    }
}

/// The size of the content of a message (RIOT's `msg_t` content union): it holds either a pointer
/// (which has the size and alignment of `usize`) or a 32-bit value
pub open spec fn msg_content_size() -> nat {
    if vstd::layout::size_of::<usize>() >= vstd::layout::size_of::<u32>() {
        vstd::layout::size_of::<usize>()
    } else {
        vstd::layout::size_of::<u32>()
    }
}

/// The alignment of the content of a message (see [msg_content_size])
pub open spec fn msg_content_align() -> nat {
    if vstd::layout::align_of::<usize>() >= vstd::layout::align_of::<u32>() {
        vstd::layout::align_of::<usize>()
    } else {
        vstd::layout::align_of::<u32>()
    }
}

/// Reduce `semantics` into a new MessageSemantics that knows about one more type number, and a
/// pair of ports for messages of that type to the thread `own_pid` (the current thread).
///
/// The type number must not be in use yet, and a value of the new type must fit into a message's
/// content (see [msg_content_size] and [msg_content_align]).
pub fn split_off<S: MessageSemantics, NewType, const NEW_TYPENO: u16>(
    semantics: S,
    own_pid: KernelPID,
) -> (r: (Processing<S, NewType, NEW_TYPENO>, ReceivePort<NewType, NEW_TYPENO>, SendPort<NewType, NEW_TYPENO>))
    requires
        !semantics.known().contains(NEW_TYPENO),
        vstd::layout::size_of::<NewType>() <= msg_content_size(),
        vstd::layout::align_of::<NewType>() <= msg_content_align(),
    ensures
        r.0.known() == semantics.known().insert(NEW_TYPENO),
        r.2.spec_destination() == own_pid,
{
    (
        Processing { tail: semantics, _type: PhantomData },
        ReceivePort { _types: PhantomData },
        SendPort { destination: own_pid, _phantom: PhantomData },
    )
}

} // verus!
