//! Messages between threads, with explicit type indication
//!
//! A message carries a sender, a type number and a 32-bit value. This module holds the message
//! values and the interpretation of the results of RIOT's message functions; the more structured
//! interface of the [v2] module tracks which type numbers a thread accepts.

use vstd::prelude::*;
use crate::thread::{KernelPID, KERNEL_PID_ISR, KERNEL_PID_FIRST, KERNEL_PID_LAST};

pub mod v2;

verus! {

/// The source of a message
#[derive(Debug, PartialEq, Eq, Structural)]
pub enum MsgSender {
    Invalid,
    Thread(KernelPID),
    ISR,
}

impl MsgSender {
    /// The sender that a sender PID of a message stands for
    pub fn from_pid(pid: i16) -> (s: Self)
        ensures
            is_sender_of(s, pid),
    {
        if pid == KERNEL_PID_ISR {
            MsgSender::ISR
        } else {
            match KernelPID::new(pid) {
                Some(p) => MsgSender::Thread(p),
                None => MsgSender::Invalid,
            }
        }
    }
}

/// Ways in which sending a message can fail
#[derive(Debug, PartialEq, Eq, Structural)]
pub enum MsgSendError {
    ReceiverNotWaiting,
    InvalidPID,
}

/// The outcome of `msg_send`: 1 is success, 0 means the receiver was not waiting, and any other
/// value that the target PID is invalid.
pub fn send_outcome(code: i32) -> (r: Result<(), MsgSendError>)
    ensures
        code == 1 ==> r is Ok,
        code == 0 ==> r == Err::<(), MsgSendError>(MsgSendError::ReceiverNotWaiting),
        code != 1 && code != 0 ==> r == Err::<(), MsgSendError>(MsgSendError::InvalidPID),
{
    match code {
        1 => Ok(()),
        0 => Err(MsgSendError::ReceiverNotWaiting),
        _ => Err(MsgSendError::InvalidPID),
    }
}

/// The outcome of `msg_reply`: 1 is success, anything else a failure.
pub fn reply_outcome(code: i32) -> (r: Result<(), ()>)
    ensures
        r is Ok <==> code == 1,
{
    match code {
        1 => Ok(()),
        _ => Err(()),
    }
}

/// The content of RIOT's `msg_t`: sender, type number and value
#[derive(Debug, Clone, Copy, PartialEq, Eq, Structural)]
pub struct MsgT {
    pub sender_pid: i16,
    pub type_: u16,
    pub value: u32,
}

/// Message values that wrap a `msg_t`
pub trait WrapsMsgT: Sized {
    /// The wrapped message
    spec fn spec_msg(&self) -> MsgT;

    /// Take out the wrapped message
    fn extract(self) -> (m: MsgT)
        ensures
            m == self.spec_msg(),
    ;

    /// Look at the wrapped message
    fn view(&self) -> (m: &MsgT)
        ensures
            *m == self.spec_msg(),
    ;
}

/// Accessors of any message value
pub trait Msg: WrapsMsgT {
    /// Who sent the message
    fn get_sender(&self) -> (s: MsgSender)
        ensures
            is_sender_of(s, self.spec_msg().sender_pid),
    ;

    /// The message's type number
    fn get_type(&self) -> (t: u16)
        ensures
            t == self.spec_msg().type_,
    ;
}

/// Whether `s` is the sender that the sender PID `pid` of a message stands for: the ISR marker,
/// a thread for identifiers in the thread range, and an invalid sender otherwise
pub open spec fn is_sender_of(s: MsgSender, pid: i16) -> bool {
    if pid == KERNEL_PID_ISR {
        s == MsgSender::ISR
    } else if KERNEL_PID_FIRST <= pid <= KERNEL_PID_LAST {
        s matches MsgSender::Thread(p) && p.spec_pid() == pid
    } else {
        s == MsgSender::Invalid
    }
}

impl<T: WrapsMsgT> Msg for T {
    fn get_sender(&self) -> (s: MsgSender) {
        MsgSender::from_pid(self.view().sender_pid)
    }

    fn get_type(&self) -> (t: u16) {
        self.view().type_
    }
}

/// A received message whose value is not interpreted
pub struct OpaqueMsg(MsgT);

impl OpaqueMsg {
    /// A message that came in as the raw `msg`
    pub fn from_raw(msg: MsgT) -> (m: Self)
        ensures
            m.spec_msg() == msg,
    {
        OpaqueMsg(msg)
    }
}

impl WrapsMsgT for OpaqueMsg {
    closed spec fn spec_msg(&self) -> MsgT {
        self.0
    }

    fn extract(self) -> (m: MsgT) {
        self.0
    }

    fn view(&self) -> (m: &MsgT) {
        &self.0
    }
}

/// A message of a type that needs no access to a value
pub struct EmptyMsg(MsgT);

impl EmptyMsg {
    /// A message of type `type_`, with zero sender and value
    pub fn new(type_: u16) -> (m: Self)
        ensures
            m.spec_msg() == (MsgT { sender_pid: 0, type_, value: 0 }),
    {
        EmptyMsg(MsgT { sender_pid: 0, type_, value: 0 })
    }
}

impl WrapsMsgT for EmptyMsg {
    closed spec fn spec_msg(&self) -> MsgT {
        self.0
    }

    fn extract(self) -> (m: MsgT) {
        self.0
    }

    fn view(&self) -> (m: &MsgT) {
        &self.0
    }
}

/// A message of a type whose payload is numeric
#[derive(Debug)]
pub struct NumericMsg(MsgT);

impl NumericMsg {
    /// A message of type `type_` carrying `value`
    pub fn new(type_: u16, value: u32) -> (m: Self)
        ensures
            m.spec_msg() == (MsgT { sender_pid: 0, type_, value }),
    {
        NumericMsg(MsgT { sender_pid: 0, type_, value })
    }

    /// Interpret an opaque message as a numeric one
    ///
    /// The sender is expected to have put a number into the message, which is typically known from
    /// its type number.
    pub fn recognize(msg: OpaqueMsg) -> (m: Self)
        ensures
            m.spec_msg() == msg.spec_msg(),
    {
        NumericMsg(msg.extract())
    }

    /// The number the message carries
    pub fn get_value(&self) -> (v: u32)
        ensures
            v == self.spec_msg().value,
    {
        self.0.value
    }
}

impl WrapsMsgT for NumericMsg {
    closed spec fn spec_msg(&self) -> MsgT {
        self.0
    }

    fn extract(self) -> (m: MsgT) {
        self.0
    }

    fn view(&self) -> (m: &MsgT) {
        &self.0
    }
}

} // verus!
