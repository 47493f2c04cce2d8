//! Registrations inside GNRC

use vstd::prelude::*;

verus! {

/// Message type of a packet that is received (`GNRC_NETAPI_MSG_TYPE_RCV`)
pub const GNRC_NETAPI_MSG_TYPE_RCV: u16 = 0x0201;
/// Message type of a packet that is sent (`GNRC_NETAPI_MSG_TYPE_SND`)
pub const GNRC_NETAPI_MSG_TYPE_SND: u16 = 0x0202;

/// Values of the command argument of a netreg callback
#[non_exhaustive]
#[derive(Debug, PartialEq, Eq, Structural)]
pub enum Command {
    Receive,
    Send,
}

impl Command {
    /// The command a netreg callback's message type stands for; netreg only passes these two.
    pub fn from_msg_type(cmd: u16) -> (c: Command)
        requires
            cmd == GNRC_NETAPI_MSG_TYPE_RCV || cmd == GNRC_NETAPI_MSG_TYPE_SND,
        ensures
            cmd == GNRC_NETAPI_MSG_TYPE_RCV ==> c == Command::Receive,
            cmd == GNRC_NETAPI_MSG_TYPE_SND ==> c == Command::Send,
    {
        if cmd == GNRC_NETAPI_MSG_TYPE_RCV {
            Command::Receive
        } else {
            Command::Send
        }
    }
}

} // verus!
