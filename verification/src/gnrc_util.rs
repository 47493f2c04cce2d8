//! Data needed to respond to an incoming packet

use vstd::prelude::*;
use crate::thread::KernelPID;
use crate::gnrc::ipv6::be16;

verus! {

/// What it takes to send a response out through the interface a packet came in on: the
/// interface's PID, if the packet named one
#[derive(Debug)]
pub struct NetifRoundtripData {
    pid: Option<KernelPID>,
}

impl NetifRoundtripData {
    /// The interface identifier
    pub closed spec fn spec_pid(&self) -> Option<KernelPID> {
        self.pid
    }

    /// The round trip data of a packet whose netif header names the interface `pid`
    pub fn new(pid: Option<KernelPID>) -> (d: Self)
        ensures
            d.spec_pid() == pid,
    {
        NetifRoundtripData { pid }
    }

    /// The interface identifier
    pub fn pid(&self) -> (p: Option<KernelPID>)
        ensures
            p == self.spec_pid(),
    {
        self.pid
    }
}

/// The ports to respond from and to, read from the UDP header of an incoming packet (its first
/// four bytes: source and destination port, big-endian): the remote port is the source port and
/// the local port the destination port. None where either is zero, for then there is nobody to
/// respond to.
pub fn udp_roundtrip_ports(header: &[u8]) -> (r: Option<(u16, u16)>)
    requires
        header@.len() >= 4,
    ensures
        r is Some <==> be16(header@[0], header@[1]) != 0 && be16(header@[2], header@[3]) != 0,
        r matches Some((remote, local)) ==> remote == be16(header@[0], header@[1]) && local == be16(
            header@[2],
            header@[3],
        ),
{
    let remote: u16 = (header[0] as u16) * 256 + header[1] as u16;
    let local: u16 = (header[2] as u16) * 256 + header[3] as u16;
    if remote == 0 || local == 0 {
        None
    } else {
        Some((remote, local))
    }
}

} // verus!
