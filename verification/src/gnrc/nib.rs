//! Entries of the neighbor cache of RIOT's IPv6 neighbor information base (NIB)

use vstd::prelude::*;
use super::ipv6::Address;

verus! {

/// Mask of the Neighbor Unreachability Detection state in an entry's info field
pub const NC_INFO_NUD_STATE_MASK: u16 = 0x0007;
/// NUD state: unmanaged
pub const NC_INFO_NUD_STATE_UNMANAGED: u16 = 0x0000;
/// NUD state: unreachable
pub const NC_INFO_NUD_STATE_UNREACHABLE: u16 = 0x0001;
/// NUD state: incomplete
pub const NC_INFO_NUD_STATE_INCOMPLETE: u16 = 0x0002;
/// NUD state: stale
pub const NC_INFO_NUD_STATE_STALE: u16 = 0x0003;
/// NUD state: delay
pub const NC_INFO_NUD_STATE_DELAY: u16 = 0x0004;
/// NUD state: probe
pub const NC_INFO_NUD_STATE_PROBE: u16 = 0x0005;
/// NUD state: reachable
pub const NC_INFO_NUD_STATE_REACHABLE: u16 = 0x0006;
/// Flag of an entry's info field that marks the neighbor as a router
pub const NC_INFO_IS_ROUTER: u16 = 0x0008;
/// Mask of the interface identifier in an entry's info field
pub const NC_INFO_IFACE_MASK: u16 = 0x01f0;
/// Position of the interface identifier in an entry's info field
pub const NC_INFO_IFACE_POS: u16 = 4;
/// Mask of the 6Lo address registration state in an entry's info field
pub const NC_INFO_AR_STATE_MASK: u16 = 0x0600;
/// 6Lo-AR state: garbage-collectible
pub const NC_INFO_AR_STATE_GC: u16 = 0x0000;
/// 6Lo-AR state: tentative
pub const NC_INFO_AR_STATE_TENTATIVE: u16 = 0x0200;
/// 6Lo-AR state: registered
pub const NC_INFO_AR_STATE_REGISTERED: u16 = 0x0400;
/// 6Lo-AR state: manual
pub const NC_INFO_AR_STATE_MANUAL: u16 = 0x0600;

/// Neighbor Unreachability Detection state
#[derive(Debug, PartialEq, Eq, Structural)]
pub enum NudState {
    Unmanaged,
    Unreachable,
    Incomplete,
    Stale,
    Delay,
    Probe,
    Reachable,
}

/// The NUD state that a C state value stands for
pub open spec fn spec_nud_state(input: u32) -> Option<NudState> {
    if input == NC_INFO_NUD_STATE_UNMANAGED {
        Some(NudState::Unmanaged)
    } else if input == NC_INFO_NUD_STATE_UNREACHABLE {
        Some(NudState::Unreachable)
    } else if input == NC_INFO_NUD_STATE_INCOMPLETE {
        Some(NudState::Incomplete)
    } else if input == NC_INFO_NUD_STATE_STALE {
        Some(NudState::Stale)
    } else if input == NC_INFO_NUD_STATE_DELAY {
        Some(NudState::Delay)
    } else if input == NC_INFO_NUD_STATE_PROBE {
        Some(NudState::Probe)
    } else if input == NC_INFO_NUD_STATE_REACHABLE {
        Some(NudState::Reachable)
    } else {
        None
    }
}

impl NudState {
    /// The state for a C state value, or None for values that are no known state
    pub fn from_c(input: u32) -> (r: Option<Self>)
        ensures
            r == spec_nud_state(input),
    {
        if input == NC_INFO_NUD_STATE_UNMANAGED as u32 {
            Some(NudState::Unmanaged)
        } else if input == NC_INFO_NUD_STATE_UNREACHABLE as u32 {
            Some(NudState::Unreachable)
        } else if input == NC_INFO_NUD_STATE_INCOMPLETE as u32 {
            Some(NudState::Incomplete)
        } else if input == NC_INFO_NUD_STATE_STALE as u32 {
            Some(NudState::Stale)
        } else if input == NC_INFO_NUD_STATE_DELAY as u32 {
            Some(NudState::Delay)
        } else if input == NC_INFO_NUD_STATE_PROBE as u32 {
            Some(NudState::Probe)
        } else if input == NC_INFO_NUD_STATE_REACHABLE as u32 {
            Some(NudState::Reachable)
        } else {
            None
        }
    }

    /// The plain text label of the state
    pub open spec fn spec_label(&self) -> Seq<char> {
        match self {
            NudState::Unmanaged => "unmanaged"@,
            NudState::Unreachable => "unreachable"@,
            NudState::Incomplete => "incomplete"@,
            NudState::Stale => "stale"@,
            NudState::Delay => "delay"@,
            NudState::Probe => "probe"@,
            NudState::Reachable => "reachable"@,
        }
    }

    /// Returns a plain text label of the state.
    ///
    /// This is equivalent to debug (except for capitalization), but more versatile in its use due
    /// to its type.
    pub fn label(&self) -> (l: &'static str)
        ensures
            l@ == self.spec_label(),
    {
        match self {
            NudState::Unmanaged => "unmanaged",
            NudState::Unreachable => "unreachable",
            NudState::Incomplete => "incomplete",
            NudState::Stale => "stale",
            NudState::Delay => "delay",
            NudState::Probe => "probe",
            NudState::Reachable => "reachable",
        }
    }
}

/// 6LoWPAN address registration (6Lo-AR) state
#[derive(Debug, PartialEq, Eq, Structural)]
pub enum ArState {
    Gc,
    Tentative,
    Registered,
    Manual,
}

/// The 6Lo-AR state that a C state value stands for
pub open spec fn spec_ar_state(input: u32) -> Option<ArState> {
    if input == NC_INFO_AR_STATE_GC {
        Some(ArState::Gc)
    } else if input == NC_INFO_AR_STATE_TENTATIVE {
        Some(ArState::Tentative)
    } else if input == NC_INFO_AR_STATE_REGISTERED {
        Some(ArState::Registered)
    } else if input == NC_INFO_AR_STATE_MANUAL {
        Some(ArState::Manual)
    } else {
        None
    }
}

impl ArState {
    /// The state for a C state value, or None for values that are no known state
    pub fn from_c(input: u32) -> (r: Option<Self>)
        ensures
            r == spec_ar_state(input),
    {
        if input == NC_INFO_AR_STATE_GC as u32 {
            Some(ArState::Gc)
        } else if input == NC_INFO_AR_STATE_TENTATIVE as u32 {
            Some(ArState::Tentative)
        } else if input == NC_INFO_AR_STATE_REGISTERED as u32 {
            Some(ArState::Registered)
        } else if input == NC_INFO_AR_STATE_MANUAL as u32 {
            Some(ArState::Manual)
        } else {
            None
        }
    }

    /// The plain text label of the state
    pub open spec fn spec_label(&self) -> Seq<char> {
        match self {
            ArState::Gc => "GC"@,
            ArState::Tentative => "tentative"@,
            ArState::Registered => "registered"@,
            ArState::Manual => "manual"@,
        }
    }

    /// Returns a plain text label of the state.
    ///
    /// This is equivalent to debug (except for capitalization), but more versatile in its use due
    /// to its type.
    pub fn label(&self) -> (l: &'static str)
        ensures
            l@ == self.spec_label(),
    {
        match self {
            ArState::Gc => "GC",
            ArState::Tentative => "tentative",
            ArState::Registered => "registered",
            ArState::Manual => "manual",
        }
    }
}

/// A single entry in the neighbor cache
///
/// It holds the values of RIOT's `gnrc_ipv6_nib_nc_t`: the neighbor's IPv6 address, its
/// link-layer address, and the info bit field.
pub struct NcEntry {
    ipv6: Address,
    l2addr: Vec<u8>,
    info: u16,
}

impl NcEntry {
    /// The entry's info bit field
    pub closed spec fn info(self) -> u16 {
        self.info
    }

    /// The entry's link-layer address
    pub closed spec fn spec_l2addr(self) -> Seq<u8> {
        self.l2addr@
    }

    /// The entry's IPv6 address
    pub closed spec fn spec_ipv6_addr(self) -> Address {
        self.ipv6
    }

    /// An entry with the given addresses and info bit field
    pub fn new(ipv6: Address, l2addr: Vec<u8>, info: u16) -> (e: NcEntry)
        ensures
            e.spec_ipv6_addr() == ipv6,
            e.spec_l2addr() == l2addr@,
            e.info() == info,
    {
        NcEntry { ipv6, l2addr, info }
    }

    /// The neighbor's link-layer address
    pub fn l2addr(&self) -> (a: &[u8])
        ensures
            a@ == self.spec_l2addr(),
    {
        self.l2addr.as_slice()
    }

    /// The neighbor's IPv6 address
    pub fn ipv6_addr(&self) -> (a: &Address)
        ensures
            *a == self.spec_ipv6_addr(),
    {
        &self.ipv6
    }

    /// The interface the neighbor is reached through, if the entry names one
    pub fn iface(&self) -> (r: Option<usize>)
        ensures
            r is Some <==> (self.info() & NC_INFO_IFACE_MASK) >> NC_INFO_IFACE_POS != 0,
            r matches Some(i) ==> i == (self.info() & NC_INFO_IFACE_MASK) >> NC_INFO_IFACE_POS,
    {
        let interface = (self.info & NC_INFO_IFACE_MASK) >> NC_INFO_IFACE_POS;
        if interface == 0 {
            None
        } else {
            Some(interface as usize)
        }
    }

    /// Whether the neighbor is a router
    pub fn is_router(&self) -> (r: bool)
        ensures
            r == (self.info() & NC_INFO_IS_ROUTER != 0),
    {
        self.info & NC_INFO_IS_ROUTER != 0
    }

    /// The entry's Neighbor Unreachability Detection state
    ///
    /// This is None if the state is invalid (including values introduced to RIOT OS but not
    /// known here).
    pub fn nud_state(&self) -> (r: Option<NudState>)
        ensures
            r == spec_nud_state((self.info() & NC_INFO_NUD_STATE_MASK) as u32),
    {
        NudState::from_c((self.info & NC_INFO_NUD_STATE_MASK) as u32)
    }

    /// The entry's 6LoWPAN address registration state
    pub fn ar_state(&self) -> (r: Option<ArState>)
        ensures
            r == spec_ar_state((self.info() & NC_INFO_AR_STATE_MASK) as u32),
    {
        ArState::from_c((self.info & NC_INFO_AR_STATE_MASK) as u32)
    }
}

/// Every value of the 6Lo-AR bits of an info field is a known state.
pub proof fn law_ar_state_total(info: u16)
    ensures
        spec_ar_state((info & NC_INFO_AR_STATE_MASK) as u32) is Some,
{
    let v = info & 0x0600u16;
    assert(v == 0 || v == 0x0200 || v == 0x0400 || v == 0x0600) by (bit_vector)
        requires v == info & 0x0600u16;
}

} // verus!
