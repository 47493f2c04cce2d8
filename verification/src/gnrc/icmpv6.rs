//! ICMPv6 echo types

use vstd::prelude::*;

verus! {

/// ICMPv6 type of an echo request
pub const ICMPV6_ECHO_REQ: u32 = 128;
/// ICMPv6 type of an echo reply
pub const ICMPV6_ECHO_REP: u32 = 129;

/// Type of an ICMPv6 Echo packet
///
/// Its number is the demux context under which echo packets of this type are registered.
#[derive(Debug, Copy, Clone, PartialEq, Eq, Structural)]
pub enum EchoType {
    Request,
    Reply,
}

impl From<EchoType> for u32 {
    fn from(input: EchoType) -> (r: u32) {
        match input {
            EchoType::Request => ICMPV6_ECHO_REQ,
            EchoType::Reply => ICMPV6_ECHO_REP,
        }
    }
}

impl vstd::std_specs::convert::FromSpecImpl<EchoType> for u32 {
    open spec fn obeys_from_spec() -> bool {
        true
    }

    open spec fn from_spec(input: EchoType) -> u32 {
        match input {
            EchoType::Request => ICMPV6_ECHO_REQ,
            EchoType::Reply => ICMPV6_ECHO_REP,
        }
    }
}

} // verus!
