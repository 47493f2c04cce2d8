//! The network interface layer of a packet: its link-layer addresses

use vstd::prelude::*;
use crate::gnrc_pktbuf::NotEnoughSpace;

verus! {

/// The longest link-layer address that a netif header can hold, as its lengths are single bytes
pub const MAX_LINK_LAYER_ADDRESS: usize = 255;

/// The lengths of the source and destination link-layer addresses of a netif header to be built,
/// as the header stores them; `NotEnoughSpace` for an address too long to be described there.
pub fn address_lengths(src: &[u8], dst: &[u8]) -> (r: Result<(u8, u8), NotEnoughSpace>)
    ensures
        r is Ok <==> src@.len() <= MAX_LINK_LAYER_ADDRESS && dst@.len() <= MAX_LINK_LAYER_ADDRESS,
        r matches Ok((s, d)) ==> s == src@.len() && d == dst@.len(),
{
    if src.len() > MAX_LINK_LAYER_ADDRESS {
        return Err(NotEnoughSpace);
    }
    if dst.len() > MAX_LINK_LAYER_ADDRESS {
        return Err(NotEnoughSpace);
    }
    Ok((src.len() as u8, dst.len() as u8))
}

} // verus!
