//! Components of GNRC, RIOT's network stack, that are independent of its C structures

pub mod icmpv6;
pub mod ipv6;
pub mod netif;
pub mod nettype;
pub mod netreg;
pub mod nib;
