//! Safe, verified building blocks of the Rust wrappers for RIOT-OS
//!
//! The crate holds the parts of the wrappers that compute: error numbers and their conversion,
//! timer tick arithmetic, C string handling, CoAP block-wise payload writing, BLE UUID parsing,
//! IPv6 address classification, message type bookkeeping and the decisions that sit between the
//! calls into RIOT's C API. Each function states its behaviour in its contract and is proved
//! against it.
#![allow(non_camel_case_types)]

pub mod errno;
pub mod error;
pub mod delay;
pub mod libc;
pub mod helpers;
pub mod gnrc;
pub mod gcoap;
pub mod nimble;
pub mod thread;
pub mod msg;
pub mod i2c;
pub mod pwm;
pub mod led;
pub mod nanocoap_sock;
pub mod bluetil;
pub mod dac;
pub mod hwrng;
pub mod gpio;
pub mod main_module;
pub use main_module as main;
pub mod coap_message;
pub mod random;
pub mod gnrc_pktbuf;
pub mod gnrc_util;
pub mod matter;
pub mod async_task;
pub mod coap_handler;

use vstd::prelude::*;
use vstd::string::StringSliceAdditionalSpecFns;

verus! {

/// The identifier of the RIOT board the program is built for, read from the null-terminated
/// `RIOT_BOARD` string of the build (which is a C string holding valid UTF-8)
pub fn board(riot_board: &'static [u8]) -> (name: &'static str)
    requires
        libc::is_nul_terminated(riot_board@),
        vstd::utf8::valid_utf8(riot_board@.drop_last()),
    ensures
        name.spec_bytes() == riot_board@.drop_last(),
{
    let c = libc::CStr::from_bytes_with_nul_unchecked(riot_board);
    match c.to_str() {
        Ok(name) => name,
        Err(_) => {
            proof {
                assert(false);
            }
            ""
        },
    }
}

} // verus!
