//! Resource descriptions of CoAP handlers, as Gcoap lists them in `/.well-known/core`

pub mod v0_1;
