//! Controlling the I²C bus
//!
//! The transfers themselves happen in RIOT's I²C driver; this module holds the device handle, the
//! error types and the decisions of how a sequence of operations maps onto driver calls.

use vstd::prelude::*;

pub mod impl_0_2;
pub mod impl_1;

verus! {

/// An I²C master backed by RIOT's I²C implementation, identified by its `i2c_t` number
#[derive(Debug)]
pub struct I2CDevice {
    dev: u32,
}

impl I2CDevice {
    /// The RIOT device number
    pub closed spec fn spec_dev(&self) -> u32 {
        self.dev
    }

    /// Create a new I2CDevice from a RIOT descriptor
    pub fn new(dev: u32) -> (d: Self)
        ensures
            d.spec_dev() == dev,
    {
        I2CDevice { dev }
    }

    /// The RIOT descriptor
    pub fn dev(&self) -> (d: u32)
        ensures
            d == self.spec_dev(),
    {
        self.dev
    }
}

} // verus!
