//! RIOT's GPIO pins and their configurations
//!
//! A [GPIO] is a pin in no particular configuration; configuring it (RIOT's `gpio_init` with a
//! mode) turns it into an [InputGPIO], [OutputGPIO] or [InOutGPIO].

use vstd::prelude::*;
use crate::error::{NumericError, NegativeErrorExt};

verus! {

/// The `gpio_t` value that stands for no pin (`GPIO_UNDEF`)
pub const GPIO_UNDEF: u32 = u32::MAX;

/// `gpio_mode_t` value: input
pub const GPIO_IN: u32 = 0;
/// `gpio_mode_t` value: input with pull-down
pub const GPIO_IN_PD: u32 = 1;
/// `gpio_mode_t` value: input with pull-up
pub const GPIO_IN_PU: u32 = 2;
/// `gpio_mode_t` value: push-pull output
pub const GPIO_OUT: u32 = 3;
/// `gpio_mode_t` value: open-drain output
pub const GPIO_OD: u32 = 4;
/// `gpio_mode_t` value: open-drain output with pull-up
pub const GPIO_OD_PU: u32 = 5;

/// A single pin in no particular configuration
pub struct GPIO(u32);

/// The modes usable when creating an [InputGPIO]
#[non_exhaustive]
pub enum InputMode {
    In,
    InPullDown,
    InPullUp,
}

impl InputMode {
    /// The mode's `gpio_mode_t` value
    pub fn to_c(self) -> (m: u32)
        ensures
            m == match self {
                InputMode::In => GPIO_IN,
                InputMode::InPullDown => GPIO_IN_PD,
                InputMode::InPullUp => GPIO_IN_PU,
            },
    {
        match self {
            InputMode::In => GPIO_IN,
            InputMode::InPullDown => GPIO_IN_PD,
            InputMode::InPullUp => GPIO_IN_PU,
        }
    }
}

/// The modes usable when creating an [OutputGPIO]
#[non_exhaustive]
pub enum OutputMode {
    Out,
    OpenDrain,
    OpenDrainPullUp,
}

impl OutputMode {
    /// The mode's `gpio_mode_t` value
    pub fn to_c(self) -> (m: u32)
        ensures
            m == match self {
                OutputMode::Out => GPIO_OUT,
                OutputMode::OpenDrain => GPIO_OD,
                OutputMode::OpenDrainPullUp => GPIO_OD_PU,
            },
    {
        match self {
            OutputMode::Out => GPIO_OUT,
            OutputMode::OpenDrain => GPIO_OD,
            OutputMode::OpenDrainPullUp => GPIO_OD_PU,
        }
    }
}

/// The modes usable when creating an [InOutGPIO]
#[non_exhaustive]
pub enum InOutMode {
    OpenDrain,
    OpenDrainPullUp,
}

impl InOutMode {
    /// The mode's `gpio_mode_t` value
    pub fn to_c(self) -> (m: u32)
        ensures
            m == match self {
                InOutMode::OpenDrain => GPIO_OD,
                InOutMode::OpenDrainPullUp => GPIO_OD_PU,
            },
    {
        match self {
            InOutMode::OpenDrain => GPIO_OD,
            InOutMode::OpenDrainPullUp => GPIO_OD_PU,
        }
    }
}

impl GPIO {
    /// The pin's `gpio_t` value
    pub closed spec fn spec_pin(&self) -> u32 {
        self.0
    }

    /// A pin from a `gpio_t` value, if the value stands for a pin
    pub fn from_c(gpio: u32) -> (r: Option<Self>)
        ensures
            r is Some <==> gpio != GPIO_UNDEF,
            r matches Some(g) ==> g.spec_pin() == gpio,
    {
        if gpio != GPIO_UNDEF {
            Some(GPIO(gpio))
        } else {
            None
        }
    }

    /// The pin as an output, after `gpio_init` with an output mode returned `init_result`
    pub fn configure_as_output(self, init_result: i32) -> (r: Result<OutputGPIO, NumericError>)
        ensures
            r is Ok <==> init_result >= 0,
            r matches Ok(o) ==> o.spec_pin() == self.spec_pin(),
            r matches Err(e) ==> e.spec_number() == init_result,
    {
        match init_result.negative_to_error() {
            Ok(_) => Ok(OutputGPIO(self)),
            Err(e) => Err(e),
        }
    }

    /// The pin as an input, after `gpio_init` with an input mode returned `init_result`
    pub fn configure_as_input(self, init_result: i32) -> (r: Result<InputGPIO, NumericError>)
        ensures
            r is Ok <==> init_result >= 0,
            r matches Ok(o) ==> o.spec_pin() == self.spec_pin(),
            r matches Err(e) ==> e.spec_number() == init_result,
    {
        match init_result.negative_to_error() {
            Ok(_) => Ok(InputGPIO(self)),
            Err(e) => Err(e),
        }
    }

    /// The pin as input and output, after `gpio_init` with an in-out mode returned `init_result`
    pub fn configure_as_inout(self, init_result: i32) -> (r: Result<InOutGPIO, NumericError>)
        ensures
            r is Ok <==> init_result >= 0,
            r matches Ok(o) ==> o.spec_pin() == self.spec_pin(),
            r matches Err(e) ==> e.spec_number() == init_result,
    {
        match init_result.negative_to_error() {
            Ok(_) => Ok(InOutGPIO(self)),
            Err(e) => Err(e),
        }
    }

    /// The pin's `gpio_t` value
    pub fn to_c(&self) -> (g: u32)
        ensures
            g == self.spec_pin(),
    {
        self.0
    }
}

/// A pin configured and usable for output
pub struct OutputGPIO(GPIO);

impl OutputGPIO {
    /// The pin's `gpio_t` value
    pub closed spec fn spec_pin(&self) -> u32 {
        self.0.spec_pin()
    }

    /// The pin's `gpio_t` value
    pub fn to_c(&self) -> (g: u32)
        ensures
            g == self.spec_pin(),
    {
        self.0.to_c()
    }

    /// Lose information about how the pin is configured, making it configurable again
    pub fn deconfigured(self) -> (g: GPIO)
        ensures
            g.spec_pin() == self.spec_pin(),
    {
        self.0
    }
}

/// A pin configured and usable for input
pub struct InputGPIO(GPIO);

impl InputGPIO {
    /// The pin's `gpio_t` value
    pub closed spec fn spec_pin(&self) -> u32 {
        self.0.spec_pin()
    }

    /// The pin's `gpio_t` value
    pub fn to_c(&self) -> (g: u32)
        ensures
            g == self.spec_pin(),
    {
        self.0.to_c()
    }

    /// Lose information about how the pin is configured, making it configurable again
    pub fn deconfigured(self) -> (g: GPIO)
        ensures
            g.spec_pin() == self.spec_pin(),
    {
        self.0
    }
}

/// A pin configured and usable for input and output
pub struct InOutGPIO(GPIO);

impl InOutGPIO {
    /// The pin's `gpio_t` value
    pub closed spec fn spec_pin(&self) -> u32 {
        self.0.spec_pin()
    }

    /// The pin's `gpio_t` value
    pub fn to_c(&self) -> (g: u32)
        ensures
            g == self.spec_pin(),
    {
        self.0.to_c()
    }

    /// Lose information about how the pin is configured, making it configurable again
    pub fn deconfigured(self) -> (g: GPIO)
        ensures
            g.spec_pin() == self.spec_pin(),
    {
        self.0
    }
}

/// The level a `gpio_read` result stands for: any non-zero value is high.
pub fn level_is_high(read: i32) -> (high: bool)
    ensures
        high == (read != 0),
{
    read != 0
}

} // verus!
