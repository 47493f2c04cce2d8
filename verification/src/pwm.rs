//! PWM devices
//!
//! A [PWMDevice] remembers what RIOT's PWM driver does not report back: the frequency it settled
//! on, the resolution, and the duty values last set on its first `CHANNELS` channels.

use vstd::prelude::*;

verus! {

/// PWM modes
#[derive(Debug, PartialEq, Eq, Structural)]
pub enum PWMMode {
    Left,
    Right,
    Center,
}

impl PWMMode {
    /// The mode's `pwm_mode_t` value
    pub fn to_c(self) -> (m: u32)
        ensures
            m == match self {
                PWMMode::Left => 0u32,
                PWMMode::Right => 1u32,
                PWMMode::Center => 2u32,
            },
    {
        match self {
            PWMMode::Left => 0,
            PWMMode::Right => 1,
            PWMMode::Center => 2,
        }
    }
}

/// Errors of initializing a PWM device
#[derive(Debug, PartialEq, Eq, Structural)]
#[non_exhaustive]
pub enum PwmInitError {
    /// No information available on the error details
    Other,
}

/// Errors of selecting a PWM channel
#[derive(Debug, PartialEq, Eq, Structural)]
#[non_exhaustive]
pub enum PWMChannelError {
    /// The specified channel is not available
    Unavailable,
}

/// A descriptor for a PWM channel
#[derive(Debug)]
pub struct PWMChannel {
    channel: u8,
}

impl PWMChannel {
    /// The channel number
    pub closed spec fn spec_channel(&self) -> u8 {
        self.channel
    }

    /// The channel number
    pub fn channel(&self) -> (c: u8)
        ensures
            c == self.spec_channel(),
    {
        self.channel
    }
}

/// A device for generating PWM signals on multiple channels
///
/// The duty values of the first `CHANNELS` channels are kept, so that they can be read back.
#[derive(Debug)]
pub struct PWMDevice<const CHANNELS: usize> {
    dev: u32,
    channel_duty_values: Vec<u16>,
    frequency: u32,
    resolution: u16,
}

impl<const CHANNELS: usize> PWMDevice<CHANNELS> {
    #[verifier::type_invariant]
    spec fn cache_sized(self) -> bool {
        self.channel_duty_values@.len() == CHANNELS
    }

    /// The RIOT device
    pub closed spec fn spec_dev(&self) -> u32 {
        self.dev
    }

    /// The duty values last set on the first `CHANNELS` channels
    pub closed spec fn duty_values(&self) -> Seq<u16> {
        self.channel_duty_values@
    }

    /// The frequency in Hz
    pub closed spec fn spec_frequency(&self) -> u32 {
        self.frequency
    }

    /// The resolution of a period
    pub closed spec fn spec_resolution(&self) -> u16 {
        self.resolution
    }

    /// A device on the initialized RIOT PWM device `dev`, running at `frequency` Hz with the given
    /// resolution; all duty values are zero.
    pub fn new_without_init(dev: u32, frequency: u32, resolution: u16) -> (d: Self)
        ensures
            d.spec_dev() == dev,
            d.spec_frequency() == frequency,
            d.spec_resolution() == resolution,
            d.duty_values() == Seq::new(CHANNELS as nat, |i: int| 0u16),
    {
        let mut channel_duty_values: Vec<u16> = Vec::new();
        let mut i: usize = 0;
        while i < CHANNELS
            invariant
                i <= CHANNELS,
                channel_duty_values@ == Seq::new(i as nat, |j: int| 0u16),
            decreases CHANNELS - i,
        {
            channel_duty_values.push(0);
            i = i + 1;
            assert(channel_duty_values@ =~= Seq::new(i as nat, |j: int| 0u16));
        }
        PWMDevice { dev, channel_duty_values, frequency, resolution }
    }

    /// The device after RIOT's `pwm_init` on `dev` returned `init_result`: zero is a failure, any
    /// other value is the frequency the device actually runs at.
    pub fn from_init_result(dev: u32, init_result: u32, resolution: u16) -> (r: Result<
        Self,
        PwmInitError,
    >)
        ensures
            r is Ok <==> init_result != 0,
            r matches Ok(d) ==> d.spec_dev() == dev && d.spec_frequency() == init_result
                && d.spec_resolution() == resolution && d.duty_values() == Seq::new(
                CHANNELS as nat,
                |i: int| 0u16,
            ),
    {
        match init_result {
            0 => Err(PwmInitError::Other),
            freq => Ok(Self::new_without_init(dev, freq, resolution)),
        }
    }

    /// The RIOT device
    pub fn dev(&self) -> (d: u32)
        ensures
            d == self.spec_dev(),
    {
        self.dev
    }

    /// A channel descriptor for the channel `channel_num`, of the `channels` channels the device
    /// has (as RIOT's `pwm_channels` reports)
    pub fn get_channel(&self, channel_num: u8, channels: u8) -> (r: Result<
        PWMChannel,
        PWMChannelError,
    >)
        ensures
            r is Ok <==> channel_num < channels,
            r matches Ok(c) ==> c.spec_channel() == channel_num,
    {
        if channel_num >= channels {
            Err(PWMChannelError::Unavailable)
        } else {
            Ok(PWMChannel { channel: channel_num })
        }
    }

    /// Record that the duty value `value` was set on `channel`; values of channels beyond
    /// `CHANNELS` are not kept.
    pub fn set_duty(&mut self, channel: PWMChannel, value: u16)
        ensures
            final(self).spec_dev() == old(self).spec_dev(),
            final(self).spec_frequency() == old(self).spec_frequency(),
            final(self).spec_resolution() == old(self).spec_resolution(),
            final(self).duty_values() == if channel.spec_channel() < CHANNELS {
                old(self).duty_values().update(channel.spec_channel() as int, value)
            } else {
                old(self).duty_values()
            },
    {
        proof {
            use_type_invariant(&*self);
        }
        let channel = channel.channel as usize;
        if channel < CHANNELS {
            let mut values = self.channel_duty_values.clone();
            assert(values@ =~= self.channel_duty_values@);
            values.set(channel, value);
            self.channel_duty_values = values;
        }
    }

    /// The duty value last set on `channel`, which must be one of the first `CHANNELS` channels
    pub fn get_duty(&self, channel: PWMChannel) -> (d: u16)
        requires
            channel.spec_channel() < CHANNELS,
        ensures
            d == self.duty_values()[channel.spec_channel() as int],
    {
        proof {
            use_type_invariant(self);
        }
        self.channel_duty_values[channel.channel as usize]
    }

    /// The largest duty value (a duty cycle of 100%)
    pub fn get_max_duty(&self) -> (r: u16)
        ensures
            r == self.spec_resolution(),
    {
        self.resolution
    }

    /// The frequency in Hz
    pub fn get_period(&self) -> (f: u32)
        ensures
            f == self.spec_frequency(),
    {
        self.frequency
    }
}

/// Reading a channel's duty value gives back the value last set on it, and setting one channel
/// leaves the others unchanged.
pub proof fn law_duty_read_after_write<const CHANNELS: usize>(
    before: Seq<u16>,
    after: Seq<u16>,
    channel: int,
    value: u16,
    other: int,
)
    requires
        before.len() == CHANNELS,
        0 <= channel < CHANNELS,
        after == before.update(channel, value),
        0 <= other < CHANNELS,
        other != channel,
    ensures
        after[channel] == value,
        after[other] == before[other],
{
}

} // verus!
