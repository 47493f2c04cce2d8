//! Tick arithmetic of RIOT's global XTimer
//!
//! [XTimerTicks] converts between wall-clock durations and timer ticks at the configured timer
//! frequency [XTIMER_HZ], and splits a tick count into the two 32-bit halves that RIOT's
//! `_xtimer_tsleep` and `_xtimer_set64` take.

use vstd::prelude::*;

verus! {

/// Frequency of the XTimer in Hz (RIOT's default `XTIMER_HZ`)
pub const XTIMER_HZ: u64 = 1_000_000;

/// Ticks below which the XTimer spins rather than setting a timer (RIOT's default
/// `XTIMER_BACKOFF`)
pub const XTIMER_BACKOFF: u64 = 30;

/// RIOT's global XTimer, which puts a thread to sleep for some time.
pub struct XTimer {}

/// Unsigned integers that can hold a tick count
pub trait TickValue: Copy + Sized {
    /// The tick count as a mathematical integer
    spec fn ticks(self) -> nat;

    /// The largest tick count the type holds
    spec fn max_ticks() -> nat;

    /// A tick count of the type is at most its largest tick count, which fits a `u64`.
    proof fn lemma_in_range(self)
        ensures
            self.ticks() <= Self::max_ticks(),
            Self::max_ticks() <= u64::MAX,
    ;

    /// Widen to `u64`
    fn to_u64(self) -> (r: u64)
        ensures
            r as nat == self.ticks(),
    ;

    /// Narrow from `u64`, if the value fits
    fn try_from_u64(v: u64) -> (r: Option<Self>)
        ensures
            r is Some <==> v as nat <= Self::max_ticks(),
            r matches Some(t) ==> t.ticks() == v as nat,
    ;
}

impl TickValue for u64 {
    proof fn lemma_in_range(self) {
    }

    open spec fn ticks(self) -> nat {
        self as nat
    }

    open spec fn max_ticks() -> nat {
        u64::MAX as nat
    }

    fn to_u64(self) -> (r: u64) {
        self
    }

    fn try_from_u64(v: u64) -> (r: Option<u64>) {
        Some(v)
    }
}

impl TickValue for u32 {
    proof fn lemma_in_range(self) {
    }

    open spec fn ticks(self) -> nat {
        self as nat
    }

    open spec fn max_ticks() -> nat {
        u32::MAX as nat
    }

    fn to_u64(self) -> (r: u64) {
        self as u64
    }

    fn try_from_u64(v: u64) -> (r: Option<u32>) {
        if v <= u32::MAX as u64 {
            Some(v as u32)
        } else {
            None
        }
    }
}

impl TickValue for u16 {
    proof fn lemma_in_range(self) {
    }

    open spec fn ticks(self) -> nat {
        self as nat
    }

    open spec fn max_ticks() -> nat {
        u16::MAX as nat
    }

    fn to_u64(self) -> (r: u64) {
        self as u64
    }

    fn try_from_u64(v: u64) -> (r: Option<u16>) {
        if v <= u16::MAX as u64 {
            Some(v as u16)
        } else {
            None
        }
    }
}

/// The number of ticks a duration in microseconds takes
pub open spec fn ticks_of_micros(micros: int) -> int {
    micros * XTIMER_HZ / 1_000_000
}

/// The number of ticks a duration in milliseconds takes
pub open spec fn ticks_of_millis(millis: int) -> int {
    millis * XTIMER_HZ / 1000
}

/// A number of XTimer ticks, stored in an unsigned integer type `T`
#[derive(Copy, Clone, PartialEq, PartialOrd)]
pub struct XTimerTicks<T: TickValue>(T);

impl<T: TickValue> XTimerTicks<T> {
    /// The tick count
    pub closed spec fn ticks(self) -> nat {
        self.0.ticks()
    }

    /// The lower 32 bits of the tick count
    pub fn get_low32(&self) -> (low: u32)
        ensures
            low as nat == self.ticks() % 0x1_0000_0000,
    {
        let v = self.0.to_u64();
        assert((v as u32) as int == v % 0x1_0000_0000) by (bit_vector);
        v as u32
    }

    /// The upper 32 bits of the tick count
    pub fn get_high32(&self) -> (high: u32)
        ensures
            high as nat == self.ticks() / 0x1_0000_0000,
            T::max_ticks() <= u32::MAX ==> high == 0,
    {
        proof {
            self.0.lemma_in_range();
        }
        let v = self.0.to_u64();
        assert((v >> 32u64) as int == v / 0x1_0000_0000) by (bit_vector);
        assert(v >> 32u64 <= u32::MAX) by (bit_vector);
        (v >> 32) as u32
    }

    /// The tick count that a duration in microseconds takes, or None if it does not fit `T`
    pub fn try_from_micros(micros: u64) -> (r: Option<Self>)
        ensures
            r is Some <==> micros * XTIMER_HZ <= u64::MAX && ticks_of_micros(micros as int)
                <= T::max_ticks(),
            r matches Some(t) ==> t.ticks() == ticks_of_micros(micros as int),
    {
        let scaled = match micros.checked_mul(XTIMER_HZ) {
            Some(s) => s,
            None => return None,
        };
        match T::try_from_u64(scaled / 1_000_000) {
            Some(t) => Some(XTimerTicks(t)),
            None => None,
        }
    }

    /// The tick count that a duration in milliseconds takes, or None if it does not fit `T`
    pub fn try_from_millis(millis: u64) -> (r: Option<Self>)
        ensures
            r is Some <==> millis * XTIMER_HZ <= u64::MAX && ticks_of_millis(millis as int)
                <= T::max_ticks(),
            r matches Some(t) ==> t.ticks() == ticks_of_millis(millis as int),
    {
        let scaled = match millis.checked_mul(XTIMER_HZ) {
            Some(s) => s,
            None => return None,
        };
        match T::try_from_u64(scaled / 1000) {
            Some(t) => Some(XTimerTicks(t)),
            None => None,
        }
    }

    /// The tick count that a duration in microseconds takes
    ///
    /// The duration must be representable (see [Self::try_from_micros]).
    pub fn from_micros(micros: u64) -> (t: Self)
        requires
            micros * XTIMER_HZ <= u64::MAX,
            ticks_of_micros(micros as int) <= T::max_ticks(),
        ensures
            t.ticks() == ticks_of_micros(micros as int),
    {
        match Self::try_from_micros(micros) {
            Some(t) => t,
            None => {
                proof {
                    assert(false);
                }
                unreached()
            },
        }
    }

    /// The tick count that a duration in milliseconds takes
    ///
    /// The duration must be representable (see [Self::try_from_millis]).
    pub fn from_millis(millis: u64) -> (t: Self)
        requires
            millis * XTIMER_HZ <= u64::MAX,
            ticks_of_millis(millis as int) <= T::max_ticks(),
        ensures
            t.ticks() == ticks_of_millis(millis as int),
    {
        match Self::try_from_millis(millis) {
            Some(t) => t,
            None => {
                proof {
                    assert(false);
                }
                unreached()
            },
        }
    }
}

impl XTimerTicks<u64> {
    /// Tick count of a duration in microseconds, for durations whose product with the timer
    /// frequency fits 64 bits (as any `u32` duration does)
    pub fn from_micros_unchecked(micros: u64) -> (t: Self)
        requires
            micros * XTIMER_HZ <= u64::MAX,
        ensures
            t.ticks() == ticks_of_micros(micros as int),
    {
        XTimerTicks(micros * XTIMER_HZ / 1_000_000)
    }

    /// Tick count of a duration in milliseconds, for durations whose product with the timer
    /// frequency fits 64 bits (as any `u32` duration does)
    pub fn from_millis_unchecked(millis: u64) -> (t: Self)
        requires
            millis * XTIMER_HZ <= u64::MAX,
        ensures
            t.ticks() == ticks_of_millis(millis as int),
    {
        XTimerTicks(millis * XTIMER_HZ / 1000)
    }

    /// The XTimer backoff as a tick count
    pub fn backoff() -> (t: Self)
        ensures
            t.ticks() == XTIMER_BACKOFF,
    {
        XTimerTicks(XTIMER_BACKOFF)
    }
}

/// A tick count never exceeds what its type `T` holds, and so fits 64 bits.
pub proof fn law_ticks_in_range<T: TickValue>(t: XTimerTicks<T>)
    ensures
        t.ticks() <= T::max_ticks(),
        t.ticks() <= u64::MAX,
{
    t.0.lemma_in_range();
}

/// The two 32-bit halves of a tick count put together give the tick count back; for ticks
/// stored in a type of at most 32 bits the upper half is zero.
pub proof fn law_halves_recombine<T: TickValue>(t: XTimerTicks<T>)
    ensures
        (t.ticks() / 0x1_0000_0000) * 0x1_0000_0000 + t.ticks() % 0x1_0000_0000 == t.ticks(),
        t.ticks() / 0x1_0000_0000 <= u32::MAX,
        T::max_ticks() <= u32::MAX ==> t.ticks() / 0x1_0000_0000 == 0,
{
    t.0.lemma_in_range();
}

} // verus!
