//! The clock inputs of the PWM: clock selection, prescaler, the clock gate,
//! and the conversion of a span of time into clock ticks.
use vstd::prelude::*;
use crate::time::Period;

verus! {

/// Frequency of the IPG clock, in hertz.
#[derive(Clone, Copy, PartialEq, Eq, Debug, Structural)]
pub struct IPGFrequency(pub u32);

/// The clock that drives a PWM submodule.
#[derive(Clone, Copy, PartialEq, Eq, Debug, Structural)]
pub enum ClockSelect {
    /// The IPG clock, running at the given frequency
    IPG(IPGFrequency),
}

/// The PWM clock prescaler: the clock is divided by two to the power of the
/// prescaler's number.
#[allow(non_camel_case_types)]
#[derive(Clone, Copy, PartialEq, Eq, Debug, Structural)]
pub enum Prescalar {
    PRSC_0,
    PRSC_1,
    PRSC_2,
    PRSC_3,
    PRSC_4,
    PRSC_5,
    PRSC_6,
    PRSC_7,
}

impl Prescalar {
    /// The value of the prescaler field.
    pub open spec fn field_value(self) -> u16 {
        match self {
            Prescalar::PRSC_0 => 0,
            Prescalar::PRSC_1 => 1,
            Prescalar::PRSC_2 => 2,
            Prescalar::PRSC_3 => 3,
            Prescalar::PRSC_4 => 4,
            Prescalar::PRSC_5 => 5,
            Prescalar::PRSC_6 => 6,
            Prescalar::PRSC_7 => 7,
        }
    }

    /// The value of the prescaler field.
    pub fn bits(&self) -> (r: u16)
        ensures
            r == self.field_value(),
            r < 8,
    {
        match self {
            Prescalar::PRSC_0 => 0,
            Prescalar::PRSC_1 => 1,
            Prescalar::PRSC_2 => 2,
            Prescalar::PRSC_3 => 3,
            Prescalar::PRSC_4 => 4,
            Prescalar::PRSC_5 => 5,
            Prescalar::PRSC_6 => 6,
            Prescalar::PRSC_7 => 7,
        }
    }

    /// The divider that the prescaler applies to the clock.
    pub open spec fn divider(self) -> u32 {
        match self {
            Prescalar::PRSC_0 => 1,
            Prescalar::PRSC_1 => 2,
            Prescalar::PRSC_2 => 4,
            Prescalar::PRSC_3 => 8,
            Prescalar::PRSC_4 => 16,
            Prescalar::PRSC_5 => 32,
            Prescalar::PRSC_6 => 64,
            Prescalar::PRSC_7 => 128,
        }
    }
}

impl ClockSelect {
    /// The frequency of the selected clock, in hertz.
    pub open spec fn hertz(self) -> u32 {
        match self {
            ClockSelect::IPG(IPGFrequency(hz)) => hz,
        }
    }
}

/// The frequency, in hertz, of the clock that `clock_select` selects.
pub fn frequency(clock_select: ClockSelect) -> (r: u32)
    ensures
        r == clock_select.hertz(),
{
    match clock_select {
        ClockSelect::IPG(IPGFrequency(hz)) => hz,
    }
}

/// The divider of the prescaler `prescalar`: two to the power of its number.
pub fn divider(prescalar: Prescalar) -> (r: u32)
    ensures
        r == prescalar.divider(),
{
    let bits: u16 = prescalar.bits();
    let r: u32 = 1u32 << (bits as u32);
    assert(r == prescalar.divider()) by {
        assert(1u32 << 0u32 == 1u32) by (bit_vector);
        assert(1u32 << 1u32 == 2u32) by (bit_vector);
        assert(1u32 << 2u32 == 4u32) by (bit_vector);
        assert(1u32 << 3u32 == 8u32) by (bit_vector);
        assert(1u32 << 4u32 == 16u32) by (bit_vector);
        assert(1u32 << 5u32 == 32u32) by (bit_vector);
        assert(1u32 << 6u32 == 64u32) by (bit_vector);
        assert(1u32 << 7u32 == 128u32) by (bit_vector);
    }
    r
}

/// Why a span of time has no number of clock ticks.
#[derive(Clone, Copy, PartialEq, Eq, Debug, Structural)]
pub enum TicksError {
    /// The span is longer than `u64::MAX` nanoseconds
    DurationOverflow,
    /// The number of ticks does not fit the result
    TicksOverflow,
    /// The divider, or the divided frequency, is zero
    DivideByZero,
}

/// The number of ticks that `ticks` computes for a span of `period_ns`
/// nanoseconds, a clock of `freq` hertz and a clock divider `div`:
/// `period_ns / clock_period - 1`, where `clock_period` is
/// `1_000_000_000 / (freq / div)` nanoseconds (integer divisions).
pub open spec fn ticks_for(period_ns: int, freq: u32, div: u32) -> Result<u16, TicksError> {
    if period_ns > u64::MAX {
        Err(TicksError::DurationOverflow)
    } else if div == 0 || freq / div == 0 {
        Err(TicksError::DivideByZero)
    } else {
        let clock_period_ns: int = 1_000_000_000int / ((freq / div) as int);
        if clock_period_ns == 0 {
            Err(TicksError::TicksOverflow)
        } else {
            let n: int = period_ns / clock_period_ns;
            if n == 0 || n - 1 > u16::MAX {
                Err(TicksError::TicksOverflow)
            } else {
                Ok((n - 1) as u16)
            }
        }
    }
}

/// Computes the number of clock ticks that span `dur`, for a clock of `freq`
/// hertz divided by `div`: the duration divided by the effective clock
/// period, minus one.
pub fn ticks(dur: Period, freq: u32, div: u32) -> (r: Result<u16, TicksError>)
    ensures
        r == ticks_for(dur.total_nanos(), freq, div),
{
    let total: u128 = dur.as_nanos();
    if total > 0xFFFF_FFFF_FFFF_FFFFu128 {
        return Err(TicksError::DurationOverflow);
    }
    let delay_ns: u64 = total as u64;
    if div == 0 {
        return Err(TicksError::DivideByZero);
    }
    let effective_freq: u32 = freq / div;
    if effective_freq == 0 {
        return Err(TicksError::DivideByZero);
    }
    let clock_period_ns: u64 = (1_000_000_000u32 / effective_freq) as u64;
    if clock_period_ns == 0 {
        return Err(TicksError::TicksOverflow);
    }
    let n: u64 = delay_ns / clock_period_ns;
    if n == 0 || n - 1 > 0xFFFF {
        Err(TicksError::TicksOverflow)
    } else {
        Ok((n - 1) as u16)
    }
}

/// The clock controller, as far as the PWM uses it: the clock gating
/// register `CCGR4`, which holds the gates of PWM1 to PWM4.
#[derive(Clone, Copy, PartialEq, Eq, Debug, Structural)]
pub struct Handle {
    /// `CCM_CCGR4`: two bits per clock gate
    pub ccgr4: u32,
}

/// `CCGR4` after clock gate `gate` is set to 0b11: on in all modes.
pub open spec fn gate_on(ccgr4: u32, gate: u32) -> u32 {
    (ccgr4 & !(3u32 << (2 * gate) as u32)) | (3u32 << (2 * gate) as u32)
}

impl Handle {
    /// Turns clock gate `gate` of `CCGR4` on.
    pub fn enable_gate(&mut self, gate: u32)
        requires
            gate < 16,
        ensures
            final(self).ccgr4 == gate_on(old(self).ccgr4, gate),
    {
        let offset: u32 = 2 * gate;
        self.ccgr4 = (self.ccgr4 & !(3u32 << offset)) | (3u32 << offset);
    }
}

} // verus!

verus! {

/// The prescaler divides the clock by two to the power of its number: the
/// first prescaler does not divide, each next one divides by twice as much
/// as the one before, and the divider is one shifted left by the number
/// that the prescaler field holds.
pub proof fn lemma_prescaler_doubles()
    ensures
        Prescalar::PRSC_0.divider() == 1,
        Prescalar::PRSC_1.divider() == 2 * Prescalar::PRSC_0.divider(),
        Prescalar::PRSC_2.divider() == 2 * Prescalar::PRSC_1.divider(),
        Prescalar::PRSC_3.divider() == 2 * Prescalar::PRSC_2.divider(),
        Prescalar::PRSC_4.divider() == 2 * Prescalar::PRSC_3.divider(),
        Prescalar::PRSC_5.divider() == 2 * Prescalar::PRSC_4.divider(),
        Prescalar::PRSC_6.divider() == 2 * Prescalar::PRSC_5.divider(),
        Prescalar::PRSC_7.divider() == 2 * Prescalar::PRSC_6.divider(),
        forall|p: Prescalar|
            #[trigger] p.field_value() < 8 && p.divider() == 1u32 << (p.field_value() as u32),
{
    assert(1u32 << 0u32 == 1u32) by (bit_vector);
    assert(1u32 << 1u32 == 2u32) by (bit_vector);
    assert(1u32 << 2u32 == 4u32) by (bit_vector);
    assert(1u32 << 3u32 == 8u32) by (bit_vector);
    assert(1u32 << 4u32 == 16u32) by (bit_vector);
    assert(1u32 << 5u32 == 32u32) by (bit_vector);
    assert(1u32 << 6u32 == 64u32) by (bit_vector);
    assert(1u32 << 7u32 == 128u32) by (bit_vector);
}

/// Turning a clock gate on sets its two bits of `CCGR4` to `0b11` and
/// leaves every other gate as it was.
pub proof fn lemma_gate_on(ccgr4: u32, gate: u32)
    requires
        gate < 16,
    ensures
        (gate_on(ccgr4, gate) >> (2 * gate) as u32) & 3 == 3,
        forall|other: u32|
            other < 16 && other != gate ==> (#[trigger] (gate_on(ccgr4, gate) >> (2 * other) as u32)
                & 3) == (ccgr4 >> (2 * other) as u32) & 3,
{
    let s: u32 = (2 * gate) as u32;
    let r = gate_on(ccgr4, gate);
    assert(r == (ccgr4 & !(3u32 << s)) | (3u32 << s));
    assert((r >> s) & 3 == 3) by (bit_vector)
        requires
            s < 31,
            r == (ccgr4 & !(3u32 << s)) | (3u32 << s),
    ;
    assert forall|other: u32| other < 16 && other != gate implies (#[trigger] (gate_on(
        ccgr4,
        gate,
    ) >> (2 * other) as u32) & 3) == (ccgr4 >> (2 * other) as u32) & 3 by {
        let t: u32 = (2 * other) as u32;
        assert((r >> t) & 3 == (ccgr4 >> t) & 3) by (bit_vector)
            requires
                s < 31,
                t < 31,
                s % 2 == 0,
                t % 2 == 0,
                s != t,
                r == (ccgr4 & !(3u32 << s)) | (3u32 << s),
        ;
    }
}

} // verus!
