//! Timers: clock-divisor computation and the configuration state machine.
//!
//! A timer divides a source clock down to its target frequency through an
//! 18-bit divider with 8 fractional bits. `configure` computes the divider
//! from the selected source clock, falls back once to a fixed reference tick
//! when the primary source cannot represent the target within the divider's
//! range, and commits the result to the register bank through a separate
//! latch write.

use vstd::prelude::*;

use crate::clock::Clocks;
use crate::registers::{Registers, TimerBlock, TimerConf};
use crate::{ChipVariant, HighSpeed, LowSpeed, Speed};

verus! {

/// Largest value the 18-bit fixed-point divider register holds.
pub const LEDC_TIMER_DIV_NUM_MAX: u64 = 0x3FFFF;

/// Frequency of the fixed reference tick used when the primary source clock
/// cannot reach the target frequency, in Hz.
pub const REF_TICK_FREQ_HZ: u32 = 1_000_000;

/// Timer errors.
#[derive(PartialEq, Eq, Structural, Copy, Clone, Debug)]
pub enum Error {
    /// No valid divider value exists for the requested duty-resolution and
    /// frequency pair, on either the primary or the fallback path.
    Divisor,
}

/// Clock source for high-speed timers.
#[derive(PartialEq, Eq, Structural, Copy, Clone, Debug)]
pub enum HSClockSource {
    APBClk,
}

/// Clock source for low-speed timers.
#[derive(PartialEq, Eq, Structural, Copy, Clone, Debug)]
pub enum LSClockSource {
    APBClk,
}

/// Timer number.
#[derive(PartialEq, Eq, Structural, Copy, Clone, Debug)]
pub enum Number {
    Timer0,
    Timer1,
    Timer2,
    Timer3,
}

/// Number of bits reserved for duty cycle adjustment.
#[derive(PartialEq, Eq, Structural, Copy, Clone, Debug)]
pub enum Duty {
    Duty1Bit,
    Duty2Bit,
    Duty3Bit,
    Duty4Bit,
    Duty5Bit,
    Duty6Bit,
    Duty7Bit,
    Duty8Bit,
    Duty9Bit,
    Duty10Bit,
    Duty11Bit,
    Duty12Bit,
    Duty13Bit,
    Duty14Bit,
    Duty15Bit,
    Duty16Bit,
    Duty17Bit,
    Duty18Bit,
    Duty19Bit,
    Duty20Bit,
}

impl Duty {
    /// The bit width this variant reserves for the duty cycle.
    pub open spec fn bits_spec(self) -> u32 {
        match self {
            Duty::Duty1Bit => 1,
            Duty::Duty2Bit => 2,
            Duty::Duty3Bit => 3,
            Duty::Duty4Bit => 4,
            Duty::Duty5Bit => 5,
            Duty::Duty6Bit => 6,
            Duty::Duty7Bit => 7,
            Duty::Duty8Bit => 8,
            Duty::Duty9Bit => 9,
            Duty::Duty10Bit => 10,
            Duty::Duty11Bit => 11,
            Duty::Duty12Bit => 12,
            Duty::Duty13Bit => 13,
            Duty::Duty14Bit => 14,
            Duty::Duty15Bit => 15,
            Duty::Duty16Bit => 16,
            Duty::Duty17Bit => 17,
            Duty::Duty18Bit => 18,
            Duty::Duty19Bit => 19,
            Duty::Duty20Bit => 20,
        }
    }

    pub fn bits(self) -> (r: u32)
        ensures
            r == self.bits_spec(),
            1 <= r <= 20,
    {
        match self {
            Duty::Duty1Bit => 1,
            Duty::Duty2Bit => 2,
            Duty::Duty3Bit => 3,
            Duty::Duty4Bit => 4,
            Duty::Duty5Bit => 5,
            Duty::Duty6Bit => 6,
            Duty::Duty7Bit => 7,
            Duty::Duty8Bit => 8,
            Duty::Duty9Bit => 9,
            Duty::Duty10Bit => 10,
            Duty::Duty11Bit => 11,
            Duty::Duty12Bit => 12,
            Duty::Duty13Bit => 13,
            Duty::Duty14Bit => 14,
            Duty::Duty15Bit => 15,
            Duty::Duty16Bit => 16,
            Duty::Duty17Bit => 17,
            Duty::Duty18Bit => 18,
            Duty::Duty19Bit => 19,
            Duty::Duty20Bit => 20,
        }
    }
}

/// Timer configuration: duty resolution, clock source of the timer's speed
/// domain, and the target frequency in Hz.
#[derive(Copy, Clone)]
pub struct Config<CS> {
    pub duty: Duty,
    pub clock_source: CS,
    pub frequency: u32,
}

/// The type-level facts of a timer speed domain: its clock source type, which
/// register block family it uses, on which chip variants it exists, and what
/// frequency each of its clock sources runs at.
pub trait TimerSpeed: Speed {
    type ClockSourceType;

    /// Whether this domain uses the high-speed register block family.
    spec fn spec_is_high_speed() -> bool;

    /// Whether this domain exists on the given chip variant.
    spec fn spec_available_on(variant: ChipVariant) -> bool;

    /// The fixed oscillator frequency, in Hz, of a clock source of this
    /// domain under the given global clock configuration.
    spec fn spec_source_freq(clock_source: Self::ClockSourceType, clocks: Clocks) -> u32;

    fn is_high_speed() -> (r: bool)
        ensures
            r == Self::spec_is_high_speed(),
    ;

    fn source_freq(clock_source: &Self::ClockSourceType, clocks: &Clocks) -> (r: u32)
        ensures
            r == Self::spec_source_freq(*clock_source, *clocks),
    ;
}

impl TimerSpeed for LowSpeed {
    type ClockSourceType = LSClockSource;

    open spec fn spec_is_high_speed() -> bool {
        false
    }

    open spec fn spec_available_on(variant: ChipVariant) -> bool {
        true
    }

    open spec fn spec_source_freq(clock_source: LSClockSource, clocks: Clocks) -> u32 {
        match clock_source {
            LSClockSource::APBClk => clocks.apb_clock,
        }
    }

    fn is_high_speed() -> bool {
        false
    }

    fn source_freq(clock_source: &LSClockSource, clocks: &Clocks) -> u32 {
        match clock_source {
            LSClockSource::APBClk => clocks.apb_clock,
        }
    }
}

impl TimerSpeed for HighSpeed {
    type ClockSourceType = HSClockSource;

    open spec fn spec_is_high_speed() -> bool {
        true
    }

    open spec fn spec_available_on(variant: ChipVariant) -> bool {
        variant == ChipVariant::Esp32
    }

    open spec fn spec_source_freq(clock_source: HSClockSource, clocks: Clocks) -> u32 {
        match clock_source {
            HSClockSource::APBClk => clocks.apb_clock,
        }
    }

    fn is_high_speed() -> bool {
        true
    }

    fn source_freq(clock_source: &HSClockSource, clocks: &Clocks) -> u32 {
        match clock_source {
            HSClockSource::APBClk => clocks.apb_clock,
        }
    }
}

/// `2^bits`: the number of distinct duty values the resolution reserves.
pub open spec fn spec_precision(duty: Duty) -> u32 {
    1u32 << duty.bits_spec()
}

/// The fixed-point divider value for a source clock, target frequency and
/// duty precision: `floor(floor(floor(src * 256 / freq) / precision))`, the
/// divider register's 8-fractional-bit format.
pub open spec fn fixed_point_divisor(src_freq: u32, frequency: u32, precision: u32) -> int
    recommends
        frequency > 0,
        precision > 0,
{
    src_freq * 256 / (frequency as int) / (precision as int)
}

/// Whether the primary-path divisor overflows the divider register, so that
/// `configure` retries from the fixed reference tick.
pub open spec fn uses_fallback(src_freq: u32, frequency: u32, precision: u32) -> bool {
    fixed_point_divisor(src_freq, frequency, precision) > LEDC_TIMER_DIV_NUM_MAX as int
}

/// The divisor `configure` ends up with: the primary-path value, or the
/// reference-tick value when the primary path overflows the register.
pub open spec fn applied_divisor(src_freq: u32, frequency: u32, precision: u32) -> int {
    if uses_fallback(src_freq, frequency, precision) {
        fixed_point_divisor(REF_TICK_FREQ_HZ, frequency, precision)
    } else {
        fixed_point_divisor(src_freq, frequency, precision)
    }
}

/// The divider range the hardware accepts: at least one whole step (256 in
/// fixed point) and strictly below the register's maximum.
pub open spec fn divisor_in_range(divisor: int) -> bool {
    256 <= divisor < LEDC_TIMER_DIV_NUM_MAX as int
}

/// Whether `configure` succeeds for the given source clock, target frequency
/// and duty precision.
pub open spec fn configure_succeeds(src_freq: u32, frequency: u32, precision: u32) -> bool {
    divisor_in_range(applied_divisor(src_freq, frequency, precision))
}

/// Law: a primary-path divisor already inside the divider's range means the
/// fallback is never taken, that divisor is the one applied, and
/// configuration succeeds.
pub proof fn lemma_primary_divisor_in_range_succeeds(src_freq: u32, frequency: u32, precision: u32)
    requires
        divisor_in_range(fixed_point_divisor(src_freq, frequency, precision)),
    ensures
        !uses_fallback(src_freq, frequency, precision),
        applied_divisor(src_freq, frequency, precision) == fixed_point_divisor(
            src_freq,
            frequency,
            precision,
        ),
        configure_succeeds(src_freq, frequency, precision),
{
}

/// Law: when the fallback activates, the applied divisor is recomputed from
/// the fixed reference frequency in place of the source clock.
pub proof fn lemma_fallback_divisor_from_reference(src_freq: u32, frequency: u32, precision: u32)
    requires
        uses_fallback(src_freq, frequency, precision),
    ensures
        applied_divisor(src_freq, frequency, precision) == fixed_point_divisor(
            REF_TICK_FREQ_HZ,
            frequency,
            precision,
        ),
{
}

/// Law: every successful configuration applies a divisor of at least 256, and
/// an applied divisor below 256 never succeeds.
pub proof fn lemma_divisor_floor(src_freq: u32, frequency: u32, precision: u32)
    ensures
        configure_succeeds(src_freq, frequency, precision) ==> applied_divisor(
            src_freq,
            frequency,
            precision,
        ) >= 256,
        applied_divisor(src_freq, frequency, precision) < 256 ==> !configure_succeeds(
            src_freq,
            frequency,
            precision,
        ),
{
}

pub(crate) proof fn lemma_precision_bounds(bits: u32)
    requires
        1 <= bits <= 20,
    ensures
        2 <= (1u32 << bits) <= 0x100000,
{
    assert(1 <= bits <= 20 ==> 2 <= (1u32 << bits) <= 0x100000) by (bit_vector);
}

/// A timer: the divisor-calculation logic and the configured/unconfigured
/// state machine of one numbered timer of one speed domain.
pub struct Timer<S: TimerSpeed> {
    pub number: Number,
    pub duty: Option<Duty>,
    pub frequency: u32,
    pub configured: bool,
    pub use_ref_tick: bool,
    pub clock_source: Option<S::ClockSourceType>,
}

impl<S: TimerSpeed> Timer<S> {
    /// The state invariant: a configured timer carries its duty resolution,
    /// clock source and a nonzero target frequency; an unconfigured one
    /// carries none of them.
    pub open spec fn wf(self) -> bool {
        &&& (self.configured ==> self.duty is Some && self.clock_source is Some
            && self.frequency > 0)
        &&& (!self.configured ==> self.duty is None && self.clock_source is None
            && self.frequency == 0 && !self.use_ref_tick)
    }

    /// Create a new, unconfigured timer.
    pub fn new(number: Number) -> (r: Self)
        ensures
            r.number == number,
            !r.configured,
            r.duty is None,
            r.clock_source is None,
            r.frequency == 0,
            !r.use_ref_tick,
            r.wf(),
    {
        Timer {
            number,
            duty: None,
            frequency: 0u32,
            configured: false,
            use_ref_tick: false,
            clock_source: None,
        }
    }

    /// The resolved frequency of the stored clock source, or `None` while no
    /// clock source is stored.
    pub open spec fn spec_freq_hw(self, clocks: Clocks) -> Option<u32> {
        match self.clock_source {
            Some(cs) => Some(S::spec_source_freq(cs, clocks)),
            None => None,
        }
    }

    /// Get the current source timer frequency, in Hz, from the stored clock
    /// source.
    pub fn get_freq_hw(&self, clocks: &Clocks) -> (r: Option<u32>)
        ensures
            r == self.spec_freq_hw(*clocks),
    {
        match &self.clock_source {
            Some(cs) => Some(S::source_freq(cs, clocks)),
            None => None,
        }
    }

    /// Return the frequency of the timer's source clock, in Hz, or `None`
    /// while the timer is unconfigured.
    pub fn get_freq(&self, clocks: &Clocks) -> (r: Option<u32>)
        ensures
            r == self.spec_freq_hw(*clocks),
    {
        self.get_freq_hw(clocks)
    }

    /// Configure the timer: compute the divider for the requested duty
    /// resolution, clock source and target frequency, fall back once to the
    /// reference tick if the primary divisor overflows the register, and on
    /// success commit the divider to the register bank and record the
    /// configuration. On failure nothing is written and the timer keeps its
    /// previous state.
    pub fn configure(
        &mut self,
        clocks: &Clocks,
        regs: &mut Registers,
        config: Config<S::ClockSourceType>,
    ) -> (r: Result<(), Error>)
        requires
            old(self).wf(),
            config.frequency > 0,
        ensures
            final(self).wf(),
            final(self).number == old(self).number,
            ({
                let src_freq = S::spec_source_freq(config.clock_source, *clocks);
                let precision = spec_precision(config.duty);
                let fallback = uses_fallback(src_freq, config.frequency, precision);
                let divisor = applied_divisor(src_freq, config.frequency, precision);
                if configure_succeeds(src_freq, config.frequency, precision) {
                    &&& r == Ok::<(), Error>(())
                    &&& final(self).configured
                    &&& final(self).duty == Some(config.duty)
                    &&& final(self).clock_source == Some(config.clock_source)
                    &&& final(self).frequency == config.frequency
                    &&& final(self).use_ref_tick == fallback
                    &&& ({
                        let conf = (TimerConf {
                            tick_sel: fallback,
                            rst: false,
                            pause: false,
                            div_num: divisor as u32,
                            duty_res: config.duty.bits_spec() as u8,
                        });
                        *final(regs) == old(regs).with_timer_block(
                            S::spec_is_high_speed(),
                            old(self).number,
                            TimerBlock { pending: conf, applied: conf },
                        )
                    })
                } else {
                    &&& r == Err::<(), Error>(Error::Divisor)
                    &&& *final(self) == *old(self)
                    &&& *final(regs) == *old(regs)
                }
            }),
    {
        let src_freq: u32 = S::source_freq(&config.clock_source, clocks);
        let bits: u32 = config.duty.bits();
        proof {
            lemma_precision_bounds(bits);
        }
        let precision: u32 = 1u32 << bits;
        let frequency: u32 = config.frequency;

        let mut divisor: u64 = ((src_freq as u64) * 256) / (frequency as u64) / (precision as u64);
        let mut use_ref_tick: bool = false;

        if divisor > LEDC_TIMER_DIV_NUM_MAX {
            // The primary source overflows the divider register; retry from
            // the fixed reference tick.
            use_ref_tick = true;
            divisor = ((REF_TICK_FREQ_HZ as u64) * 256) / (frequency as u64) / (precision as u64);
        }

        if divisor >= LEDC_TIMER_DIV_NUM_MAX || divisor < 256 {
            return Err(Error::Divisor);
        }

        self.configure_hw(regs, divisor as u32, config.duty, use_ref_tick);
        self.update_hw(regs);

        self.duty = Some(config.duty);
        self.clock_source = Some(config.clock_source);
        self.frequency = frequency;
        self.use_ref_tick = use_ref_tick;
        self.configured = true;

        Ok(())
    }

    /// Write the divider, duty resolution and tick selection into the timer's
    /// configuration register, clearing the reset and pause bits. The fields
    /// stay pending until `update_hw` latches them.
    pub fn configure_hw(&self, regs: &mut Registers, divisor: u32, duty: Duty, use_ref_tick: bool)
        requires
            divisor < 0x40000,
        ensures
            *final(regs) == old(regs).with_timer_block(
                S::spec_is_high_speed(),
                self.number,
                TimerBlock {
                    pending: (TimerConf {
                        tick_sel: use_ref_tick,
                        rst: false,
                        pause: false,
                        div_num: divisor,
                        duty_res: duty.bits_spec() as u8,
                    }),
                    applied: old(regs).timer_block(S::spec_is_high_speed(), self.number).applied,
                },
            ),
    {
        let conf = TimerConf {
            tick_sel: use_ref_tick,
            rst: false,
            pause: false,
            div_num: divisor,
            duty_res: duty.bits() as u8,
        };
        regs.write_timer_conf(S::is_high_speed(), self.number, conf);
    }

    /// Set the timer's update bit so the hardware atomically applies the
    /// pending configuration fields.
    pub fn update_hw(&self, regs: &mut Registers)
        ensures
            *final(regs) == old(regs).with_timer_block(
                S::spec_is_high_speed(),
                self.number,
                TimerBlock {
                    pending: old(regs).timer_block(S::spec_is_high_speed(), self.number).pending,
                    applied: old(regs).timer_block(S::spec_is_high_speed(), self.number).pending,
                },
            ),
    {
        regs.latch_timer(S::is_high_speed(), self.number);
    }

    /// Check if the timer has been configured.
    pub fn is_configured(&self) -> (r: bool)
        ensures
            r == self.configured,
    {
        self.configured
    }

    /// Return the duty resolution of the timer, or `None` while unconfigured.
    pub fn get_duty(&self) -> (r: Option<Duty>)
        ensures
            r == self.duty,
    {
        self.duty
    }

    /// Return the timer number.
    pub fn get_number(&self) -> (r: Number)
        ensures
            r == self.number,
    {
        self.number
    }

    /// Return the last successfully configured target frequency in Hz, or 0
    /// while unconfigured.
    pub fn get_frequency(&self) -> (r: u32)
        ensures
            r == self.frequency,
    {
        self.frequency
    }
}

} // verus!
