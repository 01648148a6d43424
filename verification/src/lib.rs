//! LEDC (LED PWM controller) driver core: timer clock-divisor computation,
//! the timer configuration state machine, and timer/channel binding, verified
//! against an in-memory model of the peripheral's register bank.

use vstd::prelude::*;

pub mod channel;
pub mod clock;
pub mod registers;
pub mod system;
pub mod timer;

verus! {

use crate::channel::Channel;
use crate::registers::{Registers, TimerBlock};
use crate::system::{Peripheral, PeripheralClockControl};
use crate::timer::{Timer, TimerSpeed};

/// Chip variants that carry this peripheral. They differ in which register
/// selects the global slow clock, in the available duty range, and in whether
/// the high-speed domain exists.
#[derive(PartialEq, Eq, Structural, Copy, Clone, Debug)]
pub enum ChipVariant {
    Esp32,
    Esp32c2,
    Esp32c3,
    Esp32s2,
    Esp32s3,
    Esp32c6,
    Esp32h2,
}

impl ChipVariant {
    /// Widest duty resolution the divider register accepts on this variant.
    pub open spec fn spec_max_duty_bits(self) -> u32 {
        if self == ChipVariant::Esp32 {
            20
        } else {
            14
        }
    }

    pub fn max_duty_bits(self) -> (r: u32)
        ensures
            r == self.spec_max_duty_bits(),
    {
        match self {
            ChipVariant::Esp32 => 20,
            _ => 14,
        }
    }
}

/// Global slow clock source.
#[derive(PartialEq, Eq, Structural, Copy, Clone, Debug)]
pub enum LSGlobalClkSource {
    APBClk,
}

/// Which register holds the global slow-clock select on a given chip variant.
#[derive(PartialEq, Eq, Structural, Copy, Clone, Debug)]
pub enum GlobalClockRegister {
    /// A select field in the peripheral's own configuration register.
    PeripheralConf,
    /// A select field in a separate system clock-control register, which must
    /// also be enabled.
    SystemClockConf,
}

/// One row of the variant-indexed table for the global slow-clock select:
/// the register to write and the select value to put there.
#[derive(PartialEq, Eq, Structural, Copy, Clone, Debug)]
pub struct ClockSelectEntry {
    pub register: GlobalClockRegister,
    pub select: u8,
}

/// The variant-indexed table row for selecting the given global slow clock
/// source on the given chip variant.
pub open spec fn spec_global_clock_entry(
    variant: ChipVariant,
    clock_source: LSGlobalClkSource,
) -> ClockSelectEntry {
    match clock_source {
        LSGlobalClkSource::APBClk => match variant {
            ChipVariant::Esp32c6 => ClockSelectEntry {
                register: GlobalClockRegister::SystemClockConf,
                select: 1,
            },
            ChipVariant::Esp32h2 => ClockSelectEntry {
                register: GlobalClockRegister::SystemClockConf,
                select: 0,
            },
            _ => ClockSelectEntry { register: GlobalClockRegister::PeripheralConf, select: 1 },
        },
    }
}

pub fn global_clock_entry(variant: ChipVariant, clock_source: LSGlobalClkSource) -> (r:
    ClockSelectEntry)
    ensures
        r == spec_global_clock_entry(variant, clock_source),
{
    match clock_source {
        LSGlobalClkSource::APBClk => match variant {
            ChipVariant::Esp32c6 => ClockSelectEntry {
                register: GlobalClockRegister::SystemClockConf,
                select: 1,
            },
            ChipVariant::Esp32h2 => ClockSelectEntry {
                register: GlobalClockRegister::SystemClockConf,
                select: 0,
            },
            _ => ClockSelectEntry { register: GlobalClockRegister::PeripheralConf, select: 1 },
        },
    }
}

/// An externally owned GPIO output-pin capability a channel drives.
#[derive(PartialEq, Eq, Structural, Copy, Clone, Debug)]
pub struct OutputPin {
    pub pin: u8,
}

/// Used to specify a high-speed timer or channel. This speed domain exists
/// only on the one chip variant with high-speed blocks.
pub struct HighSpeed {}

/// Used to specify a low-speed timer or channel, available on every variant.
pub struct LowSpeed {}

/// Marker for the timer/channel speed domains.
pub trait Speed {}

impl Speed for HighSpeed {}

impl Speed for LowSpeed {}

/// Which numbered timer slots of one speed domain are checked out.
#[derive(PartialEq, Eq, Structural, Copy, Clone, Debug)]
pub struct TimerSlots {
    pub t0: bool,
    pub t1: bool,
    pub t2: bool,
    pub t3: bool,
}

impl TimerSlots {
    pub open spec fn spec_none_issued() -> TimerSlots {
        TimerSlots { t0: false, t1: false, t2: false, t3: false }
    }

    pub open spec fn issued(self, number: crate::timer::Number) -> bool {
        match number {
            crate::timer::Number::Timer0 => self.t0,
            crate::timer::Number::Timer1 => self.t1,
            crate::timer::Number::Timer2 => self.t2,
            crate::timer::Number::Timer3 => self.t3,
        }
    }

    pub open spec fn with_issued(self, number: crate::timer::Number, taken: bool) -> TimerSlots {
        match number {
            crate::timer::Number::Timer0 => TimerSlots { t0: taken, ..self },
            crate::timer::Number::Timer1 => TimerSlots { t1: taken, ..self },
            crate::timer::Number::Timer2 => TimerSlots { t2: taken, ..self },
            crate::timer::Number::Timer3 => TimerSlots { t3: taken, ..self },
        }
    }

    fn read(&self, number: crate::timer::Number) -> (r: bool)
        ensures
            r == self.issued(number),
    {
        match number {
            crate::timer::Number::Timer0 => self.t0,
            crate::timer::Number::Timer1 => self.t1,
            crate::timer::Number::Timer2 => self.t2,
            crate::timer::Number::Timer3 => self.t3,
        }
    }

    fn write(&mut self, number: crate::timer::Number, taken: bool)
        ensures
            *final(self) == old(self).with_issued(number, taken),
    {
        match number {
            crate::timer::Number::Timer0 => self.t0 = taken,
            crate::timer::Number::Timer1 => self.t1 = taken,
            crate::timer::Number::Timer2 => self.t2 = taken,
            crate::timer::Number::Timer3 => self.t3 = taken,
        }
    }
}

/// Which numbered channel slots of one speed domain are checked out.
#[derive(PartialEq, Eq, Structural, Copy, Clone, Debug)]
pub struct ChannelSlots {
    pub c0: bool,
    pub c1: bool,
    pub c2: bool,
    pub c3: bool,
    pub c4: bool,
    pub c5: bool,
    pub c6: bool,
    pub c7: bool,
}

impl ChannelSlots {
    pub open spec fn spec_none_issued() -> ChannelSlots {
        ChannelSlots {
            c0: false,
            c1: false,
            c2: false,
            c3: false,
            c4: false,
            c5: false,
            c6: false,
            c7: false,
        }
    }

    pub open spec fn issued(self, number: crate::channel::Number) -> bool {
        match number {
            crate::channel::Number::Channel0 => self.c0,
            crate::channel::Number::Channel1 => self.c1,
            crate::channel::Number::Channel2 => self.c2,
            crate::channel::Number::Channel3 => self.c3,
            crate::channel::Number::Channel4 => self.c4,
            crate::channel::Number::Channel5 => self.c5,
            crate::channel::Number::Channel6 => self.c6,
            crate::channel::Number::Channel7 => self.c7,
        }
    }

    pub open spec fn with_issued(self, number: crate::channel::Number, taken: bool) -> ChannelSlots {
        match number {
            crate::channel::Number::Channel0 => ChannelSlots { c0: taken, ..self },
            crate::channel::Number::Channel1 => ChannelSlots { c1: taken, ..self },
            crate::channel::Number::Channel2 => ChannelSlots { c2: taken, ..self },
            crate::channel::Number::Channel3 => ChannelSlots { c3: taken, ..self },
            crate::channel::Number::Channel4 => ChannelSlots { c4: taken, ..self },
            crate::channel::Number::Channel5 => ChannelSlots { c5: taken, ..self },
            crate::channel::Number::Channel6 => ChannelSlots { c6: taken, ..self },
            crate::channel::Number::Channel7 => ChannelSlots { c7: taken, ..self },
        }
    }

    fn read(&self, number: crate::channel::Number) -> (r: bool)
        ensures
            r == self.issued(number),
    {
        match number {
            crate::channel::Number::Channel0 => self.c0,
            crate::channel::Number::Channel1 => self.c1,
            crate::channel::Number::Channel2 => self.c2,
            crate::channel::Number::Channel3 => self.c3,
            crate::channel::Number::Channel4 => self.c4,
            crate::channel::Number::Channel5 => self.c5,
            crate::channel::Number::Channel6 => self.c6,
            crate::channel::Number::Channel7 => self.c7,
        }
    }

    fn write(&mut self, number: crate::channel::Number, taken: bool)
        ensures
            *final(self) == old(self).with_issued(number, taken),
    {
        match number {
            crate::channel::Number::Channel0 => self.c0 = taken,
            crate::channel::Number::Channel1 => self.c1 = taken,
            crate::channel::Number::Channel2 => self.c2 = taken,
            crate::channel::Number::Channel3 => self.c3 = taken,
            crate::channel::Number::Channel4 => self.c4 = taken,
            crate::channel::Number::Channel5 => self.c5 = taken,
            crate::channel::Number::Channel6 => self.c6 = taken,
            crate::channel::Number::Channel7 => self.c7 = taken,
        }
    }
}

/// LEDC (LED PWM controller): the peripheral-wide entry point. Creating it
/// opens the peripheral's clock gate; it then selects the global slow clock
/// and hands out timer and channel handles by number. Each numbered slot of
/// each speed domain is handed out at most once until its handle is released
/// again, so no two live handles write the same register block.
pub struct LEDC {
    pub variant: ChipVariant,
    pub ls_timers: TimerSlots,
    pub hs_timers: TimerSlots,
    pub ls_channels: ChannelSlots,
    pub hs_channels: ChannelSlots,
}

impl LEDC {
    /// Whether the given timer slot is checked out.
    pub open spec fn timer_issued(self, high_speed: bool, number: crate::timer::Number) -> bool {
        if high_speed {
            self.hs_timers.issued(number)
        } else {
            self.ls_timers.issued(number)
        }
    }

    /// Whether the given channel slot is checked out.
    pub open spec fn channel_issued(
        self,
        high_speed: bool,
        number: crate::channel::Number,
    ) -> bool {
        if high_speed {
            self.hs_channels.issued(number)
        } else {
            self.ls_channels.issued(number)
        }
    }

    /// This controller with the given timer slot marked, everything else as
    /// is.
    pub open spec fn with_timer_issued(
        self,
        high_speed: bool,
        number: crate::timer::Number,
        taken: bool,
    ) -> LEDC {
        if high_speed {
            LEDC { hs_timers: self.hs_timers.with_issued(number, taken), ..self }
        } else {
            LEDC { ls_timers: self.ls_timers.with_issued(number, taken), ..self }
        }
    }

    /// This controller with the given channel slot marked, everything else as
    /// is.
    pub open spec fn with_channel_issued(
        self,
        high_speed: bool,
        number: crate::channel::Number,
        taken: bool,
    ) -> LEDC {
        if high_speed {
            LEDC { hs_channels: self.hs_channels.with_issued(number, taken), ..self }
        } else {
            LEDC { ls_channels: self.ls_channels.with_issued(number, taken), ..self }
        }
    }

    /// Take ownership of the peripheral on the given chip variant and open
    /// its clock gate. No slot is checked out yet.
    pub fn new(variant: ChipVariant, system: &mut PeripheralClockControl) -> (r: LEDC)
        ensures
            *final(system) == (PeripheralClockControl { ledc_enabled: true }),
            r.variant == variant,
            r.ls_timers == TimerSlots::spec_none_issued(),
            r.hs_timers == TimerSlots::spec_none_issued(),
            r.ls_channels == ChannelSlots::spec_none_issued(),
            r.hs_channels == ChannelSlots::spec_none_issued(),
    {
        system.enable(Peripheral::Ledc);
        LEDC {
            variant,
            ls_timers: TimerSlots { t0: false, t1: false, t2: false, t3: false },
            hs_timers: TimerSlots { t0: false, t1: false, t2: false, t3: false },
            ls_channels: ChannelSlots {
                c0: false,
                c1: false,
                c2: false,
                c3: false,
                c4: false,
                c5: false,
                c6: false,
                c7: false,
            },
            hs_channels: ChannelSlots {
                c0: false,
                c1: false,
                c2: false,
                c3: false,
                c4: false,
                c5: false,
                c6: false,
                c7: false,
            },
        }
    }

    /// Select the oscillator feeding the low-speed timers. The write goes to
    /// the register the variant-indexed table names for this chip, and is
    /// latched through the first low-speed timer's update bit.
    pub fn set_global_slow_clock(&mut self, regs: &mut Registers, clock_source: LSGlobalClkSource)
        ensures
            *final(self) == *old(self),
            ({
                let entry = spec_global_clock_entry(old(self).variant, clock_source);
                let selected = match entry.register {
                    GlobalClockRegister::PeripheralConf => (Registers {
                        apb_clk_sel: entry.select,
                        ..*old(regs)
                    }),
                    GlobalClockRegister::SystemClockConf => (Registers {
                        sclk_en: true,
                        sclk_sel: entry.select,
                        ..*old(regs)
                    }),
                };
                *final(regs) == selected.with_timer_block(
                    false,
                    crate::timer::Number::Timer0,
                    TimerBlock {
                        pending: selected.timer_block(false, crate::timer::Number::Timer0).pending,
                        applied: selected.timer_block(false, crate::timer::Number::Timer0).pending,
                    },
                )
            }),
    {
        let entry = global_clock_entry(self.variant, clock_source);
        match entry.register {
            GlobalClockRegister::PeripheralConf => {
                regs.apb_clk_sel = entry.select;
            },
            GlobalClockRegister::SystemClockConf => {
                regs.sclk_en = true;
                regs.sclk_sel = entry.select;
            },
        }
        regs.latch_timer(false, crate::timer::Number::Timer0);
    }

    /// Check a timer slot out and return a new, unconfigured timer handle for
    /// it, or `None` while a handle for that slot is already out.
    pub fn get_timer<S: TimerSpeed>(&mut self, number: crate::timer::Number) -> (r: Option<
        Timer<S>,
    >)
        requires
            S::spec_available_on(old(self).variant),
        ensures
            if old(self).timer_issued(S::spec_is_high_speed(), number) {
                &&& r is None
                &&& *final(self) == *old(self)
            } else {
                &&& *final(self) == old(self).with_timer_issued(
                    S::spec_is_high_speed(),
                    number,
                    true,
                )
                &&& (r matches Some(t) && t.number == number && !t.configured && t.duty is None
                    && t.clock_source is None && t.frequency == 0 && !t.use_ref_tick && t.wf())
            },
    {
        let high_speed = S::is_high_speed();
        let taken = if high_speed {
            self.hs_timers.read(number)
        } else {
            self.ls_timers.read(number)
        };
        if taken {
            return None;
        }
        if high_speed {
            self.hs_timers.write(number, true);
        } else {
            self.ls_timers.write(number, true);
        }
        Some(Timer::new(number))
    }

    /// Give a timer handle back, freeing its slot for a later checkout.
    pub fn release_timer<S: TimerSpeed>(&mut self, timer: Timer<S>)
        ensures
            *final(self) == old(self).with_timer_issued(
                S::spec_is_high_speed(),
                timer.number,
                false,
            ),
    {
        if S::is_high_speed() {
            self.hs_timers.write(timer.number, false);
        } else {
            self.ls_timers.write(timer.number, false);
        }
    }

    /// Check a channel slot out and return a new channel handle for it on the
    /// given output pin, bound to no timer yet, or `None` while a handle for
    /// that slot is already out.
    pub fn get_channel<'t, S: TimerSpeed>(
        &mut self,
        number: crate::channel::Number,
        output_pin: OutputPin,
    ) -> (r: Option<Channel<'t, S>>)
        requires
            S::spec_available_on(old(self).variant),
        ensures
            if old(self).channel_issued(S::spec_is_high_speed(), number) {
                &&& r is None
                &&& *final(self) == *old(self)
            } else {
                &&& *final(self) == old(self).with_channel_issued(
                    S::spec_is_high_speed(),
                    number,
                    true,
                )
                &&& (r matches Some(c) && c.number == number && c.timer is None
                    && c.output_pin == output_pin)
            },
    {
        let high_speed = S::is_high_speed();
        let taken = if high_speed {
            self.hs_channels.read(number)
        } else {
            self.ls_channels.read(number)
        };
        if taken {
            return None;
        }
        if high_speed {
            self.hs_channels.write(number, true);
        } else {
            self.ls_channels.write(number, true);
        }
        Some(Channel::new(number, output_pin))
    }

    /// Give a channel handle back, freeing its slot for a later checkout.
    pub fn release_channel<S: TimerSpeed>(&mut self, channel: Channel<S>)
        ensures
            *final(self) == old(self).with_channel_issued(
                S::spec_is_high_speed(),
                channel.number,
                false,
            ),
    {
        if S::is_high_speed() {
            self.hs_channels.write(channel.number, false);
        } else {
            self.ls_channels.write(channel.number, false);
        }
    }
}

} // verus!
