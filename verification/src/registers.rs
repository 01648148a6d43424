//! In-memory model of the peripheral's register bank.
//!
//! The hardware buffers divider/duty writes: a timer's configuration register
//! holds *pending* fields until the per-timer update bit latches them, at
//! which point they are *applied* atomically. The model keeps both images so
//! that contracts can state exactly when a write takes effect.

use vstd::prelude::*;

verus! {

/// One timer's configuration register fields.
#[derive(PartialEq, Eq, Structural, Copy, Clone, Debug)]
pub struct TimerConf {
    /// Tick source select: `true` picks the fixed reference tick, `false` the
    /// speed domain's primary source clock.
    pub tick_sel: bool,
    /// Counter reset bit.
    pub rst: bool,
    /// Counter pause bit.
    pub pause: bool,
    /// Clock divider, fixed point with 8 fractional bits, 18 bits wide.
    pub div_num: u32,
    /// Duty resolution in bits, 5 bits wide.
    pub duty_res: u8,
}

impl TimerConf {
    /// The fields fit their register widths.
    pub open spec fn wf(self) -> bool {
        &&& self.div_num < 0x40000
        &&& self.duty_res < 32
    }

    /// Register contents after reset.
    pub open spec fn spec_reset() -> TimerConf {
        TimerConf { tick_sel: false, rst: false, pause: false, div_num: 0, duty_res: 0 }
    }

    pub fn reset() -> (r: TimerConf)
        ensures
            r == TimerConf::spec_reset(),
    {
        TimerConf { tick_sel: false, rst: false, pause: false, div_num: 0, duty_res: 0 }
    }
}

/// One timer's register block: the pending configuration image and the image
/// the hardware currently runs from.
#[derive(PartialEq, Eq, Structural, Copy, Clone, Debug)]
pub struct TimerBlock {
    pub pending: TimerConf,
    pub applied: TimerConf,
}

impl TimerBlock {
    pub open spec fn spec_reset() -> TimerBlock {
        TimerBlock { pending: TimerConf::spec_reset(), applied: TimerConf::spec_reset() }
    }
}

/// One channel's register fields: the scaled duty value and the output
/// enable.
#[derive(PartialEq, Eq, Structural, Copy, Clone, Debug)]
pub struct ChannelConf {
    pub duty: u32,
    pub output_enabled: bool,
}

impl ChannelConf {
    pub open spec fn spec_reset() -> ChannelConf {
        ChannelConf { duty: 0, output_enabled: false }
    }
}

/// The peripheral's register bank: four timers and eight channels per speed
/// domain, and the global slow-clock select registers.
#[derive(PartialEq, Eq, Structural, Copy, Clone, Debug)]
pub struct Registers {
    pub ls_timer0: TimerBlock,
    pub ls_timer1: TimerBlock,
    pub ls_timer2: TimerBlock,
    pub ls_timer3: TimerBlock,
    pub hs_timer0: TimerBlock,
    pub hs_timer1: TimerBlock,
    pub hs_timer2: TimerBlock,
    pub hs_timer3: TimerBlock,
    pub ls_channel0: ChannelConf,
    pub ls_channel1: ChannelConf,
    pub ls_channel2: ChannelConf,
    pub ls_channel3: ChannelConf,
    pub ls_channel4: ChannelConf,
    pub ls_channel5: ChannelConf,
    pub ls_channel6: ChannelConf,
    pub ls_channel7: ChannelConf,
    pub hs_channel0: ChannelConf,
    pub hs_channel1: ChannelConf,
    pub hs_channel2: ChannelConf,
    pub hs_channel3: ChannelConf,
    pub hs_channel4: ChannelConf,
    pub hs_channel5: ChannelConf,
    pub hs_channel6: ChannelConf,
    pub hs_channel7: ChannelConf,
    /// Slow-clock select bit/field in the peripheral's own configuration
    /// register (the path used by most variants).
    pub apb_clk_sel: u8,
    /// Clock enable in the separate system clock-control register (the path
    /// used by the variants that route the select through it).
    pub sclk_en: bool,
    /// Select field in the separate system clock-control register.
    pub sclk_sel: u8,
}

impl Registers {
    /// The timer block of the given speed domain and timer number.
    pub open spec fn timer_block(self, high_speed: bool, number: crate::timer::Number) -> TimerBlock {
        match (high_speed, number) {
            (false, crate::timer::Number::Timer0) => self.ls_timer0,
            (false, crate::timer::Number::Timer1) => self.ls_timer1,
            (false, crate::timer::Number::Timer2) => self.ls_timer2,
            (false, crate::timer::Number::Timer3) => self.ls_timer3,
            (true, crate::timer::Number::Timer0) => self.hs_timer0,
            (true, crate::timer::Number::Timer1) => self.hs_timer1,
            (true, crate::timer::Number::Timer2) => self.hs_timer2,
            (true, crate::timer::Number::Timer3) => self.hs_timer3,
        }
    }

    /// This bank with the given timer block replaced, everything else as is.
    pub open spec fn with_timer_block(
        self,
        high_speed: bool,
        number: crate::timer::Number,
        block: TimerBlock,
    ) -> Registers {
        match (high_speed, number) {
            (false, crate::timer::Number::Timer0) => Registers { ls_timer0: block, ..self },
            (false, crate::timer::Number::Timer1) => Registers { ls_timer1: block, ..self },
            (false, crate::timer::Number::Timer2) => Registers { ls_timer2: block, ..self },
            (false, crate::timer::Number::Timer3) => Registers { ls_timer3: block, ..self },
            (true, crate::timer::Number::Timer0) => Registers { hs_timer0: block, ..self },
            (true, crate::timer::Number::Timer1) => Registers { hs_timer1: block, ..self },
            (true, crate::timer::Number::Timer2) => Registers { hs_timer2: block, ..self },
            (true, crate::timer::Number::Timer3) => Registers { hs_timer3: block, ..self },
        }
    }

    /// The channel register of the given speed domain and channel number.
    pub open spec fn channel_conf(self, high_speed: bool, number: crate::channel::Number) -> ChannelConf {
        match (high_speed, number) {
            (false, crate::channel::Number::Channel0) => self.ls_channel0,
            (false, crate::channel::Number::Channel1) => self.ls_channel1,
            (false, crate::channel::Number::Channel2) => self.ls_channel2,
            (false, crate::channel::Number::Channel3) => self.ls_channel3,
            (false, crate::channel::Number::Channel4) => self.ls_channel4,
            (false, crate::channel::Number::Channel5) => self.ls_channel5,
            (false, crate::channel::Number::Channel6) => self.ls_channel6,
            (false, crate::channel::Number::Channel7) => self.ls_channel7,
            (true, crate::channel::Number::Channel0) => self.hs_channel0,
            (true, crate::channel::Number::Channel1) => self.hs_channel1,
            (true, crate::channel::Number::Channel2) => self.hs_channel2,
            (true, crate::channel::Number::Channel3) => self.hs_channel3,
            (true, crate::channel::Number::Channel4) => self.hs_channel4,
            (true, crate::channel::Number::Channel5) => self.hs_channel5,
            (true, crate::channel::Number::Channel6) => self.hs_channel6,
            (true, crate::channel::Number::Channel7) => self.hs_channel7,
        }
    }

    /// This bank with the given channel register replaced, everything else as
    /// is.
    pub open spec fn with_channel_conf(
        self,
        high_speed: bool,
        number: crate::channel::Number,
        conf: ChannelConf,
    ) -> Registers {
        match (high_speed, number) {
            (false, crate::channel::Number::Channel0) => Registers { ls_channel0: conf, ..self },
            (false, crate::channel::Number::Channel1) => Registers { ls_channel1: conf, ..self },
            (false, crate::channel::Number::Channel2) => Registers { ls_channel2: conf, ..self },
            (false, crate::channel::Number::Channel3) => Registers { ls_channel3: conf, ..self },
            (false, crate::channel::Number::Channel4) => Registers { ls_channel4: conf, ..self },
            (false, crate::channel::Number::Channel5) => Registers { ls_channel5: conf, ..self },
            (false, crate::channel::Number::Channel6) => Registers { ls_channel6: conf, ..self },
            (false, crate::channel::Number::Channel7) => Registers { ls_channel7: conf, ..self },
            (true, crate::channel::Number::Channel0) => Registers { hs_channel0: conf, ..self },
            (true, crate::channel::Number::Channel1) => Registers { hs_channel1: conf, ..self },
            (true, crate::channel::Number::Channel2) => Registers { hs_channel2: conf, ..self },
            (true, crate::channel::Number::Channel3) => Registers { hs_channel3: conf, ..self },
            (true, crate::channel::Number::Channel4) => Registers { hs_channel4: conf, ..self },
            (true, crate::channel::Number::Channel5) => Registers { hs_channel5: conf, ..self },
            (true, crate::channel::Number::Channel6) => Registers { hs_channel6: conf, ..self },
            (true, crate::channel::Number::Channel7) => Registers { hs_channel7: conf, ..self },
        }
    }

    /// A register bank in its reset state.
    pub fn new() -> (r: Registers)
        ensures
            forall|hs: bool, n: crate::timer::Number| r.timer_block(hs, n) == TimerBlock::spec_reset(),
            forall|hs: bool, n: crate::channel::Number|
                r.channel_conf(hs, n) == ChannelConf::spec_reset(),
            r.apb_clk_sel == 0,
            !r.sclk_en,
            r.sclk_sel == 0,
    {
        Registers {
            ls_timer0: TimerBlock { pending: TimerConf::reset(), applied: TimerConf::reset() },
            ls_timer1: TimerBlock { pending: TimerConf::reset(), applied: TimerConf::reset() },
            ls_timer2: TimerBlock { pending: TimerConf::reset(), applied: TimerConf::reset() },
            ls_timer3: TimerBlock { pending: TimerConf::reset(), applied: TimerConf::reset() },
            hs_timer0: TimerBlock { pending: TimerConf::reset(), applied: TimerConf::reset() },
            hs_timer1: TimerBlock { pending: TimerConf::reset(), applied: TimerConf::reset() },
            hs_timer2: TimerBlock { pending: TimerConf::reset(), applied: TimerConf::reset() },
            hs_timer3: TimerBlock { pending: TimerConf::reset(), applied: TimerConf::reset() },
            ls_channel0: ChannelConf { duty: 0, output_enabled: false },
            ls_channel1: ChannelConf { duty: 0, output_enabled: false },
            ls_channel2: ChannelConf { duty: 0, output_enabled: false },
            ls_channel3: ChannelConf { duty: 0, output_enabled: false },
            ls_channel4: ChannelConf { duty: 0, output_enabled: false },
            ls_channel5: ChannelConf { duty: 0, output_enabled: false },
            ls_channel6: ChannelConf { duty: 0, output_enabled: false },
            ls_channel7: ChannelConf { duty: 0, output_enabled: false },
            hs_channel0: ChannelConf { duty: 0, output_enabled: false },
            hs_channel1: ChannelConf { duty: 0, output_enabled: false },
            hs_channel2: ChannelConf { duty: 0, output_enabled: false },
            hs_channel3: ChannelConf { duty: 0, output_enabled: false },
            hs_channel4: ChannelConf { duty: 0, output_enabled: false },
            hs_channel5: ChannelConf { duty: 0, output_enabled: false },
            hs_channel6: ChannelConf { duty: 0, output_enabled: false },
            hs_channel7: ChannelConf { duty: 0, output_enabled: false },
            apb_clk_sel: 0,
            sclk_en: false,
            sclk_sel: 0,
        }
    }

    /// Write a timer's configuration register. The new fields stay pending
    /// until the update bit latches them.
    pub fn write_timer_conf(&mut self, high_speed: bool, number: crate::timer::Number, conf: TimerConf)
        ensures
            *final(self) == old(self).with_timer_block(
                high_speed,
                number,
                TimerBlock { pending: conf, applied: old(self).timer_block(high_speed, number).applied },
            ),
    {
        let block = TimerBlock {
            pending: conf,
            applied: self.timer_block_read(high_speed, number).applied,
        };
        self.timer_block_write(high_speed, number, block);
    }

    /// Set a timer's update bit: the hardware atomically applies the pending
    /// configuration.
    pub fn latch_timer(&mut self, high_speed: bool, number: crate::timer::Number)
        ensures
            *final(self) == old(self).with_timer_block(
                high_speed,
                number,
                TimerBlock {
                    pending: old(self).timer_block(high_speed, number).pending,
                    applied: old(self).timer_block(high_speed, number).pending,
                },
            ),
    {
        let pending = self.timer_block_read(high_speed, number).pending;
        self.timer_block_write(high_speed, number, TimerBlock { pending, applied: pending });
    }

    /// Write a channel's duty and output-enable register.
    pub fn write_channel_conf(
        &mut self,
        high_speed: bool,
        number: crate::channel::Number,
        conf: ChannelConf,
    )
        ensures
            *final(self) == old(self).with_channel_conf(high_speed, number, conf),
    {
        match (high_speed, number) {
            (false, crate::channel::Number::Channel0) => self.ls_channel0 = conf,
            (false, crate::channel::Number::Channel1) => self.ls_channel1 = conf,
            (false, crate::channel::Number::Channel2) => self.ls_channel2 = conf,
            (false, crate::channel::Number::Channel3) => self.ls_channel3 = conf,
            (false, crate::channel::Number::Channel4) => self.ls_channel4 = conf,
            (false, crate::channel::Number::Channel5) => self.ls_channel5 = conf,
            (false, crate::channel::Number::Channel6) => self.ls_channel6 = conf,
            (false, crate::channel::Number::Channel7) => self.ls_channel7 = conf,
            (true, crate::channel::Number::Channel0) => self.hs_channel0 = conf,
            (true, crate::channel::Number::Channel1) => self.hs_channel1 = conf,
            (true, crate::channel::Number::Channel2) => self.hs_channel2 = conf,
            (true, crate::channel::Number::Channel3) => self.hs_channel3 = conf,
            (true, crate::channel::Number::Channel4) => self.hs_channel4 = conf,
            (true, crate::channel::Number::Channel5) => self.hs_channel5 = conf,
            (true, crate::channel::Number::Channel6) => self.hs_channel6 = conf,
            (true, crate::channel::Number::Channel7) => self.hs_channel7 = conf,
        }
    }

    /// Read a timer's register block.
    pub fn timer_block_read(&self, high_speed: bool, number: crate::timer::Number) -> (r: TimerBlock)
        ensures
            r == self.timer_block(high_speed, number),
    {
        match (high_speed, number) {
            (false, crate::timer::Number::Timer0) => self.ls_timer0,
            (false, crate::timer::Number::Timer1) => self.ls_timer1,
            (false, crate::timer::Number::Timer2) => self.ls_timer2,
            (false, crate::timer::Number::Timer3) => self.ls_timer3,
            (true, crate::timer::Number::Timer0) => self.hs_timer0,
            (true, crate::timer::Number::Timer1) => self.hs_timer1,
            (true, crate::timer::Number::Timer2) => self.hs_timer2,
            (true, crate::timer::Number::Timer3) => self.hs_timer3,
        }
    }

    fn timer_block_write(&mut self, high_speed: bool, number: crate::timer::Number, block: TimerBlock)
        ensures
            *final(self) == old(self).with_timer_block(high_speed, number, block),
    {
        match (high_speed, number) {
            (false, crate::timer::Number::Timer0) => self.ls_timer0 = block,
            (false, crate::timer::Number::Timer1) => self.ls_timer1 = block,
            (false, crate::timer::Number::Timer2) => self.ls_timer2 = block,
            (false, crate::timer::Number::Timer3) => self.ls_timer3 = block,
            (true, crate::timer::Number::Timer0) => self.hs_timer0 = block,
            (true, crate::timer::Number::Timer1) => self.hs_timer1 = block,
            (true, crate::timer::Number::Timer2) => self.hs_timer2 = block,
            (true, crate::timer::Number::Timer3) => self.hs_timer3 = block,
        }
    }
}

} // verus!
