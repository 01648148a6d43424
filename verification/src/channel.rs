//! Channels: binding a PWM output to a configured timer.
//!
//! A channel scales a duty percentage to its bound timer's duty resolution,
//! writes the scaled value to its own register and enables the output.
//! Binding to an unconfigured timer is a recoverable error and touches no
//! register.

use vstd::prelude::*;

use crate::registers::{ChannelConf, Registers};
use crate::timer::{Duty, Timer, TimerSpeed};
use crate::OutputPin;

verus! {

/// Channel number.
#[derive(PartialEq, Eq, Structural, Copy, Clone, Debug)]
pub enum Number {
    Channel0,
    Channel1,
    Channel2,
    Channel3,
    Channel4,
    Channel5,
    Channel6,
    Channel7,
}

/// Channel errors.
#[derive(PartialEq, Eq, Structural, Copy, Clone, Debug)]
pub enum Error {
    /// The timer handed to `configure` has not been configured.
    NotConfigured,
}

/// Channel configuration: the timer that drives the channel and the duty
/// cycle as a percentage, 0 to 100.
#[derive(Copy, Clone)]
pub struct Config<'a, S: TimerSpeed> {
    pub timer: &'a Timer<S>,
    pub duty: u8,
}

/// The register value for a duty percentage at a duty resolution of `bits`
/// bits: the fraction `pct / 100` of the `2^bits` duty range, rounded down.
pub open spec fn spec_duty_value(bits: u32, pct: u8) -> int {
    (1u32 << bits) * pct / 100
}

/// A PWM channel: one numbered output of one speed domain, driven by a bound
/// timer.
pub struct Channel<'a, S: TimerSpeed> {
    pub number: Number,
    pub timer: Option<&'a Timer<S>>,
    pub output_pin: OutputPin,
}

impl<'a, S: TimerSpeed> Channel<'a, S> {
    /// Create a new channel on the given output pin, bound to no timer yet.
    pub fn new(number: Number, output_pin: OutputPin) -> (r: Self)
        ensures
            r.number == number,
            r.timer is None,
            r.output_pin == output_pin,
    {
        Channel { number, timer: None, output_pin }
    }

    /// Bind the channel to a timer and set its duty cycle: scale the duty
    /// percentage (clamped to 100) to the timer's duty resolution, write it
    /// to the channel's register and enable the output. A timer that is not
    /// configured is rejected with `NotConfigured`, and no register is
    /// written.
    pub fn configure(&mut self, regs: &mut Registers, config: Config<'a, S>) -> (r: Result<
        (),
        Error,
    >)
        requires
            config.timer.wf(),
        ensures
            final(self).number == old(self).number,
            final(self).output_pin == old(self).output_pin,
            if config.timer.configured {
                &&& r == Ok::<(), Error>(())
                &&& final(self).timer == Some(config.timer)
                &&& config.timer.duty is Some
                &&& (config.timer.duty matches Some(resolution) ==> ({
                    let pct = if config.duty > 100 {
                        100u8
                    } else {
                        config.duty
                    };
                    *final(regs) == old(regs).with_channel_conf(
                        S::spec_is_high_speed(),
                        old(self).number,
                        (ChannelConf {
                            duty: spec_duty_value(resolution.bits_spec(), pct) as u32,
                            output_enabled: true,
                        }),
                    )
                }))
            } else {
                &&& r == Err::<(), Error>(Error::NotConfigured)
                &&& *final(self) == *old(self)
                &&& *final(regs) == *old(regs)
            },
    {
        if !config.timer.is_configured() {
            return Err(Error::NotConfigured);
        }
        let resolution: Duty = match config.timer.get_duty() {
            Some(d) => d,
            None => {
                // Unreachable: a configured timer always carries its duty
                // resolution.
                return Err(Error::NotConfigured);
            },
        };
        let bits: u32 = resolution.bits();
        proof {
            crate::timer::lemma_precision_bounds(bits);
        }
        let range: u32 = 1u32 << bits;
        let pct: u8 = if config.duty > 100 {
            100
        } else {
            config.duty
        };
        proof {
            assert(range * (pct as u32) <= 0x100000 * 100) by (nonlinear_arith)
                requires
                    range <= 0x100000,
                    pct <= 100,
            ;
        }
        let duty_value: u32 = (range * (pct as u32)) / 100;

        regs.write_channel_conf(
            S::is_high_speed(),
            self.number,
            ChannelConf { duty: duty_value, output_enabled: true },
        );
        self.timer = Some(config.timer);
        Ok(())
    }
}

} // verus!
