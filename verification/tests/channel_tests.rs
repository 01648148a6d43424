use ledc::channel;
use ledc::clock::Clocks;
use ledc::registers::Registers;
use ledc::timer::{self, Duty, LSClockSource, Timer};
use ledc::{LowSpeed, OutputPin};

fn configured_timer(regs: &mut Registers) -> Timer<LowSpeed> {
    let clocks = Clocks { apb_clock: 80_000_000 };
    let mut t: Timer<LowSpeed> = Timer::new(timer::Number::Timer0);
    let r = t.configure(
        &clocks,
        regs,
        timer::Config {
            duty: Duty::Duty5Bit,
            clock_source: LSClockSource::APBClk,
            frequency: 24_000,
        },
    );
    assert_eq!(r, Ok(()));
    t
}

#[test]
fn binding_unconfigured_timer_fails() {
    let mut regs = Registers::new();
    let unconfigured: Timer<LowSpeed> = Timer::new(timer::Number::Timer0);
    let mut ch: channel::Channel<LowSpeed> =
        channel::Channel::new(channel::Number::Channel0, OutputPin { pin: 4 });

    let r = ch.configure(&mut regs, channel::Config { timer: &unconfigured, duty: 10 });

    assert_eq!(r, Err(channel::Error::NotConfigured));
    // No register was written.
    assert_eq!(regs, Registers::new());
    assert!(ch.timer.is_none());
}

#[test]
fn duty_scaled_to_timer_resolution() {
    let mut regs = Registers::new();
    let t = configured_timer(&mut regs);
    let mut ch: channel::Channel<LowSpeed> =
        channel::Channel::new(channel::Number::Channel0, OutputPin { pin: 4 });

    let r = ch.configure(&mut regs, channel::Config { timer: &t, duty: 10 });

    assert_eq!(r, Ok(()));
    // 10% of the 5-bit duty range: floor(32 * 10 / 100) == 3.
    assert_eq!(regs.ls_channel0.duty, 3);
    assert!(regs.ls_channel0.output_enabled);
    assert!(ch.timer.is_some());
}

#[test]
fn duty_scaling_exact_half() {
    let clocks = Clocks { apb_clock: 80_000_000 };
    let mut regs = Registers::new();
    let mut t: Timer<LowSpeed> = Timer::new(timer::Number::Timer1);
    let r = t.configure(
        &clocks,
        &mut regs,
        timer::Config {
            duty: Duty::Duty8Bit,
            clock_source: LSClockSource::APBClk,
            frequency: 1_000,
        },
    );
    assert_eq!(r, Ok(()));

    let mut ch: channel::Channel<LowSpeed> =
        channel::Channel::new(channel::Number::Channel3, OutputPin { pin: 5 });
    let r = ch.configure(&mut regs, channel::Config { timer: &t, duty: 50 });

    assert_eq!(r, Ok(()));
    // 50% of the 8-bit duty range: floor(256 * 50 / 100) == 128.
    assert_eq!(regs.ls_channel3.duty, 128);
}

#[test]
fn duty_above_hundred_is_clamped() {
    let mut regs = Registers::new();
    let t = configured_timer(&mut regs);
    let mut ch: channel::Channel<LowSpeed> =
        channel::Channel::new(channel::Number::Channel7, OutputPin { pin: 2 });

    let r = ch.configure(&mut regs, channel::Config { timer: &t, duty: 150 });

    assert_eq!(r, Ok(()));
    // Clamped to 100%: the full 5-bit duty range.
    assert_eq!(regs.ls_channel7.duty, 32);
    assert!(regs.ls_channel7.output_enabled);
}

#[test]
fn channels_write_only_their_own_register() {
    let mut regs = Registers::new();
    let t = configured_timer(&mut regs);
    let mut ch: channel::Channel<LowSpeed> =
        channel::Channel::new(channel::Number::Channel2, OutputPin { pin: 6 });

    let r = ch.configure(&mut regs, channel::Config { timer: &t, duty: 25 });
    assert_eq!(r, Ok(()));

    assert!(regs.ls_channel2.output_enabled);
    assert!(!regs.ls_channel0.output_enabled);
    assert!(!regs.ls_channel1.output_enabled);
    assert!(!regs.hs_channel2.output_enabled);
    // The bound timer's register block is untouched by the channel.
    assert_eq!(regs.ls_timer0.applied.div_num, 26_666);
}
