use ledc::clock::Clocks;
use ledc::registers::Registers;
use ledc::timer::{Config, Duty, Error, LSClockSource, Number, Timer};
use ledc::LowSpeed;

fn apb_clocks(hz: u32) -> Clocks {
    Clocks { apb_clock: hz }
}

#[test]
fn scenario_a_24khz_within_range() {
    let clocks = apb_clocks(80_000_000);
    let mut regs = Registers::new();
    let mut timer: Timer<LowSpeed> = Timer::new(Number::Timer0);

    let r = timer.configure(
        &clocks,
        &mut regs,
        Config { duty: Duty::Duty5Bit, clock_source: LSClockSource::APBClk, frequency: 24_000 },
    );

    assert_eq!(r, Ok(()));
    assert!(timer.is_configured());
    assert_eq!(timer.get_frequency(), 24_000);
    assert_eq!(timer.get_duty(), Some(Duty::Duty5Bit));
    assert!(!timer.use_ref_tick);
    // floor((80_000_000 * 256) / 24_000 / 32) == 26_666
    assert_eq!(regs.ls_timer0.applied.div_num, 26_666);
    assert_eq!(regs.ls_timer0.applied.duty_res, 5);
    assert!(!regs.ls_timer0.applied.tick_sel);
    assert!(!regs.ls_timer0.applied.rst);
    assert!(!regs.ls_timer0.applied.pause);
    assert_eq!(regs.ls_timer0.pending, regs.ls_timer0.applied);
}

#[test]
fn scenario_b_fallback_to_reference_tick() {
    let clocks = apb_clocks(80_000_000);
    let mut regs = Registers::new();
    let mut timer: Timer<LowSpeed> = Timer::new(Number::Timer1);

    let r = timer.configure(
        &clocks,
        &mut regs,
        Config { duty: Duty::Duty5Bit, clock_source: LSClockSource::APBClk, frequency: 1_000 },
    );

    // Primary divisor 640_000 exceeds 0x3FFFF; the fallback recomputes from
    // 1_000_000 Hz: floor((1_000_000 * 256) / 1_000 / 32) == 8_000.
    assert_eq!(r, Ok(()));
    assert!(timer.use_ref_tick);
    assert_eq!(timer.get_frequency(), 1_000);
    assert_eq!(regs.ls_timer1.applied.div_num, 8_000);
    assert!(regs.ls_timer1.applied.tick_sel);
}

#[test]
fn scenario_c_no_valid_divisor() {
    let clocks = apb_clocks(80_000_000);
    let mut regs = Registers::new();
    let mut timer: Timer<LowSpeed> = Timer::new(Number::Timer2);

    let r = timer.configure(
        &clocks,
        &mut regs,
        Config { duty: Duty::Duty1Bit, clock_source: LSClockSource::APBClk, frequency: 1 },
    );

    // Both the primary and the fallback divisor exceed the register maximum.
    assert_eq!(r, Err(Error::Divisor));
    assert!(!timer.is_configured());
    assert_eq!(timer.get_frequency(), 0);
    assert_eq!(timer.get_duty(), None);
    assert!(!timer.use_ref_tick);
    assert_eq!(regs, Registers::new());
}

#[test]
fn reconfigure_keeps_only_second_state() {
    let clocks = apb_clocks(80_000_000);
    let mut regs = Registers::new();
    let mut timer: Timer<LowSpeed> = Timer::new(Number::Timer0);

    // The first call needs the fallback (primary divisor 640_000).
    let first = timer.configure(
        &clocks,
        &mut regs,
        Config { duty: Duty::Duty5Bit, clock_source: LSClockSource::APBClk, frequency: 1_000 },
    );
    assert_eq!(first, Ok(()));
    assert!(timer.use_ref_tick);

    // The second call fits the primary path; only its parameters remain.
    let second = timer.configure(
        &clocks,
        &mut regs,
        Config { duty: Duty::Duty8Bit, clock_source: LSClockSource::APBClk, frequency: 1_000 },
    );
    assert_eq!(second, Ok(()));

    assert_eq!(timer.get_frequency(), 1_000);
    assert_eq!(timer.get_duty(), Some(Duty::Duty8Bit));
    // No residual alternate-tick state from the first call.
    assert!(!timer.use_ref_tick);
    // floor((80_000_000 * 256) / 1_000 / 256) == 80_000
    assert_eq!(regs.ls_timer0.applied.div_num, 80_000);
    assert_eq!(regs.ls_timer0.applied.duty_res, 8);
    assert!(!regs.ls_timer0.applied.tick_sel);
}

#[test]
fn failed_reconfigure_keeps_previous_state() {
    let clocks = apb_clocks(80_000_000);
    let mut regs = Registers::new();
    let mut timer: Timer<LowSpeed> = Timer::new(Number::Timer3);

    let ok = timer.configure(
        &clocks,
        &mut regs,
        Config { duty: Duty::Duty5Bit, clock_source: LSClockSource::APBClk, frequency: 24_000 },
    );
    assert_eq!(ok, Ok(()));
    let regs_after_first = regs;

    let failed = timer.configure(
        &clocks,
        &mut regs,
        Config { duty: Duty::Duty1Bit, clock_source: LSClockSource::APBClk, frequency: 1 },
    );
    assert_eq!(failed, Err(Error::Divisor));

    // The timer retains its prior configuration; no register was written.
    assert!(timer.is_configured());
    assert_eq!(timer.get_frequency(), 24_000);
    assert_eq!(timer.get_duty(), Some(Duty::Duty5Bit));
    assert_eq!(regs, regs_after_first);
}

#[test]
fn divisor_floor_boundary() {
    let mut regs = Registers::new();

    // floor((2_000 * 256) / 1_000 / 2) == 256: exactly at the floor.
    let mut at_floor: Timer<LowSpeed> = Timer::new(Number::Timer0);
    let r = at_floor.configure(
        &apb_clocks(2_000),
        &mut regs,
        Config { duty: Duty::Duty1Bit, clock_source: LSClockSource::APBClk, frequency: 1_000 },
    );
    assert_eq!(r, Ok(()));
    assert_eq!(regs.ls_timer0.applied.div_num, 256);

    // floor((1_999 * 256) / 1_000 / 2) == 255: below the floor.
    let mut below_floor: Timer<LowSpeed> = Timer::new(Number::Timer1);
    let r = below_floor.configure(
        &apb_clocks(1_999),
        &mut regs,
        Config { duty: Duty::Duty1Bit, clock_source: LSClockSource::APBClk, frequency: 1_000 },
    );
    assert_eq!(r, Err(Error::Divisor));
    assert!(!below_floor.is_configured());
}

#[test]
fn divisor_max_boundary() {
    let mut regs = Registers::new();

    // floor((2_047_996 * 256) / 1_000 / 2) == 0x3FFFF exactly: not beyond the
    // maximum, so no fallback, but the range check is strict and rejects it.
    let mut at_max: Timer<LowSpeed> = Timer::new(Number::Timer0);
    let r = at_max.configure(
        &apb_clocks(2_047_996),
        &mut regs,
        Config { duty: Duty::Duty1Bit, clock_source: LSClockSource::APBClk, frequency: 1_000 },
    );
    assert_eq!(r, Err(Error::Divisor));
    assert!(!at_max.is_configured());
    assert!(!at_max.use_ref_tick);

    // floor((2_048_004 * 256) / 1_000 / 2) == 0x40000: beyond the maximum, so
    // the fallback activates and lands in range.
    let mut beyond_max: Timer<LowSpeed> = Timer::new(Number::Timer1);
    let r = beyond_max.configure(
        &apb_clocks(2_048_004),
        &mut regs,
        Config { duty: Duty::Duty1Bit, clock_source: LSClockSource::APBClk, frequency: 1_000 },
    );
    assert_eq!(r, Ok(()));
    assert!(beyond_max.use_ref_tick);
    // floor((1_000_000 * 256) / 1_000 / 2) == 128_000
    assert_eq!(regs.ls_timer1.applied.div_num, 128_000);
}

#[test]
fn configure_hw_stays_pending_until_update() {
    let mut regs = Registers::new();
    let timer: Timer<LowSpeed> = Timer::new(Number::Timer0);

    timer.configure_hw(&mut regs, 300, Duty::Duty5Bit, false);

    // The write is buffered: the running configuration is still the reset one.
    assert_eq!(regs.ls_timer0.pending.div_num, 300);
    assert_eq!(regs.ls_timer0.applied.div_num, 0);

    timer.update_hw(&mut regs);

    // The update bit atomically applies the pending fields.
    assert_eq!(regs.ls_timer0.applied.div_num, 300);
    assert_eq!(regs.ls_timer0.applied.duty_res, 5);
    assert_eq!(regs.ls_timer0.applied, regs.ls_timer0.pending);
}

#[test]
fn fresh_timer_is_unconfigured() {
    let clocks = apb_clocks(80_000_000);
    let timer: Timer<LowSpeed> = Timer::new(Number::Timer2);
    assert!(!timer.is_configured());
    assert_eq!(timer.get_number(), Number::Timer2);
    assert_eq!(timer.get_duty(), None);
    assert_eq!(timer.get_frequency(), 0);
    assert_eq!(timer.get_freq(&clocks), None);
}

#[test]
fn get_freq_resolves_stored_clock_source() {
    let clocks = apb_clocks(80_000_000);
    let mut regs = Registers::new();
    let mut timer: Timer<LowSpeed> = Timer::new(Number::Timer0);
    let r = timer.configure(
        &clocks,
        &mut regs,
        Config { duty: Duty::Duty5Bit, clock_source: LSClockSource::APBClk, frequency: 24_000 },
    );
    assert_eq!(r, Ok(()));
    assert_eq!(timer.get_freq(&clocks), Some(80_000_000));
}
