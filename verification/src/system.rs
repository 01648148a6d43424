//! Peripheral clock gating, the one system-level side effect the controller
//! performs when it is created.

use vstd::prelude::*;

verus! {

/// Gated peripherals relevant to this driver.
#[derive(PartialEq, Eq, Structural, Copy, Clone, Debug)]
pub enum Peripheral {
    Ledc,
}

/// Model of the system clock-gate control block: which peripheral gates are
/// open.
#[derive(PartialEq, Eq, Structural, Copy, Clone, Debug)]
pub struct PeripheralClockControl {
    pub ledc_enabled: bool,
}

impl PeripheralClockControl {
    /// A control block with every gate still closed, as after reset.
    pub fn new() -> (r: Self)
        ensures
            !r.ledc_enabled,
    {
        PeripheralClockControl { ledc_enabled: false }
    }

    /// Open the clock gate of the given peripheral.
    pub fn enable(&mut self, peripheral: Peripheral)
        ensures
            match peripheral {
                Peripheral::Ledc => *final(self) == (PeripheralClockControl { ledc_enabled: true }),
            },
    {
        match peripheral {
            Peripheral::Ledc => {
                self.ledc_enabled = true;
            },
        }
    }
}

} // verus!
