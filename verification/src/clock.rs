//! Resolved system clock frequencies that the timers divide down from.

use vstd::prelude::*;

verus! {

/// Frequencies of the system clock tree, in Hz. Only the APB clock feeds the
/// timer speed domains modeled here.
#[derive(PartialEq, Eq, Structural, Copy, Clone, Debug)]
pub struct Clocks {
    /// APB bus clock frequency in Hz.
    pub apb_clock: u32,
}

} // verus!
