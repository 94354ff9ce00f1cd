//! What the clock tree hands to the peripherals: the buses and their frequencies.

use vstd::prelude::*;
use crate::time::Hertz;

verus! {

/// A peripheral bus, with its own clock gate and reset line for each peripheral on it.
#[derive(Clone, Copy, Debug, PartialEq, Eq, Structural)]
pub enum Bus {
    /// Low-speed peripheral bus, first register bank
    APB1R1,
    /// High-speed peripheral bus
    APB2,
}

/// Frozen clock frequencies
///
/// The clock tree is configured elsewhere; a value of this type records where it
/// was left, and is only read here.
#[derive(Clone, Copy, Debug)]
pub struct Clocks {
    /// Frequency of the low-speed peripheral bus
    pub pclk1: Hertz,
    /// Frequency of the high-speed peripheral bus
    pub pclk2: Hertz,
    /// Frequency of the core, at which the cycle counter increments
    pub sysclk: Hertz,
}

} // verus!
