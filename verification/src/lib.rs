//! Decision core of a serial transceiver and a monotonic cycle-counter clock.
//!
//! Every function here works on plain values: a snapshot of a status register,
//! a reading of the cycle counter, a bus frequency. The caller performs the
//! register accesses and hands the values in; the functions say what to do next.

pub mod dma;
pub mod gpio;
pub mod rcc;
pub mod retry;
pub mod serial;
pub mod time;
