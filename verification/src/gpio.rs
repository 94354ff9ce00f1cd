//! Pin capability tokens.
//!
//! A value of one of these types stands for a pin that has been put into
//! alternate function 7, the function that routes it to a serial peripheral.
//! Whoever configures the pins makes the token; this crate takes it on trust.

use vstd::prelude::*;

verus! {

/// Pin A2 in alternate function 7.
pub struct PA2;

/// Pin A3 in alternate function 7.
pub struct PA3;

/// Pin A9 in alternate function 7.
pub struct PA9;

/// Pin A10 in alternate function 7.
pub struct PA10;

/// Pin B6 in alternate function 7.
pub struct PB6;

/// Pin B7 in alternate function 7.
pub struct PB7;

} // verus!
