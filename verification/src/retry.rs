//! The retry signal of operations that never wait.

use vstd::prelude::*;

verus! {

/// The operation cannot complete yet; the caller tries again later.
/// This is no fault.
#[derive(Clone, Copy, Debug, PartialEq, Eq, Structural)]
pub struct WouldBlock;

} // verus!
