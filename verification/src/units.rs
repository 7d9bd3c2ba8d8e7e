//! The integer lattice on which the world is measured.

use vstd::prelude::*;

verus! {

/// Lattice steps in one world unit: the length `v` is the integer `v * UNIT`. Zoom
/// scales, scroll amounts and angles are measured in the same steps. Times are whole
/// nanoseconds, so that a speed in units a second is the same number in steps a
/// nanosecond.
pub const UNIT: i64 = 1_000_000_000;

} // verus!
