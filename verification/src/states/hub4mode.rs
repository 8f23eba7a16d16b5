//! The setting that says who runs the grid-setpoint loop.

use vstd::prelude::*;

verus! {

pub const PHASE_COMPENSATION: i32 = 1;

pub const INDIVIDUAL_PHASE: i32 = 2;

/// An external controller owns the grid-setpoint loop.
pub const EXTERNAL: i32 = 3;

} // verus!
