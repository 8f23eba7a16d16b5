//! The battery-life state setting. Values 0 to 8 are the BatteryLife ladder, 9 to 12
//! the ladder without it.

use vstd::prelude::*;

verus! {

pub const DISABLED: i32 = 0;

pub const RESTART: i32 = 1;

pub const DEFAULT: i32 = 2;

pub const ABSORPTION: i32 = 3;

pub const FLOAT: i32 = 4;

pub const DISCHARGED: i32 = 5;

pub const FORCE_CHARGE: i32 = 6;

pub const SUSTAIN: i32 = 7;

pub const LOW_SOC_CHARGE: i32 = 8;

pub const SOCG_KEEP_CHARGED: i32 = 9;

pub const SOCG_DEFAULT: i32 = 10;

pub const SOCG_DISCHARGED: i32 = 11;

pub const SOCG_LOW_SOC_CHARGE: i32 = 12;

} // verus!
