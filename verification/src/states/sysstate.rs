//! The published system state: the range that belongs to energy storage.

use vstd::prelude::*;

verus! {

pub const EXTERNAL_CONTROL: i64 = 0xFC;

pub const DISCHARGING: i64 = 0x100;

pub const SUSTAIN: i64 = 0x101;

pub const RECHARGE: i64 = 0x102;

pub const SCHEDULED_CHARGE: i64 = 0x103;

pub const BATTERY_PROTECT: i64 = 0x105;

} // verus!
