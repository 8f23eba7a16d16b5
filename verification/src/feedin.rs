//! Feed-in and export flags.
//!
//! Besides the power setpoint the inverter takes five flags that say whether, and how
//! much, may be fed into the grid. This module derives them from what was read, keeps
//! the integrator that stops charging on DC overvoltage, and plans writes only for what
//! changed and what the firmware knows. The sustain state belongs to the firmware: it
//! is read and mirrored into the discharge budget, and never written.

use crate::num::near;
use crate::num::or;
use crate::num::products_are_rounded;
use crate::num::quotients_are_rounded;
use crate::num::sums_are_exact;
use crate::num::Num;
use crate::socguard::is_discharged_set;
use crate::states::bl;
use crate::text::decimal_text;
use crate::text::join3;
use vstd::prelude::*;

verus! {

/// "No feed-in limit" (200 kW, in millionths of a watt).
pub const MAXFEEDIN_UNLIMITED: i64 = 200_000_000_000;

/// Weight of the new limit when it rises (0.6, in millionths).
pub const SLEW_UP_NEW: i64 = 600_000;

/// Weight of the previous limit when it rises (0.4, in millionths).
pub const SLEW_UP_PREV: i64 = 400_000;

/// The charge voltage may be exceeded by this factor (1.01, in millionths).
pub const OV_CHARGE_FACTOR: i64 = 1_010_000;

/// Millivolts in a volt (1000, in millionths).
pub const MILLIVOLTS: i64 = 1_000_000_000;

/// Charging is blocked while the integrator exceeds this (one square volt, in millionths
/// of a square millivolt).
pub const OV_TRIP: i64 = 1_000_000_000_000;

/// A minimum state of charge above this (99 %, in millionths) keeps the battery charged.
pub const KEEPCHARGED_SOC: i64 = 99_000_000;

/// The AC source number of a generator.
pub const AC_SOURCE_GENERATOR: i32 = 2;

/// At or below the floor of the state of charge?
fn is_floor_state(state: i32) -> (r: bool)
    ensures
        r == crate::socguard::discharged(state),
{
    is_discharged_set(state)
}

/// The item that holds the feed-in limit of phase `n`.
pub fn p_maxfeedin(n: u8) -> (r: String)
    ensures
        r@ == "/Hub4/L"@ + crate::text::decimal(n as nat) + "/MaxFeedInPower"@,
{
    join3("/Hub4/L", decimal_text(n as u64).as_str(), "/MaxFeedInPower")
}

/// How feed-in is run.
#[derive(Clone, Copy, Debug, PartialEq, Eq, Structural)]
pub enum FeedInMode {
    /// Force charge; the setpoint is taken as the greatest feed-in.
    Tpimfi,
    /// Force charge, flat out.
    ForceFlat,
    /// Track the grid target.
    Normal,
}

/// Outside influence on feed-in.
#[derive(Clone, Copy, Debug, PartialEq, Eq, Structural)]
pub struct Overrides {
    /// The merged discharge bound (W); not finite where there is none.
    pub discharge_bound_w: Num,
    /// 0 is no override, 1 forces no feed-in of excess, 2 forces it.
    pub feed_in_excess: i32,
    pub force_charge: bool,
}

impl Default for Overrides {
    fn default() -> (r: Self)
        ensures
            r == (Overrides { discharge_bound_w: Num::Nan, feed_in_excess: 0, force_charge: false }),
    {
        Overrides { discharge_bound_w: Num::Nan, feed_in_excess: 0, force_charge: false }
    }
}

/// One value per phase.
#[derive(Debug, PartialEq, Eq, Structural)]
pub struct PerPhase<T> {
    pub l1: T,
    pub l2: T,
    pub l3: T,
}

impl<T: Copy> Copy for PerPhase<T> {

}

impl<T: Copy> Clone for PerPhase<T> {
    fn clone(&self) -> (r: Self)
        ensures
            r == *self,
    {
        *self
    }
}

/// One pass of reads; a field is `None` where the read failed.
#[derive(Clone, Copy, Debug, PartialEq, Eq, Structural)]
pub struct Reads {
    /// The inverter's state: unreadable means the inverter is not there.
    pub multi_state: Option<Num>,
    pub sustain: Option<bool>,
    pub dc_voltage: Option<Num>,
    pub charge_voltage: Option<Num>,
    pub phases: Option<i32>,
    pub ac_source: Option<i32>,
    pub dvcc: Option<bool>,
    pub overvoltage_feedin: Option<bool>,
    pub always_peakshave: Option<bool>,
    pub maxfeedin_setting: Option<Num>,
    pub acexport_limit: Option<Num>,
    pub max_discharge: Option<Num>,
    pub bl_state: Option<i32>,
    pub bl_min_soc: Option<Num>,
}

/// What one tick goes by.
#[derive(Clone, Copy, Debug, PartialEq, Eq, Structural)]
pub struct Inputs {
    pub present: bool,
    pub sustain: bool,
    pub dc_voltage: Num,
    pub charge_voltage: Num,
    /// One to three.
    pub phases: u8,
    pub ac_source: i32,
    pub dvcc: bool,
    pub overvoltage_feedin: bool,
    pub always_peakshave: bool,
    /// Not a number where unlimited.
    pub maxfeedin_setting: Num,
    pub acexport_limit: Num,
    pub max_discharge: Num,
    pub bl_state: i32,
    pub bl_min_soc: Num,
}

/// A negative setting means "off": not a number.
pub open spec fn unset_if_negative(v: Option<Num>) -> Num {
    match v {
        Some(x) => if Num::Fin(0).le(x) {
            x
        } else {
            Num::Nan
        },
        None => Num::Nan,
    }
}

fn neg1_nan(v: Option<Num>) -> (r: Num)
    ensures
        r == unset_if_negative(v),
{
    match v {
        Some(x) => if Num::Fin(0).le(x) {
            x
        } else {
            Num::Nan
        },
        None => Num::Nan,
    }
}

fn flag(v: Option<bool>) -> (r: bool)
    ensures
        r == (v == Some(true)),
{
    match v {
        Some(b) => b,
        None => false,
    }
}

fn int_or_zero(v: Option<i32>) -> (r: i32)
    ensures
        r == zero_if_unread(v),
{
    match v {
        Some(x) => x,
        None => 0,
    }
}

pub open spec fn zero_if_unread(v: Option<i32>) -> i32 {
    match v {
        Some(x) => x,
        None => 0,
    }
}

impl Reads {
    /// The number of phases: one where unread, else held between one and three.
    pub open spec fn phase_count(self) -> u8 {
        match self.phases {
            Some(p) => if p < 1 {
                1
            } else if p > 3 {
                3
            } else {
                p as u8
            },
            None => 1,
        }
    }

    /// The inputs that one pass of reads stands for.
    pub open spec fn inputs(self) -> Inputs {
        Inputs {
            present: self.multi_state is Some,
            sustain: self.sustain == Some(true),
            dc_voltage: or(self.dc_voltage, Num::Nan),
            charge_voltage: or(self.charge_voltage, Num::Nan),
            phases: self.phase_count(),
            ac_source: zero_if_unread(self.ac_source),
            dvcc: self.dvcc == Some(true),
            overvoltage_feedin: self.overvoltage_feedin == Some(true),
            always_peakshave: self.always_peakshave == Some(true),
            maxfeedin_setting: unset_if_negative(self.maxfeedin_setting),
            acexport_limit: unset_if_negative(self.acexport_limit),
            max_discharge: unset_if_negative(self.max_discharge),
            bl_state: zero_if_unread(self.bl_state),
            bl_min_soc: or(self.bl_min_soc, Num::Fin(0)),
        }
    }
}

/// What was last written of each flag; `None` until the first write.
#[derive(Clone, Copy, Debug, PartialEq, Eq, Structural)]
pub struct LastWritten {
    pub disable_feedin: Option<i32>,
    pub dnfio: Option<i32>,
    pub tpimfi: Option<i32>,
    pub fix_solar: Option<i32>,
    pub maxfeedin: PerPhase<Option<Num>>,
}

/// The feed-in manager.
#[derive(Clone, Copy, Debug, PartialEq, Eq, Structural)]
pub struct FeedIn {
    pub mode: FeedInMode,
    /// The limit of each phase as last computed.
    pub prev_maxfeedin: PerPhase<Num>,
    /// The DC-overvoltage integrator, in square millivolts: the square of a voltage is
    /// held exactly that way.
    pub ov_accum: Num,
    pub last: LastWritten,
    pub overrides: Overrides,
    /// Flags that this firmware has.
    pub has_dnfio: bool,
    pub has_tpimfi: bool,
    pub has_maxfeedin: bool,
}

/// The outcome of one tick.
#[derive(Clone, Copy, Debug, PartialEq, Eq, Structural)]
pub struct Output {
    pub mode: FeedInMode,
    /// The DC-overvoltage integrator, in square millivolts.
    pub ov_accum: Num,
    pub sustain: bool,
    /// 0 where the inverter was not there.
    pub phases: u8,
    pub disable_feedin: i32,
    pub do_not_feed_in_overvoltage: i32,
    pub target_power_is_max_feedin: i32,
    pub fix_solar_offset: i32,
    pub max_feedin_power: PerPhase<Num>,
    pub w_disable_feedin: Option<i32>,
    pub w_dnfio: Option<i32>,
    pub w_tpimfi: Option<i32>,
    pub w_fix_solar: Option<i32>,
    pub w_maxfeedin: PerPhase<Option<Num>>,
}

/// One flag to write.
#[derive(Clone, Copy, Debug, PartialEq, Eq, Structural)]
pub enum FlagWrite {
    DisableFeedIn(i32),
    DoNotFeedInOvervoltage(i32),
    TargetPowerIsMaxFeedIn(i32),
    FixSolarOffset(i32),
    /// Phase, from 1, and limit (W).
    MaxFeedIn(u8, Num),
}

impl FlagWrite {
    /// The item that the flag lives in.
    pub open spec fn item(self) -> Seq<char> {
        match self {
            FlagWrite::DisableFeedIn(_) => "/Hub4/DisableFeedIn"@,
            FlagWrite::DoNotFeedInOvervoltage(_) => "/Hub4/DoNotFeedInOvervoltage"@,
            FlagWrite::TargetPowerIsMaxFeedIn(_) => "/Hub4/TargetPowerIsMaxFeedIn"@,
            FlagWrite::FixSolarOffset(_) => "/Hub4/FixSolarOffsetTo100mV"@,
            FlagWrite::MaxFeedIn(n, _) => "/Hub4/L"@ + crate::text::decimal(n as nat)
                + "/MaxFeedInPower"@,
        }
    }

    /// The path to write to.
    pub fn path(&self) -> (r: String)
        ensures
            r@ == self.item(),
    {
        match *self {
            FlagWrite::DisableFeedIn(_) => "/Hub4/DisableFeedIn".to_owned(),
            FlagWrite::DoNotFeedInOvervoltage(_) => "/Hub4/DoNotFeedInOvervoltage".to_owned(),
            FlagWrite::TargetPowerIsMaxFeedIn(_) => "/Hub4/TargetPowerIsMaxFeedIn".to_owned(),
            FlagWrite::FixSolarOffset(_) => "/Hub4/FixSolarOffsetTo100mV".to_owned(),
            FlagWrite::MaxFeedIn(n, _) => p_maxfeedin(n),
        }
    }
}

/// The square of a voltage, in square millivolts.
pub open spec fn square_mv(volts: Num) -> Num {
    volts.times(Num::Fin(MILLIVOLTS)).times(volts.times(Num::Fin(MILLIVOLTS)))
}

/// The write that brings an item from `last` to `val`: none where the firmware lacks
/// the item or it holds the value already.
pub open spec fn changed(last: Option<i32>, present: bool, val: i32) -> Option<i32> {
    if present && last != Some(val) {
        Some(val)
    } else {
        None
    }
}

/// What the item then holds.
pub open spec fn held(last: Option<i32>, present: bool, val: i32) -> Option<i32> {
    if present {
        Some(val)
    } else {
        last
    }
}

fn plan_flag(last: &mut Option<i32>, present: bool, val: i32) -> (r: Option<i32>)
    ensures
        r == changed(*old(last), present, val),
        *final(last) == held(*old(last), present, val),
{
    if !present {
        return None;
    }
    let unchanged = match *last {
        Some(v) => v == val,
        None => false,
    };
    if unchanged {
        None
    } else {
        *last = Some(val);
        Some(val)
    }
}

/// The same for a limit.
pub open spec fn limit_changed(last: Option<Num>, active: bool, val: Num) -> Option<Num> {
    if active && !(last is Some && last->0.same(val)) {
        Some(val)
    } else {
        None
    }
}

pub open spec fn limit_held(last: Option<Num>, active: bool, val: Num) -> Option<Num> {
    if limit_changed(last, active, val) is Some {
        Some(val)
    } else {
        last
    }
}

fn plan_limit(last: &mut Option<Num>, active: bool, val: Num) -> (r: Option<Num>)
    ensures
        r == limit_changed(*old(last), active, val),
        *final(last) == limit_held(*old(last), active, val),
{
    if !active {
        return None;
    }
    let unchanged = match *last {
        Some(v) => v.same(val),
        None => false,
    };
    if unchanged {
        None
    } else {
        *last = Some(val);
        Some(val)
    }
}

fn bit(b: bool) -> (r: i32)
    ensures
        r == as_bit(b),
{
    if b {
        1
    } else {
        0
    }
}

pub open spec fn as_bit(b: bool) -> i32 {
    if b {
        1
    } else {
        0
    }
}

impl FeedIn {
    /// A manager that has written nothing yet. The arguments say which optional flags
    /// the firmware has.
    pub fn new(has_dnfio: bool, has_tpimfi: bool, has_maxfeedin: bool) -> (f: Self)
        ensures
            f == (FeedIn {
                mode: FeedInMode::Normal,
                prev_maxfeedin: PerPhase { l1: Num::Fin(0), l2: Num::Fin(0), l3: Num::Fin(0) },
                ov_accum: Num::Fin(0),
                last: LastWritten {
                    disable_feedin: None,
                    dnfio: None,
                    tpimfi: None,
                    fix_solar: None,
                    maxfeedin: PerPhase { l1: None, l2: None, l3: None },
                },
                overrides: Overrides {
                    discharge_bound_w: Num::Nan,
                    feed_in_excess: 0,
                    force_charge: false,
                },
                has_dnfio,
                has_tpimfi,
                has_maxfeedin,
            }),
    {
        FeedIn {
            mode: FeedInMode::Normal,
            prev_maxfeedin: PerPhase { l1: Num::Fin(0), l2: Num::Fin(0), l3: Num::Fin(0) },
            ov_accum: Num::Fin(0),
            last: LastWritten {
                disable_feedin: None,
                dnfio: None,
                tpimfi: None,
                fix_solar: None,
                maxfeedin: PerPhase { l1: None, l2: None, l3: None },
            },
            overrides: Overrides {
                discharge_bound_w: Num::Nan,
                feed_in_excess: 0,
                force_charge: false,
            },
            has_dnfio,
            has_tpimfi,
            has_maxfeedin,
        }
    }

    /// Replace the overrides.
    pub fn set_overrides(&mut self, ov: Overrides)
        ensures
            *final(self) == (FeedIn { overrides: ov, ..*old(self) }),
    {
        self.overrides = ov;
    }

    fn read(&self, reads: &Reads) -> (i: Inputs)
        ensures
            i == reads.inputs(),
            1 <= i.phases <= 3,
    {
        let phases: u8 = match reads.phases {
            Some(p) => if p < 1 {
                1
            } else if p > 3 {
                3
            } else {
                p as u8
            },
            None => 1,
        };
        Inputs {
            present: reads.multi_state.is_some(),
            sustain: flag(reads.sustain),
            dc_voltage: or(reads.dc_voltage, Num::Nan),
            charge_voltage: or(reads.charge_voltage, Num::Nan),
            phases,
            ac_source: int_or_zero(reads.ac_source),
            dvcc: flag(reads.dvcc),
            overvoltage_feedin: flag(reads.overvoltage_feedin),
            always_peakshave: flag(reads.always_peakshave),
            maxfeedin_setting: neg1_nan(reads.maxfeedin_setting),
            acexport_limit: neg1_nan(reads.acexport_limit),
            max_discharge: neg1_nan(reads.max_discharge),
            bl_state: int_or_zero(reads.bl_state),
            bl_min_soc: or(reads.bl_min_soc, Num::Fin(0)),
        }
    }

    /// Must the battery be charged?
    pub open spec fn forced(self, i: Inputs) -> bool {
        self.overrides.force_charge || i.bl_state == bl::SOCG_KEEP_CHARGED || Num::Fin(
            KEEPCHARGED_SOC,
        ).lt(i.bl_min_soc) || i.bl_state == bl::LOW_SOC_CHARGE || i.bl_state
            == bl::SOCG_LOW_SOC_CHARGE
    }

    fn keep_charged(&self, i: &Inputs) -> (r: bool)
        ensures
            r == (i.bl_state == bl::SOCG_KEEP_CHARGED || Num::Fin(KEEPCHARGED_SOC).lt(
                i.bl_min_soc,
            )),
    {
        i.bl_state == bl::SOCG_KEEP_CHARGED || Num::Fin(KEEPCHARGED_SOC).lt(i.bl_min_soc)
    }

    fn must_force_charge(&self, i: &Inputs) -> (r: bool)
        ensures
            r == self.forced(*i),
    {
        self.overrides.force_charge || self.keep_charged(i) || i.bl_state == bl::LOW_SOC_CHARGE
            || i.bl_state == bl::SOCG_LOW_SOC_CHARGE
    }

    /// May DC excess be fed in? An override wins over the setting.
    pub open spec fn excess_allowed(self, i: Inputs) -> bool {
        if self.overrides.feed_in_excess != 0 {
            self.overrides.feed_in_excess == 2
        } else {
            i.overvoltage_feedin
        }
    }

    fn feed_in_excess_allowed(&self, i: &Inputs) -> (r: bool)
        ensures
            r == self.excess_allowed(*i),
    {
        if self.overrides.feed_in_excess != 0 {
            self.overrides.feed_in_excess == 2
        } else {
            i.overvoltage_feedin
        }
    }

    /// The mode that the inputs call for.
    pub open spec fn mode_for(self, i: Inputs) -> FeedInMode {
        let capped = i.dvcc && self.has_tpimfi;
        if i.ac_source == AC_SOURCE_GENERATOR {
            if capped {
                FeedInMode::Tpimfi
            } else {
                FeedInMode::ForceFlat
            }
        } else if !self.forced(i) {
            FeedInMode::Normal
        } else if capped && !self.excess_allowed(i) {
            FeedInMode::Tpimfi
        } else {
            FeedInMode::ForceFlat
        }
    }

    fn compute_mode(&self, i: &Inputs) -> (r: FeedInMode)
        ensures
            r == self.mode_for(*i),
    {
        let fw_tpimfi = i.dvcc && self.has_tpimfi;
        if i.ac_source == AC_SOURCE_GENERATOR {
            if fw_tpimfi {
                FeedInMode::Tpimfi
            } else {
                FeedInMode::ForceFlat
            }
        } else if !self.must_force_charge(i) {
            FeedInMode::Normal
        } else if fw_tpimfi {
            if self.feed_in_excess_allowed(i) {
                FeedInMode::ForceFlat
            } else {
                FeedInMode::Tpimfi
            }
        } else {
            FeedInMode::ForceFlat
        }
    }

    /// The discharge budget: the tighter of setting and live bound, not finite where
    /// neither is known, and 0 in sustain.
    pub open spec fn discharge_budget(self, i: Inputs) -> Num {
        if i.sustain || i.bl_state == bl::SUSTAIN {
            Num::Fin(0)
        } else if self.overrides.discharge_bound_w.is_finite() {
            if i.max_discharge.is_finite() {
                i.max_discharge.min(self.overrides.discharge_bound_w)
            } else {
                self.overrides.discharge_bound_w
            }
        } else {
            i.max_discharge
        }
    }

    /// May the battery be discharged? An unknown budget allows it.
    pub open spec fn dischargeable(self, i: Inputs) -> bool {
        !self.discharge_budget(i).is_finite() || Num::Fin(0).lt(self.discharge_budget(i))
    }

    fn can_discharge(&self, i: &Inputs) -> (r: bool)
        ensures
            r == self.dischargeable(*i),
    {
        let mut max_dis = i.max_discharge;
        let ovr = self.overrides.discharge_bound_w;
        if ovr.is_finite() {
            max_dis = if max_dis.is_finite() {
                max_dis.min(ovr)
            } else {
                ovr
            };
        }
        if i.sustain || i.bl_state == bl::SUSTAIN {
            max_dis = Num::Fin(0);
        }
        !max_dis.is_finite() || Num::Fin(0).lt(max_dis)
    }

    /// The feed-in limit of a phase whose limit was `prev`: unlimited where nothing
    /// limits it, else its share of the configured limit, approached slowly from below
    /// and at once from above.
    pub open spec fn limit_for(self, i: Inputs, prev: Num) -> Num {
        if self.excess_allowed(i) && !i.maxfeedin_setting.is_finite()
            && !i.acexport_limit.is_finite() {
            Num::Fin(MAXFEEDIN_UNLIMITED)
        } else {
            let total = if i.maxfeedin_setting.is_finite() {
                i.maxfeedin_setting
            } else {
                Num::Fin(MAXFEEDIN_UNLIMITED)
            };
            let share = total.over(crate::num::whole(i.phases as int));
            if prev.lt(share) {
                Num::Fin(SLEW_UP_NEW).times(share).plus(Num::Fin(SLEW_UP_PREV).times(prev))
            } else {
                share
            }
        }
    }

    fn phase_limit(&self, i: &Inputs, excess_ok: bool, prev: Num) -> (r: Num)
        requires
            excess_ok == self.excess_allowed(*i),
        ensures
            r == self.limit_for(*i, prev),
    {
        if excess_ok && !i.maxfeedin_setting.is_finite() && !i.acexport_limit.is_finite() {
            return Num::Fin(MAXFEEDIN_UNLIMITED);
        }
        let total = if i.maxfeedin_setting.is_finite() {
            i.maxfeedin_setting
        } else {
            Num::Fin(MAXFEEDIN_UNLIMITED)
        };
        let share = total.over(Num::of(i.phases as i64));
        if prev.lt(share) {
            Num::Fin(SLEW_UP_NEW).times(share).plus(Num::Fin(SLEW_UP_PREV).times(prev))
        } else {
            share
        }
    }

    /// The limits of all phases; not a number for a phase that is not there.
    pub open spec fn limits(self, i: Inputs) -> PerPhase<Num> {
        PerPhase {
            l1: self.limit_for(i, self.prev_maxfeedin.l1),
            l2: if i.phases >= 2 {
                self.limit_for(i, self.prev_maxfeedin.l2)
            } else {
                Num::Nan
            },
            l3: if i.phases >= 3 {
                self.limit_for(i, self.prev_maxfeedin.l3)
            } else {
                Num::Nan
            },
        }
    }

    /// The memory of the limits after the tick.
    pub open spec fn limits_kept(self, i: Inputs) -> PerPhase<Num> {
        PerPhase {
            l1: self.limits(i).l1,
            l2: if i.phases >= 2 {
                self.limits(i).l2
            } else {
                self.prev_maxfeedin.l2
            },
            l3: if i.phases >= 3 {
                self.limits(i).l3
            } else {
                self.prev_maxfeedin.l3
            },
        }
    }

    fn compute_maxfeedin(&mut self, i: &Inputs, excess_ok: bool) -> (r: PerPhase<Num>)
        requires
            excess_ok == old(self).excess_allowed(*i),
        ensures
            r == old(self).limits(*i),
            *final(self) == (FeedIn { prev_maxfeedin: old(self).limits_kept(*i), ..*old(self) }),
    {
        let mut out = PerPhase { l1: Num::Nan, l2: Num::Nan, l3: Num::Nan };
        out.l1 = self.phase_limit(i, excess_ok, self.prev_maxfeedin.l1);
        self.prev_maxfeedin.l1 = out.l1;
        if i.phases >= 2 {
            out.l2 = self.phase_limit(i, excess_ok, self.prev_maxfeedin.l2);
            self.prev_maxfeedin.l2 = out.l2;
        }
        if i.phases >= 3 {
            out.l3 = self.phase_limit(i, excess_ok, self.prev_maxfeedin.l3);
            self.prev_maxfeedin.l3 = out.l3;
        }
        out
    }

    /// Is feed-in disabled? Never where the setpoint is the feed-in cap; else where the
    /// battery cannot be discharged, and at the floor unless shaving always.
    pub open spec fn disable_for(self, i: Inputs) -> bool {
        if self.mode_for(i) == FeedInMode::Tpimfi {
            false
        } else {
            !self.dischargeable(i) || (crate::socguard::discharged(i.bl_state)
                && !i.always_peakshave)
        }
    }

    /// Is feed-in of DC excess blocked? Never where the setpoint is the feed-in cap; a
    /// generator is never fed.
    pub open spec fn excess_blocked(self, i: Inputs) -> bool {
        !(i.ac_source != AC_SOURCE_GENERATOR && (self.overrides.feed_in_excess == 2 || (
        self.overrides.feed_in_excess == 0 && i.overvoltage_feedin))) && self.mode_for(i)
            != FeedInMode::Tpimfi
    }

    /// The integrator after the tick: the squared excess adds up, and anything else,
    /// an unread voltage included, clears it.
    pub open spec fn overvoltage_for(self, i: Inputs) -> Num {
        let excess = i.dc_voltage.minus(Num::Fin(OV_CHARGE_FACTOR).times(i.charge_voltage));
        if Num::Fin(0).lt(excess) {
            self.ov_accum.plus(square_mv(excess))
        } else {
            Num::Fin(0)
        }
    }

    /// What the flags hold after the tick.
    pub open spec fn written(self, i: Inputs) -> LastWritten {
        LastWritten {
            disable_feedin: held(self.last.disable_feedin, true, as_bit(self.disable_for(i))),
            dnfio: held(self.last.dnfio, self.has_dnfio, as_bit(self.excess_blocked(i))),
            tpimfi: held(
                self.last.tpimfi,
                self.has_tpimfi,
                as_bit(self.mode_for(i) == FeedInMode::Tpimfi),
            ),
            fix_solar: held(self.last.fix_solar, true, as_bit(i.dvcc)),
            maxfeedin: PerPhase {
                l1: limit_held(self.last.maxfeedin.l1, self.has_maxfeedin, self.limits(i).l1),
                l2: limit_held(
                    self.last.maxfeedin.l2,
                    self.has_maxfeedin && i.phases >= 2,
                    self.limits(i).l2,
                ),
                l3: limit_held(
                    self.last.maxfeedin.l3,
                    self.has_maxfeedin && i.phases >= 3,
                    self.limits(i).l3,
                ),
            },
        }
    }

    /// The state after the tick.
    pub open spec fn after(self, i: Inputs) -> FeedIn {
        if i.present {
            FeedIn {
                mode: self.mode_for(i),
                prev_maxfeedin: self.limits_kept(i),
                ov_accum: self.overvoltage_for(i),
                last: self.written(i),
                ..self
            }
        } else {
            self
        }
    }

    /// The outcome of the tick.
    pub open spec fn outcome(self, i: Inputs) -> Output {
        if i.present {
            Output {
                mode: self.mode_for(i),
                ov_accum: self.overvoltage_for(i),
                sustain: i.sustain,
                phases: i.phases,
                disable_feedin: as_bit(self.disable_for(i)),
                do_not_feed_in_overvoltage: as_bit(self.excess_blocked(i)),
                target_power_is_max_feedin: as_bit(self.mode_for(i) == FeedInMode::Tpimfi),
                fix_solar_offset: as_bit(i.dvcc),
                max_feedin_power: self.limits(i),
                w_disable_feedin: changed(
                    self.last.disable_feedin,
                    true,
                    as_bit(self.disable_for(i)),
                ),
                w_dnfio: changed(self.last.dnfio, self.has_dnfio, as_bit(self.excess_blocked(i))),
                w_tpimfi: changed(
                    self.last.tpimfi,
                    self.has_tpimfi,
                    as_bit(self.mode_for(i) == FeedInMode::Tpimfi),
                ),
                w_fix_solar: changed(self.last.fix_solar, true, as_bit(i.dvcc)),
                w_maxfeedin: PerPhase {
                    l1: limit_changed(
                        self.last.maxfeedin.l1,
                        self.has_maxfeedin,
                        self.limits(i).l1,
                    ),
                    l2: limit_changed(
                        self.last.maxfeedin.l2,
                        self.has_maxfeedin && i.phases >= 2,
                        self.limits(i).l2,
                    ),
                    l3: limit_changed(
                        self.last.maxfeedin.l3,
                        self.has_maxfeedin && i.phases >= 3,
                        self.limits(i).l3,
                    ),
                },
            }
        } else {
            Output::idle(self.mode, self.ov_accum, i.sustain)
        }
    }

    /// One tick. Where the inverter is not there, nothing is planned and nothing moves.
    pub fn tick(&mut self, reads: &Reads) -> (out: Output)
        ensures
            out == old(self).outcome(reads.inputs()),
            *final(self) == old(self).after(reads.inputs()),
    {
        let i = self.read(reads);
        if !i.present {
            return Output::gated(self.mode, self.ov_accum, i.sustain);
        }
        let mode = self.compute_mode(&i);
        let excess_ok = self.feed_in_excess_allowed(&i);
        let can_discharge = self.can_discharge(&i);
        let disable_feedin: i32 = if mode == FeedInMode::Tpimfi {
            0
        } else if !can_discharge {
            1
        } else if is_floor_state(i.bl_state) {
            bit(!i.always_peakshave)
        } else {
            0
        };
        let allow_dc_excess = i.ac_source != AC_SOURCE_GENERATOR && (
        self.overrides.feed_in_excess == 2 || (self.overrides.feed_in_excess == 0
            && i.overvoltage_feedin));
        let dnfio: i32 = if allow_dc_excess {
            0
        } else {
            bit(mode != FeedInMode::Tpimfi)
        };
        let tpimfi: i32 = bit(mode == FeedInMode::Tpimfi);
        let fix_solar: i32 = bit(i.dvcc);
        let maxfeedin = self.compute_maxfeedin(&i, excess_ok);
        let excess = i.dc_voltage.minus(Num::Fin(OV_CHARGE_FACTOR).times(i.charge_voltage));
        self.ov_accum = if Num::Fin(0).lt(excess) {
            let mv = excess.times(Num::Fin(MILLIVOLTS));
            self.ov_accum.plus(mv.times(mv))
        } else {
            Num::Fin(0)
        };
        self.mode = mode;
        let w_disable_feedin = plan_flag(&mut self.last.disable_feedin, true, disable_feedin);
        let w_dnfio = plan_flag(&mut self.last.dnfio, self.has_dnfio, dnfio);
        let w_tpimfi = plan_flag(&mut self.last.tpimfi, self.has_tpimfi, tpimfi);
        let w_fix_solar = plan_flag(&mut self.last.fix_solar, true, fix_solar);
        let w1 = plan_limit(&mut self.last.maxfeedin.l1, self.has_maxfeedin, maxfeedin.l1);
        let w2 = plan_limit(
            &mut self.last.maxfeedin.l2,
            self.has_maxfeedin && i.phases >= 2,
            maxfeedin.l2,
        );
        let w3 = plan_limit(
            &mut self.last.maxfeedin.l3,
            self.has_maxfeedin && i.phases >= 3,
            maxfeedin.l3,
        );
        Output {
            mode,
            ov_accum: self.ov_accum,
            sustain: i.sustain,
            phases: i.phases,
            disable_feedin,
            do_not_feed_in_overvoltage: dnfio,
            target_power_is_max_feedin: tpimfi,
            fix_solar_offset: fix_solar,
            max_feedin_power: maxfeedin,
            w_disable_feedin,
            w_dnfio,
            w_tpimfi,
            w_fix_solar,
            w_maxfeedin: PerPhase { l1: w1, l2: w2, l3: w3 },
        }
    }
}

/// An optional step of a plan.
pub open spec fn step(w: Option<FlagWrite>) -> Seq<FlagWrite> {
    match w {
        Some(f) => seq![f],
        None => Seq::empty(),
    }
}

fn push_step(r: &mut Vec<FlagWrite>, w: Option<FlagWrite>)
    ensures
        final(r)@ == old(r)@ + step(w),
{
    match w {
        Some(f) => {
            r.push(f);
            assert(r@ =~= old(r)@ + step(w));
        },
        None => {
            assert(r@ =~= old(r)@ + step(w));
        },
    }
}

/// The steps for a set of optional flag values.
pub open spec fn plan_of(
    disable_feedin: Option<i32>,
    dnfio: Option<i32>,
    tpimfi: Option<i32>,
    fix_solar: Option<i32>,
    maxfeedin: PerPhase<Option<Num>>,
) -> Seq<FlagWrite> {
    step(as_disable(disable_feedin)) + step(as_dnfio(dnfio)) + step(as_tpimfi(tpimfi)) + step(
        as_fix_solar(fix_solar),
    ) + step(as_limit(1, maxfeedin.l1)) + step(as_limit(2, maxfeedin.l2)) + step(
        as_limit(3, maxfeedin.l3),
    )
}

pub open spec fn as_disable(v: Option<i32>) -> Option<FlagWrite> {
    match v {
        Some(x) => Some(FlagWrite::DisableFeedIn(x)),
        None => None,
    }
}

pub open spec fn as_dnfio(v: Option<i32>) -> Option<FlagWrite> {
    match v {
        Some(x) => Some(FlagWrite::DoNotFeedInOvervoltage(x)),
        None => None,
    }
}

pub open spec fn as_tpimfi(v: Option<i32>) -> Option<FlagWrite> {
    match v {
        Some(x) => Some(FlagWrite::TargetPowerIsMaxFeedIn(x)),
        None => None,
    }
}

pub open spec fn as_fix_solar(v: Option<i32>) -> Option<FlagWrite> {
    match v {
        Some(x) => Some(FlagWrite::FixSolarOffset(x)),
        None => None,
    }
}

pub open spec fn as_limit(n: u8, v: Option<Num>) -> Option<FlagWrite> {
    match v {
        Some(x) => Some(FlagWrite::MaxFeedIn(n, x)),
        None => None,
    }
}

fn plan(
    disable_feedin: Option<i32>,
    dnfio: Option<i32>,
    tpimfi: Option<i32>,
    fix_solar: Option<i32>,
    maxfeedin: PerPhase<Option<Num>>,
) -> (r: Vec<FlagWrite>)
    ensures
        r@ == plan_of(disable_feedin, dnfio, tpimfi, fix_solar, maxfeedin),
{
    let mut r: Vec<FlagWrite> = Vec::new();
    push_step(
        &mut r,
        match disable_feedin {
            Some(x) => Some(FlagWrite::DisableFeedIn(x)),
            None => None,
        },
    );
    push_step(
        &mut r,
        match dnfio {
            Some(x) => Some(FlagWrite::DoNotFeedInOvervoltage(x)),
            None => None,
        },
    );
    push_step(
        &mut r,
        match tpimfi {
            Some(x) => Some(FlagWrite::TargetPowerIsMaxFeedIn(x)),
            None => None,
        },
    );
    push_step(
        &mut r,
        match fix_solar {
            Some(x) => Some(FlagWrite::FixSolarOffset(x)),
            None => None,
        },
    );
    push_step(
        &mut r,
        match maxfeedin.l1 {
            Some(x) => Some(FlagWrite::MaxFeedIn(1, x)),
            None => None,
        },
    );
    push_step(
        &mut r,
        match maxfeedin.l2 {
            Some(x) => Some(FlagWrite::MaxFeedIn(2, x)),
            None => None,
        },
    );
    push_step(
        &mut r,
        match maxfeedin.l3 {
            Some(x) => Some(FlagWrite::MaxFeedIn(3, x)),
            None => None,
        },
    );
    assert(Seq::<FlagWrite>::empty() + step(as_disable(disable_feedin)) =~= step(
        as_disable(disable_feedin),
    ));
    r
}

impl Output {
    /// The outcome while the inverter is not there: the last mode and integrator, and
    /// nothing to write.
    pub open spec fn idle(mode: FeedInMode, ov_accum: Num, sustain: bool) -> Output {
        Output {
            mode,
            ov_accum,
            sustain,
            phases: 0,
            disable_feedin: 0,
            do_not_feed_in_overvoltage: 0,
            target_power_is_max_feedin: 0,
            fix_solar_offset: 0,
            max_feedin_power: PerPhase { l1: Num::Nan, l2: Num::Nan, l3: Num::Nan },
            w_disable_feedin: None,
            w_dnfio: None,
            w_tpimfi: None,
            w_fix_solar: None,
            w_maxfeedin: PerPhase { l1: None, l2: None, l3: None },
        }
    }

    fn gated(mode: FeedInMode, ov_accum: Num, sustain: bool) -> (r: Self)
        ensures
            r == Output::idle(mode, ov_accum, sustain),
    {
        Output {
            mode,
            ov_accum,
            sustain,
            phases: 0,
            disable_feedin: 0,
            do_not_feed_in_overvoltage: 0,
            target_power_is_max_feedin: 0,
            fix_solar_offset: 0,
            max_feedin_power: PerPhase { l1: Num::Nan, l2: Num::Nan, l3: Num::Nan },
            w_disable_feedin: None,
            w_dnfio: None,
            w_tpimfi: None,
            w_fix_solar: None,
            w_maxfeedin: PerPhase { l1: None, l2: None, l3: None },
        }
    }

    /// Does DC overvoltage block charging?
    pub fn block_charge(&self) -> (r: bool)
        ensures
            r == Num::Fin(OV_TRIP).lt(self.ov_accum),
    {
        Num::Fin(OV_TRIP).lt(self.ov_accum)
    }

    /// Must the setpoint force charge flat out?
    pub fn force_flat(&self) -> (r: bool)
        ensures
            r == (self.mode == FeedInMode::ForceFlat),
    {
        self.mode == FeedInMode::ForceFlat
    }

    /// The writes planned by this outcome.
    pub open spec fn planned(self) -> Seq<FlagWrite> {
        plan_of(
            self.w_disable_feedin,
            self.w_dnfio,
            self.w_tpimfi,
            self.w_fix_solar,
            self.w_maxfeedin,
        )
    }

    /// The flags to write, in order.
    pub fn write(&self) -> (r: Vec<FlagWrite>)
        ensures
            r@ == self.planned(),
    {
        plan(
            self.w_disable_feedin,
            self.w_dnfio,
            self.w_tpimfi,
            self.w_fix_solar,
            self.w_maxfeedin,
        )
    }
}

/// The flags as they stood before we touched them; `None` for one that is not there.
#[derive(Clone, Copy, Debug, PartialEq, Eq, Structural)]
pub struct FlagSnapshot {
    pub disable_feedin: Option<i32>,
    pub dnfio: Option<i32>,
    pub tpimfi: Option<i32>,
    pub fix_solar: Option<i32>,
    pub maxfeedin: PerPhase<Option<Num>>,
}

/// Keep the flags as they were read.
pub fn snapshot_flags(
    disable_feedin: Option<i32>,
    dnfio: Option<i32>,
    tpimfi: Option<i32>,
    fix_solar: Option<i32>,
    maxfeedin: PerPhase<Option<Num>>,
) -> (s: FlagSnapshot)
    ensures
        s == (FlagSnapshot { disable_feedin, dnfio, tpimfi, fix_solar, maxfeedin }),
{
    FlagSnapshot { disable_feedin, dnfio, tpimfi, fix_solar, maxfeedin }
}

impl FlagSnapshot {
    /// The writes that put the flags back.
    pub open spec fn planned(self) -> Seq<FlagWrite> {
        plan_of(self.disable_feedin, self.dnfio, self.tpimfi, self.fix_solar, self.maxfeedin)
    }
}

/// The writes that put the flags back where they were; one that could not be read is
/// left alone.
pub fn restore_flags(s: &FlagSnapshot) -> (r: Vec<FlagWrite>)
    ensures
        r@ == s.planned(),
{
    plan(s.disable_feedin, s.dnfio, s.tpimfi, s.fix_solar, s.maxfeedin)
}

/// The flags of an inverter after one write.
pub open spec fn put(flags: FlagSnapshot, w: FlagWrite) -> FlagSnapshot {
    match w {
        FlagWrite::DisableFeedIn(v) => FlagSnapshot { disable_feedin: Some(v), ..flags },
        FlagWrite::DoNotFeedInOvervoltage(v) => FlagSnapshot { dnfio: Some(v), ..flags },
        FlagWrite::TargetPowerIsMaxFeedIn(v) => FlagSnapshot { tpimfi: Some(v), ..flags },
        FlagWrite::FixSolarOffset(v) => FlagSnapshot { fix_solar: Some(v), ..flags },
        FlagWrite::MaxFeedIn(n, v) => FlagSnapshot {
            maxfeedin: if n == 1 {
                PerPhase { l1: Some(v), ..flags.maxfeedin }
            } else if n == 2 {
                PerPhase { l2: Some(v), ..flags.maxfeedin }
            } else {
                PerPhase { l3: Some(v), ..flags.maxfeedin }
            },
            ..flags
        },
    }
}

/// The flags after a sequence of writes.
pub open spec fn put_all(flags: FlagSnapshot, ws: Seq<FlagWrite>) -> FlagSnapshot
    decreases ws.len(),
{
    if ws.len() == 0 {
        flags
    } else {
        put(put_all(flags, ws.drop_last()), ws.last())
    }
}

proof fn put_step(flags: FlagSnapshot, ws: Seq<FlagWrite>, w: Option<FlagWrite>)
    ensures
        put_all(flags, ws + step(w)) == (match w {
            Some(f) => put(put_all(flags, ws), f),
            None => put_all(flags, ws),
        }),
{
    match w {
        Some(f) => {
            assert((ws + step(w)).drop_last() =~= ws);
        },
        None => {
            assert(ws + step(w) =~= ws);
        },
    }
}

proof fn put_plan(
    flags: FlagSnapshot,
    disable_feedin: Option<i32>,
    dnfio: Option<i32>,
    tpimfi: Option<i32>,
    fix_solar: Option<i32>,
    maxfeedin: PerPhase<Option<Num>>,
)
    ensures
        put_all(flags, plan_of(disable_feedin, dnfio, tpimfi, fix_solar, maxfeedin)) == (
        FlagSnapshot {
            disable_feedin: if disable_feedin is Some {
                disable_feedin
            } else {
                flags.disable_feedin
            },
            dnfio: if dnfio is Some {
                dnfio
            } else {
                flags.dnfio
            },
            tpimfi: if tpimfi is Some {
                tpimfi
            } else {
                flags.tpimfi
            },
            fix_solar: if fix_solar is Some {
                fix_solar
            } else {
                flags.fix_solar
            },
            maxfeedin: PerPhase {
                l1: if maxfeedin.l1 is Some {
                    maxfeedin.l1
                } else {
                    flags.maxfeedin.l1
                },
                l2: if maxfeedin.l2 is Some {
                    maxfeedin.l2
                } else {
                    flags.maxfeedin.l2
                },
                l3: if maxfeedin.l3 is Some {
                    maxfeedin.l3
                } else {
                    flags.maxfeedin.l3
                },
            },
        }),
{
    let s0 = Seq::<FlagWrite>::empty();
    let w1 = as_disable(disable_feedin);
    let w2 = as_dnfio(dnfio);
    let w3 = as_tpimfi(tpimfi);
    let w4 = as_fix_solar(fix_solar);
    let w5 = as_limit(1, maxfeedin.l1);
    let w6 = as_limit(2, maxfeedin.l2);
    let w7 = as_limit(3, maxfeedin.l3);
    assert(s0 + step(w1) =~= step(w1));
    put_step(flags, s0, w1);
    put_step(flags, step(w1), w2);
    put_step(flags, step(w1) + step(w2), w3);
    put_step(flags, step(w1) + step(w2) + step(w3), w4);
    put_step(flags, step(w1) + step(w2) + step(w3) + step(w4), w5);
    put_step(flags, step(w1) + step(w2) + step(w3) + step(w4) + step(w5), w6);
    put_step(flags, step(w1) + step(w2) + step(w3) + step(w4) + step(w5) + step(w6), w7);
}

/// Restoring a snapshot undoes every later write to a flag that the snapshot holds, and
/// leaves the others as they are.
pub proof fn restore_undoes_later_writes(snapshot: FlagSnapshot, later: Seq<FlagWrite>)
    ensures
        ({
            let back = put_all(put_all(snapshot, later), snapshot.planned());
            &&& snapshot.disable_feedin is Some ==> back.disable_feedin == snapshot.disable_feedin
            &&& snapshot.dnfio is Some ==> back.dnfio == snapshot.dnfio
            &&& snapshot.tpimfi is Some ==> back.tpimfi == snapshot.tpimfi
            &&& snapshot.fix_solar is Some ==> back.fix_solar == snapshot.fix_solar
            &&& snapshot.maxfeedin.l1 is Some ==> back.maxfeedin.l1 == snapshot.maxfeedin.l1
            &&& snapshot.maxfeedin.l2 is Some ==> back.maxfeedin.l2 == snapshot.maxfeedin.l2
            &&& snapshot.maxfeedin.l3 is Some ==> back.maxfeedin.l3 == snapshot.maxfeedin.l3
        }),
        put_all(snapshot, snapshot.planned()) == snapshot,
{
    put_plan(
        put_all(snapshot, later),
        snapshot.disable_feedin,
        snapshot.dnfio,
        snapshot.tpimfi,
        snapshot.fix_solar,
        snapshot.maxfeedin,
    );
    put_plan(
        snapshot,
        snapshot.disable_feedin,
        snapshot.dnfio,
        snapshot.tpimfi,
        snapshot.fix_solar,
        snapshot.maxfeedin,
    );
}

/// No planned write ever goes to the firmware's sustain item.
pub proof fn sustain_is_never_written(w: FlagWrite)
    ensures
        w.item() != "/Hub4/Sustain"@,
{
    reveal_strlit("/Hub4/Sustain");
    reveal_strlit("/Hub4/DisableFeedIn");
    reveal_strlit("/Hub4/DoNotFeedInOvervoltage");
    reveal_strlit("/Hub4/TargetPowerIsMaxFeedIn");
    reveal_strlit("/Hub4/FixSolarOffsetTo100mV");
    reveal_strlit("/Hub4/L");
    reveal_strlit("/MaxFeedInPower");
    assert("/Hub4/Sustain"@.len() == 13);
    assert(w.item().len() > 13);
}

impl LastWritten {
    /// The flags as they were last written.
    pub open spec fn flags(self) -> FlagSnapshot {
        FlagSnapshot {
            disable_feedin: self.disable_feedin,
            dnfio: self.dnfio,
            tpimfi: self.tpimfi,
            fix_solar: self.fix_solar,
            maxfeedin: self.maxfeedin,
        }
    }
}

impl FeedIn {
    /// The state after a tick on each of the inputs in turn.
    pub open spec fn after_all(self, ticks: Seq<Inputs>) -> FeedIn
        decreases ticks.len(),
    {
        if ticks.len() == 0 {
            self
        } else {
            self.after_all(ticks.drop_last()).after(ticks.last())
        }
    }

    /// The writes that those ticks plan, one after the other.
    pub open spec fn planned_all(self, ticks: Seq<Inputs>) -> Seq<FlagWrite>
        decreases ticks.len(),
    {
        if ticks.len() == 0 {
            Seq::empty()
        } else {
            self.planned_all(ticks.drop_last()) + self.after_all(ticks.drop_last()).outcome(
                ticks.last(),
            ).planned()
        }
    }
}

/// Does the item of a write hold its value already? A limit that is no number is never
/// held.
pub open spec fn holds(flags: FlagSnapshot, w: FlagWrite) -> bool {
    match w {
        FlagWrite::DisableFeedIn(v) => flags.disable_feedin == Some(v),
        FlagWrite::DoNotFeedInOvervoltage(v) => flags.dnfio == Some(v),
        FlagWrite::TargetPowerIsMaxFeedIn(v) => flags.tpimfi == Some(v),
        FlagWrite::FixSolarOffset(v) => flags.fix_solar == Some(v),
        FlagWrite::MaxFeedIn(n, v) => {
            let slot = if n == 1 {
                flags.maxfeedin.l1
            } else if n == 2 {
                flags.maxfeedin.l2
            } else {
                flags.maxfeedin.l3
            };
            slot is Some && slot->0.same(v)
        },
    }
}

proof fn put_appended(flags: FlagSnapshot, a: Seq<FlagWrite>, b: Seq<FlagWrite>)
    ensures
        put_all(flags, a + b) == put_all(put_all(flags, a), b),
    decreases b.len(),
{
    if b.len() == 0 {
        assert(a + b =~= a);
    } else {
        assert((a + b).drop_last() =~= a + b.drop_last());
        put_appended(flags, a, b.drop_last());
    }
}

/// What a state remembers of its flags is what its ticks wrote last to each of them.
proof fn memory_follows_the_writes(f: FeedIn, ticks: Seq<Inputs>)
    ensures
        f.after_all(ticks).last.flags() == put_all(f.last.flags(), f.planned_all(ticks)),
    decreases ticks.len(),
{
    if ticks.len() > 0 {
        let g = f.after_all(ticks.drop_last());
        let i = ticks.last();
        let out = g.outcome(i);
        memory_follows_the_writes(f, ticks.drop_last());
        put_appended(f.last.flags(), f.planned_all(ticks.drop_last()), out.planned());
        put_plan(
            g.last.flags(),
            out.w_disable_feedin,
            out.w_dnfio,
            out.w_tpimfi,
            out.w_fix_solar,
            out.w_maxfeedin,
        );
    }
}

/// A flag is written when it changes and not before: after any ticks, on whatever reads,
/// each write that the next tick plans differs from what was last written to its item.
#[verifier::spinoff_prover]
#[verifier::rlimit(30)]
pub proof fn unchanged_flags_are_not_rewritten(f: FeedIn, ticks: Seq<Inputs>, i: Inputs, k: int)
    requires
        0 <= k < f.after_all(ticks).outcome(i).planned().len(),
    ensures
        !holds(
            put_all(f.last.flags(), f.planned_all(ticks)),
            f.after_all(ticks).outcome(i).planned()[k],
        ),
{
    memory_follows_the_writes(f, ticks);
    let g = f.after_all(ticks);
    let out = g.outcome(i);
    plan_holds_only_its_steps(
        out.w_disable_feedin,
        out.w_dnfio,
        out.w_tpimfi,
        out.w_fix_solar,
        out.w_maxfeedin,
        k,
    );
    planned_values_are_new(g, i);
}

/// Each write of a plan is one of its steps.
proof fn plan_holds_only_its_steps(
    disable_feedin: Option<i32>,
    dnfio: Option<i32>,
    tpimfi: Option<i32>,
    fix_solar: Option<i32>,
    maxfeedin: PerPhase<Option<Num>>,
    k: int,
)
    requires
        0 <= k < plan_of(disable_feedin, dnfio, tpimfi, fix_solar, maxfeedin).len(),
    ensures
        ({
            let w = Some(plan_of(disable_feedin, dnfio, tpimfi, fix_solar, maxfeedin)[k]);
            w == as_disable(disable_feedin) || w == as_dnfio(dnfio) || w == as_tpimfi(tpimfi) || w
                == as_fix_solar(fix_solar) || w == as_limit(1, maxfeedin.l1) || w == as_limit(
                2,
                maxfeedin.l2,
            ) || w == as_limit(3, maxfeedin.l3)
        }),
{
}

/// A value is planned only where it is not the one that was written last.
proof fn planned_values_are_new(f: FeedIn, i: Inputs)
    ensures
        ({
            let o = f.outcome(i);
            &&& o.w_disable_feedin is Some ==> o.w_disable_feedin != f.last.disable_feedin
            &&& o.w_dnfio is Some ==> o.w_dnfio != f.last.dnfio
            &&& o.w_tpimfi is Some ==> o.w_tpimfi != f.last.tpimfi
            &&& o.w_fix_solar is Some ==> o.w_fix_solar != f.last.fix_solar
            &&& o.w_maxfeedin.l1 is Some ==> !(f.last.maxfeedin.l1 is Some
                && f.last.maxfeedin.l1->0.same(o.w_maxfeedin.l1->0))
            &&& o.w_maxfeedin.l2 is Some ==> !(f.last.maxfeedin.l2 is Some
                && f.last.maxfeedin.l2->0.same(o.w_maxfeedin.l2->0))
            &&& o.w_maxfeedin.l3 is Some ==> !(f.last.maxfeedin.l3 is Some
                && f.last.maxfeedin.l3->0.same(o.w_maxfeedin.l3->0))
        }),
{
}

/// Ticking again on the same reads plans no flag. (A rising limit keeps changing, and is
/// written until it arrives.)
pub proof fn steady_reads_plan_no_flag(f: FeedIn, i: Inputs)
    requires
        i.present,
    ensures
        f.after(i).outcome(i).w_disable_feedin is None,
        f.after(i).outcome(i).w_dnfio is None,
        f.after(i).outcome(i).w_tpimfi is None,
        f.after(i).outcome(i).w_fix_solar is None,
        f.excess_allowed(i) && !i.maxfeedin_setting.is_finite() && !i.acexport_limit.is_finite()
            ==> f.after(i).outcome(i).planned() =~= Seq::<FlagWrite>::empty(),
{
}

/// A flag that the firmware lacks is never written.
pub proof fn missing_flags_are_never_written(f: FeedIn, i: Inputs)
    ensures
        !f.has_dnfio ==> f.outcome(i).w_dnfio is None,
        !f.has_tpimfi ==> f.outcome(i).w_tpimfi is None,
        !f.has_maxfeedin ==> f.outcome(i).w_maxfeedin.l1 is None && f.outcome(i).w_maxfeedin.l2 is None
            && f.outcome(i).w_maxfeedin.l3 is None,
        !f.has_tpimfi ==> f.outcome(i).mode != FeedInMode::Tpimfi || !i.present,
{
}

/// While the inverter is not there nothing is written and nothing is forgotten.
pub proof fn absent_inverter_is_left_alone(f: FeedIn, i: Inputs)
    requires
        !i.present,
    ensures
        f.outcome(i).planned() =~= Seq::<FlagWrite>::empty(),
        f.after(i) == f,
{
}

/// A generator is never fed: on a generator the mode is never normal, and DC excess is
/// let through only where the setpoint caps it.
pub proof fn generator_is_never_fed(f: FeedIn, i: Inputs)
    requires
        i.present,
        i.ac_source == AC_SOURCE_GENERATOR,
    ensures
        f.outcome(i).mode != FeedInMode::Normal,
        f.outcome(i).do_not_feed_in_overvoltage == 0 ==> f.outcome(i).mode == FeedInMode::Tpimfi,
{
}

/// In sustain, or with a discharge budget of zero, feed-in is disabled unless the
/// setpoint is the feed-in cap.
pub proof fn no_budget_disables_feed_in(f: FeedIn, i: Inputs)
    requires
        i.present,
        i.sustain || i.bl_state == bl::SUSTAIN || f.overrides.discharge_bound_w == Num::Fin(0)
            || i.max_discharge == Num::Fin(0),
        Num::Fin(0).le(i.max_discharge) || i.max_discharge.is_nan(),
        Num::Fin(0).le(f.overrides.discharge_bound_w) || f.overrides.discharge_bound_w.is_nan(),
    ensures
        f.outcome(i).disable_feedin == 1 || f.outcome(i).mode == FeedInMode::Tpimfi,
{
}

/// The limit falls at once and rises slowly: it never exceeds the phase's share of the
/// configured limit once it has been at or below it.
pub proof fn limit_rises_slowly_and_falls_at_once(f: FeedIn, i: Inputs, prev: Num)
    requires
        i.maxfeedin_setting.is_finite(),
        i.phases >= 1,
        i.phases <= 3,
        prev.is_finite(),
        Num::Fin(0).le(prev),
        Num::Fin(0).le(i.maxfeedin_setting),
    ensures
        ({
            let share = i.maxfeedin_setting.over(crate::num::whole(i.phases as int));
            let next = f.limit_for(i, prev);
            &&& share.is_finite()
            &&& !prev.lt(share) ==> next == share
            &&& prev.lt(share) ==> next.is_finite() && prev.micros() - 1 <= next.micros()
                <= share.micros() + 1
        }),
{
    let m = i.maxfeedin_setting.micros();
    let d = i.phases as int * 1_000_000;
    crate::num::round_div_error(m * 1_000_000, d);
    let s = crate::num::round_div(m * 1_000_000, d);
    assert(0 <= s <= m) by (nonlinear_arith)
        requires
            s == (m * 1_000_000 + d / 2) / d,
            m >= 0,
            1_000_000 <= d <= 3_000_000,
    ;
    let p = prev.micros();
    crate::num::round_div_error(600_000 * s, 1_000_000);
    crate::num::round_div_error(400_000 * p, 1_000_000);
}

/// The integrator is never negative and never "not a number", and an unread voltage
/// clears it.
pub proof fn overvoltage_integrator_is_safe(f: FeedIn, i: Inputs)
    requires
        Num::Fin(0).le(f.ov_accum),
    ensures
        Num::Fin(0).le(f.overvoltage_for(i)),
        i.dc_voltage.is_nan() || i.charge_voltage.is_nan() ==> f.overvoltage_for(i) == Num::Fin(0),
{
    let excess = i.dc_voltage.minus(Num::Fin(OV_CHARGE_FACTOR).times(i.charge_voltage));
    let mv = excess.times(Num::Fin(MILLIVOLTS));
    if Num::Fin(0).lt(excess) && excess.is_finite() {
        let e = mv.micros();
        assert(e * e >= 0) by (nonlinear_arith);
    }
}

/// No overvoltage is too small to count: as long as it lasts the integrator rises with
/// every tick, by its square exactly, until charging is blocked. (An excess of a kilovolt at
/// most, which is far beyond any battery.)
pub proof fn lasting_overvoltage_blocks_charging(f: FeedIn, i: Inputs)
    requires
        ({
            let excess = i.dc_voltage.minus(Num::Fin(OV_CHARGE_FACTOR).times(i.charge_voltage));
            Num::Fin(0).lt(excess) && excess.le(Num::Fin(1_000_000_000))
        }),
        Num::Fin(0).le(f.ov_accum),
        f.ov_accum.le(Num::Fin(OV_TRIP)),
    ensures
        ({
            let e = i.dc_voltage.minus(
                Num::Fin(OV_CHARGE_FACTOR).times(i.charge_voltage),
            ).micros();
            &&& f.overvoltage_for(i).is_finite()
            &&& f.overvoltage_for(i).micros() == f.ov_accum.micros() + e * e
            &&& e * e >= 1
        }),
{
    let e = i.dc_voltage.minus(Num::Fin(OV_CHARGE_FACTOR).times(i.charge_voltage)).micros();
    assert(crate::num::round_div(e * MILLIVOLTS, 1_000_000) == 1000 * e);
    assert((1000 * e) * (1000 * e) == 1_000_000 * (e * e)) by (nonlinear_arith);
    assert(crate::num::round_div(1_000_000 * (e * e), 1_000_000) == e * e);
    assert(1 <= e * e <= 1_000_000_000_000_000_000) by (nonlinear_arith)
        requires
            1 <= e <= 1_000_000_000,
    ;
}

/// The inputs are what was read, in its place; a negative setting is none, and what was
/// not read asks for nothing.
pub proof fn feed_in_reads_are_taken_as_they_are(r: Reads)
    ensures
        ({
            let i = r.inputs();
            &&& i.present <==> r.multi_state is Some
            &&& i.sustain <==> r.sustain == Some(true)
            &&& i.dvcc <==> r.dvcc == Some(true)
            &&& i.overvoltage_feedin <==> r.overvoltage_feedin == Some(true)
            &&& i.always_peakshave <==> r.always_peakshave == Some(true)
            &&& r.dc_voltage is Some ==> i.dc_voltage == r.dc_voltage->0
            &&& r.dc_voltage is None ==> i.dc_voltage == Num::Nan
            &&& r.charge_voltage is Some ==> i.charge_voltage == r.charge_voltage->0
            &&& r.charge_voltage is None ==> i.charge_voltage == Num::Nan
            &&& r.ac_source is Some ==> i.ac_source == r.ac_source->0
            &&& r.bl_state is Some ==> i.bl_state == r.bl_state->0
            &&& r.bl_min_soc is Some ==> i.bl_min_soc == r.bl_min_soc->0
            &&& r.ac_source is None ==> i.ac_source == 0
            &&& r.bl_state is None ==> i.bl_state == 0
            &&& r.bl_min_soc is None ==> i.bl_min_soc == Num::Fin(0)
            &&& r.phases matches Some(p) ==> i.phases == (if p < 1 {
                1
            } else if p > 3 {
                3
            } else {
                p as int
            })
            &&& r.phases is None ==> i.phases == 1
            &&& r.maxfeedin_setting matches Some(Num::Fin(w)) ==> i.maxfeedin_setting == (if w
                >= 0 {
                Num::Fin(w)
            } else {
                Num::Nan
            })
            &&& r.acexport_limit matches Some(Num::Fin(w)) ==> i.acexport_limit == (if w >= 0 {
                Num::Fin(w)
            } else {
                Num::Nan
            })
            &&& r.max_discharge matches Some(Num::Fin(w)) ==> i.max_discharge == (if w >= 0 {
                Num::Fin(w)
            } else {
                Num::Nan
            })
            &&& r.maxfeedin_setting is None ==> i.maxfeedin_setting == Num::Nan
            &&& r.acexport_limit is None ==> i.acexport_limit == Num::Nan
            &&& r.max_discharge is None ==> i.max_discharge == Num::Nan
        }),
{
}

/// Must the battery be charged, in plain terms: by override, in the states 8, 9 and 12,
/// and with a minimum charge above 99 %.
pub open spec fn charge_is_due(f: FeedIn, i: Inputs) -> bool {
    f.overrides.force_charge || i.bl_state == 8 || i.bl_state == 9 || i.bl_state == 12
        || i.bl_min_soc is PosInf || (i.bl_min_soc is Fin && i.bl_min_soc->Fin_0 > 99_000_000)
}

/// May excess be fed in, in plain terms: by the override where there is one, else by the
/// setting.
pub open spec fn excess_is_wanted(f: FeedIn, i: Inputs) -> bool {
    f.overrides.feed_in_excess == 2 || (f.overrides.feed_in_excess == 0 && i.overvoltage_feedin)
}

/// Which mode feed-in runs in: on a generator and under a due charge the setpoint is the
/// feed-in cap where firmware and management allow it (and, off the generator, no excess
/// is wanted), else charging is flat out; otherwise the grid is tracked.
pub proof fn feed_in_mode_is_exact(f: FeedIn, i: Inputs)
    requires
        i.present,
    ensures
        ({
            let able = i.dvcc && f.has_tpimfi;
            let mode = f.outcome(i).mode;
            &&& i.ac_source == 2 && able ==> mode == FeedInMode::Tpimfi
            &&& i.ac_source == 2 && !able ==> mode == FeedInMode::ForceFlat
            &&& i.ac_source != 2 && !charge_is_due(f, i) ==> mode == FeedInMode::Normal
            &&& i.ac_source != 2 && charge_is_due(f, i) && able && !excess_is_wanted(f, i) ==> mode
                == FeedInMode::Tpimfi
            &&& i.ac_source != 2 && charge_is_due(f, i) && !(able && !excess_is_wanted(f, i))
                ==> mode == FeedInMode::ForceFlat
            &&& f.after(i).mode == mode
        }),
{
}

/// What the flags hold: where the setpoint is the feed-in cap nothing is disabled and
/// only its own flag is set; elsewhere feed-in is disabled where nothing may be
/// discharged or the battery is at its floor (unless it always shaves), and excess is
/// kept back unless it is wanted and no generator runs.
pub proof fn feed_in_flags_are_exact(f: FeedIn, i: Inputs)
    requires
        i.present,
    ensures
        ({
            let o = f.outcome(i);
            let s = i.bl_state;
            let spent = i.sustain || s == 7 || (f.overrides.discharge_bound_w is Fin
                && f.overrides.discharge_bound_w->Fin_0 <= 0) || (i.max_discharge is Fin
                && i.max_discharge->Fin_0 <= 0);
            let at_floor = (s == 5 || s == 6 || s == 8 || s == 11 || s == 12)
                && !i.always_peakshave;
            &&& o.mode == FeedInMode::Tpimfi ==> o.disable_feedin == 0
                && o.do_not_feed_in_overvoltage == 0 && o.target_power_is_max_feedin == 1
            &&& o.mode != FeedInMode::Tpimfi ==> ({
                &&& o.target_power_is_max_feedin == 0
                &&& o.disable_feedin == (if spent || at_floor {
                    1int
                } else {
                    0
                })
                &&& o.do_not_feed_in_overvoltage == (if excess_is_wanted(f, i) && i.ac_source
                    != 2 {
                    0int
                } else {
                    1
                })
            })
            &&& o.fix_solar_offset == (if i.dvcc {
                1int
            } else {
                0
            })
            &&& o.sustain == i.sustain
            &&& o.phases == i.phases
        }),
{
}

/// The feed-in limit of a phase: unlimited where excess is wanted and nothing limits it,
/// else the phase's share of the setting (or of the unlimited value), taken at once
/// downwards and by six tenths of the way upwards.
pub proof fn feed_in_limit_is_exact(f: FeedIn, i: Inputs, prev: i64, total: i64)
    requires
        1 <= i.phases <= 3,
        0 <= prev <= 1_000_000_000_000_000,
        0 <= total <= 1_000_000_000_000_000,
        i.maxfeedin_setting == Num::Fin(total) || (!(i.maxfeedin_setting is Fin) && total
            == 200_000_000_000),
    ensures
        ({
            let next = f.limit_for(i, Num::Fin(prev));
            let n = i.phases as int;
            &&& next is Fin
            &&& excess_is_wanted(f, i) && !(i.maxfeedin_setting is Fin) && !(
            i.acexport_limit is Fin) ==> next == Num::Fin(200_000_000_000)
            &&& !(excess_is_wanted(f, i) && !(i.maxfeedin_setting is Fin) && !(
            i.acexport_limit is Fin)) ==> exists|share: int|
                near(2 * #[trigger] (share * n), 2 * total, n) && (if prev < share {
                    near(10 * next->Fin_0, 6 * share + 4 * prev, 10)
                } else {
                    next->Fin_0 == share
                })
        }),
{
    let n = i.phases as int;
    let d = (1_000_000 * n) as i64;
    quotients_are_rounded(total, d);
    let share = Num::Fin(total).over(Num::Fin(d))->Fin_0;
    assert(share * d == 1_000_000 * (share * n)) by (nonlinear_arith)
        requires
            d == 1_000_000 * n,
    ;
    assert(0 <= share <= 1_000_000_000_000_001) by (nonlinear_arith)
        requires
            near(2 * (share * n), 2 * total, n),
            0 <= total <= 1_000_000_000_000_000,
            1 <= n <= 3,
    ;
    products_are_rounded(600_000, share);
    products_are_rounded(400_000, prev);
    let s = share as int;
    assert(near(2 * (s * n), 2 * total, n));
}

/// The limits of the phases that there are follow their own memory each.
pub proof fn phases_are_limited_apart(f: FeedIn, i: Inputs)
    requires
        i.present,
    ensures
        ({
            let o = f.outcome(i).max_feedin_power;
            let kept = f.after(i).prev_maxfeedin;
            &&& o.l1 == f.limit_for(i, f.prev_maxfeedin.l1) && kept.l1 == o.l1
            &&& i.phases >= 2 ==> o.l2 == f.limit_for(i, f.prev_maxfeedin.l2) && kept.l2 == o.l2
            &&& i.phases < 2 ==> o.l2 is Nan && kept.l2 == f.prev_maxfeedin.l2
            &&& i.phases >= 3 ==> o.l3 == f.limit_for(i, f.prev_maxfeedin.l3) && kept.l3 == o.l3
            &&& i.phases < 3 ==> o.l3 is Nan && kept.l3 == f.prev_maxfeedin.l3
        }),
{
}

/// Does the integrator go from `accum` to `next` on this excess: by its square where there
/// is one, else to nothing?
pub open spec fn integrates(accum: int, next: int, excess: int) -> bool {
    if excess > 0 {
        next == accum + excess * excess
    } else {
        next == 0
    }
}

/// The overvoltage that counts is what the battery voltage exceeds 1.01 times the charge
/// voltage by; below that the integrator is cleared.
pub proof fn overvoltage_is_beyond_a_hundredth(f: FeedIn, i: Inputs, volts: i64, charge: i64)
    requires
        i.present,
        i.dc_voltage == Num::Fin(volts),
        i.charge_voltage == Num::Fin(charge),
        0 <= volts <= 1_000_000_000,
        0 <= charge <= 1_000_000_000,
        Num::Fin(0).le(f.ov_accum),
        f.ov_accum.le(Num::Fin(1_000_000_000_000)),
    ensures
        f.outcome(i).ov_accum is Fin,
        f.after(i).ov_accum == f.outcome(i).ov_accum,
        exists|e: int|
            near(200 * e, 200 * volts - 202 * charge, 100) && #[trigger] integrates(
                f.ov_accum->Fin_0 as int,
                f.outcome(i).ov_accum->Fin_0 as int,
                e,
            ),
{
    products_are_rounded(1_010_000, charge);
    let c = Num::Fin(1_010_000).times(Num::Fin(charge))->Fin_0;
    sums_are_exact(volts, c);
    let e = volts - c;
    if e > 0 {
        lasting_overvoltage_blocks_charging(f, i);
    }
    assert(near(200 * e, 200 * volts - 202 * charge, 100));
    assert(integrates(f.ov_accum->Fin_0 as int, f.outcome(i).ov_accum->Fin_0 as int, e));
}

/// The planned writes bring every flag that the firmware has to the value that the tick
/// decided on, and touch no other.
pub proof fn writes_bring_the_flags_to_their_values(f: FeedIn, i: Inputs)
    requires
        i.present,
    ensures
        ({
            let o = f.outcome(i);
            let before = f.last.flags();
            let flags = put_all(before, o.planned());
            &&& flags.disable_feedin == Some(o.disable_feedin)
            &&& flags.fix_solar == Some(o.fix_solar_offset)
            &&& f.has_dnfio ==> flags.dnfio == Some(o.do_not_feed_in_overvoltage)
            &&& !f.has_dnfio ==> flags.dnfio == before.dnfio
            &&& f.has_tpimfi ==> flags.tpimfi == Some(o.target_power_is_max_feedin)
            &&& !f.has_tpimfi ==> flags.tpimfi == before.tpimfi
            &&& f.has_maxfeedin ==> flags.maxfeedin.l1 == Some(o.max_feedin_power.l1)
            &&& f.has_maxfeedin && i.phases >= 2 ==> flags.maxfeedin.l2 == Some(
                o.max_feedin_power.l2,
            )
            &&& f.has_maxfeedin && i.phases >= 3 ==> flags.maxfeedin.l3 == Some(
                o.max_feedin_power.l3,
            )
            &&& !f.has_maxfeedin ==> flags.maxfeedin == before.maxfeedin
            &&& i.phases < 2 ==> flags.maxfeedin.l2 == before.maxfeedin.l2
            &&& i.phases < 3 ==> flags.maxfeedin.l3 == before.maxfeedin.l3
        }),
{
    let o = f.outcome(i);
    put_plan(
        f.last.flags(),
        o.w_disable_feedin,
        o.w_dnfio,
        o.w_tpimfi,
        o.w_fix_solar,
        o.w_maxfeedin,
    );
}

} // verus!
