//! Battery charge and discharge limits.
//!
//! Turns the live current limits of the battery management system into AC-side power
//! bounds, so that the command follows the battery down when it lowers its limits
//! (cold, low charge, imbalance) and never exceeds the inverter's design capacity.

use crate::num::near;
use crate::num::or;
use crate::num::products_are_rounded;
use crate::num::quotients_are_rounded;
use crate::num::Num;
use crate::socguard::is_discharged_set;
use crate::socguard::resolve_bms;
use crate::states::bl;
use vstd::prelude::*;

verus! {

/// Charge efficiency (0.97, in millionths).
pub const CHG_EFF: i64 = 970_000;

/// Discharge efficiency (0.9, in millionths).
pub const DIS_EFF: i64 = 900_000;

/// Discharge efficiency at and below the knee (0.6, in millionths).
pub const DIS_EFF_LOW: i64 = 600_000;

/// Current held back above the knee in legacy mode (7 A, in millionths).
pub const DIS_OFFSET: i64 = 7_000_000;

/// The knee of the discharge curve (14 A, in millionths).
pub const DIS_KNEE: i64 = 14_000_000;

/// The firmware version above which the regular mode applies.
pub const REGULAR_FIRMWARE: u32 = 0x414;

/// Who manages the battery's charge.
#[derive(Clone, Copy, Debug, PartialEq, Eq, Structural)]
pub enum Mode {
    Legacy,
    Regular,
}

/// AC-side power bounds (W). Not a number means unlimited.
#[derive(Clone, Copy, Debug, PartialEq, Eq, Structural)]
pub struct Limits {
    pub max_charge_power: Num,
    pub max_discharge_power: Num,
}

pub open spec fn unlimited_if_unknown(x: Num) -> Num {
    if x.is_finite() {
        x
    } else {
        Num::PosInf
    }
}

impl Limits {
    pub open spec fn spec_charge_bound(&self) -> Num {
        unlimited_if_unknown(self.max_charge_power)
    }

    /// The greatest charge power, infinite where unlimited.
    #[verifier::when_used_as_spec(spec_charge_bound)]
    pub fn charge_bound(&self) -> (r: Num)
        ensures
            r == self.charge_bound(),
    {
        if self.max_charge_power.is_finite() {
            self.max_charge_power
        } else {
            Num::PosInf
        }
    }

    pub open spec fn spec_discharge_bound(&self) -> Num {
        unlimited_if_unknown(self.max_discharge_power)
    }

    /// The greatest discharge power, infinite where unlimited.
    #[verifier::when_used_as_spec(spec_discharge_bound)]
    pub fn discharge_bound(&self) -> (r: Num)
        ensures
            r == self.discharge_bound(),
    {
        if self.max_discharge_power.is_finite() {
            self.max_discharge_power
        } else {
            Num::PosInf
        }
    }
}

/// One pass of reads; a field is `None` where the read failed.
#[derive(Clone, Copy, Debug, PartialEq, Eq, Structural)]
pub struct Reads {
    pub dvcc: Option<bool>,
    pub firmware: Option<u32>,
    pub dc_voltage: Option<Num>,
    /// Charge current limit of the resolved battery service (A).
    pub bms_ccl: Option<Num>,
    /// Discharge current limit of the resolved battery service (A).
    pub bms_dcl: Option<Num>,
    pub pv_current: Option<Num>,
    pub multi_max_charge_current: Option<Num>,
    pub sustain: Option<bool>,
    pub max_charge_power: Option<Num>,
    pub max_discharge_power: Option<Num>,
    pub charge_pct: Option<Num>,
    pub discharge_pct: Option<Num>,
    pub bl_state: Option<i32>,
    pub bl_min_soc: Option<Num>,
}

/// What one tick goes by.
#[derive(Clone, Copy, Debug, PartialEq, Eq, Structural)]
pub struct Inputs {
    pub dc_voltage: Num,
    pub bms_ccl: Option<Num>,
    pub bms_dcl: Option<Num>,
    pub pv_current: Num,
    pub multi_max_charge_current: Num,
    pub sustain: bool,
    pub s_max_charge_power: Num,
    pub s_max_discharge_power: Num,
    pub s_charge_pct: Num,
    pub s_discharge_pct: Num,
    pub bl_state: i32,
    pub bl_min_soc: Num,
}

/// The mode that a capability and a firmware version call for.
pub open spec fn mode_of(dvcc: bool, firmware: u32) -> Mode {
    if dvcc && firmware > REGULAR_FIRMWARE {
        Mode::Regular
    } else {
        Mode::Legacy
    }
}

fn detect_mode(dvcc: Option<bool>, firmware: Option<u32>) -> (r: Mode)
    ensures
        r == mode_of(dvcc == Some(true), match firmware {
            Some(f) => f,
            None => 0,
        }),
{
    let d = match dvcc {
        Some(b) => b,
        None => false,
    };
    let f: u32 = match firmware {
        Some(f) => f,
        None => 0,
    };
    if d && f > REGULAR_FIRMWARE {
        Mode::Regular
    } else {
        Mode::Legacy
    }
}

fn detect_mode_opt(dvcc: Option<bool>, firmware: Option<u32>) -> (r: Option<Mode>)
    ensures
        r == (match (dvcc, firmware) {
            (Some(d), Some(f)) => Some(mode_of(d, f)),
            _ => None,
        }),
{
    match (dvcc, firmware) {
        (Some(d), Some(f)) => Some(
            if d && f > REGULAR_FIRMWARE {
                Mode::Regular
            } else {
                Mode::Legacy
            },
        ),
        _ => None,
    }
}

fn neg1_nan(v: Option<Num>) -> (r: Num)
    ensures
        r == crate::feedin::unset_if_negative(v),
{
    match v {
        Some(x) => if Num::Fin(0).le(x) {
            x
        } else {
            Num::Nan
        },
        None => Num::Nan,
    }
}

impl Reads {
    /// The inputs that one pass of reads stands for.
    pub open spec fn inputs(self) -> Inputs {
        Inputs {
            dc_voltage: or(self.dc_voltage, Num::Nan),
            bms_ccl: self.bms_ccl,
            bms_dcl: self.bms_dcl,
            pv_current: or(self.pv_current, Num::Fin(0)),
            multi_max_charge_current: or(self.multi_max_charge_current, Num::Nan),
            sustain: self.sustain == Some(true),
            s_max_charge_power: crate::feedin::unset_if_negative(self.max_charge_power),
            s_max_discharge_power: crate::feedin::unset_if_negative(self.max_discharge_power),
            s_charge_pct: or(self.charge_pct, Num::Fin(100_000_000)),
            s_discharge_pct: or(self.discharge_pct, Num::Fin(100_000_000)),
            bl_state: crate::feedin::zero_if_unread(self.bl_state),
            bl_min_soc: or(self.bl_min_soc, Num::Fin(0)),
        }
    }
}

/// A percentage as a fraction, held between 0 and 1.
pub open spec fn fraction(pct: Num) -> Num {
    (if pct.lt(Num::Fin(0)) {
        Num::Fin(0)
    } else if Num::Fin(100_000_000).lt(pct) {
        Num::Fin(100_000_000)
    } else {
        pct
    }).over(Num::Fin(100_000_000))
}

fn fraction_exec(pct: Num) -> (r: Num)
    ensures
        r == fraction(pct),
{
    let p = if pct.lt(Num::Fin(0)) {
        Num::Fin(0)
    } else if Num::Fin(100_000_000).lt(pct) {
        Num::Fin(100_000_000)
    } else {
        pct
    };
    p.over(Num::Fin(100_000_000))
}

/// A limit below zero blocks.
pub open spec fn not_negative(x: Num) -> Num {
    if x.is_finite() && x.lt(Num::Fin(0)) {
        Num::Fin(0)
    } else {
        x
    }
}

fn sanitize(x: Num) -> (r: Num)
    ensures
        r == not_negative(x),
{
    if x.is_finite() && x.lt(Num::Fin(0)) {
        Num::Fin(0)
    } else {
        x
    }
}

/// Is the battery held charged?
pub open spec fn held_charged(i: Inputs) -> bool {
    i.bl_state == bl::SOCG_KEEP_CHARGED || Num::Fin(99_000_000).lt(i.bl_min_soc)
}

fn keep_charged(i: &Inputs) -> (r: bool)
    ensures
        r == held_charged(*i),
{
    i.bl_state == bl::SOCG_KEEP_CHARGED || Num::Fin(99_000_000).lt(i.bl_min_soc)
}

/// A current limit as the formulas use it: 0 where it is not a finite number.
pub open spec fn amps(limit: Option<Num>) -> Num {
    if limit is Some && limit->0.is_finite() {
        limit->0
    } else {
        Num::Fin(0)
    }
}

pub open spec fn known(limit: Option<Num>) -> bool {
    limit is Some && limit->0.is_finite()
}

/// The charge power that the inputs allow. In regular mode charge is managed
/// elsewhere. Otherwise: the battery's current limit once it was ever known, else the
/// inverter's where a percentage below 100 is set; scaled, and capped by the setting.
pub open spec fn charge_power(mode: Mode, latched: bool, i: Inputs) -> Num {
    match mode {
        Mode::Regular => Num::Nan,
        Mode::Legacy => {
            let base = if latched {
                amps(i.bms_ccl).times(i.dc_voltage).over(Num::Fin(CHG_EFF))
            } else if i.s_charge_pct.le(Num::Fin(99_000_000)) {
                i.multi_max_charge_current.times(i.dc_voltage)
            } else {
                Num::Nan
            };
            let scaled = if i.s_charge_pct.le(Num::Fin(100_000_000)) && base.is_finite() {
                base.times(fraction(i.s_charge_pct))
            } else {
                base
            };
            scaled.min(i.s_max_charge_power)
        },
    }
}

/// The discharge current that counts: the battery's limit plus what the solar chargers
/// deliver; in legacy mode less an offset above the knee, and half below it.
pub open spec fn discharge_amps(mode: Mode, dcl: Num, pv_current: Num) -> Num {
    let h = dcl.plus(pv_current);
    match mode {
        Mode::Regular => h,
        Mode::Legacy => if Num::Fin(DIS_KNEE).lt(h) {
            h.minus(Num::Fin(DIS_OFFSET))
        } else {
            h.times(Num::Fin(500_000))
        },
    }
}

/// The efficiency that applies.
pub open spec fn discharge_efficiency(mode: Mode, dcl: Num, pv_current: Num) -> Num {
    match mode {
        Mode::Regular => if Num::Fin(DIS_KNEE).lt(dcl.plus(pv_current)) {
            Num::Fin(DIS_EFF)
        } else {
            Num::Fin(DIS_EFF_LOW)
        },
        Mode::Legacy => Num::Fin(DIS_EFF),
    }
}

/// The discharge power that the battery's current limit allows.
pub open spec fn battery_discharge(mode: Mode, dcl: Num, i: Inputs) -> Num {
    if Num::Fin(0).lt(dcl) {
        fraction(i.s_discharge_pct).times(
            discharge_amps(mode, dcl, i.pv_current).times(i.dc_voltage).times(
                discharge_efficiency(mode, dcl, i.pv_current),
            ).max(Num::Fin(0)),
        )
    } else {
        Num::Fin(0)
    }
}

/// The discharge power that the inputs allow. While a battery manager is expected and
/// its limit has never been known, nothing; once it was known, what it says now, and
/// nothing when it falls silent; without a manager, on or off by the percentage.
pub open spec fn discharge_power(mode: Mode, latched: bool, managed: bool, i: Inputs) -> Num {
    let base = if latched {
        battery_discharge(mode, amps(i.bms_dcl), i)
    } else if managed || mode == Mode::Regular {
        Num::Fin(0)
    } else if i.s_discharge_pct.lt(Num::Fin(50_000_000)) {
        Num::Fin(0)
    } else {
        Num::Nan
    };
    if i.sustain || i.bl_state == bl::SUSTAIN {
        Num::Fin(0)
    } else if held_charged(i) {
        base
    } else {
        base.min(i.s_max_discharge_power)
    }
}

/// The broker: the detected mode, which limits have ever been known, and the battery
/// service.
pub struct BatteryBroker {
    pub mode: Mode,
    pub latched_ccl: bool,
    pub latched_dcl: bool,
    pub bms_service: Option<String>,
}

/// The limits of one tick: as published, and as the command must respect them.
#[derive(Clone, Copy, Debug, PartialEq, Eq, Structural)]
pub struct TickResult {
    pub published: Limits,
    pub enforced: Limits,
}

impl BatteryBroker {
    pub fn new(
        dvcc: Option<bool>,
        firmware: Option<u32>,
        active: Option<String>,
        services: &Vec<String>,
    ) -> (b: Self)
        ensures
            b.mode == mode_of(dvcc == Some(true), match firmware {
                Some(f) => f,
                None => 0,
            }),
            !b.latched_ccl,
            !b.latched_dcl,
            crate::text::text(b.bms_service) == crate::socguard::found_bms(
                crate::text::text(active),
                crate::text::texts(services@),
            ),
    {
        BatteryBroker {
            mode: detect_mode(dvcc, firmware),
            latched_ccl: false,
            latched_dcl: false,
            bms_service: resolve_bms(active, services),
        }
    }

    /// Look for the battery service again, as long as none was found.
    pub fn resolve(&mut self, active: Option<String>, services: &Vec<String>)
        ensures
            final(self).mode == old(self).mode,
            final(self).latched_ccl == old(self).latched_ccl,
            final(self).latched_dcl == old(self).latched_dcl,
            crate::text::text(final(self).bms_service) == (if old(self).bms_service is Some {
                crate::text::text(old(self).bms_service)
            } else {
                crate::socguard::found_bms(
                    crate::text::text(active),
                    crate::text::texts(services@),
                )
            }),
    {
        if self.bms_service.is_none() {
            self.bms_service = resolve_bms(active, services);
        }
    }

    /// The mode after the reads: it changes only when both of its inputs were read.
    pub open spec fn mode_after(self, r: Reads) -> Mode {
        match (r.dvcc, r.firmware) {
            (Some(d), Some(f)) => mode_of(d, f),
            _ => self.mode,
        }
    }

    fn read(&mut self, r: &Reads) -> (i: Inputs)
        ensures
            i == r.inputs(),
            *final(self) == (BatteryBroker { mode: old(self).mode_after(*r), ..*old(self) }),
    {
        if let Some(mode) = detect_mode_opt(r.dvcc, r.firmware) {
            self.mode = mode;
        }
        Inputs {
            dc_voltage: or(r.dc_voltage, Num::Nan),
            bms_ccl: r.bms_ccl,
            bms_dcl: r.bms_dcl,
            pv_current: or(r.pv_current, Num::Fin(0)),
            multi_max_charge_current: or(r.multi_max_charge_current, Num::Nan),
            sustain: match r.sustain {
                Some(b) => b,
                None => false,
            },
            s_max_charge_power: neg1_nan(r.max_charge_power),
            s_max_discharge_power: neg1_nan(r.max_discharge_power),
            s_charge_pct: or(r.charge_pct, Num::Fin(100_000_000)),
            s_discharge_pct: or(r.discharge_pct, Num::Fin(100_000_000)),
            bl_state: match r.bl_state {
                Some(s) => s,
                None => 0,
            },
            bl_min_soc: or(r.bl_min_soc, Num::Fin(0)),
        }
    }

    /// The limits that the inputs call for.
    pub open spec fn limits(self, i: Inputs) -> Limits {
        Limits {
            max_charge_power: not_negative(
                charge_power(self.mode, self.latched_ccl || known(i.bms_ccl), i),
            ),
            max_discharge_power: not_negative(
                discharge_power(
                    self.mode,
                    self.latched_dcl || known(i.bms_dcl),
                    self.bms_service is Some,
                    i,
                ),
            ),
        }
    }

    /// Recompute the limits. A current limit that was ever known is expected from then on.
    pub fn recompute(&mut self, i: &Inputs) -> (r: Limits)
        ensures
            r == old(self).limits(*i),
            *final(self) == (BatteryBroker {
                latched_ccl: old(self).latched_ccl || known(i.bms_ccl),
                latched_dcl: old(self).latched_dcl || known(i.bms_dcl),
                ..*old(self)
            }),
    {
        let v = i.dc_voltage;
        let mut ccl = or(i.bms_ccl, Num::Nan);
        let mut dcl = or(i.bms_dcl, Num::Nan);
        if ccl.is_finite() {
            self.latched_ccl = true;
        } else {
            ccl = Num::Fin(0);
        }
        if dcl.is_finite() {
            self.latched_dcl = true;
        } else {
            dcl = Num::Fin(0);
        }
        let charge = match self.mode {
            Mode::Regular => Num::Nan,
            Mode::Legacy => {
                let mut cp = if self.latched_ccl {
                    ccl.times(v).over(Num::Fin(CHG_EFF))
                } else if i.s_charge_pct.le(Num::Fin(99_000_000)) {
                    i.multi_max_charge_current.times(v)
                } else {
                    Num::Nan
                };
                if i.s_charge_pct.le(Num::Fin(100_000_000)) && cp.is_finite() {
                    cp = cp.times(fraction_exec(i.s_charge_pct));
                }
                cp.min(i.s_max_charge_power)
            },
        };
        let scaled = fraction_exec(i.s_discharge_pct);
        let mut dp = if self.latched_dcl {
            if Num::Fin(0).lt(dcl) {
                let dcl_h = dcl.plus(i.pv_current);
                let above = Num::Fin(DIS_KNEE).lt(dcl_h);
                let amps = match self.mode {
                    Mode::Regular => dcl_h,
                    Mode::Legacy => if above {
                        dcl_h.minus(Num::Fin(DIS_OFFSET))
                    } else {
                        dcl_h.times(Num::Fin(500_000))
                    },
                };
                let eff = match self.mode {
                    Mode::Regular => if above {
                        Num::Fin(DIS_EFF)
                    } else {
                        Num::Fin(DIS_EFF_LOW)
                    },
                    Mode::Legacy => Num::Fin(DIS_EFF),
                };
                scaled.times(amps.times(v).times(eff).max(Num::Fin(0)))
            } else {
                Num::Fin(0)
            }
        } else if self.bms_service.is_some() || self.mode == Mode::Regular {
            Num::Fin(0)
        } else if i.s_discharge_pct.lt(Num::Fin(50_000_000)) {
            Num::Fin(0)
        } else {
            Num::Nan
        };
        if !keep_charged(i) {
            dp = dp.min(i.s_max_discharge_power);
        }
        if i.sustain || i.bl_state == bl::SUSTAIN {
            dp = Num::Fin(0);
        }
        Limits { max_charge_power: sanitize(charge), max_discharge_power: sanitize(dp) }
    }

    /// The broker after one tick.
    pub open spec fn after(self, r: Reads) -> BatteryBroker {
        BatteryBroker {
            mode: self.mode_after(r),
            latched_ccl: self.latched_ccl || known(r.bms_ccl),
            latched_dcl: self.latched_dcl || known(r.bms_dcl),
            bms_service: self.bms_service,
        }
    }

    /// The broker after a tick on each of the reads in turn.
    pub open spec fn after_all(self, reads: Seq<Reads>) -> BatteryBroker
        decreases reads.len(),
    {
        if reads.len() == 0 {
            self
        } else {
            self.after_all(reads.drop_last()).after(reads.last())
        }
    }

    /// The limits of one tick.
    pub open spec fn result(self, r: Reads) -> TickResult {
        let published = (BatteryBroker { mode: self.mode_after(r), ..self }).limits(r.inputs());
        TickResult {
            published,
            enforced: if crate::socguard::discharged(r.inputs().bl_state) {
                Limits { max_discharge_power: Num::Fin(0), ..published }
            } else {
                published
            },
        }
    }

    /// Recompute the limits from one pass of reads. In a discharged state the enforced
    /// limits allow no discharge, whatever is published.
    pub fn tick(&mut self, reads: &Reads) -> (r: TickResult)
        ensures
            r == old(self).result(*reads),
            *final(self) == old(self).after(*reads),
    {
        let i = self.read(reads);
        let published = self.recompute(&i);
        let mut enforced = published;
        if is_discharged_set(i.bl_state) {
            enforced.max_discharge_power = Num::Fin(0);
        }
        TickResult { published, enforced }
    }
}

pub open spec fn spec_clamp_bounds(enforced: Limits, env_lo: Num, env_hi: Num) -> (Num, Num) {
    (
        enforced.discharge_bound().neg().max(env_lo).min(Num::Fin(0)),
        enforced.charge_bound().min(env_hi).max(Num::Fin(0)),
    )
}

/// The bounds of the command: the battery's limits within the outer envelope. Idling is
/// always within them.
#[verifier::when_used_as_spec(spec_clamp_bounds)]
pub fn clamp_bounds(enforced: Limits, env_lo: Num, env_hi: Num) -> (r: (Num, Num))
    ensures
        r == clamp_bounds(enforced, env_lo, env_hi),
{
    let lo = enforced.discharge_bound().neg().max(env_lo).min(Num::Fin(0));
    let hi = enforced.charge_bound().min(env_hi).max(Num::Fin(0));
    (lo, hi)
}

/// The command bounds always admit idling, never exceed the envelope, never exceed what
/// the battery allows, and are finite: whatever the limits hold, negative or not a
/// number included.
pub proof fn bounds_admit_idling_and_respect_both(enforced: Limits, env_lo: Num, env_hi: Num)
    requires
        env_lo.is_finite(),
        env_hi.is_finite(),
        env_lo.le(Num::Fin(0)),
        Num::Fin(0).le(env_hi),
    ensures
        ({
            let (lo, hi) = clamp_bounds(enforced, env_lo, env_hi);
            &&& lo.is_finite() && hi.is_finite()
            &&& lo.le(Num::Fin(0)) && Num::Fin(0).le(hi)
            &&& env_lo.le(lo) && hi.le(env_hi)
            &&& enforced.max_discharge_power.is_finite() && Num::Fin(0).le(
                enforced.max_discharge_power,
            ) ==> enforced.max_discharge_power.neg().le(lo)
            &&& enforced.max_charge_power.is_finite() && Num::Fin(0).le(enforced.max_charge_power)
                ==> hi.le(enforced.max_charge_power)
        }),
{
}

/// No limit is ever a negative number, and what is enforced is never laxer than what is
/// published.
pub proof fn limits_are_never_negative(b: BatteryBroker, r: Reads)
    ensures
        b.result(r).published.max_charge_power.is_finite() ==> Num::Fin(0).le(
            b.result(r).published.max_charge_power,
        ),
        b.result(r).published.max_discharge_power.is_finite() ==> Num::Fin(0).le(
            b.result(r).published.max_discharge_power,
        ),
        b.result(r).enforced.max_charge_power == b.result(r).published.max_charge_power,
        b.result(r).enforced.max_discharge_power == b.result(r).published.max_discharge_power
            || b.result(r).enforced.max_discharge_power == Num::Fin(0),
{
}

/// In sustain and in a discharged state nothing may be discharged.
pub proof fn discharge_is_blocked_by_state(b: BatteryBroker, r: Reads)
    requires
        r.sustain == Some(true) || r.inputs().bl_state == bl::SUSTAIN
            || crate::socguard::discharged(r.inputs().bl_state),
    ensures
        b.result(r).enforced.max_discharge_power == Num::Fin(0),
{
}

/// While a battery manager is expected and its discharge limit has never been known,
/// nothing may be discharged.
pub proof fn unknown_limit_blocks_discharge(b: BatteryBroker, r: Reads)
    requires
        !b.latched_dcl,
        !known(r.bms_dcl),
        b.bms_service is Some || b.mode_after(r) == Mode::Regular,
    ensures
        b.result(r).published.max_discharge_power == Num::Fin(0),
{
}

/// Once the discharge limit was known, losing it blocks discharge, and so does a limit
/// of zero or below; and the broker never forgets that it was known.
pub proof fn lost_limit_blocks_discharge(b: BatteryBroker, r: Reads)
    requires
        b.latched_dcl,
        !known(r.bms_dcl) || !Num::Fin(0).lt(r.bms_dcl->0),
    ensures
        b.result(r).published.max_discharge_power == Num::Fin(0),
        b.after(r).latched_dcl,
{
}

/// Discharge is blocked while the battery's limit is unknown or used up: with a battery
/// manager that is expected (its service is found, the mode is regular, or its limit was
/// ever known) and no positive limit at hand, and in sustain in any case, the limits
/// allow none. (No setting is read as minus infinity.)
pub proof fn discharge_needs_a_known_limit(b: BatteryBroker, i: Inputs)
    requires
        i.s_max_discharge_power != Num::NegInf,
        i.sustain || i.bl_state == bl::SUSTAIN || ((b.bms_service is Some || b.mode
            == Mode::Regular || b.latched_dcl) && (!known(i.bms_dcl) || i.bms_dcl->0.le(
            Num::Fin(0),
        ))),
    ensures
        b.limits(i).max_discharge_power == Num::Fin(0),
{
}

/// A limit that was ever known is never forgotten: however many reads follow, its loss
/// blocks discharge and never lifts the limit.
pub proof fn known_limit_is_never_forgotten(b: BatteryBroker, reads: Seq<Reads>, r: Reads)
    requires
        b.latched_dcl,
        !known(r.bms_dcl) || r.bms_dcl->0.le(Num::Fin(0)),
    ensures
        b.after_all(reads).latched_dcl,
        b.after_all(reads).result(r).published.max_discharge_power == Num::Fin(0),
        b.after_all(reads).result(r).enforced.max_discharge_power == Num::Fin(0),
    decreases reads.len(),
{
    if reads.len() > 0 {
        known_limit_is_never_forgotten(b, reads.drop_last(), r);
    }
}

/// The configured limit caps discharge, except while the battery is held charged.
pub proof fn configured_limit_caps_discharge(b: BatteryBroker, r: Reads)
    requires
        !held_charged(r.inputs()),
        r.inputs().s_max_discharge_power.is_finite(),
    ensures
        b.result(r).published.max_discharge_power.le(r.inputs().s_max_discharge_power),
{
}

/// A failed read of its inputs never changes the mode.
pub proof fn dropped_read_keeps_the_mode(b: BatteryBroker, r: Reads)
    requires
        r.dvcc is None || r.firmware is None,
    ensures
        b.after(r).mode == b.mode,
{
}

/// When the battery lowers its discharge limit, the allowed power does not rise: in
/// regular mode it follows the limit down, across the knee too.
pub proof fn discharge_follows_the_battery_down(low: Num, high: Num, i: Inputs)
    requires
        low.is_finite(),
        high.is_finite(),
        Num::Fin(0).lt(low),
        low.le(high),
        i.pv_current.is_finite(),
        Num::Fin(0).le(i.pv_current),
        i.dc_voltage.is_finite(),
        Num::Fin(0).le(i.dc_voltage),
        i.s_discharge_pct.is_finite(),
    ensures
        battery_discharge(Mode::Regular, low, i).le(battery_discharge(Mode::Regular, high, i)),
{
    let f = fraction(i.s_discharge_pct);
    crate::num::over_keeps_sign(
        if i.s_discharge_pct.lt(Num::Fin(0)) {
            Num::Fin(0)
        } else if Num::Fin(100_000_000).lt(i.s_discharge_pct) {
            Num::Fin(100_000_000)
        } else {
            i.s_discharge_pct
        },
        100_000_000,
    );
    let a = low.plus(i.pv_current);
    let b = high.plus(i.pv_current);
    let ea = discharge_efficiency(Mode::Regular, low, i.pv_current);
    let eb = discharge_efficiency(Mode::Regular, high, i.pv_current);
    crate::num::times_is_monotone(a, b, i.dc_voltage);
    let pa = a.times(i.dc_voltage);
    let pb = b.times(i.dc_voltage);
    crate::num::times_is_monotone(pa, pb, ea);
    crate::num::times_is_monotone(ea, eb, pb);
    crate::num::times_commutes(pb, ea);
    crate::num::times_commutes(pb, eb);
    let qa = pa.times(ea).max(Num::Fin(0));
    let qb = pb.times(eb).max(Num::Fin(0));
    crate::num::times_is_monotone(qa, qb, f);
    crate::num::times_commutes(qa, f);
    crate::num::times_commutes(qb, f);
}

/// The mode is the regular one exactly with the battery managed and firmware above 0x414.
pub proof fn regular_mode_needs_both(dvcc: bool, firmware: u32)
    ensures
        mode_of(dvcc, firmware) == Mode::Regular <==> dvcc && firmware > 0x414,
{
}

/// The current that counts towards discharge is the battery's limit plus what the solar
/// chargers deliver; in the legacy mode 7 A less above 14 A, and half at or below.
pub proof fn solar_current_adds_to_the_limit(dcl: i64, pv: i64)
    requires
        -1_000_000_000_000 <= dcl <= 1_000_000_000_000,
        -1_000_000_000_000 <= pv <= 1_000_000_000_000,
    ensures
        discharge_amps(Mode::Regular, Num::Fin(dcl), Num::Fin(pv)) == Num::Fin((dcl + pv) as i64),
        dcl + pv > 14_000_000 ==> discharge_amps(Mode::Legacy, Num::Fin(dcl), Num::Fin(pv))
            == Num::Fin((dcl + pv - 7_000_000) as i64),
        dcl + pv <= 14_000_000 ==> ({
            let h = discharge_amps(Mode::Legacy, Num::Fin(dcl), Num::Fin(pv));
            h is Fin && near(2 * h->Fin_0, dcl + pv, 1)
        }),
        discharge_efficiency(Mode::Legacy, Num::Fin(dcl), Num::Fin(pv)) == Num::Fin(900_000),
        discharge_efficiency(Mode::Regular, Num::Fin(dcl), Num::Fin(pv)) == Num::Fin(
            if dcl + pv > 14_000_000 {
                900_000
            } else {
                600_000
            },
        ),
{
    products_are_rounded((dcl + pv) as i64, 500_000);
}

/// A percentage scales as a fraction between nothing and one.
pub proof fn percentage_is_a_fraction(pct: i64)
    ensures
        pct <= 0 ==> fraction(Num::Fin(pct)) == Num::Fin(0),
        pct >= 100_000_000 ==> fraction(Num::Fin(pct)) == Num::Fin(1_000_000),
        0 <= pct <= 100_000_000 ==> ({
            let f = fraction(Num::Fin(pct));
            f is Fin && 0 <= f->Fin_0 <= 1_000_000 && near(200 * f->Fin_0, 2 * pct, 100)
        }),
{
    let p: i64 = if pct < 0 {
        0
    } else if pct > 100_000_000 {
        100_000_000
    } else {
        pct
    };
    quotients_are_rounded(p, 100_000_000);
}

/// The discharge power is the current that counts times the voltage times the efficiency,
/// by the configured percentage, and never negative; each factor is rounded once.
pub proof fn discharge_power_is_current_times_voltage(
    mode: Mode,
    i: Inputs,
    dcl: i64,
    amps: i64,
    eff: i64,
    volts: i64,
    part: i64,
)
    requires
        0 < dcl,
        i.dc_voltage == Num::Fin(volts),
        discharge_amps(mode, Num::Fin(dcl), i.pv_current) == Num::Fin(amps),
        discharge_efficiency(mode, Num::Fin(dcl), i.pv_current) == Num::Fin(eff),
        fraction(i.s_discharge_pct) == Num::Fin(part),
        0 <= amps <= 1_000_000_000_000,
        0 <= volts <= 1_000_000_000_000,
        0 <= eff <= 1_000_000,
        0 <= part <= 1_000_000,
    ensures
        ({
            let p = battery_discharge(mode, Num::Fin(dcl), i);
            &&& p is Fin
            &&& 0 <= p->Fin_0
            &&& exists|dc: int, ac: int|
                near(2_000_000 * dc, 2 * (amps * volts), 1_000_000) && near(
                    2_000_000 * ac,
                    2 * #[trigger] (dc * eff),
                    1_000_000,
                ) && near(2_000_000 * p->Fin_0, 2 * #[trigger] (part * ac), 1_000_000)
        }),
        battery_discharge(mode, Num::Fin(0), i) == Num::Fin(0),
{
    let n = amps * volts;
    assert(0 <= n <= 1_000_000_000_000_000_000_000_000) by (nonlinear_arith)
        requires
            n == amps * volts,
            0 <= amps <= 1_000_000_000_000,
            0 <= volts <= 1_000_000_000_000,
    ;
    products_are_rounded(amps, volts);
    let dc = Num::Fin(amps).times(Num::Fin(volts))->Fin_0;
    let m = dc * eff;
    assert(0 <= m <= 2_000_000_000_000_000_000_000_000) by (nonlinear_arith)
        requires
            m == dc * eff,
            0 <= dc <= 1_000_000_000_000_000_001,
            0 <= eff <= 1_000_000,
    ;
    products_are_rounded(dc, eff);
    let ac = Num::Fin(dc).times(Num::Fin(eff))->Fin_0;
    let q = part * ac;
    assert(0 <= q <= 3_000_000_000_000_000_000_000_000) by (nonlinear_arith)
        requires
            q == part * ac,
            0 <= ac <= 2_000_000_000_000_000_001,
            0 <= part <= 1_000_000,
    ;
    products_are_rounded(part, ac);
    let (d, a) = (dc as int, ac as int);
    assert(near(2_000_000 * a, 2 * (d * eff), 1_000_000));
    assert(near(
        2_000_000 * (battery_discharge(mode, Num::Fin(dcl), i)->Fin_0),
        2 * (part * a),
        1_000_000,
    ));
}

/// Which discharge limit counts: the battery's once it was ever known, none while it is
/// awaited, and without a manager all or nothing by the percentage; then the setting,
/// unless the battery is held charged; and nothing in sustain.
pub proof fn discharge_limit_comes_from(
    mode: Mode,
    latched: bool,
    managed: bool,
    i: Inputs,
    setting: i64,
)
    requires
        !i.sustain,
        i.bl_state != 7,
        i.s_discharge_pct is Fin,
    ensures
        ({
            let free = Inputs { s_max_discharge_power: Num::Nan, ..i };
            let base = discharge_power(mode, latched, managed, free);
            &&& latched && i.bms_dcl is Some && i.bms_dcl->0 is Fin ==> base == battery_discharge(
                mode,
                i.bms_dcl->0,
                i,
            )
            &&& !latched && (managed || mode == Mode::Regular) ==> base == Num::Fin(0)
            &&& !latched && !managed && mode == Mode::Legacy ==> base == (
            if i.s_discharge_pct->Fin_0 < 50_000_000 {
                Num::Fin(0)
            } else {
                Num::Nan
            })
            &&& i.s_max_discharge_power == Num::Fin(setting) && i.bl_state != 9 && !(
            i.bl_min_soc is PosInf) && !(i.bl_min_soc is Fin && i.bl_min_soc->Fin_0 > 99_000_000)
                && base is Fin ==> discharge_power(mode, latched, managed, i) == Num::Fin(
                if setting < base->Fin_0 {
                    setting
                } else {
                    base->Fin_0
                },
            )
            &&& i.s_max_discharge_power == Num::Fin(setting) && base is Nan && i.bl_state != 9 && !(
            i.bl_min_soc is PosInf) && !(i.bl_min_soc is Fin && i.bl_min_soc->Fin_0 > 99_000_000)
                ==> discharge_power(mode, latched, managed, i) == Num::Fin(setting)
            &&& i.bl_state == 9 || i.bl_min_soc is PosInf || (i.bl_min_soc is Fin
                && i.bl_min_soc->Fin_0 > 99_000_000) ==> discharge_power(mode, latched, managed, i)
                == base
        }),
{
}

/// The charge power of the legacy mode is the battery's current limit times the voltage
/// over the efficiency of 0.97, by the configured percentage, capped by the setting; in
/// the regular mode charge is managed elsewhere.
pub proof fn charge_power_is_current_times_voltage(i: Inputs, ccl: i64, volts: i64, part: i64)
    requires
        i.bms_ccl == Some(Num::Fin(ccl)),
        i.dc_voltage == Num::Fin(volts),
        0 <= ccl <= 1_000_000_000,
        0 <= volts <= 1_000_000_000,
        i.s_max_charge_power is Nan,
        i.s_charge_pct is Fin && i.s_charge_pct->Fin_0 <= 100_000_000,
        fraction(i.s_charge_pct) == Num::Fin(part),
        0 <= part <= 1_000_000,
    ensures
        charge_power(Mode::Regular, true, i) == Num::Nan,
        ({
            let p = charge_power(Mode::Legacy, true, i);
            &&& p is Fin
            &&& exists|ac: int|
                near(1_940_000 * ac, 2 * (ccl * volts), 1_970_000) && near(
                    2_000_000 * p->Fin_0,
                    2 * #[trigger] (ac * part),
                    1_000_000,
                )
        }),
{
    let n = ccl * volts;
    assert(0 <= n <= 1_000_000_000_000_000_000) by (nonlinear_arith)
        requires
            n == ccl * volts,
            0 <= ccl <= 1_000_000_000,
            0 <= volts <= 1_000_000_000,
    ;
    products_are_rounded(ccl, volts);
    let dc = Num::Fin(ccl).times(Num::Fin(volts))->Fin_0;
    quotients_are_rounded(dc, 970_000);
    let ac = Num::Fin(dc).over(Num::Fin(970_000))->Fin_0;
    let q = ac * part;
    assert(0 <= q <= 2_000_000_000_000_000_000) by (nonlinear_arith)
        requires
            q == ac * part,
            0 <= ac <= 1_100_000_000_000,
            0 <= part <= 1_000_000,
    ;
    products_are_rounded(ac, part);
    let a = ac as int;
    assert(near(1_940_000 * a, 2 * (ccl * volts), 1_970_000));
    assert(near(2_000_000 * (charge_power(Mode::Legacy, true, i)->Fin_0), 2 * (a * part), 1_000_000));
}

/// A charge setting caps the charge power.
pub proof fn charge_setting_caps(i: Inputs, latched: bool, setting: i64)
    requires
        i.s_max_charge_power == Num::Fin(setting),
    ensures
        ({
            let free = charge_power(
                Mode::Legacy,
                latched,
                Inputs { s_max_charge_power: Num::Nan, ..i },
            );
            let capped = charge_power(Mode::Legacy, latched, i);
            &&& free is Fin ==> capped == Num::Fin(
                if setting < free->Fin_0 {
                    setting
                } else {
                    free->Fin_0
                },
            )
            &&& free is Nan ==> capped == Num::Fin(setting)
        }),
{
}

/// The bounds of the command: the discharge limit below and the charge limit above, each
/// within the envelope; an unknown limit leaves the envelope alone.
pub proof fn bounds_are_exact(enforced: Limits, env_lo: i64, env_hi: i64)
    requires
        env_lo <= 0 <= env_hi,
        env_lo > i64::MIN,
    ensures
        ({
            let (lo, hi) = clamp_bounds(enforced, Num::Fin(env_lo), Num::Fin(env_hi));
            &&& enforced.max_discharge_power matches Num::Fin(d) ==> d >= 0 ==> lo == Num::Fin(
                if d < -env_lo {
                    (-d) as i64
                } else {
                    env_lo
                },
            )
            &&& !(enforced.max_discharge_power is Fin) ==> lo == Num::Fin(env_lo)
            &&& enforced.max_charge_power matches Num::Fin(c) ==> c >= 0 ==> hi == Num::Fin(
                if c < env_hi {
                    c
                } else {
                    env_hi
                },
            )
            &&& !(enforced.max_charge_power is Fin) ==> hi == Num::Fin(env_hi)
        }),
{
}

/// The inputs are what was read, in its place; a negative setting is none, an unread
/// percentage is all, and an unread solar current is nothing.
pub proof fn battery_reads_are_taken_as_they_are(r: Reads)
    ensures
        ({
            let i = r.inputs();
            &&& i.bms_ccl == r.bms_ccl && i.bms_dcl == r.bms_dcl
            &&& i.sustain <==> r.sustain == Some(true)
            &&& r.dc_voltage is Some ==> i.dc_voltage == r.dc_voltage->0
            &&& r.dc_voltage is None ==> i.dc_voltage == Num::Nan
            &&& r.pv_current is Some ==> i.pv_current == r.pv_current->0
            &&& r.pv_current is None ==> i.pv_current == Num::Fin(0)
            &&& r.multi_max_charge_current is Some ==> i.multi_max_charge_current
                == r.multi_max_charge_current->0
            &&& r.charge_pct is Some ==> i.s_charge_pct == r.charge_pct->0
            &&& r.charge_pct is None ==> i.s_charge_pct == Num::Fin(100_000_000)
            &&& r.discharge_pct is Some ==> i.s_discharge_pct == r.discharge_pct->0
            &&& r.discharge_pct is None ==> i.s_discharge_pct == Num::Fin(100_000_000)
            &&& r.bl_state is Some ==> i.bl_state == r.bl_state->0
            &&& r.bl_state is None ==> i.bl_state == 0
            &&& r.bl_min_soc is Some ==> i.bl_min_soc == r.bl_min_soc->0
            &&& r.max_charge_power matches Some(Num::Fin(w)) ==> i.s_max_charge_power == (if w
                >= 0 {
                Num::Fin(w)
            } else {
                Num::Nan
            })
            &&& r.max_discharge_power matches Some(Num::Fin(w)) ==> i.s_max_discharge_power == (
            if w >= 0 {
                Num::Fin(w)
            } else {
                Num::Nan
            })
            &&& r.max_charge_power is None ==> i.s_max_charge_power == Num::Nan
            &&& r.max_discharge_power is None ==> i.s_max_discharge_power == Num::Nan
        }),
{
}

/// The published limits are those powers, a negative one counting as none, with a current
/// limit taken for known from the first finite one on; in the discharged states nothing
/// may be discharged, and the rest is enforced as published.
pub proof fn limits_are_published_and_enforced(b: BatteryBroker, r: Reads)
    ensures
        ({
            let i = r.inputs();
            let mode = b.after(r).mode;
            let out = b.result(r);
            let ccl = b.latched_ccl || (r.bms_ccl is Some && r.bms_ccl->0 is Fin);
            let dcl = b.latched_dcl || (r.bms_dcl is Some && r.bms_dcl->0 is Fin);
            let c = charge_power(mode, ccl, i);
            let d = discharge_power(mode, dcl, b.bms_service is Some, i);
            let s = i.bl_state;
            &&& out.published.max_charge_power == (if c is Fin && c->Fin_0 < 0 {
                Num::Fin(0)
            } else {
                c
            })
            &&& out.published.max_discharge_power == (if d is Fin && d->Fin_0 < 0 {
                Num::Fin(0)
            } else {
                d
            })
            &&& out.enforced.max_charge_power == out.published.max_charge_power
            &&& s == 5 || s == 6 || s == 8 || s == 11 || s == 12
                ==> out.enforced.max_discharge_power == Num::Fin(0)
            &&& !(s == 5 || s == 6 || s == 8 || s == 11 || s == 12)
                ==> out.enforced.max_discharge_power == out.published.max_discharge_power
            &&& b.after(r).latched_ccl == ccl && b.after(r).latched_dcl == dcl
            &&& r.dvcc is Some && r.firmware is Some ==> (mode == Mode::Regular <==> r.dvcc->0
                && r.firmware->0 > 0x414)
            &&& b.after(r).bms_service == b.bms_service
        }),
{
}

/// While the battery's charge limit was never known, the legacy mode goes by the
/// inverter's own current where a percentage of at most 99 is set, by that percentage,
/// and knows no limit otherwise.
pub proof fn unknown_charge_limit_goes_by_the_inverter(i: Inputs, amps: i64, volts: i64, part: i64)
    requires
        i.multi_max_charge_current == Num::Fin(amps),
        i.dc_voltage == Num::Fin(volts),
        0 <= amps <= 1_000_000_000,
        0 <= volts <= 1_000_000_000,
        i.s_max_charge_power is Nan,
        i.s_charge_pct is Fin,
        fraction(i.s_charge_pct) == Num::Fin(part),
        0 <= part <= 1_000_000,
    ensures
        i.s_charge_pct->Fin_0 > 99_000_000 ==> charge_power(Mode::Legacy, false, i) == Num::Nan,
        i.s_charge_pct->Fin_0 <= 99_000_000 ==> ({
            let p = charge_power(Mode::Legacy, false, i);
            &&& p is Fin
            &&& exists|dc: int|
                near(2_000_000 * dc, 2 * (amps * volts), 1_000_000) && near(
                    2_000_000 * p->Fin_0,
                    2 * #[trigger] (dc * part),
                    1_000_000,
                )
        }),
{
    let n = amps * volts;
    assert(0 <= n <= 1_000_000_000_000_000_000) by (nonlinear_arith)
        requires
            n == amps * volts,
            0 <= amps <= 1_000_000_000,
            0 <= volts <= 1_000_000_000,
    ;
    products_are_rounded(amps, volts);
    let dc = Num::Fin(amps).times(Num::Fin(volts))->Fin_0;
    let q = dc * part;
    assert(0 <= q <= 2_000_000_000_000_000_000) by (nonlinear_arith)
        requires
            q == dc * part,
            0 <= dc <= 1_000_000_000_001,
            0 <= part <= 1_000_000,
    ;
    products_are_rounded(dc, part);
    let d = dc as int;
    if i.s_charge_pct->Fin_0 <= 99_000_000 {
        assert(near(
            2_000_000 * (charge_power(Mode::Legacy, false, i)->Fin_0),
            2 * (d * part),
            1_000_000,
        ));
    }
}

} // verus!
