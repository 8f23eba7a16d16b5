//! Limiter for AC-coupled solar inverters.
//!
//! When solar production can neither be absorbed by the battery nor exported, the solar
//! inverters are curtailed through their power limit. The module also produces the two
//! status flags and the feed-forward that the setpoint loop adds to its target. Without
//! solar inverters it does nothing at all.

use crate::control::clamp;
use crate::num::moderate;
use crate::num::near;
use crate::num::products_are_rounded;
use crate::num::quotients_are_rounded;
use crate::num::sums_are_exact;
use crate::num::Num;
use crate::states::hub4mode;
use vstd::prelude::*;

verus! {

/// "No limit" (200 kW, in millionths of a watt).
pub const RELEASE_W: i64 = 200_000_000_000;

/// A ramp step is this fraction of the nameplate power (0.01, in millionths) ...
pub const RAMP_FRAC: i64 = 10_000;

/// ... and at least this (50 W, in millionths).
pub const RAMP_MIN_W: i64 = 50_000_000;

/// A difference within this fraction of the nameplate power is none (0.02, in millionths).
pub const DEADBAND_FRAC: i64 = 20_000;

/// The factor of the cut when the battery is full (0.015, in millionths).
pub const FAST_THROTTLE: i64 = 15_000;

/// Weight of the new sample in the feed-forward (0.6, in millionths).
pub const OFF_EMA_NEW: i64 = 600_000;

/// Weight of the past in the feed-forward (0.4, in millionths).
pub const OFF_EMA_OLD: i64 = 400_000;

/// What a tick publishes.
#[derive(Clone, Copy, Debug, PartialEq, Eq, Structural)]
pub struct PvOut {
    pub pv_disable: i32,
    pub pv_limiter_active: i32,
    /// Feed-forward (W).
    pub pv_offset_w: Num,
}

impl PvOut {
    /// Not limiting, not disabling, nothing fed forward.
    pub open spec fn idle() -> PvOut {
        PvOut { pv_disable: 0, pv_limiter_active: 0, pv_offset_w: Num::Fin(0) }
    }

    /// The outcome without solar inverters.
    pub fn stub() -> (r: PvOut)
        ensures
            r == PvOut::idle(),
    {
        PvOut { pv_disable: 0, pv_limiter_active: 0, pv_offset_w: Num::Fin(0) }
    }
}

/// What the limiter needs to know of the battery and the grid.
#[derive(Clone, Copy, Debug, PartialEq, Eq, Structural)]
pub struct PvContext {
    /// Power that the battery can still absorb (W).
    pub charge_headroom_w: Num,
    pub battery_full: bool,
    pub export_blocked: bool,
    /// False releases every inverter.
    pub limiter_enabled: bool,
}

impl Default for PvContext {
    fn default() -> (r: Self)
        ensures
            r == (PvContext {
                charge_headroom_w: Num::PosInf,
                battery_full: false,
                export_blocked: false,
                limiter_enabled: true,
            }),
    {
        PvContext {
            charge_headroom_w: Num::PosInf,
            battery_full: false,
            export_blocked: false,
            limiter_enabled: true,
        }
    }
}

/// One solar inverter as read; a field is `None` where the read failed.
#[derive(Debug)]
pub struct PvInverter {
    pub service: String,
    pub ac_power: Option<Num>,
    pub power_limit: Option<Num>,
    pub max_power: Option<Num>,
    /// 1 is on the AC output.
    pub position: Option<i32>,
    pub status: Option<i32>,
}

impl PvInverter {
    pub open spec fn is_producing(self) -> bool {
        self.status == Some(7i32) || self.status == Some(11i32) || self.status == Some(12i32) || (
        self.ac_power is Some && Num::Fin(0).lt(self.ac_power->0))
    }

    /// Running, or delivering power.
    pub fn producing(&self) -> (r: bool)
        ensures
            r == self.is_producing(),
    {
        let running = match self.status {
            Some(s) => s == 7 || s == 11 || s == 12,
            None => false,
        };
        running || match self.ac_power {
            Some(p) => Num::Fin(0).lt(p),
            None => false,
        }
    }

    pub open spec fn rated(self) -> Option<Num> {
        if self.max_power is Some && self.max_power->0.is_finite() && Num::Fin(0).lt(
            self.max_power->0,
        ) {
            self.max_power
        } else {
            None
        }
    }

    /// The nameplate power, where a positive one was read.
    pub fn nameplate(&self) -> (r: Option<Num>)
        ensures
            r == self.rated(),
    {
        match self.max_power {
            Some(m) => if m.is_finite() && Num::Fin(0).lt(m) {
                Some(m)
            } else {
                None
            },
            None => None,
        }
    }

    pub open spec fn is_controllable(self) -> bool {
        self.power_limit is Some && self.power_limit->0.is_finite()
    }

    /// Does it take a power limit?
    pub fn controllable(&self) -> (r: bool)
        ensures
            r == self.is_controllable(),
    {
        match self.power_limit {
            Some(l) => l.is_finite(),
            None => false,
        }
    }

    /// Shares the allowance: controllable, producing, and not on the AC output.
    pub open spec fn shares(self) -> bool {
        self.is_controllable() && self.is_producing() && self.position != Some(1i32)
    }

    fn takes_share(&self) -> (r: bool)
        ensures
            r == self.shares(),
    {
        let on_output = match self.position {
            Some(p) => p == 1,
            None => false,
        };
        self.controllable() && self.producing() && !on_output
    }
}

pub open spec fn spec_ramp(cur: Num, target: Num, step: Num, deadband: Num) -> Num {
    if cur.minus(target).abs().le(deadband.max(step)) {
        target
    } else if cur.lt(target) {
        cur.plus(step)
    } else {
        cur.minus(step)
    }
}

/// Move from `cur` towards `target` by `step`; within the larger of step and deadband,
/// go there at once.
#[verifier::when_used_as_spec(spec_ramp)]
pub fn ramp(cur: Num, target: Num, step: Num, deadband: Num) -> (r: Num)
    ensures
        r == ramp(cur, target, step, deadband),
{
    if cur.minus(target).abs().le(deadband.max(step)) {
        target
    } else if cur.lt(target) {
        cur.plus(step)
    } else {
        cur.minus(step)
    }
}

/// How many inverters share the allowance.
pub open spec fn sharers(invs: Seq<PvInverter>) -> nat
    decreases invs.len(),
{
    if invs.len() == 0 {
        0
    } else {
        sharers(invs.drop_last()) + (if invs.last().shares() {
            1nat
        } else {
            0nat
        })
    }
}

/// The export cap that counts: 0 where it is unset, negative or unread.
pub open spec fn feedin_cap(feedin: Option<Num>) -> Num {
    if feedin is Some && feedin->0.is_finite() && Num::Fin(0).le(feedin->0) {
        feedin->0
    } else {
        Num::Fin(0)
    }
}

/// The production that can be absorbed or exported.
pub open spec fn allowance(ctx: PvContext, feedin: Option<Num>) -> Num {
    (if ctx.charge_headroom_w.is_finite() {
        ctx.charge_headroom_w.max(Num::Fin(0))
    } else {
        Num::Fin(0)
    }).plus(feedin_cap(feedin))
}

/// The part of it that falls to one inverter.
pub open spec fn share_of(invs: Seq<PvInverter>, ctx: PvContext, feedin: Option<Num>) -> Num {
    if sharers(invs) == 0 {
        allowance(ctx, feedin)
    } else {
        allowance(ctx, feedin).over(crate::num::whole(sharers(invs) as int))
    }
}

/// The limit in force: the nameplate where the written one is at or above it.
pub open spec fn present_limit(inv: PvInverter, mp: Num) -> Num {
    if inv.power_limit is Some && inv.power_limit->0.is_finite() && inv.power_limit->0.lt(mp) {
        inv.power_limit->0
    } else {
        mp
    }
}

/// The next limit of an inverter that shares the allowance.
pub open spec fn next_limit(inv: PvInverter, mp: Num, share: Num, battery_full: bool) -> Num {
    let cur = present_limit(inv, mp);
    clamp(
        if battery_full {
            cur.times(Num::Fin(FAST_THROTTLE)).max(share.min(mp))
        } else {
            ramp(
                cur,
                share.min(mp),
                Num::Fin(RAMP_FRAC).times(mp).max(Num::Fin(RAMP_MIN_W)),
                Num::Fin(DEADBAND_FRAC).times(mp),
            )
        },
        Num::Fin(0),
        mp,
    )
}

/// The limit to write to one inverter, if any.
pub open spec fn limit_for(inv: PvInverter, ctx: PvContext, share: Num) -> Option<Num> {
    if !ctx.limiter_enabled {
        Some(Num::Fin(RELEASE_W))
    } else if !inv.is_controllable() {
        None
    } else if ctx.battery_full && ctx.export_blocked {
        if inv.is_producing() {
            Some(Num::Fin(0))
        } else {
            inv.rated()
        }
    } else {
        match inv.rated() {
            None => Some(Num::Fin(RELEASE_W)),
            Some(mp) => if inv.shares() {
                Some(next_limit(inv, mp, share, ctx.battery_full))
            } else {
                Some(mp)
            },
        }
    }
}

/// Is the inverter held below its nameplate (by more than half a watt)?
pub open spec fn capped(inv: PvInverter, ctx: PvContext, share: Num) -> bool {
    inv.shares() && inv.rated() is Some && next_limit(
        inv,
        inv.rated()->0,
        share,
        ctx.battery_full,
    ).lt(inv.rated()->0.minus(Num::Fin(500_000)))
}

/// The writes for a list of inverters, in order.
pub open spec fn limits_for(invs: Seq<PvInverter>, ctx: PvContext, share: Num) -> Seq<
    (Seq<char>, Num),
>
    decreases invs.len(),
{
    if invs.len() == 0 {
        Seq::empty()
    } else {
        let before = limits_for(invs.drop_last(), ctx, share);
        match limit_for(invs.last(), ctx, share) {
            Some(w) => before.push((invs.last().service@, w)),
            None => before,
        }
    }
}

/// Is any inverter held below its nameplate?
pub open spec fn any_capped(invs: Seq<PvInverter>, ctx: PvContext, share: Num) -> bool {
    exists|k: int| 0 <= k < invs.len() && capped(#[trigger] invs[k], ctx, share)
}

/// Total production of the inverters that produce.
pub open spec fn production(invs: Seq<PvInverter>) -> Num
    decreases invs.len(),
{
    if invs.len() == 0 {
        Num::Fin(0)
    } else {
        let before = production(invs.drop_last());
        let inv = invs.last();
        if inv.is_producing() && inv.ac_power is Some && inv.ac_power->0.is_finite() {
            before.plus(inv.ac_power->0.max(Num::Fin(0)))
        } else {
            before
        }
    }
}

/// The characters of each service, with its limit.
pub open spec fn named(v: Seq<(String, Num)>) -> Seq<(Seq<char>, Num)> {
    v.map_values(|p: (String, Num)| (p.0@, p.1))
}

/// The limiter.
pub struct PvLimiter {
    /// The smoothed production; not a number until the first sample.
    pub offset_ema: Num,
    pub active: bool,
    pub disabled: bool,
    /// The limits to write this tick, by service.
    pub writes: Vec<(String, Num)>,
}

impl PvLimiter {
    pub fn new() -> (p: Self)
        ensures
            p.offset_ema == Num::Nan,
            !p.active,
            !p.disabled,
            p.writes@ == Seq::<(String, Num)>::empty(),
    {
        PvLimiter { offset_ema: Num::Nan, active: false, disabled: false, writes: Vec::new() }
    }

    /// The limits that the last tick decided to write, as service and watts.
    pub fn last_writes(&self) -> (r: &Vec<(String, Num)>)
        ensures
            r@ == self.writes@,
    {
        &self.writes
    }

    /// The smoothed production after a sample.
    pub open spec fn smoothed(self, invs: Seq<PvInverter>) -> Num {
        if self.offset_ema.is_finite() {
            Num::Fin(OFF_EMA_NEW).times(production(invs)).plus(
                Num::Fin(OFF_EMA_OLD).times(self.offset_ema),
            )
        } else {
            production(invs)
        }
    }

    fn update_power(&mut self, invs: &Vec<PvInverter>) -> (r: Num)
        ensures
            r == old(self).smoothed(invs@).max(Num::Fin(0)),
            *final(self) == (PvLimiter { offset_ema: old(self).smoothed(invs@), ..*old(self) }),
    {
        let mut raw = Num::Fin(0);
        let mut k: usize = 0;
        proof {
            assert(invs@.take(0) =~= Seq::<PvInverter>::empty());
        }
        while k < invs.len()
            invariant
                k <= invs.len(),
                raw == production(invs@.take(k as int)),
            decreases invs.len() - k,
        {
            proof {
                assert(invs@.take(k + 1).drop_last() =~= invs@.take(k as int));
                assert(invs@.take(k + 1).last() == invs@[k as int]);
            }
            if invs[k].producing() {
                if let Some(p) = invs[k].ac_power {
                    if p.is_finite() {
                        raw = raw.plus(p.max(Num::Fin(0)));
                    }
                }
            }
            k += 1;
        }
        proof {
            assert(invs@.take(invs.len() as int) =~= invs@);
        }
        let filtered = if self.offset_ema.is_finite() {
            Num::Fin(OFF_EMA_NEW).times(raw).plus(Num::Fin(OFF_EMA_OLD).times(self.offset_ema))
        } else {
            raw
        };
        self.offset_ema = filtered;
        filtered.max(Num::Fin(0))
    }

    fn count_sharers(invs: &Vec<PvInverter>) -> (n: usize)
        ensures
            n == sharers(invs@),
    {
        let mut n: usize = 0;
        let mut k: usize = 0;
        proof {
            assert(invs@.take(0) =~= Seq::<PvInverter>::empty());
        }
        while k < invs.len()
            invariant
                n <= k <= invs.len(),
                n == sharers(invs@.take(k as int)),
            decreases invs.len() - k,
        {
            proof {
                assert(invs@.take(k + 1).drop_last() =~= invs@.take(k as int));
                assert(invs@.take(k + 1).last() == invs@[k as int]);
            }
            if invs[k].takes_share() {
                n += 1;
            }
            k += 1;
        }
        proof {
            assert(invs@.take(invs.len() as int) =~= invs@);
        }
        n
    }

    fn share(invs: &Vec<PvInverter>, ctx: &PvContext, feedin: Option<Num>) -> (r: Num)
        requires
            invs@.len() <= i64::MAX,
        ensures
            r == share_of(invs@, *ctx, feedin),
    {
        let cap = match feedin {
            Some(f) => if f.is_finite() && Num::Fin(0).le(f) {
                f
            } else {
                Num::Fin(0)
            },
            None => Num::Fin(0),
        };
        let headroom = if ctx.charge_headroom_w.is_finite() {
            ctx.charge_headroom_w.max(Num::Fin(0))
        } else {
            Num::Fin(0)
        };
        let allowed = headroom.plus(cap);
        let n: usize = PvLimiter::count_sharers(invs);
        proof {
            sharers_at_most(invs@);
        }
        if n == 0 {
            allowed
        } else {
            allowed.over(Num::of(n as i64))
        }
    }

    fn decide_limit(inv: &PvInverter, ctx: &PvContext, share: Num) -> (r: Option<Num>)
        ensures
            r == limit_for(*inv, *ctx, share),
    {
        if !ctx.limiter_enabled {
            return Some(Num::Fin(RELEASE_W));
        }
        if !inv.controllable() {
            return None;
        }
        if ctx.battery_full && ctx.export_blocked {
            return if inv.producing() {
                Some(Num::Fin(0))
            } else {
                inv.nameplate()
            };
        }
        match inv.nameplate() {
            None => Some(Num::Fin(RELEASE_W)),
            Some(mp) => if inv.takes_share() {
                let cur = match inv.power_limit {
                    Some(l) => if l.is_finite() && l.lt(mp) {
                        l
                    } else {
                        mp
                    },
                    None => mp,
                };
                let new = if ctx.battery_full {
                    cur.times(Num::Fin(FAST_THROTTLE)).max(share.min(mp))
                } else {
                    let step = Num::Fin(RAMP_FRAC).times(mp).max(Num::Fin(RAMP_MIN_W));
                    ramp(cur, share.min(mp), step, Num::Fin(DEADBAND_FRAC).times(mp))
                };
                Some(clamp(new, Num::Fin(0), mp))
            } else {
                Some(mp)
            },
        }
    }

    /// Is the limiter holding anything back?
    pub open spec fn limiting(
        invs: Seq<PvInverter>,
        ctx: PvContext,
        feedin: Option<Num>,
    ) -> bool {
        if !ctx.limiter_enabled {
            false
        } else if ctx.battery_full && ctx.export_blocked {
            true
        } else {
            any_capped(invs, ctx, share_of(invs, ctx, feedin))
        }
    }

    /// Does the limit `w` hold the inverter back?
    fn holds_back(inv: &PvInverter, ctx: &PvContext, share: Num, w: Num) -> (r: bool)
        requires
            ctx.limiter_enabled,
            !(ctx.battery_full && ctx.export_blocked),
            limit_for(*inv, *ctx, share) == Some(w),
        ensures
            r == capped(*inv, *ctx, share),
    {
        match inv.nameplate() {
            Some(mp) => inv.takes_share() && w.lt(mp.minus(Num::Fin(500_000))),
            None => false,
        }
    }

    fn update_limits(&mut self, invs: &Vec<PvInverter>, ctx: &PvContext, feedin: Option<Num>)
        requires
            old(self).writes@.len() == 0,
            invs@.len() <= i64::MAX,
        ensures
            final(self).offset_ema == old(self).offset_ema,
            named(final(self).writes@) == limits_for(invs@, *ctx, share_of(invs@, *ctx, feedin)),
            final(self).active == PvLimiter::limiting(invs@, *ctx, feedin),
            final(self).disabled == (ctx.limiter_enabled && ctx.battery_full && ctx.export_blocked),
    {
        let share = PvLimiter::share(invs, ctx, feedin);
        let partial = ctx.limiter_enabled && !(ctx.battery_full && ctx.export_blocked);
        let mut held = false;
        let mut k: usize = 0;
        proof {
            assert(invs@.take(0) =~= Seq::<PvInverter>::empty());
            assert(named(self.writes@) =~= Seq::<(Seq<char>, Num)>::empty());
        }
        while k < invs.len()
            invariant
                k <= invs.len(),
                self.offset_ema == old(self).offset_ema,
                share == share_of(invs@, *ctx, feedin),
                partial == (ctx.limiter_enabled && !(ctx.battery_full && ctx.export_blocked)),
                named(self.writes@) == limits_for(invs@.take(k as int), *ctx, share),
                partial ==> held == (exists|j: int|
                    0 <= j < k && capped(#[trigger] invs@[j], *ctx, share)),
            decreases invs.len() - k,
        {
            proof {
                assert(invs@.take(k + 1).drop_last() =~= invs@.take(k as int));
                assert(invs@.take(k + 1).last() == invs@[k as int]);
            }
            let ghost before = self.writes@;
            let inv = &invs[k];
            if let Some(w) = PvLimiter::decide_limit(inv, ctx, share) {
                self.writes.push((inv.service.clone(), w));
                proof {
                    assert(named(self.writes@) =~= named(before).push((inv.service@, w)));
                }
                if partial && PvLimiter::holds_back(inv, ctx, share, w) {
                    held = true;
                }
            }
            k += 1;
        }
        proof {
            assert(invs@.take(invs.len() as int) =~= invs@);
        }
        self.disabled = ctx.limiter_enabled && ctx.battery_full && ctx.export_blocked;
        self.active = if partial {
            held
        } else {
            self.disabled
        };
    }

    /// Is the limiter switched off, because an external controller runs the loop? An
    /// unread mode counts as that.
    pub open spec fn off(mode: Option<i32>) -> bool {
        mode is None || mode->0 == hub4mode::EXTERNAL
    }

    /// What one tick does: `next` is the limiter afterwards and `out` the outcome.
    pub open spec fn ticked(
        self,
        next: PvLimiter,
        out: PvOut,
        invs: Seq<PvInverter>,
        hub4_mode: Option<i32>,
        feedin: Option<Num>,
        ctx: PvContext,
    ) -> bool {
        &&& next.offset_ema == (if invs.len() == 0 {
            Num::Nan
        } else {
            self.smoothed(invs)
        })
        &&& named(next.writes@) == (if invs.len() == 0 || PvLimiter::off(hub4_mode) {
            Seq::empty()
        } else {
            limits_for(invs, ctx, share_of(invs, ctx, feedin))
        })
        &&& next.active == (invs.len() > 0 && !PvLimiter::off(hub4_mode) && PvLimiter::limiting(
            invs,
            ctx,
            feedin,
        ))
        &&& next.disabled == (invs.len() > 0 && !PvLimiter::off(hub4_mode) && ctx.limiter_enabled
            && ctx.battery_full && ctx.export_blocked)
        &&& out == (PvOut {
            pv_disable: crate::feedin::as_bit(next.disabled),
            pv_limiter_active: crate::feedin::as_bit(next.active),
            pv_offset_w: if invs.len() == 0 {
                Num::Fin(0)
            } else {
                self.smoothed(invs).max(Num::Fin(0))
            },
        })
    }

    /// One tick over the inverters that are there. `hub4_mode` is the mode setting and
    /// `feedin` the export cap, as read. Afterwards `last_writes` holds the limits to
    /// write.
    pub fn tick(
        &mut self,
        invs: &Vec<PvInverter>,
        hub4_mode: Option<i32>,
        feedin: Option<Num>,
        ctx: PvContext,
    ) -> (out: PvOut)
        requires
            invs@.len() <= i64::MAX,
        ensures
            old(self).ticked(*final(self), out, invs@, hub4_mode, feedin, ctx),
    {
        self.writes = Vec::new();
        proof {
            assert(named(self.writes@) =~= Seq::<(Seq<char>, Num)>::empty());
        }
        if invs.len() == 0 {
            self.offset_ema = Num::Nan;
            self.active = false;
            self.disabled = false;
            return PvOut::stub();
        }
        let offset = self.update_power(invs);
        let external = match hub4_mode {
            Some(m) => m == hub4mode::EXTERNAL,
            None => true,
        };
        if external {
            self.active = false;
            self.disabled = false;
            return PvOut { pv_disable: 0, pv_limiter_active: 0, pv_offset_w: offset };
        }
        self.update_limits(invs, &ctx, feedin);
        PvOut {
            pv_disable: if self.disabled {
                1
            } else {
                0
            },
            pv_limiter_active: if self.active {
                1
            } else {
                0
            },
            pv_offset_w: offset,
        }
    }
}

proof fn sharers_at_most(invs: Seq<PvInverter>)
    ensures
        sharers(invs) <= invs.len(),
    decreases invs.len(),
{
    if invs.len() > 0 {
        sharers_at_most(invs.drop_last());
    }
}

/// Every limit ever written is the release value, or lies between 0 and the nameplate
/// power: never negative, never more than the inverter can do, never "not a number".
pub proof fn written_limit_is_within_the_nameplate(inv: PvInverter, ctx: PvContext, share: Num)
    ensures
        limit_for(inv, ctx, share) matches Some(w) ==> w.is_finite() && Num::Fin(0).le(w) && (w
            == Num::Fin(RELEASE_W) || w == Num::Fin(0) || (inv.rated() is Some && w.le(
            inv.rated()->0,
        ))),
{
}

/// Limits are written only to inverters that were listed, each the limit that its own
/// readings call for, and there are no more writes than inverters.
pub proof fn only_listed_inverters_are_written(invs: Seq<PvInverter>, ctx: PvContext, share: Num)
    ensures
        limits_for(invs, ctx, share).len() <= invs.len(),
        forall|j: int|
            0 <= j < limits_for(invs, ctx, share).len() ==> exists|k: int|
                0 <= k < invs.len() && (#[trigger] invs[k]).service@ == (
                #[trigger] limits_for(invs, ctx, share)[j]).0 && limit_for(invs[k], ctx, share)
                    == Some(limits_for(invs, ctx, share)[j].1),
    decreases invs.len(),
{
    if invs.len() > 0 {
        let init = invs.drop_last();
        only_listed_inverters_are_written(init, ctx, share);
        let all = limits_for(invs, ctx, share);
        let some = limits_for(init, ctx, share);
        assert forall|j: int| 0 <= j < all.len() implies exists|k: int|
            0 <= k < invs.len() && (#[trigger] invs[k]).service@ == (#[trigger] all[j]).0
                && limit_for(invs[k], ctx, share) == Some(all[j].1) by {
            if j < some.len() {
                assert(all[j] == some[j]);
                let k = choose|k: int|
                    0 <= k < init.len() && (#[trigger] init[k]).service@ == some[j].0 && limit_for(
                        init[k],
                        ctx,
                        share,
                    ) == Some(some[j].1);
                assert(invs[k] == init[k]);
            } else {
                assert(invs[invs.len() - 1].service@ == all[j].0);
            }
        }
    }
}

/// With the limiter switched off every inverter is released.
pub proof fn disabled_limiter_releases(inv: PvInverter, ctx: PvContext, share: Num)
    requires
        !ctx.limiter_enabled,
    ensures
        limit_for(inv, ctx, share) == Some(Num::Fin(RELEASE_W)),
{
}

/// With nowhere to put the power, whatever produces is curtailed to nothing, and an
/// idle inverter stays open so that it can start again.
pub proof fn no_sink_curtails_to_nothing(inv: PvInverter, ctx: PvContext, share: Num)
    requires
        ctx.limiter_enabled,
        ctx.battery_full,
        ctx.export_blocked,
        inv.is_controllable(),
    ensures
        inv.is_producing() ==> limit_for(inv, ctx, share) == Some(Num::Fin(0)),
        !inv.is_producing() ==> limit_for(inv, ctx, share) == inv.rated(),
{
}

/// The ramp moves towards its target and never past it.
pub proof fn ramp_never_overshoots(cur: Num, target: Num, step: Num, deadband: Num)
    requires
        cur.is_finite(),
        target.is_finite(),
        step.is_finite(),
        deadband.is_finite(),
        Num::Fin(0).le(step),
        cur.minus(target).is_finite(),
    ensures
        ({
            let r = ramp(cur, target, step, deadband);
            &&& r.is_finite()
            &&& cur.le(target) ==> cur.le(r) && r.le(target)
            &&& target.le(cur) ==> target.le(r) && r.le(cur)
        }),
{
}

/// What is fed forward is never negative.
pub proof fn feed_forward_is_not_negative(p: PvLimiter, invs: Seq<PvInverter>)
    ensures
        Num::Fin(0).le(p.smoothed(invs).max(Num::Fin(0))),
{
}

/// The production of the inverters, in counts: what each of those that run or deliver
/// power delivers, as far as it is a positive number.
pub open spec fn delivered(invs: Seq<PvInverter>) -> int
    decreases invs.len(),
{
    if invs.len() == 0 {
        0
    } else {
        delivered(invs.drop_last()) + (match invs.last().ac_power {
            Some(Num::Fin(p)) => if p > 0 {
                p as int
            } else {
                0
            },
            _ => 0,
        })
    }
}

proof fn delivered_is_not_negative(invs: Seq<PvInverter>)
    ensures
        0 <= delivered(invs),
    decreases invs.len(),
{
    if invs.len() > 0 {
        delivered_is_not_negative(invs.drop_last());
    }
}

/// The smoothed production starts at what the inverters deliver and then follows it with
/// six tenths of the new sample and four tenths of the past.
pub proof fn smoothed_production_follows_the_inverters(p: PvLimiter, invs: Seq<PvInverter>)
    requires
        delivered(invs) <= 1_000_000_000_000_000_000,
    ensures
        !(p.offset_ema is Fin) ==> p.smoothed(invs) is Fin && p.smoothed(invs)->Fin_0 == delivered(
            invs,
        ),
        moderate(p.offset_ema) ==> p.smoothed(invs) is Fin && near(
            10 * p.smoothed(invs)->Fin_0,
            6 * delivered(invs) + 4 * p.offset_ema->Fin_0,
            10,
        ),
{
    production_is_what_is_delivered(invs);
    delivered_is_not_negative(invs);
    let d = delivered(invs) as i64;
    products_are_rounded(600_000, d);
    if moderate(p.offset_ema) {
        let o = p.offset_ema->Fin_0;
        products_are_rounded(400_000, o);
        sums_are_exact(
            Num::Fin(600_000).times(Num::Fin(d))->Fin_0,
            Num::Fin(400_000).times(Num::Fin(o))->Fin_0,
        );
    }
}

proof fn production_is_what_is_delivered(invs: Seq<PvInverter>)
    requires
        delivered(invs) <= 1_000_000_000_000_000_000,
    ensures
        production(invs) == Num::Fin(delivered(invs) as i64),
    decreases invs.len(),
{
    if invs.len() > 0 {
        delivered_is_not_negative(invs.drop_last());
        production_is_what_is_delivered(invs.drop_last());
    }
}

/// An inverter shares the allowance exactly where it takes a limit, runs or delivers
/// power, and is not on the AC output.
pub proof fn sharing_is_for_running_inverters_on_the_input(inv: PvInverter)
    ensures
        inv.shares() <==> inv.power_limit is Some && inv.power_limit->0 is Fin && inv.position
            != Some(1i32) && (inv.status == Some(7i32) || inv.status == Some(11i32) || inv.status
            == Some(12i32) || (inv.ac_power is Some && (inv.ac_power->0 is PosInf || (
        inv.ac_power->0 is Fin && inv.ac_power->0->Fin_0 > 0)))),
{
}

/// The allowance is what the battery can take plus what may be exported, and those that
/// share it get equal parts of it.
pub proof fn allowance_is_shared_equally(
    invs: Seq<PvInverter>,
    ctx: PvContext,
    feedin: Option<Num>,
    headroom: i64,
    cap: i64,
)
    requires
        ctx.charge_headroom_w == Num::Fin(headroom) || (!(ctx.charge_headroom_w is Fin)
            && headroom == 0),
        feedin == Some(Num::Fin(cap)) || (feedin is None && cap == 0) || (feedin is Some && !(
        feedin->0 is Fin) && cap == 0),
        -1_000_000_000_000_000 <= headroom <= 1_000_000_000_000_000,
        -1_000_000_000_000_000 <= cap <= 1_000_000_000_000_000,
        sharers(invs) <= 1_000,
    ensures
        ({
            let all = (if headroom > 0 {
                headroom as int
            } else {
                0
            }) + (if cap > 0 {
                cap as int
            } else {
                0
            });
            let part = share_of(invs, ctx, feedin);
            let n = sharers(invs) as int;
            &&& part is Fin
            &&& n == 0 ==> part->Fin_0 == all
            &&& n > 0 ==> near(2 * (part->Fin_0 * n), 2 * all, n)
        }),
{
    let all = allowance(ctx, feedin)->Fin_0;
    let n = sharers(invs) as int;
    if n > 0 {
        let d = (1_000_000 * n) as i64;
        assert(all * 1_000_000 <= 9_000_000_000_000_000_000 * d) by (nonlinear_arith)
            requires
                0 <= all <= 2_000_000_000_000_000,
                d >= 1_000_000,
        ;
        assert(all * 1_000_000 >= -9_000_000_000_000_000_000 * d) by (nonlinear_arith)
            requires
                0 <= all,
                d >= 1_000_000,
        ;
        quotients_are_rounded(all, d);
        let q = Num::Fin(all).over(Num::Fin(d))->Fin_0;
        assert(q * d == 1_000_000 * (q * n)) by (nonlinear_arith)
            requires
                d == 1_000_000 * n,
        ;
    }
}

/// The number of those that share grows by one with each of them.
pub proof fn sharers_are_counted(invs: Seq<PvInverter>, inv: PvInverter)
    ensures
        sharers(Seq::empty()) == 0,
        sharers(invs.push(inv)) == sharers(invs) + (if inv.shares() {
            1nat
        } else {
            0nat
        }),
{
    assert(invs.push(inv).drop_last() =~= invs);
}

/// A ramp goes to its target where it is within a step or the deadband, and else exactly
/// one step towards it.
pub proof fn ramp_takes_one_step(cur: i64, target: i64, step: i64, deadband: i64)
    requires
        moderate(Num::Fin(cur)),
        moderate(Num::Fin(target)),
        moderate(Num::Fin(step)),
        0 <= step,
        0 <= deadband,
    ensures
        ramp(Num::Fin(cur), Num::Fin(target), Num::Fin(step), Num::Fin(deadband)) == Num::Fin(
            (if near(cur as int, target as int, step as int) || near(
                cur as int,
                target as int,
                deadband as int,
            ) {
                target as int
            } else if cur < target {
                cur + step
            } else {
                cur - step
            }) as i64,
        ),
{
    sums_are_exact(cur, target);
    sums_are_exact((cur - target) as i64, 0);
}

/// The next limit of an inverter that shares: while the battery has room it ramps from
/// the limit in force to its part (at most the nameplate), by a hundredth of the
/// nameplate and at least 50 W, going there at once within two hundredths; with a full
/// battery it is cut to fifteen thousandths of the limit in force, but not below its part.
pub proof fn next_limit_ramps_or_cuts(
    inv: PvInverter,
    mp: i64,
    share: i64,
    full: bool,
)
    requires
        0 < mp <= 1_000_000_000_000_000,
        0 <= share <= 1_000_000_000_000_000,
        inv.power_limit matches Some(Num::Fin(l)) ==> 0 <= l,
    ensures
        ({
            let cur: int = match inv.power_limit {
                Some(Num::Fin(l)) => if l < mp {
                    l as int
                } else {
                    mp as int
                },
                _ => mp as int,
            };
            let goal: int = if share < mp {
                share as int
            } else {
                mp as int
            };
            let next = next_limit(inv, Num::Fin(mp), Num::Fin(share), full);
            &&& next is Fin
            &&& 0 <= next->Fin_0 <= mp
            &&& full ==> next->Fin_0 >= goal && (next->Fin_0 == goal || near(
                2_000 * next->Fin_0,
                30 * cur,
                1_000,
            )) && 2_000 * next->Fin_0 >= 30 * cur - 1_000
            &&& !full ==> is_one_ramp_step(cur, goal, mp as int, next->Fin_0 as int)
        }),
{
    products_are_rounded(10_000, mp);
    products_are_rounded(20_000, mp);
    let cur = present_limit(inv, Num::Fin(mp))->Fin_0;
    products_are_rounded(cur, 15_000);
    let step = Num::Fin(10_000).times(Num::Fin(mp))->Fin_0;
    let dead = Num::Fin(20_000).times(Num::Fin(mp))->Fin_0;
    let goal = if share < mp {
        share
    } else {
        mp
    };
    let least = if step < 50_000_000 {
        50_000_000
    } else {
        step
    };
    ramp_takes_one_step(cur, goal, least, dead);
    assert(near(200 * step, 2 * mp, 100) && near(100 * dead, 2 * mp, 50));
    assert(least >= 50_000_000 && (near(200 * least, 2 * mp, 100) || (least == 50_000_000 && 2 * mp
        <= 10_000_000_100)));
    let moved = ramped(cur as int, goal as int, least as int, dead as int);
    assert(is_one_ramp_step(cur as int, goal as int, mp as int, moved));
}

/// Is `next` one step of the ramp from `cur` to `goal` of an inverter of this nameplate:
/// a hundredth of it and at least 50 W, the deadband two hundredths?
pub open spec fn is_one_ramp_step(cur: int, goal: int, mp: int, next: int) -> bool {
    exists|step: int, dead: int|
        #[trigger] ramped(cur, goal, step, dead) == next && near(100 * dead, 2 * mp, 50) && step
            >= 50_000_000 && (near(200 * step, 2 * mp, 100) || (step == 50_000_000 && 2 * mp
            <= 10_000_000_100))
}

/// Where a ramp is after one step, in counts.
pub open spec fn ramped(cur: int, target: int, step: int, deadband: int) -> int {
    if near(cur, target, step) || near(cur, target, deadband) {
        target
    } else if cur < target {
        cur + step
    } else {
        cur - step
    }
}

/// Which limit an inverter is written: none where it takes none; otherwise its next limit
/// where it shares, its nameplate where it does not, and the release value where it has
/// no nameplate. The limiter does all this only while we do not run in the external mode.
pub proof fn limits_go_to_those_that_take_them(inv: PvInverter, ctx: PvContext, share: Num, mp: i64)
    requires
        ctx.limiter_enabled,
        !(ctx.battery_full && ctx.export_blocked),
    ensures
        !(inv.power_limit matches Some(Num::Fin(_))) ==> limit_for(inv, ctx, share) is None,
        (inv.power_limit matches Some(Num::Fin(_))) && !(inv.max_power matches Some(Num::Fin(m))
            && m > 0) ==> limit_for(inv, ctx, share) == Some(Num::Fin(200_000_000_000)),
        (inv.power_limit matches Some(Num::Fin(_))) && inv.max_power == Some(Num::Fin(mp)) && mp > 0
            ==> limit_for(inv, ctx, share) == Some(
            if inv.shares() {
                next_limit(inv, Num::Fin(mp), share, ctx.battery_full)
            } else {
                Num::Fin(mp)
            },
        ),
        PvLimiter::off(None),
        PvLimiter::off(Some(3i32)),
        !PvLimiter::off(Some(1i32)),
{
}

/// The limiter reports itself active exactly where it holds some sharing inverter more
/// than half a watt below its nameplate, or where there is no sink at all; switched off
/// it never is.
pub proof fn active_means_held_back(
    invs: Seq<PvInverter>,
    ctx: PvContext,
    feedin: Option<Num>,
)
    ensures
        !ctx.limiter_enabled ==> !PvLimiter::limiting(invs, ctx, feedin),
        ctx.limiter_enabled && ctx.battery_full && ctx.export_blocked ==> PvLimiter::limiting(
            invs,
            ctx,
            feedin,
        ),
        ctx.limiter_enabled && !(ctx.battery_full && ctx.export_blocked) ==> (
        PvLimiter::limiting(invs, ctx, feedin) <==> exists|k: int|
            0 <= k < invs.len() && (#[trigger] invs[k]).shares() && held_back(
                invs[k],
                limit_for(invs[k], ctx, share_of(invs, ctx, feedin)),
            )),
{
    let share = share_of(invs, ctx, feedin);
    assert forall|k: int| 0 <= k < invs.len() && (#[trigger] invs[k]).shares() implies capped(
        invs[k],
        ctx,
        share,
    ) == held_back(invs[k], limit_for(invs[k], ctx, share)) || !ctx.limiter_enabled || (
    ctx.battery_full && ctx.export_blocked) by {
        if let Some(Num::Fin(mp)) = invs[k].max_power {
            sums_are_exact(mp, 500_000);
        }
    }
}

/// Does a limit hold an inverter more than half a watt below its nameplate?
pub open spec fn held_back(inv: PvInverter, limit: Option<Num>) -> bool {
    match (inv.max_power, limit) {
        (Some(Num::Fin(mp)), Some(Num::Fin(w))) => mp > 0 && w < mp - 500_000,
        _ => false,
    }
}

} // verus!
