//! The per-tick decision: from one snapshot of readings and the carried state to what
//! is written, with the write-phase safety guards.
//!
//! A tick is one call of [`decide`]. It runs [`settle`] (who owns the loop, which
//! command the law asks for, what would be written) and [`emit`] (the write law: an
//! exponential average towards the command, a slew guard, the design envelope). The
//! two are separate because an adaptive average needs a logarithm of the step, which
//! the caller supplies.

use crate::control::clamp;
use crate::control::held_between;
use crate::control::Controller;
use crate::num::moderate;
use crate::num::near;
use crate::num::products_are_rounded;
use crate::num::sums_are_exact;
use crate::num::Num;
use crate::shore::ShoreOut;
use crate::socguard::SocGuardOut;
use crate::stage::Stage;
use crate::states::hub4mode;
use vstd::arithmetic::power2::lemma2_to64;
use vstd::arithmetic::power2::lemma_pow2_unfold;
use vstd::arithmetic::power2::pow2;
use vstd::prelude::*;

verus! {

/// Continuous AC power of the inverter pair (7400 W, in millionths).
pub const INVERTER_CONT_PAIR_W: i64 = 7_400_000_000;

/// Never command past this fraction of it (0.95, in millionths).
pub const CAPACITY_MARGIN: i64 = 950_000;

/// Design-capacity clamp of the command in both directions (7030 W, in millionths).
pub const HARD_CLAMP_W: i64 = 7_030_000_000;

/// The slew guard allows a full design-range move in this time (2 s, in millionths).
pub const SLEW_TRAVERSE_S: i64 = 2_000_000;

/// A gross grid divergence, as a fraction of the design power (0.15, in millionths).
pub const SANITY_FRACTION: i64 = 150_000;

/// How long a gross divergence may last (30 s, in millionths).
pub const SANITY_SECS: i64 = 30_000_000;

/// Floor of the clamp on the time between ticks (5 s, in millionths).
pub const MIN_DT_CLAMP_S: i64 = 5_000_000;

/// A step below this is averaged at the flat gain (10 W, in millionths).
pub const EMA_SMALL_STEP_W: i64 = 10_000_000;

/// The flat gain of the write average (0.5, in millionths).
pub const EMA_GAIN_MIN: i64 = 500_000;

/// The greatest adaptive gain (1.1, in millionths).
pub const EMA_GAIN_MAX: i64 = 1_100_000;

/// Safety parameters derived from the design power and the control interval.
#[derive(Clone, Copy, Debug, PartialEq, Eq, Structural)]
pub struct SafetyLimits {
    pub design_w: Num,
    pub slew_w_per_s: Num,
    pub sanity_band_w: Num,
    pub sanity_secs: Num,
    pub max_dt_s: Num,
}

impl SafetyLimits {
    /// Derive the limits; an override takes the place of a derived value.
    pub fn derive(
        design_w: Num,
        interval_s: Num,
        slew_override: Option<Num>,
        band_override: Option<Num>,
    ) -> (r: Self)
        ensures
            r == (SafetyLimits {
                design_w,
                slew_w_per_s: crate::num::or(
                    slew_override,
                    design_w.over(Num::Fin(SLEW_TRAVERSE_S)),
                ),
                sanity_band_w: crate::num::or(
                    band_override,
                    design_w.times(Num::Fin(SANITY_FRACTION)),
                ),
                sanity_secs: Num::Fin(SANITY_SECS),
                max_dt_s: interval_s.times(Num::Fin(5_000_000)).max(Num::Fin(MIN_DT_CLAMP_S)),
            }),
            slew_override is Some ==> r.slew_w_per_s == slew_override->0,
            band_override is Some ==> r.sanity_band_w == band_override->0,
            moderate(design_w) && slew_override is None ==> r.slew_w_per_s is Fin && near(
                2 * r.slew_w_per_s->Fin_0,
                design_w->Fin_0 as int,
                1,
            ),
            moderate(design_w) && band_override is None ==> r.sanity_band_w is Fin && near(
                200 * r.sanity_band_w->Fin_0,
                30 * design_w->Fin_0,
                100,
            ),
            interval_s is Fin && 0 <= interval_s->Fin_0 <= 1_000_000_000_000 ==> r.max_dt_s
                == Num::Fin(
                if interval_s->Fin_0 < 1_000_000 {
                    5_000_000
                } else {
                    (5 * interval_s->Fin_0) as i64
                },
            ),
            r.sanity_secs == Num::Fin(30_000_000),
    {
        proof {
            if moderate(design_w) {
                products_are_rounded(design_w->Fin_0, 150_000);
            }
        }
        SafetyLimits {
            design_w,
            slew_w_per_s: crate::num::or(slew_override, design_w.over(Num::Fin(SLEW_TRAVERSE_S))),
            sanity_band_w: crate::num::or(
                band_override,
                design_w.times(Num::Fin(SANITY_FRACTION)),
            ),
            sanity_secs: Num::Fin(SANITY_SECS),
            max_dt_s: interval_s.times(Num::Fin(5_000_000)).max(Num::Fin(MIN_DT_CLAMP_S)),
        }
    }
}

/// Which safety interventions fired this tick.
#[derive(Clone, Copy, Debug, PartialEq, Eq, Structural)]
pub struct Safety {
    /// The time between ticks was clamped.
    pub dt_clamped: bool,
    /// The slew guard or the envelope held the write back.
    pub slew_clamped: bool,
    /// The grid diverged grossly while we drove.
    pub sanity_tripped: bool,
}

impl Default for Safety {
    fn default() -> (r: Self)
        ensures
            r == (Safety { dt_clamped: false, slew_clamped: false, sanity_tripped: false }),
    {
        Safety { dt_clamped: false, slew_clamped: false, sanity_tripped: false }
    }
}

impl Safety {
    /// Did any fire?
    pub fn any(self) -> (r: bool)
        ensures
            r == (self.dt_clamped || self.slew_clamped || self.sanity_tripped),
    {
        self.dt_clamped || self.slew_clamped || self.sanity_tripped
    }

    /// 0 is fine, 1 a warning (a clamp), 2 an alarm (a hand-back).
    pub fn alarm_level(self) -> (r: i32)
        ensures
            r == 2 <==> self.sanity_tripped,
            r == 1 <==> !self.sanity_tripped && (self.slew_clamped || self.dt_clamped),
            r == 0 <==> !self.sanity_tripped && !self.slew_clamped && !self.dt_clamped,
    {
        if self.sanity_tripped {
            2
        } else if self.slew_clamped || self.dt_clamped {
            1
        } else {
            0
        }
    }

    /// The gravest intervention, as a stable word; empty where there is none.
    pub fn reason(self) -> (r: &'static str)
        ensures
            r@ == (if self.sanity_tripped {
                "sanity-handback"@
            } else if self.slew_clamped {
                "slew-clamped"@
            } else if self.dt_clamped {
                "dt-clamped"@
            } else {
                ""@
            }),
    {
        if self.sanity_tripped {
            "sanity-handback"
        } else if self.slew_clamped {
            "slew-clamped"
        } else if self.dt_clamped {
            "dt-clamped"
        } else {
            ""
        }
    }
}

/// The value that may be written: at most `max_rate_w_s * dt` away from the previous
/// one, where there is one.
pub open spec fn slewed(prev: Option<Num>, desired: Num, max_rate_w_s: Num, dt: Num) -> Num {
    match prev {
        Some(p) => if p.is_finite() {
            let step = max_rate_w_s.times(dt).max(Num::Fin(0));
            p.plus(within(desired.minus(p), step))
        } else {
            desired
        },
        None => desired,
    }
}

/// `x` held between `-step` and `step`; "not a number" stays so.
pub open spec fn within(x: Num, step: Num) -> Num {
    if x.lt(step.neg()) {
        step.neg()
    } else if step.lt(x) {
        step
    } else {
        x
    }
}

fn slew_limit(prev: Option<Num>, desired: Num, max_rate_w_s: Num, dt: Num) -> (r: Num)
    ensures
        r == slewed(prev, desired, max_rate_w_s, dt),
{
    match prev {
        Some(p) => if p.is_finite() {
            let step = max_rate_w_s.times(dt).max(Num::Fin(0));
            let d = desired.minus(p);
            let d = if d.lt(step.neg()) {
                step.neg()
            } else if step.lt(d) {
                step
            } else {
                d
            };
            p.plus(d)
        } else {
            desired
        },
        None => desired,
    }
}

/// The gain of the write average for a step of `delta`.
pub open spec fn ema_gain(delta: Num, adaptive: bool, log_gain: Num) -> Num {
    if !adaptive || delta.abs().lt(Num::Fin(EMA_SMALL_STEP_W)) {
        Num::Fin(EMA_GAIN_MIN)
    } else {
        log_gain.max(Num::Fin(EMA_GAIN_MIN)).min(Num::Fin(EMA_GAIN_MAX))
    }
}

/// The average before rounding.
pub open spec fn averaged(prev: Option<Num>, cmd: Num, adaptive: bool, log_gain: Num) -> Num {
    match prev {
        Some(p) => if p.is_finite() {
            p.plus(ema_gain(cmd.minus(p), adaptive, log_gain).times(cmd.minus(p)))
        } else {
            cmd
        },
        None => cmd,
    }
}

pub open spec fn spec_stock_write_ema(
    prev: Option<Num>,
    cmd: Num,
    adaptive: bool,
    log_gain: Num,
) -> Num {
    averaged(prev, cmd, adaptive, log_gain).round()
}

/// The write law: an exponential average from the previous write towards the command,
/// rounded to the whole watt, halves away from zero. The gain is 0.5; with `adaptive`
/// on, a step of 10 W or more takes `log_gain` instead, held between 0.5 and 1.1.
/// `log_gain` is a quarter of the natural logarithm of a tenth of the step in watts.
#[verifier::when_used_as_spec(spec_stock_write_ema)]
pub fn stock_write_ema(prev: Option<Num>, cmd: Num, adaptive: bool, log_gain: Num) -> (r: Num)
    ensures
        r == stock_write_ema(prev, cmd, adaptive, log_gain),
{
    let v = match prev {
        Some(p) => if p.is_finite() {
            let delta = cmd.minus(p);
            let gain = if !adaptive || delta.abs().lt(Num::Fin(EMA_SMALL_STEP_W)) {
                Num::Fin(EMA_GAIN_MIN)
            } else {
                log_gain.max(Num::Fin(EMA_GAIN_MIN)).min(Num::Fin(EMA_GAIN_MAX))
            };
            p.plus(gain.times(delta))
        } else {
            cmd
        },
        None => cmd,
    };
    v.round()
}

/// Live readings: powers in W, state of charge in %, and the published system state.
#[derive(Clone, Copy, Debug, PartialEq, Eq, Structural)]
pub struct Sensors {
    pub grid: Num,
    pub reported: Num,
    pub target: Num,
    pub soc: Num,
    pub state: i64,
}

/// Everything one decision goes by.
#[derive(Debug)]
pub struct Snapshot {
    pub s: Sensors,
    /// Seconds since the previous tick.
    pub dt: Num,
    /// The time between ticks was longer and has been clamped.
    pub dt_clamped: bool,
    /// The live minimum state of charge (%): the floor of ownership.
    pub min_soc: Num,
    /// Bounds of the command (W).
    pub lo: Num,
    pub hi: Num,
    /// The grid target after overrides and feed-forward (W).
    pub effective_target: Num,
    pub sg: SocGuardOut,
    pub feed_block_charge: bool,
    pub feed_force_flat: bool,
    pub gen_disable_export: bool,
    /// The grid meter can be relied on.
    pub gm_should_write: bool,
    pub shore_out: ShoreOut,
    /// The stock loop's present setpoint (W).
    pub hub4_actual: Option<Num>,
    /// Power at the inverter's AC output (W); not a number where unread.
    pub ac_out_w: Num,
    /// The live mode setting; `None` where unreadable.
    pub hub4mode_live: Option<i32>,
}

/// State carried from tick to tick.
#[derive(Clone, Copy, Debug, PartialEq, Eq, Structural)]
pub struct LoopState {
    pub ctrl: Controller,
    /// We own the loop.
    pub owner_us: bool,
    /// When ownership last changed (s since start).
    pub last_flip_t: Num,
    /// The setpoint override while trimming.
    pub trim_override: Option<Num>,
    /// The last written value; `None` while not driving.
    pub last_out: Option<Num>,
    /// When the grid left the sanity band; `None` while inside.
    pub oob_since: Option<Num>,
    /// In the previous tick the grid diverged for a good reason.
    pub prev_force_charge: bool,
    /// Someone else took the mode away from us. Never cleared.
    pub ceded_external: bool,
    /// How often the sanity supervisor has forced a hand-back. Never cleared.
    pub sanity_trips: u32,
}

/// Settings of a run.
#[derive(Clone, Copy, Debug, PartialEq, Eq, Structural)]
pub struct DecideCfg {
    pub stage: Stage,
    /// How far above the floor the state of charge must be to take over (%).
    pub soc_hyst: Num,
    pub min_dwell_s: Num,
    pub trim_ki: Num,
    /// The mode to hand back to.
    pub orig_mode: i32,
    /// The system state in which we never own.
    pub state_recharge: i64,
    pub slew_w_per_s: Num,
    pub sanity_band_w: Num,
    pub sanity_secs: Num,
    /// Let the gain of the write average grow with the step.
    pub ema_adaptive: bool,
}

/// What to write this tick.
#[derive(Clone, Copy, Debug, PartialEq, Eq, Structural)]
pub enum Write {
    Nothing,
    /// The inverter's power setpoint.
    Setpoint(Num),
    /// The stock loop's setpoint override.
    Override(Num),
}

/// The outcome of a tick.
#[derive(Clone, Copy, Debug)]
pub struct Decision {
    /// The composed command, within the bounds.
    pub command: Num,
    pub write: Write,
    /// The mode to write, if any.
    pub hub4mode: Option<i32>,
    /// Also write the feed-in flags and the AC-input limits.
    pub feed_shore_write: bool,
    pub owner_us: bool,
    /// The value to show: what was or would be written, else the command.
    pub display_cmd: Num,
    pub owner_str: &'static str,
    pub note: &'static str,
    /// Ownership changed this tick.
    pub flipped: bool,
    pub safety: Safety,
}

/// What [`settle`] leaves for [`emit`].
#[derive(Clone, Copy, Debug)]
pub struct Draft {
    pub command: Num,
    /// What to write before the write law.
    pub raw: Write,
    pub hub4mode: Option<i32>,
    pub note: &'static str,
    pub flipped: bool,
    pub sanity_tripped: bool,
}

// ---- the command -------------------------------------------------------------------

/// The output power that a battery-side bound is lifted by: 0 where unread.
pub open spec fn ac_out(snap: Snapshot) -> Num {
    if snap.ac_out_w.is_finite() {
        snap.ac_out_w
    } else {
        Num::Fin(0)
    }
}

/// The law's command once discharge is limited and force-charge and the charge floor
/// have had their say.
pub open spec fn guarded(cmd: Num, sg: SocGuardOut, out: Num) -> Num {
    let limited = cmd.max(sg.max_discharge_w.neg().plus(out));
    let charged = match sg.cmd_override {
        Some(fc) => if sg.tpimf {
            limited.min(fc)
        } else {
            fc
        },
        None => limited,
    };
    if Num::Fin(0).lt(sg.charge_floor_w) {
        charged.max(sg.charge_floor_w.plus(out))
    } else {
        charged
    }
}

/// The composed command, given what the control law asks for.
pub open spec fn composed(snap: Snapshot, cmd: Num) -> Num {
    let guarded = guarded(cmd, snap.sg, ac_out(snap));
    let blocked = if snap.feed_block_charge {
        guarded.min(Num::Fin(0))
    } else {
        guarded
    };
    let flat = if snap.gen_disable_export || snap.feed_force_flat {
        blocked.max(Num::Fin(0))
    } else {
        blocked
    };
    clamp(flat, snap.lo, snap.hi)
}

/// What the control law asks for.
pub open spec fn law(snap: Snapshot, ctrl: Controller) -> Num {
    ctrl.command(
        snap.s.grid,
        snap.s.reported,
        snap.effective_target,
        snap.dt,
        snap.lo,
        snap.hi,
    )
}

/// The controller after it was asked.
pub open spec fn law_after(snap: Snapshot, ctrl: Controller, actuating: bool) -> Controller {
    ctrl.after(
        snap.s.grid,
        snap.s.reported,
        snap.effective_target,
        snap.dt,
        snap.lo,
        snap.hi,
        actuating,
    )
}

/// The composed control law: the controller, then the state-of-charge guard, then
/// feed-in, then the generator, then the design clamp.
pub fn composed_command(snap: &Snapshot, ctrl: &mut Controller, actuating: bool) -> (r: Num)
    ensures
        r == composed(*snap, law(*snap, *old(ctrl))),
        *final(ctrl) == law_after(*snap, *old(ctrl), actuating),
{
    let mut cmd = ctrl.update(
        snap.s.grid,
        snap.s.reported,
        snap.effective_target,
        snap.dt,
        snap.lo,
        snap.hi,
        actuating,
    );
    let out = if snap.ac_out_w.is_finite() {
        snap.ac_out_w
    } else {
        Num::Fin(0)
    };
    cmd = cmd.max(snap.sg.max_discharge_w.neg().plus(out));
    if let Some(fc) = snap.sg.cmd_override {
        cmd = if snap.sg.tpimf {
            cmd.min(fc)
        } else {
            fc
        };
    }
    if Num::Fin(0).lt(snap.sg.charge_floor_w) {
        cmd = cmd.max(snap.sg.charge_floor_w.plus(out));
    }
    if snap.feed_block_charge {
        cmd = cmd.min(Num::Fin(0));
    }
    if snap.gen_disable_export || snap.feed_force_flat {
        cmd = cmd.max(Num::Fin(0));
    }
    clamp(cmd, snap.lo, snap.hi)
}

// ---- ownership ---------------------------------------------------------------------

/// Does the grid stray grossly while we drive? Judged only while the meter is usable
/// and the grid had no good reason to stray. An error that is not finite counts.
pub open spec fn out_of_band(snap: Snapshot, st: LoopState, cfg: DecideCfg) -> bool {
    let gerr = snap.s.grid.minus(snap.s.target);
    &&& st.owner_us
    &&& cfg.stage.writes()
    &&& snap.gm_should_write
    &&& !st.prev_force_charge
    &&& (!gerr.is_finite() || cfg.sanity_band_w.lt(gerr.abs()))
}

/// Since when the grid strays.
pub open spec fn straying_since(
    snap: Snapshot,
    st: LoopState,
    cfg: DecideCfg,
    t: Num,
) -> Option<Num> {
    if out_of_band(snap, st, cfg) {
        match st.oob_since {
            Some(t0) => Some(t0),
            None => Some(t),
        }
    } else {
        None
    }
}

/// Has the grid strayed for too long?
pub open spec fn tripped(snap: Snapshot, st: LoopState, cfg: DecideCfg, t: Num) -> bool {
    straying_since(snap, st, cfg, t) matches Some(t0) && cfg.sanity_secs.le(t.minus(t0))
}

/// Has someone else taken the mode away while we owned?
pub open spec fn usurped(snap: Snapshot, st: LoopState, cfg: DecideCfg) -> bool {
    cfg.stage == Stage::Takeover && st.owner_us && snap.hub4mode_live is Some
        && snap.hub4mode_live->0 != hub4mode::EXTERNAL
}

/// Is the mode still external although we handed back?
pub open spec fn stuck(snap: Snapshot, st: LoopState, cfg: DecideCfg) -> bool {
    cfg.stage == Stage::Takeover && !st.owner_us && snap.hub4mode_live == Some(hub4mode::EXTERNAL)
}

/// May we take over?
pub open spec fn may_enter(snap: Snapshot, st: LoopState, cfg: DecideCfg) -> bool {
    &&& snap.min_soc.plus(cfg.soc_hyst).le(snap.s.soc)
    &&& snap.s.state != cfg.state_recharge
    &&& !st.ceded_external
    &&& !usurped(snap, st, cfg)
}

/// Must we hand back?
pub open spec fn must_exit(snap: Snapshot, st: LoopState, cfg: DecideCfg, t: Num) -> bool {
    snap.s.soc.le(snap.min_soc) || snap.s.state == cfg.state_recharge || tripped(snap, st, cfg, t)
}

/// Do we own, once an outside change of the mode has been honoured?
pub open spec fn still_owning(snap: Snapshot, st: LoopState, cfg: DecideCfg) -> bool {
    st.owner_us && !usurped(snap, st, cfg)
}

/// Do we want to own?
pub open spec fn wants(snap: Snapshot, st: LoopState, cfg: DecideCfg, t: Num) -> bool {
    if still_owning(snap, st, cfg) {
        !must_exit(snap, st, cfg, t)
    } else {
        may_enter(snap, st, cfg)
    }
}

/// The factor that sanity trips put on the dwell: it doubles with each, up to 128.
pub open spec fn backoff_factor(trips: u32) -> int {
    if trips == 0 {
        1
    } else if trips == 1 {
        2
    } else if trips == 2 {
        4
    } else if trips == 3 {
        8
    } else if trips == 4 {
        16
    } else if trips == 5 {
        32
    } else if trips == 6 {
        64
    } else {
        128
    }
}

fn backoff(trips: u32) -> (r: i64)
    ensures
        r == backoff_factor(trips),
{
    if trips == 0 {
        1
    } else if trips == 1 {
        2
    } else if trips == 2 {
        4
    } else if trips == 3 {
        8
    } else if trips == 4 {
        16
    } else if trips == 5 {
        32
    } else if trips == 6 {
        64
    } else {
        128
    }
}

/// The dwell that must pass before we take over again.
pub open spec fn required_dwell(st: LoopState, cfg: DecideCfg) -> Num {
    cfg.min_dwell_s.times(crate::num::whole(backoff_factor(st.sanity_trips)))
}

/// Has it passed?
pub open spec fn dwell_met(snap: Snapshot, st: LoopState, cfg: DecideCfg, t: Num) -> bool {
    required_dwell(st, cfg).le(
        t.minus(
            if usurped(snap, st, cfg) {
                t
            } else {
                st.last_flip_t
            },
        ),
    )
}

/// Does ownership change by our own decision? Taking over waits for the dwell, handing
/// back never does.
pub open spec fn flips(snap: Snapshot, st: LoopState, cfg: DecideCfg, t: Num) -> bool {
    wants(snap, st, cfg, t) != still_owning(snap, st, cfg) && (dwell_met(snap, st, cfg, t)
        || !wants(snap, st, cfg, t))
}

/// Do we own the loop in this tick?
pub open spec fn owns(snap: Snapshot, st: LoopState, cfg: DecideCfg, t: Num) -> bool {
    if flips(snap, st, cfg, t) {
        wants(snap, st, cfg, t)
    } else {
        still_owning(snap, st, cfg)
    }
}

/// Does this tick take the loop over?
pub open spec fn takes(snap: Snapshot, st: LoopState, cfg: DecideCfg, t: Num) -> bool {
    flips(snap, st, cfg, t) && wants(snap, st, cfg, t)
}

/// Does this tick hand the loop back?
pub open spec fn hands_back(snap: Snapshot, st: LoopState, cfg: DecideCfg, t: Num) -> bool {
    flips(snap, st, cfg, t) && !wants(snap, st, cfg, t)
}

/// The carried state once ownership is decided.
pub open spec fn owned(snap: Snapshot, st: LoopState, cfg: DecideCfg, t: Num) -> LoopState {
    LoopState {
        ctrl: if hands_back(snap, st, cfg, t) {
            st.ctrl.cleared()
        } else {
            st.ctrl
        },
        owner_us: owns(snap, st, cfg, t),
        last_flip_t: if flips(snap, st, cfg, t) || usurped(snap, st, cfg) {
            t
        } else {
            st.last_flip_t
        },
        trim_override: if cfg.stage == Stage::Trim && takes(snap, st, cfg, t) {
            Some(snap.s.target)
        } else if cfg.stage == Stage::Trim && hands_back(snap, st, cfg, t) {
            None
        } else {
            st.trim_override
        },
        last_out: if cfg.stage == Stage::Takeover && takes(snap, st, cfg, t) {
            match snap.hub4_actual {
                Some(v) => if v.is_finite() {
                    Some(v)
                } else {
                    None
                },
                None => None,
            }
        } else {
            st.last_out
        },
        oob_since: straying_since(snap, st, cfg, t),
        prev_force_charge: st.prev_force_charge,
        ceded_external: st.ceded_external || usurped(snap, st, cfg),
        sanity_trips: if hands_back(snap, st, cfg, t) && tripped(snap, st, cfg, t)
            && st.sanity_trips < u32::MAX {
            (st.sanity_trips + 1) as u32
        } else {
            st.sanity_trips
        },
    }
}

/// The mode to write: on a change of ownership in takeover, and to repeat a hand-back
/// that did not take.
pub open spec fn mode_write(snap: Snapshot, st: LoopState, cfg: DecideCfg, t: Num) -> Option<i32> {
    if cfg.stage == Stage::Takeover && takes(snap, st, cfg, t) {
        Some(hub4mode::EXTERNAL)
    } else if cfg.stage == Stage::Takeover && hands_back(snap, st, cfg, t) {
        Some(cfg.orig_mode)
    } else if stuck(snap, st, cfg) {
        Some(cfg.orig_mode)
    } else {
        None
    }
}

/// The remark on a change of ownership.
pub open spec fn remark(snap: Snapshot, st: LoopState, cfg: DecideCfg, t: Num) -> &'static str {
    if takes(snap, st, cfg, t) {
        match cfg.stage {
            Stage::Takeover => "TOOK OVER (mode3)",
            Stage::Trim => "trim ON (override)",
            Stage::Shadow => "would take over",
        }
    } else if hands_back(snap, st, cfg, t) {
        match cfg.stage {
            Stage::Takeover => "handed back (mode1)",
            Stage::Trim => "trim OFF (stock)",
            Stage::Shadow => "would hand back",
        }
    } else if usurped(snap, st, cfg) {
        "mode changed externally: ceded (sticky)"
    } else if stuck(snap, st, cfg) {
        "re-asserting stock mode"
    } else {
        ""
    }
}

/// Does our command drive the plant?
pub open spec fn actuating(snap: Snapshot, st: LoopState, cfg: DecideCfg, t: Num) -> bool {
    owns(snap, st, cfg, t) && cfg.stage == Stage::Takeover && snap.gm_should_write
}

// ---- what would be written ---------------------------------------------------------

/// Must trimming hold still? While charge is forced, discharge is capped from outside,
/// or the meter is unusable.
pub open spec fn trim_suspended(snap: Snapshot) -> bool {
    snap.sg.force_charge || snap.sg.max_discharge_w.is_finite() || !snap.gm_should_write
}

/// The setpoint override of this tick: the setpoint itself while suspended, else one
/// step of the outer integral.
pub open spec fn trimmed(snap: Snapshot, from: Num, cfg: DecideCfg) -> Num {
    if trim_suspended(snap) {
        snap.s.target
    } else {
        clamp(
            from.plus(cfg.trim_ki.times(snap.s.target.minus(snap.s.grid)).times(snap.dt)),
            snap.lo,
            snap.hi,
        )
    }
}

/// The override that the step starts from.
pub open spec fn trim_from(snap: Snapshot, o: LoopState) -> Num {
    match o.trim_override {
        Some(v) => v,
        None => snap.s.target,
    }
}

/// The command of this tick.
pub open spec fn tick_command(
    snap: Snapshot,
    st: LoopState,
    cfg: DecideCfg,
    t: Num,
) -> Num {
    composed(snap, law(snap, owned(snap, st, cfg, t).ctrl))
}

/// The draft of this tick.
pub open spec fn drafted(
    snap: Snapshot,
    st: LoopState,
    cfg: DecideCfg,
    t: Num,
) -> Draft {
    let command = tick_command(snap, st, cfg, t);
    Draft {
        command,
        raw: if owns(snap, st, cfg, t) {
            match cfg.stage {
                Stage::Takeover => if snap.gm_should_write {
                    Write::Setpoint(command)
                } else {
                    Write::Nothing
                },
                Stage::Trim => Write::Override(
                    trimmed(snap, trim_from(snap, owned(snap, st, cfg, t)), cfg),
                ),
                Stage::Shadow => Write::Setpoint(command),
            }
        } else if cfg.stage == Stage::Trim && hands_back(snap, st, cfg, t) {
            Write::Override(snap.s.target)
        } else {
            Write::Nothing
        },
        hub4mode: mode_write(snap, st, cfg, t),
        note: remark(snap, st, cfg, t),
        flipped: flips(snap, st, cfg, t) || usurped(snap, st, cfg),
        sanity_tripped: tripped(snap, st, cfg, t),
    }
}

/// The carried state after the draft.
pub open spec fn settled(
    snap: Snapshot,
    st: LoopState,
    cfg: DecideCfg,
    t: Num,
) -> LoopState {
    let o = owned(snap, st, cfg, t);
    LoopState {
        ctrl: law_after(snap, o.ctrl, actuating(snap, st, cfg, t)),
        trim_override: if o.owner_us && cfg.stage == Stage::Trim {
            Some(trimmed(snap, trim_from(snap, o), cfg))
        } else {
            o.trim_override
        },
        ..o
    }
}

/// Decide who owns the loop, which command the law asks for, and what would be written.
pub fn settle(
    snap: &Snapshot,
    st: &mut LoopState,
    cfg: &DecideCfg,
    t: Num,
) -> (d: Draft)
    ensures
        d == drafted(*snap, *old(st), *cfg, t),
        *final(st) == settled(*snap, *old(st), *cfg, t),
{
    let s = snap.s;
    let gerr = s.grid.minus(s.target);
    let oob = st.owner_us && cfg.stage.writes() && snap.gm_should_write && !st.prev_force_charge
        && (!gerr.is_finite() || cfg.sanity_band_w.lt(gerr.abs()));
    st.oob_since = if oob {
        match st.oob_since {
            Some(t0) => Some(t0),
            None => Some(t),
        }
    } else {
        None
    };
    let sanity_tripped = match st.oob_since {
        Some(t0) => cfg.sanity_secs.le(t.minus(t0)),
        None => false,
    };
    assert(sanity_tripped == tripped(*snap, *old(st), *cfg, t));

    let mut note: &'static str = "";
    let mut mode: Option<i32> = None;
    let mut flipped = false;
    if let Stage::Takeover = cfg.stage {
        if let Some(m) = snap.hub4mode_live {
            if st.owner_us && m != hub4mode::EXTERNAL {
                st.owner_us = false;
                st.last_flip_t = t;
                st.ceded_external = true;
                note = "mode changed externally: ceded (sticky)";
                flipped = true;
            } else if !st.owner_us && m == hub4mode::EXTERNAL {
                mode = Some(cfg.orig_mode);
                note = "re-asserting stock mode";
            }
        }
    }

    let enter_ok = snap.min_soc.plus(cfg.soc_hyst).le(s.soc) && s.state != cfg.state_recharge
        && !st.ceded_external;
    let exit_now = s.soc.le(snap.min_soc) || s.state == cfg.state_recharge || sanity_tripped;
    let want_us = if st.owner_us {
        !exit_now
    } else {
        enter_ok
    };
    let backoff_s = cfg.min_dwell_s.times(Num::of(backoff(st.sanity_trips)));
    let dwell_ok = backoff_s.le(t.minus(st.last_flip_t));
    assert(want_us == wants(*snap, *old(st), *cfg, t));
    assert(dwell_ok == dwell_met(*snap, *old(st), *cfg, t));

    let mut transition = Write::Nothing;
    if want_us != st.owner_us && (dwell_ok || !want_us) {
        st.owner_us = want_us;
        st.last_flip_t = t;
        flipped = true;
        if !want_us && sanity_tripped {
            if st.sanity_trips < u32::MAX {
                st.sanity_trips = st.sanity_trips + 1;
            }
        }
        match cfg.stage {
            Stage::Takeover => {
                if want_us {
                    mode = Some(hub4mode::EXTERNAL);
                    note = "TOOK OVER (mode3)";
                    st.last_out = match snap.hub4_actual {
                        Some(v) => if v.is_finite() {
                            Some(v)
                        } else {
                            None
                        },
                        None => None,
                    };
                } else {
                    mode = Some(cfg.orig_mode);
                    note = "handed back (mode1)";
                }
            },
            Stage::Trim => {
                if want_us {
                    st.trim_override = Some(s.target);
                    note = "trim ON (override)";
                } else {
                    transition = Write::Override(s.target);
                    st.trim_override = None;
                    note = "trim OFF (stock)";
                }
            },
            Stage::Shadow => {
                if want_us {
                    note = "would take over";
                } else {
                    note = "would hand back";
                }
            },
        }
        if !want_us {
            st.ctrl.reset();
        }
    }
    assert(*st == owned(*snap, *old(st), *cfg, t));

    let actuating = st.owner_us && cfg.stage == Stage::Takeover && snap.gm_should_write;
    let cmd = composed_command(snap, &mut st.ctrl, actuating);

    let raw = if st.owner_us {
        match cfg.stage {
            Stage::Takeover => if snap.gm_should_write {
                Write::Setpoint(cmd)
            } else {
                Write::Nothing
            },
            Stage::Trim => {
                let from = match st.trim_override {
                    Some(v) => v,
                    None => s.target,
                };
                let o = if snap.sg.force_charge || snap.sg.max_discharge_w.is_finite()
                    || !snap.gm_should_write {
                    s.target
                } else {
                    clamp(
                        from.plus(cfg.trim_ki.times(s.target.minus(s.grid)).times(snap.dt)),
                        snap.lo,
                        snap.hi,
                    )
                };
                st.trim_override = Some(o);
                Write::Override(o)
            },
            Stage::Shadow => Write::Setpoint(cmd),
        }
    } else {
        transition
    };
    Draft { command: cmd, raw, hub4mode: mode, note, flipped, sanity_tripped }
}

// ---- the write ---------------------------------------------------------------------

/// The setpoint that is written for a raw one: averaged, slew-limited, within bounds.
pub open spec fn setpoint_written(
    v: Num,
    snap: Snapshot,
    last_out: Option<Num>,
    cfg: DecideCfg,
    log_gain: Num,
) -> Num {
    clamp(
        slewed(
            last_out,
            stock_write_ema(last_out, v, cfg.ema_adaptive, log_gain),
            cfg.slew_w_per_s,
            snap.dt,
        ),
        snap.lo,
        snap.hi,
    )
}

/// The value that comes out of the write law, where there is one.
pub open spec fn output(
    d: Draft,
    snap: Snapshot,
    st: LoopState,
    cfg: DecideCfg,
    log_gain: Num,
) -> Option<Num> {
    if st.owner_us {
        match d.raw {
            Write::Setpoint(v) => Some(setpoint_written(v, snap, st.last_out, cfg, log_gain)),
            Write::Override(v) => Some(slewed(st.last_out, v, cfg.slew_w_per_s, snap.dt)),
            Write::Nothing => None,
        }
    } else {
        None
    }
}

/// The value that the write law aimed at before the slew guard and the envelope.
pub open spec fn aimed(
    d: Draft,
    st: LoopState,
    cfg: DecideCfg,
    log_gain: Num,
) -> Num {
    match d.raw {
        Write::Setpoint(v) => stock_write_ema(st.last_out, v, cfg.ema_adaptive, log_gain),
        Write::Override(v) => v,
        Write::Nothing => Num::Nan,
    }
}

/// Who owns the loop, as a word.
pub open spec fn owner_word(owner_us: bool, stage: Stage) -> &'static str {
    if !owner_us {
        "hub4"
    } else {
        match stage {
            Stage::Takeover => "US",
            Stage::Trim => "US-trim",
            Stage::Shadow => "US?",
        }
    }
}

/// The decision that a draft becomes.
pub open spec fn emitted(
    d: Draft,
    snap: Snapshot,
    st: LoopState,
    cfg: DecideCfg,
    log_gain: Num,
) -> Decision {
    let out = output(d, snap, st, cfg, log_gain);
    Decision {
        command: d.command,
        write: if st.owner_us {
            match d.raw {
                Write::Setpoint(_) => if cfg.stage == Stage::Shadow {
                    Write::Nothing
                } else {
                    Write::Setpoint(out->0)
                },
                Write::Override(_) => Write::Override(out->0),
                Write::Nothing => Write::Nothing,
            }
        } else {
            d.raw
        },
        hub4mode: d.hub4mode,
        feed_shore_write: st.owner_us && cfg.stage == Stage::Takeover && snap.gm_should_write,
        owner_us: st.owner_us,
        display_cmd: match out {
            Some(v) => v,
            None => d.command,
        },
        owner_str: owner_word(st.owner_us, cfg.stage),
        note: d.note,
        flipped: d.flipped,
        safety: Safety {
            dt_clamped: snap.dt_clamped,
            slew_clamped: match out {
                Some(v) => Num::Fin(1).lt(v.minus(aimed(d, st, cfg, log_gain)).abs()),
                None => false,
            },
            sanity_tripped: d.sanity_tripped,
        },
    }
}

/// The carried state after the write.
pub open spec fn emitted_state(
    d: Draft,
    snap: Snapshot,
    st: LoopState,
    cfg: DecideCfg,
    log_gain: Num,
) -> LoopState {
    LoopState {
        ctrl: if st.owner_us {
            st.ctrl
        } else {
            st.ctrl.cleared()
        },
        last_out: if st.owner_us {
            match output(d, snap, st, cfg, log_gain) {
                Some(v) => Some(v),
                None => st.last_out,
            }
        } else {
            None
        },
        prev_force_charge: snap.sg.force_charge || snap.sg.max_discharge_w.is_finite(),
        ..st
    }
}

/// Put a draft through the write law. `log_gain` is used only for a step that
/// [`ema_step`] names.
pub fn emit(
    draft: &Draft,
    snap: &Snapshot,
    st: &mut LoopState,
    cfg: &DecideCfg,
    log_gain: Num,
) -> (d: Decision)
    ensures
        d == emitted(*draft, *snap, *old(st), *cfg, log_gain),
        *final(st) == emitted_state(*draft, *snap, *old(st), *cfg, log_gain),
{
    let mut display_cmd = draft.command;
    let mut safety = Safety {
        dt_clamped: snap.dt_clamped,
        slew_clamped: false,
        sanity_tripped: draft.sanity_tripped,
    };
    let owner_str: &'static str = if !st.owner_us {
        "hub4"
    } else {
        match cfg.stage {
            Stage::Takeover => "US",
            Stage::Trim => "US-trim",
            Stage::Shadow => "US?",
        }
    };
    let write = if st.owner_us {
        match draft.raw {
            Write::Setpoint(v) => {
                let ema = stock_write_ema(st.last_out, v, cfg.ema_adaptive, log_gain);
                let sv = slew_limit(st.last_out, ema, cfg.slew_w_per_s, snap.dt);
                let sv = clamp(sv, snap.lo, snap.hi);
                safety.slew_clamped = Num::Fin(1).lt(sv.minus(ema).abs());
                st.last_out = Some(sv);
                display_cmd = sv;
                match cfg.stage {
                    Stage::Shadow => Write::Nothing,
                    _ => Write::Setpoint(sv),
                }
            },
            Write::Override(v) => {
                let sv = slew_limit(st.last_out, v, cfg.slew_w_per_s, snap.dt);
                safety.slew_clamped = Num::Fin(1).lt(sv.minus(v).abs());
                st.last_out = Some(sv);
                display_cmd = sv;
                Write::Override(sv)
            },
            Write::Nothing => Write::Nothing,
        }
    } else {
        st.ctrl.reset();
        st.last_out = None;
        draft.raw
    };
    let feed_shore_write = st.owner_us && cfg.stage == Stage::Takeover && snap.gm_should_write;
    st.prev_force_charge = snap.sg.force_charge || snap.sg.max_discharge_w.is_finite();
    Decision {
        command: draft.command,
        write,
        hub4mode: draft.hub4mode,
        feed_shore_write,
        owner_us: st.owner_us,
        display_cmd,
        owner_str,
        note: draft.note,
        flipped: draft.flipped,
        safety,
    }
}

pub open spec fn spec_ema_step(draft: Draft, st: LoopState, cfg: DecideCfg) -> Option<Num> {
    if st.owner_us && cfg.ema_adaptive && draft.raw is Setpoint && st.last_out is Some
        && st.last_out->0.is_finite() && !draft.raw->Setpoint_0.minus(st.last_out->0).abs().lt(
        Num::Fin(EMA_SMALL_STEP_W),
    ) {
        Some(draft.raw->Setpoint_0.minus(st.last_out->0).abs())
    } else {
        None
    }
}

/// The size of the step whose logarithm the adaptive average needs, if it needs one.
pub fn ema_step(draft: &Draft, st: &LoopState, cfg: &DecideCfg) -> (r: Option<Num>)
    ensures
        r == spec_ema_step(*draft, *st, *cfg),
{
    if st.owner_us && cfg.ema_adaptive {
        if let Write::Setpoint(v) = draft.raw {
            if let Some(p) = st.last_out {
                let d = v.minus(p).abs();
                if p.is_finite() && !d.lt(Num::Fin(EMA_SMALL_STEP_W)) {
                    return Some(d);
                }
            }
        }
    }
    None
}

/// One tick's decision, given the gain of the adaptive average.
pub open spec fn decided(
    snap: Snapshot,
    st: LoopState,
    cfg: DecideCfg,
    t: Num,
    log_gain: Num,
) -> Decision {
    emitted(
        drafted(snap, st, cfg, t),
        snap,
        settled(snap, st, cfg, t),
        cfg,
        log_gain,
    )
}

/// The carried state after one tick.
pub open spec fn decided_state(
    snap: Snapshot,
    st: LoopState,
    cfg: DecideCfg,
    t: Num,
    log_gain: Num,
) -> LoopState {
    emitted_state(
        drafted(snap, st, cfg, t),
        snap,
        settled(snap, st, cfg, t),
        cfg,
        log_gain,
    )
}

/// The step whose logarithm this tick needs, if it needs one.
pub open spec fn step_of(
    snap: Snapshot,
    st: LoopState,
    cfg: DecideCfg,
    t: Num,
) -> Option<Num> {
    spec_ema_step(drafted(snap, st, cfg, t), settled(snap, st, cfg, t), cfg)
}

/// The step whose logarithm this tick's decision needs, if it needs one; nothing moves.
pub fn gain_step(snap: &Snapshot, st: &LoopState, cfg: &DecideCfg, t: Num) -> (r: Option<Num>)
    ensures
        r == step_of(*snap, *st, *cfg, t),
{
    if !cfg.ema_adaptive {
        return None;
    }
    let mut ahead = *st;
    let draft = settle(snap, &mut ahead, cfg, t);
    ema_step(&draft, &ahead, cfg)
}

/// One tick. `t` counts seconds from the start and serves the dwell timers alone.
/// `log_gain` is a quarter of the natural logarithm of a tenth of the step in watts that
/// [`gain_step`] names; where it names none, it does not matter.
pub fn decide(
    snap: &Snapshot,
    st: &mut LoopState,
    cfg: &DecideCfg,
    t: Num,
    log_gain: Num,
) -> (d: Decision)
    ensures
        d == decided(*snap, *old(st), *cfg, t, log_gain),
        *final(st) == decided_state(*snap, *old(st), *cfg, t, log_gain),
{
    let draft = settle(snap, st, cfg, t);
    emit(&draft, snap, st, cfg, log_gain)
}

// ---- laws ----------------------------------------------------------------------------

/// Bounds that admit idling: what the battery limits always hand to the loop.
pub open spec fn sound_bounds(snap: Snapshot) -> bool {
    snap.lo.is_finite() && snap.hi.is_finite() && snap.lo.le(Num::Fin(0)) && Num::Fin(0).le(snap.hi)
}

/// Within the bounds, and a number.
pub open spec fn in_bounds(v: Num, snap: Snapshot) -> bool {
    v.is_finite() && snap.lo.le(v) && v.le(snap.hi)
}

/// The command and every written inverter setpoint stay within the bounds, whatever
/// was read and whatever was learned.
pub proof fn setpoint_stays_in_bounds(
    snap: Snapshot,
    st: LoopState,
    cfg: DecideCfg,
    t: Num,
    g: Num,
)
    requires
        sound_bounds(snap),
    ensures
        in_bounds(decided(snap, st, cfg, t, g).command, snap),
        decided(snap, st, cfg, t, g).write matches Write::Setpoint(v) ==> in_bounds(v, snap),
{
}

/// The shadow stage writes nothing: no setpoint, no override, no mode, no flags.
pub proof fn shadow_never_writes(
    snap: Snapshot,
    st: LoopState,
    cfg: DecideCfg,
    t: Num,
    g: Num,
)
    requires
        cfg.stage == Stage::Shadow,
    ensures
        decided(snap, st, cfg, t, g).write == Write::Nothing,
        decided(snap, st, cfg, t, g).hub4mode is None,
        !decided(snap, st, cfg, t, g).feed_shore_write,
{
}

/// The trim stage leaves the mode, the inverter setpoint and the flags alone.
pub proof fn trim_only_overrides(
    snap: Snapshot,
    st: LoopState,
    cfg: DecideCfg,
    t: Num,
    g: Num,
)
    requires
        cfg.stage == Stage::Trim,
    ensures
        !(decided(snap, st, cfg, t, g).write is Setpoint),
        decided(snap, st, cfg, t, g).hub4mode is None,
        !decided(snap, st, cfg, t, g).feed_shore_write,
{
}

/// Takeover writes a setpoint exactly while it owns the loop and can rely on the meter;
/// the feed-in flags and AC-input limits go with it.
pub proof fn takeover_writes_iff_owning_with_a_meter(
    snap: Snapshot,
    st: LoopState,
    cfg: DecideCfg,
    t: Num,
    g: Num,
)
    requires
        cfg.stage == Stage::Takeover,
    ensures
        (decided(snap, st, cfg, t, g).write is Setpoint) == (owns(snap, st, cfg, t)
            && snap.gm_should_write),
        decided(snap, st, cfg, t, g).feed_shore_write == (owns(snap, st, cfg, t)
            && snap.gm_should_write),
        !(decided(snap, st, cfg, t, g).write is Override),
{
}

/// Handing back is never throttled: at the floor, in the recharge state or on a sanity
/// trip we own no longer in that very tick, however recently ownership changed.
pub proof fn hand_back_is_never_throttled(
    snap: Snapshot,
    st: LoopState,
    cfg: DecideCfg,
    t: Num,
    g: Num,
)
    requires
        st.owner_us,
        must_exit(snap, st, cfg, t),
    ensures
        !decided_state(snap, st, cfg, t, g).owner_us,
        decided(snap, st, cfg, t, g).flipped,
        cfg.stage == Stage::Takeover && !usurped(snap, st, cfg) ==> decided(
            snap,
            st,
            cfg,
            t,
            g,
        ).hub4mode == Some(cfg.orig_mode),
        cfg.stage == Stage::Trim ==> decided(snap, st, cfg, t, g).write == Write::Override(
            snap.s.target,
        ),
{
}

/// Taking over needs the state of charge above the floor by the hysteresis, a state
/// other than recharge, a loop that was never taken from us, and the dwell.
pub proof fn taking_over_needs_margin_and_dwell(
    snap: Snapshot,
    st: LoopState,
    cfg: DecideCfg,
    t: Num,
    g: Num,
)
    requires
        !st.owner_us,
    ensures
        decided_state(snap, st, cfg, t, g).owner_us <==> {
            &&& snap.min_soc.plus(cfg.soc_hyst).le(snap.s.soc)
            &&& snap.s.state != cfg.state_recharge
            &&& !st.ceded_external
            &&& required_dwell(st, cfg).le(t.minus(st.last_flip_t))
        },
{
}

/// When someone else changes the mode while we own, we cede in that tick and do not
/// fight: nothing is written, the mode neither.
pub proof fn outside_change_cedes_at_once(
    snap: Snapshot,
    st: LoopState,
    cfg: DecideCfg,
    t: Num,
    g: Num,
)
    requires
        cfg.stage == Stage::Takeover,
        st.owner_us,
        snap.hub4mode_live is Some,
        snap.hub4mode_live->0 != hub4mode::EXTERNAL,
    ensures
        !decided_state(snap, st, cfg, t, g).owner_us,
        decided_state(snap, st, cfg, t, g).ceded_external,
        decided(snap, st, cfg, t, g).write == Write::Nothing,
        decided(snap, st, cfg, t, g).hub4mode is None,
        decided(snap, st, cfg, t, g).flipped,
{
}

/// Ceding is for good: once ceded, no later tick owns the loop.
pub proof fn ceding_is_for_good(
    snap: Snapshot,
    st: LoopState,
    cfg: DecideCfg,
    t: Num,
    g: Num,
)
    requires
        st.ceded_external,
        !st.owner_us,
    ensures
        decided_state(snap, st, cfg, t, g).ceded_external,
        !decided_state(snap, st, cfg, t, g).owner_us,
{
}

/// The state after a sequence of ticks, each with its own readings, time and gain.
pub open spec fn run(
    st: LoopState,
    cfg: DecideCfg,
    ticks: Seq<(Snapshot, Num, Num)>,
) -> LoopState
    decreases ticks.len(),
{
    if ticks.len() == 0 {
        st
    } else {
        let before = run(st, cfg, ticks.drop_last());
        let (snap, t, g) = ticks.last();
        decided_state(snap, before, cfg, t, g)
    }
}

/// No sequence of readings makes a ceded loop take over again.
pub proof fn ceded_run_never_owns(
    st: LoopState,
    cfg: DecideCfg,
    ticks: Seq<(Snapshot, Num, Num)>,
)
    requires
        st.ceded_external,
        !st.owner_us,
    ensures
        run(st, cfg, ticks).ceded_external,
        !run(st, cfg, ticks).owner_us,
    decreases ticks.len(),
{
    if ticks.len() > 0 {
        ceded_run_never_owns(st, cfg, ticks.drop_last());
    }
}

/// The configuration of the same run in another stage.
pub open spec fn in_stage(cfg: DecideCfg, stage: Stage) -> DecideCfg {
    DecideCfg { stage, ..cfg }
}

/// Do two states differ in nothing but since when the grid strays? Only a stage that
/// writes watches that.
pub open spec fn alike(a: LoopState, b: LoopState) -> bool {
    a == (LoopState { oob_since: a.oob_since, ..b })
}

/// The gain matters only to a tick that names a step: to any other, every gain gives the
/// same decision and leaves the same state.
pub proof fn gain_matters_only_to_a_step(
    snap: Snapshot,
    st: LoopState,
    cfg: DecideCfg,
    t: Num,
    g: Num,
    h: Num,
)
    requires
        step_of(snap, st, cfg, t) is None,
    ensures
        decided(snap, st, cfg, t, g) == decided(snap, st, cfg, t, h),
        decided_state(snap, st, cfg, t, g) == decided_state(snap, st, cfg, t, h),
{
}

/// A takeover that owns goes on owning: above the floor, out of the recharge state, with
/// the mode not taken away and the grid within the sanity band.
pub proof fn undisturbed_takeover_goes_on(snap: Snapshot, st: LoopState, cfg: DecideCfg, t: Num)
    requires
        cfg.stage == Stage::Takeover,
        st.owner_us,
        snap.hub4mode_live is None || snap.hub4mode_live == Some(hub4mode::EXTERNAL),
        snap.min_soc.lt(snap.s.soc),
        snap.s.state != cfg.state_recharge,
        snap.s.grid.minus(snap.s.target).is_finite(),
        snap.s.grid.minus(snap.s.target).abs().le(cfg.sanity_band_w),
    ensures
        owns(snap, st, cfg, t),
{
}

/// Shadow shows what takeover writes: from states that are alike and own, wherever
/// takeover goes on owning with a usable meter, it writes the very value that shadow
/// displays without writing, and the two come to the same command. Unless the law
/// learns, which takes actuation, they leave states that are alike again.
#[verifier::spinoff_prover]
#[verifier::rlimit(30)]
pub proof fn shadow_shows_what_takeover_writes(
    snap: Snapshot,
    shadow: LoopState,
    takeover: LoopState,
    cfg: DecideCfg,
    t: Num,
    g: Num,
)
    requires
        alike(shadow, takeover),
        takeover.owner_us,
        owns(snap, takeover, in_stage(cfg, Stage::Takeover), t),
        snap.gm_should_write,
    ensures
        ({
            let a = decided(snap, shadow, in_stage(cfg, Stage::Shadow), t, g);
            let b = decided(snap, takeover, in_stage(cfg, Stage::Takeover), t, g);
            &&& a.write == Write::Nothing
            &&& b.write == Write::Setpoint(a.display_cmd)
            &&& a.command == b.command
            &&& a.display_cmd == b.display_cmd
            &&& a.owner_us && b.owner_us
        }),
        step_of(snap, shadow, in_stage(cfg, Stage::Shadow), t) == step_of(
            snap,
            takeover,
            in_stage(cfg, Stage::Takeover),
            t,
        ),
        !(takeover.ctrl.kind is Adaptive) ==> alike(
            decided_state(snap, shadow, in_stage(cfg, Stage::Shadow), t, g),
            decided_state(snap, takeover, in_stage(cfg, Stage::Takeover), t, g),
        ),
{
}

/// Does every tick of a run own the loop and find the meter usable?
pub open spec fn drives(
    st: LoopState,
    cfg: DecideCfg,
    ticks: Seq<(Snapshot, Num, Num)>,
) -> bool
    decreases ticks.len(),
{
    ticks.len() == 0 || {
        let before = run(st, cfg, ticks.drop_last());
        let (snap, t, g) = ticks.last();
        &&& drives(st, cfg, ticks.drop_last())
        &&& owns(snap, before, cfg, t)
        &&& snap.gm_should_write
    }
}

/// A whole shadow run shows what takeover would write: from one state that owns, under a
/// law that does not learn, as long as takeover goes on driving, each of its writes is
/// the value that shadow displays in that tick.
pub proof fn shadow_run_shows_what_takeover_writes(
    st: LoopState,
    cfg: DecideCfg,
    ticks: Seq<(Snapshot, Num, Num)>,
)
    requires
        st.owner_us,
        !(st.ctrl.kind is Adaptive),
        drives(st, in_stage(cfg, Stage::Takeover), ticks),
    ensures
        ({
            let shadow = run(st, in_stage(cfg, Stage::Shadow), ticks);
            let takeover = run(st, in_stage(cfg, Stage::Takeover), ticks);
            &&& alike(shadow, takeover)
            &&& takeover.owner_us
            &&& takeover.ctrl.kind == st.ctrl.kind
        }),
        ticks.len() > 0 ==> ({
            let shadow = run(st, in_stage(cfg, Stage::Shadow), ticks.drop_last());
            let takeover = run(st, in_stage(cfg, Stage::Takeover), ticks.drop_last());
            let (snap, t, g) = ticks.last();
            let a = decided(snap, shadow, in_stage(cfg, Stage::Shadow), t, g);
            let b = decided(snap, takeover, in_stage(cfg, Stage::Takeover), t, g);
            a.write == Write::Nothing && b.write == Write::Setpoint(a.display_cmd)
        }),
    decreases ticks.len(),
{
    if ticks.len() > 0 {
        shadow_run_shows_what_takeover_writes(st, cfg, ticks.drop_last());
        let shadow = run(st, in_stage(cfg, Stage::Shadow), ticks.drop_last());
        let takeover = run(st, in_stage(cfg, Stage::Takeover), ticks.drop_last());
        let (snap, t, g) = ticks.last();
        shadow_shows_what_takeover_writes(snap, shadow, takeover, cfg, t, g);
    }
}

/// As long as the mode still reads external after a hand-back, the stock mode is
/// written again, unless this tick takes the loop over.
pub proof fn stock_mode_is_reasserted(
    snap: Snapshot,
    st: LoopState,
    cfg: DecideCfg,
    t: Num,
    g: Num,
)
    requires
        cfg.stage == Stage::Takeover,
        !st.owner_us,
        snap.hub4mode_live == Some(hub4mode::EXTERNAL),
    ensures
        decided(snap, st, cfg, t, g).hub4mode == (if owns(snap, st, cfg, t) {
            Some(hub4mode::EXTERNAL)
        } else {
            Some(cfg.orig_mode)
        }),
{
}

/// The mode is written only on a change of ownership or to repeat a hand-back.
pub proof fn mode_is_written_only_with_reason(
    snap: Snapshot,
    st: LoopState,
    cfg: DecideCfg,
    t: Num,
    g: Num,
)
    ensures
        decided(snap, st, cfg, t, g).hub4mode is Some ==> cfg.stage == Stage::Takeover && (
        decided(snap, st, cfg, t, g).flipped || stuck(snap, st, cfg)),
{
}

/// The sanity supervisor trips exactly when the grid has strayed without a break since
/// some tick at least `sanity_secs` ago; one good tick starts the count anew.
pub proof fn sanity_trips_after_the_dwell(
    snap: Snapshot,
    st: LoopState,
    cfg: DecideCfg,
    t: Num,
    g: Num,
)
    ensures
        decided(snap, st, cfg, t, g).safety.sanity_tripped <==> {
            &&& out_of_band(snap, st, cfg)
            &&& cfg.sanity_secs.le(
                t.minus(
                    match st.oob_since {
                        Some(t0) => t0,
                        None => t,
                    },
                ),
            )
        },
        !out_of_band(snap, st, cfg) ==> decided_state(snap, st, cfg, t, g).oob_since is None,
{
}

/// A tick that follows force-charge or a discharge cap is not judged: there the grid
/// strays for a good reason.
#[verifier::spinoff_prover]
#[verifier::rlimit(30)]
pub proof fn sanity_is_suspended_after_force_charge(
    before: Snapshot,
    snap: Snapshot,
    st: LoopState,
    cfg: DecideCfg,
    t0: Num,
    t: Num,
    g: Num,
)
    requires
        before.sg.force_charge || before.sg.max_discharge_w.is_finite(),
    ensures
        ({
            let mid = decided_state(before, st, cfg, t0, g);
            &&& !decided(snap, mid, cfg, t, g).safety.sanity_tripped
            &&& decided_state(snap, mid, cfg, t, g).oob_since is None
        }),
{
}

/// A grid reading that is not finite counts as straying: it cannot reset the count.
pub proof fn unreadable_grid_counts_as_straying(snap: Snapshot, st: LoopState, cfg: DecideCfg, t: Num)
    requires
        !snap.s.grid.is_finite(),
        st.owner_us,
        cfg.stage.writes(),
        snap.gm_should_write,
        !st.prev_force_charge,
    ensures
        out_of_band(snap, st, cfg),
        straying_since(snap, st, cfg, t) is Some,
        st.oob_since is Some ==> straying_since(snap, st, cfg, t) == st.oob_since,
{
}

/// Each trip that hands the loop back doubles the dwell before the next takeover, up
/// to 128 times the first; the count of trips never falls.
pub proof fn trips_double_the_dwell(
    snap: Snapshot,
    st: LoopState,
    cfg: DecideCfg,
    t: Num,
    g: Num,
)
    ensures
        st.sanity_trips <= decided_state(snap, st, cfg, t, g).sanity_trips,
        hands_back(snap, st, cfg, t) && tripped(snap, st, cfg, t) && st.sanity_trips < u32::MAX
            ==> decided_state(snap, st, cfg, t, g).sanity_trips == st.sanity_trips + 1,
        st.sanity_trips < 7 ==> backoff_factor((st.sanity_trips + 1) as u32) == 2
            * backoff_factor(st.sanity_trips),
        st.sanity_trips >= 7 ==> backoff_factor(st.sanity_trips) == 128,
{
}

/// The dwell that trips require is the configured one times the factor, exactly.
pub proof fn dwell_is_scaled_exactly(st: LoopState, cfg: DecideCfg)
    requires
        cfg.min_dwell_s.is_finite(),
    ensures
        required_dwell(st, cfg) == crate::num::of_millionths(
            cfg.min_dwell_s.micros() * backoff_factor(st.sanity_trips),
        ),
{
    let a = cfg.min_dwell_s.micros();
    let k = backoff_factor(st.sanity_trips);
    let n = a * (k * 1_000_000);
    assert(n == (a * k) * 1_000_000) by (nonlinear_arith)
        requires
            n == a * (k * 1_000_000),
    ;
    assert(crate::num::round_div(n, 1_000_000) == a * k);
}

/// While we do not own, nothing winds up and nothing is remembered of past writes; what
/// was learned is kept.
pub proof fn not_owning_forgets(
    snap: Snapshot,
    st: LoopState,
    cfg: DecideCfg,
    t: Num,
    g: Num,
)
    requires
        !owns(snap, st, cfg, t),
    ensures
        decided_state(snap, st, cfg, t, g).ctrl == st.ctrl.cleared(),
        decided_state(snap, st, cfg, t, g).last_out is None,
{
}

/// A gap of the meter keeps the memory of the last write: the first write after it is
/// averaged from where the inverter was left.
pub proof fn meter_gap_keeps_the_last_write(
    snap: Snapshot,
    st: LoopState,
    cfg: DecideCfg,
    t: Num,
    g: Num,
)
    requires
        cfg.stage == Stage::Takeover,
        st.owner_us,
        owns(snap, st, cfg, t),
        !snap.gm_should_write,
    ensures
        decided(snap, st, cfg, t, g).write == Write::Nothing,
        decided_state(snap, st, cfg, t, g).last_out == st.last_out,
{
}

/// The model is taught only by a tick whose command drove the plant.
pub proof fn only_actuated_ticks_teach(
    snap: Snapshot,
    st: LoopState,
    cfg: DecideCfg,
    t: Num,
    g: Num,
)
    ensures
        decided_state(snap, st, cfg, t, g).ctrl.ff != st.ctrl.ff ==> owns(snap, st, cfg, t)
            && cfg.stage == Stage::Takeover && snap.gm_should_write,
{
}

/// Never towards a generator, nor when feed-in must stay flat: the command does not
/// discharge into the grid.
pub proof fn no_export_when_flat(snap: Snapshot, cmd: Num)
    requires
        sound_bounds(snap),
        snap.gen_disable_export || snap.feed_force_flat,
    ensures
        Num::Fin(0).le(composed(snap, cmd)),
{
}

/// With charging blocked, the command never charges.
pub proof fn no_charge_when_blocked(snap: Snapshot, cmd: Num)
    requires
        sound_bounds(snap),
        snap.feed_block_charge,
    ensures
        composed(snap, cmd).le(Num::Fin(0)),
{
}

/// Firmware that takes the setpoint as a command is never told to discharge while
/// charge is forced.
pub proof fn legacy_force_charge_never_discharges(snap: Snapshot, cmd: Num)
    requires
        sound_bounds(snap),
        snap.sg.cmd_override is Some,
        !snap.sg.tpimf,
        Num::Fin(0).lt(snap.sg.cmd_override->0),
    ensures
        Num::Fin(0).le(composed(snap, cmd)),
{
}

/// Where the setpoint is a feed-in cap, forced charge lets the law pass up to the sum
/// of the charge limits, and never above it.
pub proof fn feed_in_cap_respects_the_charge_limit(snap: Snapshot, cmd: Num)
    requires
        sound_bounds(snap),
        cmd.is_finite(),
        snap.sg.tpimf,
        snap.sg.cmd_override is Some,
        snap.sg.cmd_override->0.is_finite(),
        Num::Fin(0).le(snap.sg.cmd_override->0),
        !Num::Fin(0).lt(snap.sg.charge_floor_w),
    ensures
        composed(snap, cmd).le(snap.sg.cmd_override->0),
{
}

/// A discharge cap binds the battery, not the setpoint: with the cap `c` and the output
/// load `o` the command is at least `o - c`, as far as the bounds allow.
pub proof fn discharge_cap_binds_the_battery(snap: Snapshot, cmd: Num)
    requires
        sound_bounds(snap),
        cmd.is_finite(),
        snap.sg.cmd_override is None,
        !snap.feed_block_charge,
        snap.sg.max_discharge_w.neg().plus(ac_out(snap)).is_finite(),
        snap.sg.charge_floor_w.plus(ac_out(snap)).is_finite(),
    ensures
        snap.sg.max_discharge_w.neg().plus(ac_out(snap)).min(snap.hi).le(composed(snap, cmd)),
{
}

/// Without a cap, a floor, a block or a forced charge, the composed command is the
/// law's own.
pub proof fn unconstrained_command_is_the_law(snap: Snapshot, cmd: Num)
    requires
        cmd.is_finite(),
        snap.lo.le(cmd),
        cmd.le(snap.hi),
        snap.sg.max_discharge_w == Num::PosInf,
        snap.sg.cmd_override is None,
        !Num::Fin(0).lt(snap.sg.charge_floor_w),
        !snap.feed_block_charge,
        !snap.feed_force_flat,
        !snap.gen_disable_export,
    ensures
        composed(snap, cmd) == cmd,
{
}

/// Trimming holds at the setpoint while it is suspended: nothing winds up.
pub proof fn suspended_trim_holds_the_setpoint(
    snap: Snapshot,
    st: LoopState,
    cfg: DecideCfg,
    t: Num,
    g: Num,
)
    requires
        cfg.stage == Stage::Trim,
        owns(snap, st, cfg, t),
        trim_suspended(snap),
    ensures
        decided_state(snap, st, cfg, t, g).trim_override == Some(snap.s.target),
{
}

/// A trim that is at work stays within the bounds of the command, and moves with the
/// error: where the grid is on the target it rests.
pub proof fn trim_stays_in_bounds(snap: Snapshot, st: LoopState, cfg: DecideCfg, t: Num, g: Num)
    requires
        sound_bounds(snap),
        cfg.stage == Stage::Trim,
        owns(snap, st, cfg, t),
        !trim_suspended(snap),
    ensures
        decided_state(snap, st, cfg, t, g).trim_override matches Some(o) && in_bounds(o, snap),
        st.owner_us && snap.s.grid == snap.s.target && snap.s.grid.is_finite()
            && cfg.trim_ki.is_finite() && snap.dt.is_finite() && (st.trim_override matches Some(o)
            && in_bounds(o, snap)) ==> decided_state(snap, st, cfg, t, g).trim_override
            == st.trim_override,
{
    if cfg.trim_ki.is_finite() && snap.dt.is_finite() {
        assert(cfg.trim_ki.micros() * 0 == 0) by (nonlinear_arith);
        assert(0 * snap.dt.micros() == 0) by (nonlinear_arith);
    }
}

/// The slew guard: a written setpoint is at most `slew * dt` away from the previous
/// one, wherever that lies within the bounds.
pub proof fn slew_guard_bounds_the_step(
    v: Num,
    snap: Snapshot,
    last: Num,
    cfg: DecideCfg,
    g: Num,
)
    requires
        sound_bounds(snap),
        in_bounds(last, snap),
        v.is_finite(),
        cfg.slew_w_per_s.times(snap.dt).is_finite(),
        Num::Fin(0).le(cfg.slew_w_per_s.times(snap.dt)),
    ensures
        ({
            let out = setpoint_written(v, snap, Some(last), cfg, g);
            let step = cfg.slew_w_per_s.times(snap.dt);
            out.is_finite() && -step.micros() <= out.micros() - last.micros() <= step.micros()
        }),
{
    let step = cfg.slew_w_per_s.times(snap.dt);
    let ema = stock_write_ema(Some(last), v, cfg.ema_adaptive, g);
    let d = within(ema.minus(last), step.max(Num::Fin(0)));
    assert(slewed(Some(last), ema, cfg.slew_w_per_s, snap.dt) == last.plus(d));
}

/// A whole number rounds to itself.
proof fn whole_rounds_to_itself(a: int)
    requires
        a % 1_000_000 == 0,
    ensures
        crate::num::round_div(a, 1_000_000) * 1_000_000 == a,
{
}

/// A command that has been reached is held: from the command itself the write law writes
/// the command again.
#[verifier::spinoff_prover]
pub proof fn write_law_rests_on_the_command(cmd: Num, adaptive: bool, g: Num)
    requires
        cmd.is_finite(),
        cmd.micros() % 1_000_000 == 0,
    ensures
        stock_write_ema(Some(cmd), cmd, adaptive, g) == cmd,
{
    let zero = cmd.minus(cmd);
    assert(zero == Num::Fin(0));
    assert(ema_gain(zero, adaptive, g) == Num::Fin(EMA_GAIN_MIN));
    assert(Num::Fin(EMA_GAIN_MIN).times(Num::Fin(0)) == Num::Fin(0));
    assert(averaged(Some(cmd), cmd, adaptive, g) == cmd);
    whole_rounds_to_itself(cmd.micros());
}

/// At the flat gain the write lies between the previous write and the command, up to
/// the rounding to whole watts.
pub proof fn flat_average_stays_between(prev: Num, cmd: Num, g: Num)
    requires
        prev.is_finite(),
        cmd.is_finite(),
        cmd.minus(prev).is_inside(),
        stock_write_ema(Some(prev), cmd, false, g).is_inside(),
    ensures
        ({
            let w = stock_write_ema(Some(prev), cmd, false, g).micros();
            prev.min(cmd).micros() - 500_001 <= w <= prev.max(cmd).micros() + 500_001
        }),
{
    let p = prev.micros();
    let c = cmd.micros();
    let d = c - p;
    crate::num::round_div_error(500_000 * d, 1_000_000);
    let h = crate::num::round_div(500_000 * d, 1_000_000);
    crate::num::round_div_error(p + h, 1_000_000);
}

/// From a whole watt towards a whole watt the flat average never overshoots: the write
/// lies between the two, and halves the distance up to half a watt.
#[verifier::spinoff_prover]
pub proof fn flat_average_never_overshoots(prev: Num, cmd: Num, g: Num)
    requires
        prev.is_finite(),
        cmd.is_finite(),
        cmd.minus(prev).is_inside(),
        prev.micros() % 1_000_000 == 0,
        cmd.micros() % 1_000_000 == 0,
    ensures
        ({
            let w = stock_write_ema(Some(prev), cmd, false, g);
            &&& w.is_finite()
            &&& w.micros() % 1_000_000 == 0
            &&& prev.min(cmd).le(w) && w.le(prev.max(cmd))
            &&& -1_000_000 <= 2 * w.micros() - (prev.micros() + cmd.micros()) <= 1_000_000
        }),
{
    let p = prev.micros() / 1_000_000;
    let c = cmd.micros() / 1_000_000;
    half_of_whole(c - p);
    halfway_rounds_between(p, c);
    let delta = cmd.minus(prev);
    assert(delta.micros() == 1_000_000 * (c - p));
    assert(Num::Fin(EMA_GAIN_MIN).times(delta).micros() == 500_000 * (c - p));
    let avg = averaged(Some(prev), cmd, false, g);
    assert(avg == crate::num::of_millionths(1_000_000 * p + 500_000 * (c - p)));
    assert(avg.is_finite());
}

/// What the write law makes of a number is a whole number of watts.
pub proof fn averages_are_whole_watts(prev: Option<Num>, cmd: Num, adaptive: bool, g: Num)
    requires
        stock_write_ema(prev, cmd, adaptive, g).is_inside(),
    ensures
        stock_write_ema(prev, cmd, adaptive, g).micros() % 1_000_000 == 0,
{
    let a = averaged(prev, cmd, adaptive, g);
    assert(a.is_finite());
    assert((crate::num::round_div(a.micros(), 1_000_000) * 1_000_000) % 1_000_000 == 0);
}

/// The write after a number of steps at the flat gain towards a command that stands still.
pub open spec fn approached(prev: Num, cmd: Num, g: Num, steps: nat) -> Num
    decreases steps,
{
    if steps == 0 {
        prev
    } else {
        approached(stock_write_ema(Some(prev), cmd, false, g), cmd, g, (steps - 1) as nat)
    }
}

/// The write settles on a command that stands still: from at most `2^k` watts away,
/// whole watts both, it is within a watt after `k` steps. Where the way leads away from
/// zero, so that halves are rounded onto the command, one step more reaches it exactly.
#[verifier::spinoff_prover]
pub proof fn flat_average_settles(prev: Num, cmd: Num, g: Num, k: nat)
    requires
        prev.is_finite(),
        cmd.is_finite(),
        cmd.minus(prev).is_inside(),
        prev.micros() % 1_000_000 == 0,
        cmd.micros() % 1_000_000 == 0,
        -1_000_000 * pow2(k) <= cmd.micros() - prev.micros() <= 1_000_000 * pow2(k),
    ensures
        ({
            let w = approached(prev, cmd, g, k);
            w.is_finite() && -1_000_000 <= cmd.micros() - w.micros() <= 1_000_000
        }),
        0 < cmd.micros() && prev.le(cmd) || cmd.micros() < 0 && cmd.le(prev) ==> approached(
            prev,
            cmd,
            g,
            k + 1,
        ) == cmd,
    decreases k,
{
    let w = stock_write_ema(Some(prev), cmd, false, g);
    flat_step_halves(prev, cmd, g);
    reveal_with_fuel(approached, 2);
    if k == 0 {
        lemma2_to64();
        if 0 < cmd.micros() && prev.le(cmd) || cmd.micros() < 0 && cmd.le(prev) {
            last_watt_is_reached(prev, cmd, g);
        }
    } else {
        lemma_pow2_unfold(k);
        flat_average_settles(w, cmd, g, (k - 1) as nat);
    }
}

/// One step towards the command, in counts.
#[verifier::spinoff_prover]
proof fn flat_step_halves(prev: Num, cmd: Num, g: Num)
    requires
        prev.is_finite(),
        cmd.is_finite(),
        cmd.minus(prev).is_inside(),
        prev.micros() % 1_000_000 == 0,
        cmd.micros() % 1_000_000 == 0,
    ensures
        ({
            let w = stock_write_ema(Some(prev), cmd, false, g);
            &&& w.is_finite()
            &&& w.micros() % 1_000_000 == 0
            &&& cmd.minus(w).is_inside()
            &&& prev.micros() <= cmd.micros() ==> 0 <= 2 * (cmd.micros() - w.micros())
                <= cmd.micros() - prev.micros() + 1_000_000
            &&& cmd.micros() <= prev.micros() ==> 0 <= 2 * (w.micros() - cmd.micros())
                <= prev.micros() - cmd.micros() + 1_000_000
        }),
{
    flat_average_never_overshoots(prev, cmd, g);
}

/// One watt short of the command, on the way away from zero, the write reaches it.
#[verifier::spinoff_prover]
proof fn last_watt_is_reached(prev: Num, cmd: Num, g: Num)
    requires
        prev.is_finite(),
        cmd.is_finite(),
        prev.micros() % 1_000_000 == 0,
        cmd.micros() % 1_000_000 == 0,
        0 < cmd.micros() && 0 <= cmd.micros() - prev.micros() <= 1_000_000 || cmd.micros() < 0
            && -1_000_000 <= cmd.micros() - prev.micros() <= 0,
    ensures
        stock_write_ema(Some(prev), cmd, false, g) == cmd,
{
    let p = prev.micros() / 1_000_000;
    let c = cmd.micros() / 1_000_000;
    half_of_whole(c - p);
    let delta = cmd.minus(prev);
    assert(delta.micros() == 1_000_000 * (c - p));
    assert(Num::Fin(EMA_GAIN_MIN).times(delta).micros() == 500_000 * (c - p));
    let avg = averaged(Some(prev), cmd, false, g);
    assert(avg == crate::num::of_millionths(1_000_000 * p + 500_000 * (c - p)));
}

/// Half of a whole number is exact in millionths.
proof fn half_of_whole(d: int)
    ensures
        crate::num::round_div(500_000 * (1_000_000 * d), 1_000_000) == 500_000 * d,
{
}

/// The middle of two whole numbers, in millionths, rounds to one between them.
proof fn halfway_rounds_between(p: int, c: int)
    ensures
        ({
            let m = crate::num::round_div(1_000_000 * p + 500_000 * (c - p), 1_000_000);
            &&& p <= c ==> p <= m <= c
            &&& c <= p ==> c <= m <= p
            &&& -1 <= 2 * m - (p + c) <= 1
        }),
{
}

/// A tick strays where the grid is off its setpoint by more than the band, on either
/// side: an export beyond it counts as an import does. The count runs from the first
/// such tick, and a tick within the band ends it.
#[verifier::spinoff_prover]
#[verifier::rlimit(30)]
pub proof fn straying_is_a_gross_error_either_way(
    snap: Snapshot,
    st: LoopState,
    cfg: DecideCfg,
    t: Num,
    g: Num,
    grid: i64,
    target: i64,
    band: i64,
)
    requires
        snap.s.grid == Num::Fin(grid),
        snap.s.target == Num::Fin(target),
        cfg.sanity_band_w == Num::Fin(band),
        moderate(Num::Fin(grid)),
        moderate(Num::Fin(target)),
        st.owner_us,
        cfg.stage == Stage::Trim || cfg.stage == Stage::Takeover,
        snap.gm_should_write,
        !st.prev_force_charge,
    ensures
        ({
            let since = decided_state(snap, st, cfg, t, g).oob_since;
            &&& since is Some <==> grid - target > band || target - grid > band
            &&& since is Some ==> since == (if st.oob_since is Some {
                st.oob_since
            } else {
                Some(t)
            })
        }),
        !(grid - target > band || target - grid > band) ==> !decided(
            snap,
            st,
            cfg,
            t,
            g,
        ).safety.sanity_tripped,
{
    sums_are_exact(grid, target);
    sums_are_exact((grid - target) as i64, 0);
}

/// Nothing strays where nothing is driven: without the loop, in shadow, without the
/// meter, or right after a forced charge or a discharge cap.
pub proof fn nothing_strays_undriven(
    snap: Snapshot,
    st: LoopState,
    cfg: DecideCfg,
    t: Num,
    g: Num,
)
    requires
        !st.owner_us || cfg.stage == Stage::Shadow || !snap.gm_should_write
            || st.prev_force_charge,
    ensures
        decided_state(snap, st, cfg, t, g).oob_since is None,
        !decided(snap, st, cfg, t, g).safety.sanity_tripped,
{
}

/// The sanity supervisor: a grid that has strayed to either side for the sanity time
/// costs us the loop in that tick. It is handed back, the trip is counted, and until the
/// time is up nothing happens.
#[verifier::spinoff_prover]
#[verifier::rlimit(30)]
pub proof fn lasting_stray_hands_the_loop_back(
    snap: Snapshot,
    st: LoopState,
    cfg: DecideCfg,
    g: Num,
    grid: i64,
    target: i64,
    band: i64,
    since: i64,
    now: i64,
    secs: i64,
)
    requires
        snap.s.grid == Num::Fin(grid),
        snap.s.target == Num::Fin(target),
        cfg.sanity_band_w == Num::Fin(band),
        cfg.sanity_secs == Num::Fin(secs),
        st.oob_since == Some(Num::Fin(since)),
        moderate(Num::Fin(grid)),
        moderate(Num::Fin(target)),
        moderate(Num::Fin(since)),
        moderate(Num::Fin(now)),
        grid - target > band || target - grid > band,
        st.owner_us,
        cfg.stage == Stage::Trim || cfg.stage == Stage::Takeover,
        snap.gm_should_write,
        !st.prev_force_charge,
        snap.hub4mode_live is None || snap.hub4mode_live == Some(3i32),
    ensures
        ({
            let d = decided(snap, st, cfg, Num::Fin(now), g);
            let next = decided_state(snap, st, cfg, Num::Fin(now), g);
            &&& d.safety.sanity_tripped <==> now - since >= secs
            &&& now - since >= secs ==> ({
                &&& !d.owner_us && !next.owner_us && d.flipped
                &&& st.sanity_trips < u32::MAX ==> next.sanity_trips == st.sanity_trips + 1
                &&& cfg.stage == Stage::Takeover ==> d.hub4mode == Some(cfg.orig_mode) && d.write
                    == Write::Nothing
                &&& cfg.stage == Stage::Trim ==> d.hub4mode is None && d.write == Write::Override(
                    snap.s.target,
                )
            })
            &&& now - since < secs ==> next.sanity_trips == st.sanity_trips
        }),
{
    sums_are_exact(grid, target);
    sums_are_exact((grid - target) as i64, 0);
    sums_are_exact(now, since);
}

/// A loop that we own stays ours exactly while the charge is above the floor, the system
/// does not recharge, the grid has not tripped the supervisor, and nobody took the mode.
#[verifier::spinoff_prover]
#[verifier::rlimit(30)]
pub proof fn owner_keeps_the_loop_exactly_while(
    snap: Snapshot,
    st: LoopState,
    cfg: DecideCfg,
    t: Num,
    g: Num,
    soc: i64,
    floor: i64,
)
    requires
        st.owner_us,
        snap.s.soc == Num::Fin(soc),
        snap.min_soc == Num::Fin(floor),
    ensures
        ({
            let d = decided(snap, st, cfg, t, g);
            let next = decided_state(snap, st, cfg, t, g);
            let taken = cfg.stage == Stage::Takeover && snap.hub4mode_live is Some
                && snap.hub4mode_live->0 != 3;
            &&& d.owner_us == next.owner_us
            &&& d.owner_us <==> soc > floor && snap.s.state != cfg.state_recharge
                && !d.safety.sanity_tripped && !taken
            &&& d.flipped == !d.owner_us
            &&& next.last_flip_t == (if d.owner_us {
                st.last_flip_t
            } else {
                t
            })
            &&& next.ceded_external == (st.ceded_external || taken)
        }),
{
}

/// We take the loop over exactly where the charge is above the floor by the hysteresis,
/// the system does not recharge, nobody ever took it from us, and the dwell is served:
/// doubled with each trip of the supervisor, up to 128-fold.
#[verifier::spinoff_prover]
#[verifier::rlimit(30)]
pub proof fn loop_is_taken_exactly_when(
    snap: Snapshot,
    st: LoopState,
    cfg: DecideCfg,
    g: Num,
    soc: i64,
    floor: i64,
    hyst: i64,
    dwell: i64,
    last: i64,
    now: i64,
)
    requires
        !st.owner_us,
        snap.s.soc == Num::Fin(soc),
        snap.min_soc == Num::Fin(floor),
        cfg.soc_hyst == Num::Fin(hyst),
        cfg.min_dwell_s == Num::Fin(dwell),
        st.last_flip_t == Num::Fin(last),
        moderate(Num::Fin(floor)),
        moderate(Num::Fin(hyst)),
        moderate(Num::Fin(last)),
        moderate(Num::Fin(now)),
        0 <= dwell <= 10_000_000_000_000_000,
    ensures
        ({
            let d = decided(snap, st, cfg, Num::Fin(now), g);
            let next = decided_state(snap, st, cfg, Num::Fin(now), g);
            let doublings: nat = if st.sanity_trips < 7 {
                st.sanity_trips as nat
            } else {
                7
            };
            &&& d.owner_us == next.owner_us
            &&& d.owner_us <==> soc >= floor + hyst && snap.s.state != cfg.state_recharge
                && !st.ceded_external && now - last >= dwell * pow2(doublings)
            &&& d.flipped == d.owner_us
            &&& next.last_flip_t == (if d.owner_us {
                Num::Fin(now)
            } else {
                st.last_flip_t
            })
            &&& next.ceded_external == st.ceded_external
            &&& next.sanity_trips == st.sanity_trips
        }),
{
    lemma2_to64();
    dwell_is_scaled_exactly(st, cfg);
    sums_are_exact(floor, hyst);
    sums_are_exact(now, last);
}

/// The mode follows the ownership: taking over sets the external mode, handing back sets
/// the one that was found, and a hand-back that did not take is repeated. A mode that
/// someone else set is left alone, and so is every mode outside takeover.
#[verifier::spinoff_prover]
#[verifier::rlimit(30)]
pub proof fn mode_follows_the_ownership(
    snap: Snapshot,
    st: LoopState,
    cfg: DecideCfg,
    t: Num,
    g: Num,
)
    ensures
        ({
            let d = decided(snap, st, cfg, t, g);
            &&& cfg.stage != Stage::Takeover ==> d.hub4mode is None
            &&& cfg.stage == Stage::Takeover ==> d.hub4mode == (if st.owner_us && d.owner_us {
                None
            } else if st.owner_us && snap.hub4mode_live is Some && snap.hub4mode_live->0 != 3 {
                None
            } else if st.owner_us {
                Some(cfg.orig_mode)
            } else if d.owner_us {
                Some(3i32)
            } else if snap.hub4mode_live == Some(3i32) {
                Some(cfg.orig_mode)
            } else {
                None
            })
        }),
{
}

/// The tick's command is what the control law asks for, aimed at the effective target,
/// put through the guards; the law then keeps its new state while we own, and learns only
/// in a takeover that relies on the meter.
#[verifier::spinoff_prover]
#[verifier::rlimit(30)]
pub proof fn command_is_the_law_under_the_guards(
    snap: Snapshot,
    st: LoopState,
    cfg: DecideCfg,
    t: Num,
    g: Num,
)
    ensures
        ({
            let d = decided(snap, st, cfg, t, g);
            let next = decided_state(snap, st, cfg, t, g);
            let kept = d.owner_us || !st.owner_us;
            &&& kept ==> d.command == composed(
                snap,
                st.ctrl.command(
                    snap.s.grid,
                    snap.s.reported,
                    snap.effective_target,
                    snap.dt,
                    snap.lo,
                    snap.hi,
                ),
            )
            &&& d.owner_us ==> next.ctrl == st.ctrl.after(
                snap.s.grid,
                snap.s.reported,
                snap.effective_target,
                snap.dt,
                snap.lo,
                snap.hi,
                cfg.stage == Stage::Takeover && snap.gm_should_write,
            )
            &&& next.prev_force_charge == (snap.sg.force_charge || snap.sg.max_discharge_w is Fin)
        }),
{
}

/// The load at the output, as the guards count it: nothing where it is unread.
pub open spec fn output_load(snap: Snapshot) -> int {
    match snap.ac_out_w {
        Num::Fin(o) => o as int,
        _ => 0,
    }
}

/// A discharge cap lets the battery give no more than the cap, the output load counted
/// in: the command is the law's, or what the cap leaves, whichever is higher, held within
/// the bounds. Without a cap it is the law's alone.
pub proof fn discharge_cap_is_exact(snap: Snapshot, cmd: i64, cap: i64, lo: i64, hi: i64)
    requires
        snap.lo == Num::Fin(lo),
        snap.hi == Num::Fin(hi),
        lo <= hi,
        snap.sg.cmd_override is None,
        snap.sg.charge_floor_w == Num::Fin(0),
        !snap.feed_block_charge && !snap.gen_disable_export && !snap.feed_force_flat,
        moderate(Num::Fin(cap)),
        snap.ac_out_w is Fin ==> moderate(snap.ac_out_w),
    ensures
        snap.sg.max_discharge_w == Num::Fin(cap) ==> composed(snap, Num::Fin(cmd)) == Num::Fin(
            held_between(
                if cmd < output_load(snap) - cap {
                    output_load(snap) - cap
                } else {
                    cmd as int
                },
                lo as int,
                hi as int,
            ) as i64,
        ),
        snap.sg.max_discharge_w == Num::PosInf ==> composed(snap, Num::Fin(cmd)) == Num::Fin(
            held_between(cmd as int, lo as int, hi as int) as i64,
        ),
{
}

/// A forced charge is the command itself, whatever the law asks for, on firmware that
/// takes the setpoint as a command; where the setpoint is a feed-in cap it only caps what
/// the law and the discharge cap ask for.
pub proof fn forced_charge_is_exact(
    snap: Snapshot,
    cmd: i64,
    fc: i64,
    lo: i64,
    hi: i64,
)
    requires
        snap.lo == Num::Fin(lo),
        snap.hi == Num::Fin(hi),
        lo <= hi,
        snap.sg.cmd_override == Some(Num::Fin(fc)),
        snap.sg.charge_floor_w == Num::Fin(0),
        !snap.feed_block_charge && !snap.gen_disable_export && !snap.feed_force_flat,
        snap.sg.max_discharge_w == Num::PosInf,
    ensures
        !snap.sg.tpimf ==> composed(snap, Num::Fin(cmd)) == Num::Fin(
            held_between(fc as int, lo as int, hi as int) as i64,
        ),
        snap.sg.tpimf ==> composed(snap, Num::Fin(cmd)) == Num::Fin(
            held_between(
                if cmd < fc {
                    cmd as int
                } else {
                    fc as int
                },
                lo as int,
                hi as int,
            ) as i64,
        ),
{
}

/// A charge floor lifts the command to the floor plus the output load, and lowers nothing.
pub proof fn charge_floor_is_exact(snap: Snapshot, cmd: i64, floor: i64, lo: i64, hi: i64)
    requires
        snap.lo == Num::Fin(lo),
        snap.hi == Num::Fin(hi),
        lo <= hi,
        snap.sg.charge_floor_w == Num::Fin(floor),
        0 < floor,
        moderate(Num::Fin(floor)),
        snap.ac_out_w is Fin ==> moderate(snap.ac_out_w),
        snap.sg.max_discharge_w is Fin ==> moderate(snap.sg.max_discharge_w),
        !(snap.sg.max_discharge_w is NegInf) && !(snap.sg.max_discharge_w is Nan),
        snap.sg.cmd_override matches Some(f) ==> f is Fin,
        !snap.feed_block_charge && !snap.gen_disable_export && !snap.feed_force_flat,
    ensures
        ({
            let plain = Snapshot {
                sg: SocGuardOut { charge_floor_w: Num::Fin(0), ..snap.sg },
                ..snap
            };
            let without = composed(plain, Num::Fin(cmd));
            let lift = held_between(floor + output_load(snap), lo as int, hi as int);
            &&& without is Fin
            &&& composed(snap, Num::Fin(cmd)) == Num::Fin(
                if without->Fin_0 < lift {
                    lift as i64
                } else {
                    without->Fin_0
                },
            )
        }),
{
}

/// Blocked charging cuts the command off at idling from above, and a ban on exports cuts
/// it off from below; neither changes anything on its other side.
pub proof fn blocks_cut_the_command_at_idling(snap: Snapshot, cmd: Num, lo: i64, hi: i64)
    requires
        snap.lo == Num::Fin(lo),
        snap.hi == Num::Fin(hi),
        lo <= 0 <= hi,
    ensures
        ({
            let open = Snapshot {
                feed_block_charge: false,
                gen_disable_export: false,
                feed_force_flat: false,
                ..snap
            };
            let free = composed(open, cmd);
            let cut = composed(snap, cmd);
            let flat = snap.gen_disable_export || snap.feed_force_flat;
            guarded(cmd, snap.sg, ac_out(snap)) is Fin ==> free is Fin && cut == Num::Fin(
                if snap.feed_block_charge && flat {
                    0
                } else if snap.feed_block_charge && free->Fin_0 > 0 {
                    0
                } else if flat && free->Fin_0 < 0 {
                    0
                } else {
                    free->Fin_0
                },
            )
        }),
{
}

/// A trim at work moves its override by the trim gain times the error of the grid times
/// the time that passed, towards the target, and stops at the bounds. It starts from the
/// setpoint.
#[verifier::spinoff_prover]
#[verifier::rlimit(30)]
pub proof fn trim_steps_by_its_gain(
    snap: Snapshot,
    st: LoopState,
    cfg: DecideCfg,
    t: Num,
    g: Num,
    from: i64,
    ki: i64,
    grid: i64,
    target: i64,
    dt: i64,
    lo: i64,
    hi: i64,
)
    requires
        cfg.stage == Stage::Trim,
        decided(snap, st, cfg, t, g).owner_us,
        !snap.sg.force_charge,
        !(snap.sg.max_discharge_w is Fin),
        snap.gm_should_write,
        cfg.trim_ki == Num::Fin(ki),
        snap.s.grid == Num::Fin(grid),
        snap.s.target == Num::Fin(target),
        snap.dt == Num::Fin(dt),
        snap.lo == Num::Fin(lo),
        snap.hi == Num::Fin(hi),
        if st.owner_us {
            st.trim_override == Some(Num::Fin(from)) || (st.trim_override is None && from
                == target)
        } else {
            from == target
        },
        moderate(Num::Fin(from)),
        moderate(Num::Fin(grid)),
        moderate(Num::Fin(target)),
        0 < dt <= 1_000_000_000_000,
        -1_000_000_000_000_000_000 <= ki * (target - grid) <= 1_000_000_000_000_000_000,
        lo <= hi,
    ensures
        ({
            let o = decided_state(snap, st, cfg, t, g).trim_override;
            let step = (ki * (target - grid)) * dt;
            let slack = 1_000_000_000_000 + 1_000_000 * dt;
            &&& o is Some && o->0 is Fin
            &&& lo <= o->0->Fin_0 <= hi
            &&& lo < o->0->Fin_0 < hi ==> near(
                2_000_000_000_000 * (o->0->Fin_0 - from),
                2 * step,
                slack,
            )
            &&& o->0->Fin_0 == hi && lo < hi ==> 2_000_000_000_000 * (hi - from) <= 2 * step + slack
            &&& o->0->Fin_0 == lo && lo < hi ==> 2_000_000_000_000 * (lo - from) >= 2 * step - slack
            &&& st.last_out is None ==> decided(snap, st, cfg, t, g).write == Write::Override(o->0)
        }),
{
    let e = (target - grid) as i64;
    let p = ki * (target - grid);
    sums_are_exact(target, grid);
    products_are_rounded(ki, e);
    let q = Num::Fin(ki).times(Num::Fin(e))->Fin_0;
    scaled_by_time(ki * e, q as int, dt as int);
    products_are_rounded(q, dt);
    let r = Num::Fin(q).times(Num::Fin(dt))->Fin_0;
    sums_are_exact(from, r);
    assert(near(2_000_000_000_000 * r, 2 * (p * dt), 1_000_000_000_000 + 1_000_000 * dt));
}

/// A rate that was rounded, times a time: the rounding grows with the time.
proof fn scaled_by_time(p: int, q: int, dt: int)
    requires
        near(2_000_000 * q, 2 * p, 1_000_000),
        -1_000_000_000_000_000_000 <= p <= 1_000_000_000_000_000_000,
        0 < dt <= 1_000_000_000_000,
    ensures
        near(2_000_000 * (q * dt), 2 * (p * dt), 1_000_000 * dt),
        -9_000_000_000_000_000_000_000_000 <= q * dt <= 9_000_000_000_000_000_000_000_000,
{
    let err = 2_000_000 * q - 2 * p;
    let x = err * dt;
    assert(-(1_000_000 * dt) <= x <= 1_000_000 * dt) by (nonlinear_arith)
        requires
            x == err * dt,
            -1_000_000 <= err <= 1_000_000,
            dt > 0,
    ;
    assert(2_000_000 * (q * dt) == 2 * (p * dt) + x) by (nonlinear_arith)
        requires
            err == 2_000_000 * q - 2 * p,
            x == err * dt,
    ;
    let n = q * dt;
    assert(-9_000_000_000_000_000_000_000_000 <= n <= 9_000_000_000_000_000_000_000_000)
        by (nonlinear_arith)
        requires
            n == q * dt,
            -1_000_000_000_001 <= q <= 1_000_000_000_001,
            0 < dt <= 1_000_000_000_000,
    ;
}

/// The slew guard lets a write through that is no further from the last one than the rate
/// allows in the time that passed, and cuts a longer way down to exactly that, in its
/// direction. Before the first write there is nothing to measure from.
pub proof fn slew_guard_is_exact(prev: i64, want: i64, rate: i64, dt: i64)
    requires
        moderate(Num::Fin(prev)),
        moderate(Num::Fin(want)),
        0 <= rate,
        0 <= dt,
        rate * dt <= 1_000_000_000_000_000_000_000_000,
    ensures
        ({
            let r = slewed(Some(Num::Fin(prev)), Num::Fin(want), Num::Fin(rate), Num::Fin(dt));
            exists|s: int|
                0 <= s && near(2 * #[trigger] (1_000_000 * s), 2 * (rate * dt), 1_000_000) && r
                    == Num::Fin(
                    (if want - prev > s {
                        prev + s
                    } else if prev - want > s {
                        prev - s
                    } else {
                        want as int
                    }) as i64,
                )
        }),
        slewed(None, Num::Fin(want), Num::Fin(rate), Num::Fin(dt)) == Num::Fin(want),
{
    assert(rate * dt >= 0) by (nonlinear_arith)
        requires
            0 <= rate,
            0 <= dt,
    ;
    products_are_rounded(rate, dt);
    let s = Num::Fin(rate).times(Num::Fin(dt))->Fin_0;
    sums_are_exact(want, prev);
    assert(near(2 * (1_000_000 * s), 2 * (rate * dt), 1_000_000));
}

/// The first write is the command to the nearest watt; from then on the write covers the
/// gain's share of the way from the last write to the command, to the nearest watt: half
/// of it, and for a step of 10 W or more under the adaptive gain that gain's share, no
/// less than half and no more than eleven tenths.
#[verifier::spinoff_prover]
#[verifier::rlimit(30)]
pub proof fn average_covers_the_gains_share(
    prev: i64,
    cmd: i64,
    adaptive: bool,
    log_gain: Num,
    gain: i64,
)
    requires
        moderate(Num::Fin(prev)),
        moderate(Num::Fin(cmd)),
        gain == (if adaptive && !(-10_000_000 < cmd - prev < 10_000_000) {
            match log_gain {
                Num::Fin(l) => if l < 500_000 {
                    500_000
                } else if l > 1_100_000 {
                    1_100_000
                } else {
                    l as int
                },
                Num::PosInf => 1_100_000,
                _ => 500_000,
            }
        } else {
            500_000
        }),
    ensures
        ({
            let w = stock_write_ema(Some(Num::Fin(prev)), Num::Fin(cmd), adaptive, log_gain);
            &&& w is Fin
            &&& w->Fin_0 % 1_000_000 == 0
            &&& near(
                2_000_000 * (w->Fin_0 - prev),
                2 * (gain * (cmd - prev)),
                1_000_001_000_000,
            )
        }),
        ({
            let w = stock_write_ema(None, Num::Fin(cmd), adaptive, log_gain);
            w is Fin && w->Fin_0 % 1_000_000 == 0 && near(w->Fin_0 as int, cmd as int, 500_000)
        }),
{
    let d = (cmd - prev) as i64;
    sums_are_exact(cmd, prev);
    sums_are_exact(d, 0);
    let n = gain * d;
    assert(-2_200_000_000_000_000_000_000_000 <= n <= 2_200_000_000_000_000_000_000_000)
        by (nonlinear_arith)
        requires
            n == gain * d,
            500_000 <= gain <= 1_100_000,
            -2_000_000_000_000_000_000 <= d <= 2_000_000_000_000_000_000,
    ;
    products_are_rounded(gain, d);
    let p = Num::Fin(gain).times(Num::Fin(d))->Fin_0;
    sums_are_exact(prev, p);
    crate::num::rounding_is_to_the_nearest((prev + p) as i64);
    crate::num::rounding_is_to_the_nearest(cmd);
    assert(ema_gain(Num::Fin(d), adaptive, log_gain) == Num::Fin(gain));
}

/// What is written is the average, cut by the slew guard, within the bounds; it becomes
/// the value that the next write starts from, and the one that is shown.
#[verifier::spinoff_prover]
#[verifier::rlimit(30)]
pub proof fn write_is_the_guarded_average(
    snap: Snapshot,
    st: LoopState,
    cfg: DecideCfg,
    t: Num,
    g: Num,
    w: i64,
    lo: i64,
    hi: i64,
)
    requires
        cfg.stage == Stage::Takeover || cfg.stage == Stage::Shadow,
        st.owner_us,
        decided(snap, st, cfg, t, g).owner_us,
        snap.gm_should_write,
        snap.lo == Num::Fin(lo),
        snap.hi == Num::Fin(hi),
        lo <= hi,
        slewed(
            st.last_out,
            stock_write_ema(
                st.last_out,
                decided(snap, st, cfg, t, g).command,
                cfg.ema_adaptive,
                g,
            ),
            cfg.slew_w_per_s,
            snap.dt,
        ) == Num::Fin(w),
    ensures
        ({
            let d = decided(snap, st, cfg, t, g);
            let v = Num::Fin(held_between(w as int, lo as int, hi as int) as i64);
            &&& cfg.stage == Stage::Takeover ==> d.write == Write::Setpoint(v)
            &&& cfg.stage == Stage::Shadow ==> d.write == Write::Nothing
            &&& d.display_cmd == v
            &&& decided_state(snap, st, cfg, t, g).last_out == Some(v)
        }),
{
}

/// Taking over starts from where the stock loop left the inverter: the first write is the
/// one of an owner whose last write was the stock loop's setpoint, where that is known.
#[verifier::spinoff_prover]
#[verifier::rlimit(30)]
pub proof fn takeover_starts_from_the_stock_setpoint(
    snap: Snapshot,
    st: LoopState,
    cfg: DecideCfg,
    t: Num,
    g: Num,
)
    requires
        cfg.stage == Stage::Takeover,
        !st.owner_us,
        decided(snap, st, cfg, t, g).owner_us,
        !st.prev_force_charge,
        snap.hub4mode_live is None || snap.hub4mode_live == Some(3i32),
        snap.s.soc is Fin && snap.min_soc is Fin && snap.min_soc.lt(snap.s.soc),
        snap.s.grid == snap.s.target && moderate(snap.s.grid),
        cfg.sanity_band_w is Fin && Num::Fin(0).le(cfg.sanity_band_w),
    ensures
        ({
            let owner = LoopState {
                owner_us: true,
                last_out: match snap.hub4_actual {
                    Some(Num::Fin(v)) => Some(Num::Fin(v)),
                    _ => None,
                },
                ..st
            };
            decided(snap, st, cfg, t, g).write == decided(snap, owner, cfg, t, g).write
        }),
{
    if let Num::Fin(v) = snap.s.grid {
        sums_are_exact(v, v);
    }
}

/// The slew guard or the envelope is reported exactly where the write differs from the
/// average by more than a millionth, and a cut tick where the time was cut.
#[verifier::spinoff_prover]
#[verifier::rlimit(30)]
pub proof fn held_back_writes_are_reported(
    snap: Snapshot,
    st: LoopState,
    cfg: DecideCfg,
    t: Num,
    g: Num,
    w: i64,
    v: i64,
)
    requires
        cfg.stage == Stage::Takeover,
        st.owner_us,
        moderate(Num::Fin(w)),
        moderate(Num::Fin(v)),
        decided(snap, st, cfg, t, g).write == Write::Setpoint(Num::Fin(v)),
        stock_write_ema(
            st.last_out,
            decided(snap, st, cfg, t, g).command,
            cfg.ema_adaptive,
            g,
        ) == Num::Fin(w),
    ensures
        decided(snap, st, cfg, t, g).safety.slew_clamped <==> v - w > 1 || w - v > 1,
        decided(snap, st, cfg, t, g).safety.dt_clamped == snap.dt_clamped,
{
    sums_are_exact(v, w);
    sums_are_exact((v - w) as i64, 0);
}

/// What is shown is what was written, and the bare command where nothing was.
pub proof fn shown_value_is_the_written_one(
    snap: Snapshot,
    st: LoopState,
    cfg: DecideCfg,
    t: Num,
    g: Num,
)
    ensures
        ({
            let d = decided(snap, st, cfg, t, g);
            &&& d.owner_us ==> (d.write matches Write::Setpoint(v) ==> d.display_cmd == v)
            &&& d.owner_us ==> (d.write matches Write::Override(v) ==> d.display_cmd == v)
            &&& !d.owner_us ==> d.display_cmd == d.command
            &&& d.write is Nothing && cfg.stage != Stage::Shadow ==> d.display_cmd == d.command
            &&& !d.owner_us ==> d.owner_str@ == "hub4"@
            &&& d.owner_us ==> d.owner_str@ == (match cfg.stage {
                Stage::Takeover => "US"@,
                Stage::Trim => "US-trim"@,
                Stage::Shadow => "US?"@,
            })
        }),
{
}

/// What a trim writes goes through the slew guard, from the last write to its override;
/// on giving up it hands the stock loop its own setpoint back.
pub proof fn trim_writes_its_override(
    snap: Snapshot,
    st: LoopState,
    cfg: DecideCfg,
    t: Num,
    g: Num,
)
    requires
        cfg.stage == Stage::Trim,
    ensures
        ({
            let d = decided(snap, st, cfg, t, g);
            let next = decided_state(snap, st, cfg, t, g);
            &&& d.owner_us ==> next.trim_override is Some && d.write == Write::Override(
                slewed(st.last_out, next.trim_override->0, cfg.slew_w_per_s, snap.dt),
            )
            &&& st.owner_us && !d.owner_us ==> d.write == Write::Override(snap.s.target)
                && next.trim_override is None
            &&& !st.owner_us && !d.owner_us ==> d.write == Write::Nothing
        }),
{
}

/// A trim rests on the setpoint while charge is forced, while discharge is capped from
/// outside, and while the meter cannot be relied on: whatever it had gathered is gone.
pub proof fn trim_rests_on_the_setpoint_when(
    snap: Snapshot,
    st: LoopState,
    cfg: DecideCfg,
    t: Num,
    g: Num,
)
    requires
        cfg.stage == Stage::Trim,
        decided(snap, st, cfg, t, g).owner_us,
        snap.sg.force_charge || snap.sg.max_discharge_w is Fin || !snap.gm_should_write,
    ensures
        decided_state(snap, st, cfg, t, g).trim_override == Some(snap.s.target),
        st.last_out is None ==> decided(snap, st, cfg, t, g).write == Write::Override(
            snap.s.target,
        ),
{
}

/// The remark on a tick says what became of the loop.
pub proof fn remark_tells_the_change(
    snap: Snapshot,
    st: LoopState,
    cfg: DecideCfg,
    t: Num,
    g: Num,
)
    ensures
        ({
            let d = decided(snap, st, cfg, t, g);
            let taken = cfg.stage == Stage::Takeover && st.owner_us && snap.hub4mode_live is Some
                && snap.hub4mode_live->0 != 3;
            &&& !st.owner_us && d.owner_us ==> d.note@ == (match cfg.stage {
                Stage::Takeover => "TOOK OVER (mode3)"@,
                Stage::Trim => "trim ON (override)"@,
                Stage::Shadow => "would take over"@,
            })
            &&& st.owner_us && !d.owner_us && !taken ==> d.note@ == (match cfg.stage {
                Stage::Takeover => "handed back (mode1)"@,
                Stage::Trim => "trim OFF (stock)"@,
                Stage::Shadow => "would hand back"@,
            })
            &&& taken ==> d.note@ == "mode changed externally: ceded (sticky)"@
            &&& !st.owner_us && !d.owner_us ==> d.note@ == (if cfg.stage == Stage::Takeover
                && snap.hub4mode_live == Some(3i32) {
                "re-asserting stock mode"@
            } else {
                ""@
            })
            &&& st.owner_us && d.owner_us ==> d.note@ == ""@
        }),
{
}

/// The step whose logarithm the adaptive average needs is the way from the last write to
/// the command, as a length, where that is 10 W or more.
pub proof fn gain_step_is_the_way_to_go(
    snap: Snapshot,
    st: LoopState,
    cfg: DecideCfg,
    t: Num,
    g: Num,
    last: i64,
    cmd: i64,
)
    requires
        cfg.stage == Stage::Takeover,
        st.owner_us,
        decided(snap, st, cfg, t, g).owner_us,
        snap.gm_should_write,
        st.last_out == Some(Num::Fin(last)),
        decided(snap, st, cfg, t, g).command == Num::Fin(cmd),
        moderate(Num::Fin(last)),
        moderate(Num::Fin(cmd)),
    ensures
        ({
            let way: int = if cmd < last {
                last - cmd
            } else {
                cmd - last
            };
            &&& cfg.ema_adaptive && way >= 10_000_000 ==> step_of(snap, st, cfg, t) == Some(
                Num::Fin(way as i64),
            )
            &&& !cfg.ema_adaptive || way < 10_000_000 ==> step_of(snap, st, cfg, t) is None
        }),
{
    sums_are_exact(cmd, last);
    sums_are_exact((cmd - last) as i64, 0);
}

} // verus!
