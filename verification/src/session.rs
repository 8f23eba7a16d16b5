//! A run of the controller: its start-up numbers, the read phase that drives every
//! subsystem, and the rules of the write phase.
//!
//! The caller does the input and output. It hands one pass of reads to [`sample`], the
//! snapshot to the decision, and then performs what the decision asks for under the
//! rules stated here.

use crate::battery_limits;
use crate::battery_limits::clamp_bounds;
use crate::control::Controller;
use crate::control::Kind;
use crate::dess;
use crate::feedin;
use crate::generator;
use crate::gridmeter;
use crate::gridmeter::PRESENCE_TICK_NS;
use crate::loop_core::Decision;
use crate::loop_core::DecideCfg;
use crate::loop_core::LoopState;
use crate::loop_core::Safety;
use crate::loop_core::SafetyLimits;
use crate::loop_core::Sensors;
use crate::loop_core::Snapshot;
use crate::loop_core::Write;
use crate::loop_core::HARD_CLAMP_W;
use crate::num::moderate;
use crate::num::Num;
use crate::pv;
use crate::shore;
use crate::shore::ShoreOut;
use crate::socguard;
use crate::stage::Stage;
use crate::states::hub4mode;
use crate::states::sysstate;
use vstd::prelude::*;

verus! {

/// The outermost bound of any command (138 kW, in millionths of a watt).
pub const ABSURD_CLAMP_W: i64 = 138_000_000_000;

/// The shortest time between ticks that counts (1 ms, in millionths of a second).
pub const MIN_DT_S: i64 = 1_000;

/// The dwell between changes of ownership (30 s, in millionths).
pub const MIN_DWELL_S: i64 = 30_000_000;

/// When ownership counts as last changed at the start (-60 s, in millionths).
pub const BOOT_FLIP_T_S: i64 = -60_000_000;

/// The system state where it could not be read.
pub const UNREAD_STATE: i64 = -1;

pub open spec fn spec_pick_limit(arg: Num, setting: Option<Num>, default: Num) -> Num {
    if Num::Fin(0).lt(arg) {
        arg
    } else if setting is Some && Num::Fin(0).lt(setting->0) {
        setting->0
    } else {
        default
    }
}

/// The first positive of argument and setting, else the default.
#[verifier::when_used_as_spec(spec_pick_limit)]
pub fn pick_limit(arg: Num, setting: Option<Num>, default: Num) -> (r: Num)
    ensures
        r == pick_limit(arg, setting, default),
{
    if Num::Fin(0).lt(arg) {
        return arg;
    }
    match setting {
        Some(v) => if Num::Fin(0).lt(v) {
            v
        } else {
            default
        },
        None => default,
    }
}

pub open spec fn spec_envelope(max_discharge: Num, max_charge: Num) -> (Num, Num) {
    (
        pick_limit(max_discharge, None, Num::Fin(ABSURD_CLAMP_W)).min(
            Num::Fin(ABSURD_CLAMP_W),
        ).neg(),
        pick_limit(max_charge, None, Num::Fin(ABSURD_CLAMP_W)).min(Num::Fin(ABSURD_CLAMP_W)),
    )
}

/// The outer envelope of the command, lower and upper bound: the given limits where
/// they are positive, and never beyond the outermost bound.
#[verifier::when_used_as_spec(spec_envelope)]
pub fn envelope(max_discharge: Num, max_charge: Num) -> (r: (Num, Num))
    ensures
        r == envelope(max_discharge, max_charge),
{
    let absurd = Num::Fin(ABSURD_CLAMP_W);
    (
        pick_limit(max_discharge, None, absurd).min(absurd).neg(),
        pick_limit(max_charge, None, absurd).min(absurd),
    )
}

pub open spec fn spec_design_power(max_charge: Num, max_discharge: Num) -> Num {
    if Num::Fin(0).lt(max_charge.max(max_discharge)) {
        max_charge.max(max_discharge).min(Num::Fin(HARD_CLAMP_W))
    } else {
        Num::Fin(HARD_CLAMP_W)
    }
}

/// The design power that the safety limits are derived from: the larger of the given
/// limits where one is positive, never beyond the design capacity.
#[verifier::when_used_as_spec(spec_design_power)]
pub fn design_power(max_charge: Num, max_discharge: Num) -> (r: Num)
    ensures
        r == design_power(max_charge, max_discharge),
{
    let m = max_charge.max(max_discharge);
    if Num::Fin(0).lt(m) {
        m.min(Num::Fin(HARD_CLAMP_W))
    } else {
        Num::Fin(HARD_CLAMP_W)
    }
}

pub open spec fn spec_restore_mode(found: Option<i32>) -> i32 {
    if found is Some && found->0 != hub4mode::EXTERNAL {
        found->0
    } else {
        hub4mode::PHASE_COMPENSATION
    }
}

/// The mode to hand back to, given the mode found at the start. An external mode was
/// left behind by a run that died, so the default takes its place, as where the mode
/// cannot be read.
#[verifier::when_used_as_spec(spec_restore_mode)]
pub fn restore_mode(found: Option<i32>) -> (r: i32)
    ensures
        r == restore_mode(found),
        r != hub4mode::EXTERNAL,
{
    match found {
        Some(m) => if m == hub4mode::EXTERNAL {
            hub4mode::PHASE_COMPENSATION
        } else {
            m
        },
        None => hub4mode::PHASE_COMPENSATION,
    }
}

pub open spec fn spec_bound_dt(raw_dt: Num, max_dt: Num) -> (Num, bool) {
    (
        if raw_dt.lt(Num::Fin(MIN_DT_S)) {
            Num::Fin(MIN_DT_S)
        } else if max_dt.lt(raw_dt) {
            max_dt
        } else {
            raw_dt
        },
        max_dt.lt(raw_dt),
    )
}

/// The time between ticks as the integrators see it, and whether it was cut.
#[verifier::when_used_as_spec(spec_bound_dt)]
pub fn bound_dt(raw_dt: Num, max_dt: Num) -> (r: (Num, bool))
    ensures
        r == bound_dt(raw_dt, max_dt),
{
    let dt = if raw_dt.lt(Num::Fin(MIN_DT_S)) {
        Num::Fin(MIN_DT_S)
    } else if max_dt.lt(raw_dt) {
        max_dt
    } else {
        raw_dt
    };
    (dt, max_dt.lt(raw_dt))
}

pub open spec fn spec_may_run(stage: Stage, confirm: bool, env_ok: bool) -> bool {
    !stage.writes() || (confirm && env_ok)
}

/// May the stage run? One that writes needs both the flag and the environment's word.
#[verifier::when_used_as_spec(spec_may_run)]
pub fn may_run(stage: Stage, confirm: bool, env_ok: bool) -> (r: bool)
    ensures
        r == may_run(stage, confirm, env_ok),
{
    !stage.writes() || (confirm && env_ok)
}

pub open spec fn spec_initial_state(kind: Kind) -> LoopState {
    LoopState {
        ctrl: Controller::fresh(kind),
        owner_us: false,
        last_flip_t: Num::Fin(BOOT_FLIP_T_S),
        trim_override: None,
        last_out: None,
        oob_since: None,
        prev_force_charge: false,
        ceded_external: false,
        sanity_trips: 0,
    }
}

/// The state at the start: nothing owned, the dwell already served.
#[verifier::when_used_as_spec(spec_initial_state)]
pub fn initial_state(kind: Kind) -> (st: LoopState)
    ensures
        st == initial_state(kind),
{
    LoopState {
        ctrl: Controller::new(kind),
        owner_us: false,
        last_flip_t: Num::Fin(BOOT_FLIP_T_S),
        trim_override: None,
        last_out: None,
        oob_since: None,
        prev_force_charge: false,
        ceded_external: false,
        sanity_trips: 0,
    }
}

pub open spec fn spec_run_config(
    stage: Stage,
    soc_hyst: Num,
    trim_ki: Num,
    orig_mode: i32,
    safety: &SafetyLimits,
) -> DecideCfg {
    DecideCfg {
        stage,
        soc_hyst,
        min_dwell_s: Num::Fin(MIN_DWELL_S),
        trim_ki,
        orig_mode,
        state_recharge: sysstate::RECHARGE,
        slew_w_per_s: safety.slew_w_per_s,
        sanity_band_w: safety.sanity_band_w,
        sanity_secs: safety.sanity_secs,
        ema_adaptive: false,
    }
}

/// The settings of a run.
#[verifier::when_used_as_spec(spec_run_config)]
pub fn run_config(
    stage: Stage,
    soc_hyst: Num,
    trim_ki: Num,
    orig_mode: i32,
    safety: &SafetyLimits,
) -> (cfg: DecideCfg)
    ensures
        cfg == run_config(stage, soc_hyst, trim_ki, orig_mode, safety),
{
    DecideCfg {
        stage,
        soc_hyst,
        min_dwell_s: Num::Fin(MIN_DWELL_S),
        trim_ki,
        orig_mode,
        state_recharge: sysstate::RECHARGE,
        slew_w_per_s: safety.slew_w_per_s,
        sanity_band_w: safety.sanity_band_w,
        sanity_secs: safety.sanity_secs,
        ema_adaptive: false,
    }
}

pub open spec fn spec_read_sensors(
    grid: Option<Num>,
    reported: Option<Num>,
    target: Option<Num>,
    soc: Option<Num>,
    state: Option<i64>,
) -> Option<Sensors> {
    match (grid, reported, target, soc) {
        (Some(grid), Some(reported), Some(target), Some(soc)) => Some(
            Sensors {
                grid,
                reported,
                target,
                soc,
                state: match state {
                    Some(s) => s,
                    None => UNREAD_STATE,
                },
            },
        ),
        _ => None,
    }
}

/// The readings of a tick, where all four quantities could be read. The system state
/// never costs a tick: unread it is -1.
#[verifier::when_used_as_spec(spec_read_sensors)]
pub fn read_sensors(
    grid: Option<Num>,
    reported: Option<Num>,
    target: Option<Num>,
    soc: Option<Num>,
    state: Option<i64>,
) -> (r: Option<Sensors>)
    ensures
        r == read_sensors(grid, reported, target, soc, state),
{
    match (grid, reported, target, soc) {
        (Some(grid), Some(reported), Some(target), Some(soc)) => Some(
            Sensors {
                grid,
                reported,
                target,
                soc,
                state: match state {
                    Some(s) => s,
                    None => UNREAD_STATE,
                },
            },
        ),
        _ => None,
    }
}

/// One pass of reads.
pub struct TickReads {
    pub sensors: Option<Sensors>,
    /// The live minimum state of charge (%).
    pub min_soc: Option<Num>,
    pub battery: battery_limits::Reads,
    pub dess_setpoint: Option<Num>,
    pub dess_feedin: Option<i32>,
    /// The solar inverters; read only while we own the loop in takeover.
    pub inverters: Vec<pv::PvInverter>,
    pub max_feedin: Option<Num>,
    pub socguard: socguard::Reads,
    pub feedin: feedin::Reads,
    pub generator: generator::Reads,
    /// The grid meters; read only when the guard's tick is due.
    pub meters: Vec<gridmeter::Meter>,
    pub gridmeter: gridmeter::Reads,
    /// AC-in current of each phase (A).
    pub multi_i: Vec<Option<Num>>,
    pub ac_input_limit: Option<Num>,
    pub always_peak_shave: Option<bool>,
    pub hub4_actual: Option<Num>,
    pub ac_out: Option<Num>,
    pub hub4mode: Option<i32>,
}

/// The subsystems, with the guard's last decision and the last feed-in outcome.
pub struct Subsystems {
    pub broker: battery_limits::BatteryBroker,
    pub dess: dess::Dess,
    pub feedin: feedin::FeedIn,
    pub generator: generator::Generator,
    pub gridmeter: gridmeter::GridMeterGuard,
    pub shore: shore::ShoreLimiter,
    pub pv: pv::PvLimiter,
    pub socguard: socguard::SocGuard,
    pub gm_cached: gridmeter::GridMeterGuardOut,
    /// When the guard ticks next.
    pub gm_next_ns: u64,
    pub last_feed: Option<feedin::Output>,
}

impl Subsystems {
    /// Is the guard's tick due?
    pub fn gm_due(&self, now_ns: u64) -> (r: bool)
        ensures
            r == (now_ns >= self.gm_next_ns),
    {
        now_ns >= self.gm_next_ns
    }
}

/// The tighter of the two discharge bounds, where they are known.
pub open spec fn merged_bound(enforced: Num, guard: Num) -> Num {
    if guard.is_finite() {
        if enforced.is_finite() {
            enforced.min(guard)
        } else {
            guard
        }
    } else {
        enforced
    }
}

/// Do the solar inverters take part? Only while we own the loop in takeover.
pub open spec fn pv_runs(stage: Stage, owner_us: bool) -> bool {
    stage == Stage::Takeover && owner_us
}

/// The floor of ownership: the live one where it is finite.
pub open spec fn floor_soc(live: Option<Num>, fallback: Num) -> Num {
    if live is Some && live->0.is_finite() {
        live->0
    } else {
        fallback
    }
}

/// What is fed forward of solar production.
pub open spec fn pv_offset(p: pv::PvLimiter, r: TickReads, stage: Stage, owner_us: bool) -> Num {
    if pv_runs(stage, owner_us) && r.inverters@.len() > 0 {
        p.smoothed(r.inverters@).max(Num::Fin(0))
    } else {
        Num::Fin(0)
    }
}

/// What becomes of the solar limiter.
pub open spec fn pv_step(
    p: pv::PvLimiter,
    next: pv::PvLimiter,
    r: TickReads,
    stage: Stage,
    owner_us: bool,
) -> bool {
    if pv_runs(stage, owner_us) {
        exists|o: pv::PvOut|
            #[trigger] p.ticked(
                next,
                o,
                r.inverters@,
                r.hub4mode,
                r.max_feedin,
                (pv::PvContext {
                    charge_headroom_w: Num::PosInf,
                    battery_full: false,
                    export_blocked: false,
                    limiter_enabled: true,
                }),
            )
    } else {
        next == p
    }
}

fn run_pv(p: &mut pv::PvLimiter, r: &TickReads, stage: Stage, owner_us: bool) -> (w: Num)
    requires
        r.inverters@.len() <= i64::MAX,
    ensures
        w == pv_offset(*old(p), *r, stage, owner_us),
        pv_step(*old(p), *final(p), *r, stage, owner_us),
{
    if stage == Stage::Takeover && owner_us {
        let o = p.tick(&r.inverters, r.hub4mode, r.max_feedin, pv::PvContext::default());
        o.pv_offset_w
    } else {
        pv::PvOut::stub().pv_offset_w
    }
}

/// The battery limits in force.
pub open spec fn battery_enforced(
    b: battery_limits::BatteryBroker,
    r: battery_limits::Reads,
) -> battery_limits::Limits {
    b.result(r).enforced
}

/// The broker after its tick.
pub open spec fn battery_next(
    b: battery_limits::BatteryBroker,
    r: battery_limits::Reads,
) -> battery_limits::BatteryBroker {
    b.after(r)
}

fn run_battery(b: &mut battery_limits::BatteryBroker, r: &battery_limits::Reads) -> (l:
    battery_limits::Limits)
    ensures
        l == battery_enforced(*old(b), *r),
        *final(b) == battery_next(*old(b), *r),
{
    b.tick(r).enforced
}

/// The bounds of the command.
pub open spec fn command_bounds(l: battery_limits::Limits, env_lo: Num, env_hi: Num) -> (Num, Num) {
    clamp_bounds(l, env_lo, env_hi)
}

fn run_bounds(l: battery_limits::Limits, env_lo: Num, env_hi: Num) -> (r: (Num, Num))
    ensures
        r == command_bounds(l, env_lo, env_hi),
{
    clamp_bounds(l, env_lo, env_hi)
}

/// The overrides of the dynamic energy service that hold.
pub open spec fn dess_resolved(d: dess::Dess, r: TickReads, now_ns: u64) -> dess::DessOut {
    d.resolved(
        dess::observed_setpoint(r.dess_setpoint),
        dess::observed_feedin(r.dess_feedin),
        now_ns,
    )
}

/// Their watchdog after the tick.
pub open spec fn dess_next(d: dess::Dess, r: TickReads, now_ns: u64) -> dess::Dess {
    d.after(
        dess::observed_setpoint(r.dess_setpoint),
        dess::observed_feedin(r.dess_feedin),
        now_ns,
    )
}

fn run_dess(d: &mut dess::Dess, r: &TickReads, now_ns: u64) -> (o: dess::DessOut)
    ensures
        o == dess_resolved(*old(d), *r, now_ns),
        *final(d) == dess_next(*old(d), *r, now_ns),
{
    d.tick(r.dess_setpoint, r.dess_feedin, now_ns)
}

/// The grid target: the service's where it holds, plus the feed-forward.
pub open spec fn grid_target(o: dess::DessOut, configured: Num, offset: Num) -> Num {
    o.target(configured).plus(offset)
}

fn run_target(o: &dess::DessOut, configured: Num, offset: Num) -> (r: Num)
    ensures
        r == grid_target(*o, configured, offset),
{
    o.target(configured).plus(offset)
}

/// The enactment of the state-of-charge guard.
pub open spec fn guard_enacted(r: socguard::Reads) -> socguard::SocGuardOut {
    socguard::enacted(r.inputs())
}

fn run_guard(g: &mut socguard::SocGuard, r: &socguard::Reads) -> (o: socguard::SocGuardOut)
    ensures
        o == guard_enacted(*r),
        *final(g) == *old(g),
{
    g.tick(r)
}

/// The overrides that feed-in goes by.
pub open spec fn feed_overrides(
    limits: battery_limits::Limits,
    guard: socguard::SocGuardOut,
    service: dess::DessOut,
) -> feedin::Overrides {
    feedin::Overrides {
        discharge_bound_w: merged_bound(limits.max_discharge_power, guard.max_discharge_w),
        feed_in_excess: service.feed_in_excess,
        force_charge: guard.force_charge,
    }
}

/// The feed-in outcome under those overrides.
pub open spec fn feed_outcome(
    f: feedin::FeedIn,
    ov: feedin::Overrides,
    r: feedin::Reads,
) -> feedin::Output {
    (feedin::FeedIn { overrides: ov, ..f }).outcome(r.inputs())
}

/// The feed-in manager after its tick.
pub open spec fn feed_next(
    f: feedin::FeedIn,
    ov: feedin::Overrides,
    r: feedin::Reads,
) -> feedin::FeedIn {
    (feedin::FeedIn { overrides: ov, ..f }).after(r.inputs())
}

/// Does feed-in block charging?
pub open spec fn feed_blocks(o: feedin::Output) -> bool {
    Num::Fin(feedin::OV_TRIP).lt(o.ov_accum)
}

fn run_feed(
    f: &mut feedin::FeedIn,
    limits: &battery_limits::Limits,
    guard: &socguard::SocGuardOut,
    service: &dess::DessOut,
    r: &feedin::Reads,
) -> (o: feedin::Output)
    ensures
        o == feed_outcome(*old(f), feed_overrides(*limits, *guard, *service), *r),
        *final(f) == feed_next(*old(f), feed_overrides(*limits, *guard, *service), *r),
{
    let mut bound = limits.max_discharge_power;
    if guard.max_discharge_w.is_finite() {
        bound = if bound.is_finite() {
            bound.min(guard.max_discharge_w)
        } else {
            guard.max_discharge_w
        };
    }
    f.set_overrides(
        feedin::Overrides {
            discharge_bound_w: bound,
            feed_in_excess: service.feed_in_excess,
            force_charge: guard.force_charge,
        },
    );
    f.tick(r)
}

fn run_block(o: &feedin::Output) -> (r: bool)
    ensures
        r == feed_blocks(*o),
{
    o.block_charge()
}

/// Does the generator gate forbid exporting?
pub open spec fn export_forbidden(g: generator::Generator, r: generator::Reads) -> bool {
    g.refreshed(r).decision(
        (generator::ForceChargeCtx {
            must_force_charge: false,
            feed_in_excess_allowed: false,
            shore_limit_saturated: false,
        }),
    ).disable_export
}

/// The generator gate after its tick.
pub open spec fn generator_next(g: generator::Generator, r: generator::Reads) -> generator::Generator {
    g.refreshed(r)
}

fn run_generator(g: &mut generator::Generator, r: &generator::Reads) -> (forbidden: bool)
    ensures
        forbidden == export_forbidden(*old(g), *r),
        *final(g) == generator_next(*old(g), *r),
{
    g.tick(r, generator::ForceChargeCtx::default()).disable_export
}

/// What becomes of the grid-meter guard: a tick where one is due.
pub open spec fn meter_step(
    g: gridmeter::GridMeterGuard,
    next: gridmeter::GridMeterGuard,
    cached: gridmeter::GridMeterGuardOut,
    next_cached: gridmeter::GridMeterGuardOut,
    due: bool,
    r: TickReads,
    stage: Stage,
) -> bool {
    if due {
        g.ticked(next, next_cached, r.meters@, r.gridmeter, stage == Stage::Takeover)
    } else {
        next == g && next_cached == cached
    }
}

fn run_meter(
    g: &mut gridmeter::GridMeterGuard,
    cached: gridmeter::GridMeterGuardOut,
    due: bool,
    r: &TickReads,
    stage: Stage,
) -> (o: gridmeter::GridMeterGuardOut)
    ensures
        meter_step(*old(g), *final(g), cached, o, due, *r, stage),
{
    if due {
        g.tick(&r.meters, &r.gridmeter, stage == Stage::Takeover)
    } else {
        cached
    }
}

/// What becomes of the AC-input limiter, and what it decides.
pub open spec fn shore_step(
    l: shore::ShoreLimiter,
    next: shore::ShoreLimiter,
    out: ShoreOut,
    r: TickReads,
    meter_usable: bool,
    above_floor: bool,
    force_charge: bool,
) -> bool {
    l.ticked(
        next,
        out,
        shore::usable_limit(r.ac_input_limit),
        meter_usable,
        r.multi_i@,
        r.multi_i@,
        shore::should_release(
            r.always_peak_shave == Some(true),
            above_floor,
            force_charge,
            l.negative(),
        ),
    )
}

fn run_shore(
    l: &mut shore::ShoreLimiter,
    r: &TickReads,
    meter_usable: bool,
    above_floor: bool,
    force_charge: bool,
) -> (out: ShoreOut)
    requires
        old(l).wf(),
    ensures
        final(l).wf(),
        shore_step(*old(l), *final(l), out, *r, meter_usable, above_floor, force_charge),
{
    l.tick_from_bus(
        r.multi_i.as_slice(),
        shore::read_ac_input_limit(r.ac_input_limit),
        meter_usable,
        shore::read_always_peak_shave(r.always_peak_shave),
        above_floor,
        force_charge,
    )
}

/// What the read phase does to the subsystems.
pub open spec fn subsystems_after(
    sub: Subsystems,
    next: Subsystems,
    r: TickReads,
    stage: Stage,
    owner_us: bool,
    now_ns: u64,
) -> bool {
    let ov = feed_overrides(
        battery_enforced(sub.broker, r.battery),
        guard_enacted(r.socguard),
        dess_resolved(sub.dess, r, now_ns),
    );
    &&& next.broker == battery_next(sub.broker, r.battery)
    &&& next.dess == dess_next(sub.dess, r, now_ns)
    &&& next.feedin == feed_next(sub.feedin, ov, r.feedin)
    &&& next.last_feed == Some(feed_outcome(sub.feedin, ov, r.feedin))
    &&& next.generator == generator_next(sub.generator, r.generator)
    &&& next.socguard == sub.socguard
    &&& meter_step(
        sub.gridmeter,
        next.gridmeter,
        sub.gm_cached,
        next.gm_cached,
        now_ns >= sub.gm_next_ns,
        r,
        stage,
    )
    &&& next.gm_next_ns == (if now_ns >= sub.gm_next_ns {
        now_ns + PRESENCE_TICK_NS
    } else {
        sub.gm_next_ns as int
    })
    &&& pv_step(sub.pv, next.pv, r, stage, owner_us)
}

/// What the read phase hands to the decision.
pub open spec fn sampled(
    sub: Subsystems,
    next: Subsystems,
    r: TickReads,
    snap: Snapshot,
    stage: Stage,
    owner_us: bool,
    env_lo: Num,
    env_hi: Num,
    min_soc_fallback: Num,
    now_ns: u64,
) -> bool {
    let s = r.sensors->0;
    let limits = battery_enforced(sub.broker, r.battery);
    let service = dess_resolved(sub.dess, r, now_ns);
    let feed = feed_outcome(
        sub.feedin,
        feed_overrides(limits, guard_enacted(r.socguard), service),
        r.feedin,
    );
    &&& snap.s == s
    &&& snap.min_soc == floor_soc(r.min_soc, min_soc_fallback)
    &&& (snap.lo, snap.hi) == command_bounds(limits, env_lo, env_hi)
    &&& snap.effective_target == grid_target(
        service,
        s.target,
        pv_offset(sub.pv, r, stage, owner_us),
    )
    &&& snap.sg == guard_enacted(r.socguard)
    &&& snap.feed_block_charge == feed_blocks(feed)
    &&& snap.feed_force_flat == (feed.mode == feedin::FeedInMode::ForceFlat)
    &&& snap.gen_disable_export == export_forbidden(sub.generator, r.generator)
    &&& snap.gm_should_write == next.gm_cached.should_write_setpoint
    &&& shore_step(
        sub.shore,
        next.shore,
        snap.shore_out,
        r,
        next.gm_cached.usable,
        snap.min_soc.lt(s.soc),
        snap.sg.force_charge,
    )
    &&& snap.hub4_actual == r.hub4_actual
    &&& snap.ac_out_w == crate::num::or(r.ac_out, Num::Nan)
    &&& snap.hub4mode_live == r.hub4mode
}

/// The read phase: drive every subsystem with one pass of reads and gather what the
/// decision goes by. Where a reading is missing the tick is skipped and nothing moves.
#[verifier::rlimit(30)]
pub fn sample(
    sub: &mut Subsystems,
    r: &TickReads,
    stage: Stage,
    owner_us: bool,
    env_lo: Num,
    env_hi: Num,
    min_soc_fallback: Num,
    now_ns: u64,
    dt: Num,
    dt_clamped: bool,
) -> (out: Option<Snapshot>)
    requires
        old(sub).shore.wf(),
        now_ns + PRESENCE_TICK_NS <= u64::MAX,
        r.inverters@.len() <= i64::MAX,
    ensures
        final(sub).shore.wf(),
        (out is Some) == (r.sensors is Some),
        r.sensors is None ==> *final(sub) == *old(sub),
        r.sensors is Some ==> subsystems_after(
            *old(sub),
            *final(sub),
            *r,
            stage,
            owner_us,
            now_ns,
        ),
        out matches Some(snap) ==> snap.dt == dt && snap.dt_clamped == dt_clamped && sampled(
            *old(sub),
            *final(sub),
            *r,
            snap,
            stage,
            owner_us,
            env_lo,
            env_hi,
            min_soc_fallback,
            now_ns,
        ),
{
    let s = match r.sensors {
        Some(s) => s,
        None => return None,
    };
    let min_soc = match r.min_soc {
        Some(v) => if v.is_finite() {
            v
        } else {
            min_soc_fallback
        },
        None => min_soc_fallback,
    };
    let limits = run_battery(&mut sub.broker, &r.battery);
    let (lo, hi) = run_bounds(limits, env_lo, env_hi);
    let service = run_dess(&mut sub.dess, r, now_ns);
    let offset = run_pv(&mut sub.pv, r, stage, owner_us);
    let effective_target = run_target(&service, s.target, offset);
    let sg = run_guard(&mut sub.socguard, &r.socguard);
    let feed = run_feed(&mut sub.feedin, &limits, &sg, &service, &r.feedin);
    sub.last_feed = Some(feed);
    let gen_disable_export = run_generator(&mut sub.generator, &r.generator);
    let due = now_ns >= sub.gm_next_ns;
    sub.gm_cached = run_meter(&mut sub.gridmeter, sub.gm_cached, due, r, stage);
    if due {
        sub.gm_next_ns = now_ns + PRESENCE_TICK_NS;
    }
    let shore_out = run_shore(
        &mut sub.shore,
        r,
        sub.gm_cached.usable,
        min_soc.lt(s.soc),
        sg.force_charge,
    );
    Some(
        Snapshot {
            s,
            dt,
            dt_clamped,
            min_soc,
            lo,
            hi,
            effective_target,
            sg,
            feed_block_charge: run_block(&feed),
            feed_force_flat: feed.force_flat(),
            gen_disable_export,
            gm_should_write: sub.gm_cached.should_write_setpoint,
            shore_out,
            hub4_actual: r.hub4_actual,
            ac_out_w: crate::num::or(r.ac_out, Num::Nan),
            hub4mode_live: r.hub4mode,
        },
    )
}

/// What to do about a decision's write.
#[derive(Clone, Copy, Debug, PartialEq, Eq, Structural)]
pub enum Action {
    Nothing,
    /// Write the inverter's setpoint.
    WriteSetpoint(Num),
    /// Write the stock loop's setpoint override.
    WriteOverride(Num),
    /// Leave the setpoint unwritten: the mode change failed, or the value is no number.
    SkipSetpoint(Num),
    /// Leave the override unwritten: the value is no number.
    SkipOverride(Num),
}

/// Note how the mode write of a decision went: `ok` is whether it succeeded, and does
/// not matter where none was due. A failed one costs us the loop. Returns whether the
/// setpoint may be written.
pub fn mode_written(dec: &Decision, ok: bool, st: &mut LoopState) -> (mode_ok: bool)
    ensures
        mode_ok == (dec.hub4mode is None || ok),
        *final(st) == (LoopState { owner_us: old(st).owner_us && mode_ok, ..*old(st) }),
        dec.hub4mode is Some && !ok ==> !mode_ok && !final(st).owner_us,
        ok || dec.hub4mode is None ==> mode_ok && *final(st) == *old(st),
{
    if dec.hub4mode.is_some() && !ok {
        st.owner_us = false;
        false
    } else {
        true
    }
}

pub open spec fn spec_actuate(dec: &Decision, mode_ok: bool) -> Action {
    match dec.write {
        Write::Nothing => Action::Nothing,
        Write::Setpoint(v) => if mode_ok && v.is_finite() {
            Action::WriteSetpoint(v)
        } else {
            Action::SkipSetpoint(v)
        },
        Write::Override(v) => if v.is_finite() {
            Action::WriteOverride(v)
        } else {
            Action::SkipOverride(v)
        },
    }
}

/// The write that a decision asks for, after its mode write. Nothing that is not a
/// finite number is ever written, and no setpoint where the mode change failed.
#[verifier::when_used_as_spec(spec_actuate)]
pub fn actuate(dec: &Decision, mode_ok: bool) -> (a: Action)
    ensures
        a == actuate(dec, mode_ok),
{
    match dec.write {
        Write::Nothing => Action::Nothing,
        Write::Setpoint(v) => if mode_ok && v.is_finite() {
            Action::WriteSetpoint(v)
        } else {
            Action::SkipSetpoint(v)
        },
        Write::Override(v) => if v.is_finite() {
            Action::WriteOverride(v)
        } else {
            Action::SkipOverride(v)
        },
    }
}

/// The feed-in flags to write, in order: those of the last feed-in tick, and only where
/// the decision asks for it.
pub fn flag_writes(dec: &Decision, feed: &Option<feedin::Output>) -> (r: Vec<feedin::FlagWrite>)
    ensures
        r@ == (if dec.feed_shore_write && feed is Some {
            feed->0.planned()
        } else {
            Seq::empty()
        }),
{
    match feed {
        Some(f) => if dec.feed_shore_write {
            f.write()
        } else {
            Vec::new()
        },
        None => Vec::new(),
    }
}

/// The AC-input limits to write, as phase (from 1) and amperes, in order: those that the
/// limiter decided on, and only where the decision asks for it.
pub fn shore_writes(dec: &Decision, limiter: &shore::ShoreLimiter, out: &ShoreOut) -> (r: Vec<
    (u8, Num),
>)
    requires
        out.writes@.len() <= u8::MAX,
    ensures
        r@ == (if dec.feed_shore_write {
            shore::ShoreLimiter::plan(out.writes@)
        } else {
            Seq::empty()
        }),
{
    if dec.feed_shore_write {
        limiter.write(out)
    } else {
        Vec::new()
    }
}

/// The solar limits to write, as service and watts, in order: those of this tick's solar
/// tick, which there is only in a takeover that owns the loop. Otherwise the limiter
/// still holds what it decided earlier, and none of that is written.
pub fn solar_writes(stage: Stage, owner_us: bool, limiter: &pv::PvLimiter) -> (r: Vec<
    (String, Num),
>)
    ensures
        pv::named(r@) == (if stage == Stage::Takeover && owner_us {
            pv::named(limiter.writes@)
        } else {
            Seq::empty()
        }),
{
    let mut r: Vec<(String, Num)> = Vec::new();
    proof {
        assert(pv::named(r@) =~= Seq::empty());
    }
    if stage == Stage::Takeover && owner_us {
        let planned = limiter.last_writes();
        let mut i: usize = 0;
        while i < planned.len()
            invariant
                i <= planned.len(),
                planned@ == limiter.writes@,
                pv::named(r@) == pv::named(limiter.writes@).take(i as int),
            decreases planned.len() - i,
        {
            let ghost before = r@;
            r.push((planned[i].0.clone(), planned[i].1));
            proof {
                assert(pv::named(r@) =~= pv::named(before).push(
                    pv::named(limiter.writes@)[i as int],
                ));
                assert(pv::named(r@) =~= pv::named(limiter.writes@).take(i + 1));
            }
            i += 1;
        }
        proof {
            assert(pv::named(limiter.writes@).take(i as int) =~= pv::named(limiter.writes@));
        }
    }
    r
}

pub open spec fn spec_captures_flags(stage: Stage, dec: &Decision) -> bool {
    stage == Stage::Takeover && dec.flipped && dec.owner_us
}

/// Must the feed-in flags be captured before this tick writes? On taking over.
#[verifier::when_used_as_spec(spec_captures_flags)]
pub fn captures_flags(stage: Stage, dec: &Decision) -> (r: bool)
    ensures
        r == captures_flags(stage, dec),
{
    stage == Stage::Takeover && dec.flipped && dec.owner_us
}

pub open spec fn spec_restores_flags(stage: Stage, dec: &Decision) -> bool {
    stage == Stage::Takeover && dec.flipped && !dec.owner_us
}

/// Must the captured feed-in flags be put back after this tick? On handing back.
#[verifier::when_used_as_spec(spec_restores_flags)]
pub fn restores_flags(stage: Stage, dec: &Decision) -> (r: bool)
    ensures
        r == restores_flags(stage, dec),
{
    stage == Stage::Takeover && dec.flipped && !dec.owner_us
}

/// What to write on the way out.
#[derive(Clone, Copy, Debug, PartialEq, Eq, Structural)]
pub enum Farewell {
    Nothing,
    /// Put the mode back that was found at the start.
    RestoreMode(i32),
    /// Set the stock loop's override to its own setpoint.
    NeutraliseOverride(Num),
}

pub open spec fn spec_farewell(stage: Stage, orig_mode: i32, setpoint: Option<Num>) -> Farewell {
    match stage {
        Stage::Shadow => Farewell::Nothing,
        Stage::Trim => Farewell::NeutraliseOverride(crate::num::or(setpoint, Num::Fin(0))),
        Stage::Takeover => Farewell::RestoreMode(orig_mode),
    }
}

/// How a run hands the system back when it ends: a takeover restores the mode, a trim
/// neutralises its override, and a run that never wrote leaves everything alone.
#[verifier::when_used_as_spec(spec_farewell)]
pub fn farewell(stage: Stage, orig_mode: i32, setpoint: Option<Num>) -> (r: Farewell)
    ensures
        r == farewell(stage, orig_mode, setpoint),
{
    match stage {
        Stage::Shadow => Farewell::Nothing,
        Stage::Trim => Farewell::NeutraliseOverride(crate::num::or(setpoint, Num::Fin(0))),
        Stage::Takeover => Farewell::RestoreMode(orig_mode),
    }
}

pub open spec fn spec_is_news(now: &Safety, last: &Safety) -> bool {
    (now.sanity_tripped || now.slew_clamped || now.dt_clamped) && *now != *last
}

/// Is a safety event to be logged? Only where it is not the one logged last.
#[verifier::when_used_as_spec(spec_is_news)]
pub fn is_news(now: &Safety, last: &Safety) -> (r: bool)
    ensures
        r == is_news(now, last),
{
    now.any() && *now != *last
}

pub open spec fn spec_is_over(seconds: u64, t: Num) -> bool {
    seconds != 0 && crate::num::whole(seconds as int).le(t)
}

/// Is the run over? One without a duration never is.
#[verifier::when_used_as_spec(spec_is_over)]
pub fn is_over(seconds: u64, t: Num) -> (r: bool)
    ensures
        r == is_over(seconds, t),
{
    if seconds == 0 {
        false
    } else if seconds <= i64::MAX as u64 {
        Num::of(seconds as i64).le(t)
    } else {
        Num::Fin(i64::MAX).le(t)
    }
}

/// The outer envelope admits idling and never exceeds the outermost bound, whatever
/// limits are given.
pub proof fn envelope_is_sound(max_discharge: Num, max_charge: Num)
    ensures
        ({
            let (lo, hi) = envelope(max_discharge, max_charge);
            &&& lo.is_finite() && hi.is_finite()
            &&& lo.le(Num::Fin(0)) && Num::Fin(0).le(hi)
            &&& Num::Fin(ABSURD_CLAMP_W).neg().le(lo) && hi.le(Num::Fin(ABSURD_CLAMP_W))
        }),
{
}

/// From the limits to the write: whatever the battery reports and whatever is read, a
/// setpoint that is written lies within the envelope of the run, and is never a
/// discharge beyond the battery's finite limit nor a charge beyond it.
#[verifier::spinoff_prover]
#[verifier::rlimit(30)]
pub proof fn written_setpoint_respects_envelope_and_battery(
    snap: Snapshot,
    enforced: battery_limits::Limits,
    max_discharge: Num,
    max_charge: Num,
    st: LoopState,
    cfg: DecideCfg,
    t: Num,
    g: Num,
)
    requires
        ({
            let (env_lo, env_hi) = envelope(max_discharge, max_charge);
            (snap.lo, snap.hi) == clamp_bounds(enforced, env_lo, env_hi)
        }),
    ensures
        crate::loop_core::decided(snap, st, cfg, t, g).write matches Write::Setpoint(v) ==> ({
            let (env_lo, env_hi) = envelope(max_discharge, max_charge);
            &&& v.is_finite()
            &&& env_lo.le(v) && v.le(env_hi)
            &&& enforced.max_discharge_power.is_finite() && Num::Fin(0).le(
                enforced.max_discharge_power,
            ) ==> enforced.max_discharge_power.neg().le(v)
            &&& enforced.max_charge_power.is_finite() && Num::Fin(0).le(enforced.max_charge_power)
                ==> v.le(enforced.max_charge_power)
        }),
{
    let (env_lo, env_hi) = envelope(max_discharge, max_charge);
    envelope_is_sound(max_discharge, max_charge);
    battery_limits::bounds_admit_idling_and_respect_both(enforced, env_lo, env_hi);
    crate::loop_core::setpoint_stays_in_bounds(snap, st, cfg, t, g);
}

/// A decision of the shadow stage leads to no action.
pub proof fn shadow_acts_on_nothing(
    snap: Snapshot,
    st: LoopState,
    cfg: DecideCfg,
    t: Num,
    g: Num,
)
    requires
        cfg.stage == Stage::Shadow,
    ensures
        crate::loop_core::decided(snap, st, cfg, t, g).write == Write::Nothing,
        crate::loop_core::decided(snap, st, cfg, t, g).hub4mode is None,
        !crate::loop_core::decided(snap, st, cfg, t, g).feed_shore_write,
{
    crate::loop_core::shadow_never_writes(snap, st, cfg, t, g);
}

/// What one tick hands on: the read phase on these reads left the subsystems like this
/// and gave this snapshot.
pub open spec fn read_phase(
    sub: Subsystems,
    next: Subsystems,
    r: TickReads,
    snap: Snapshot,
    stage: Stage,
    owner_us: bool,
    env_lo: Num,
    env_hi: Num,
    fallback: Num,
    now_ns: u64,
) -> bool {
    &&& r.sensors is Some
    &&& subsystems_after(sub, next, r, stage, owner_us, now_ns)
    &&& sampled(sub, next, r, snap, stage, owner_us, env_lo, env_hi, fallback, now_ns)
}

/// The effective target is the setpoint in force plus the solar production that is fed
/// forward: the energy service's setpoint where it holds one, else the configured one,
/// plus the limiter's smoothed production, which is never counted below nothing and only
/// in a takeover that owns the loop and sees solar inverters.
#[verifier::spinoff_prover]
#[verifier::rlimit(30)]
pub proof fn effective_target_adds_the_solar_production(
    sub: Subsystems,
    next: Subsystems,
    r: TickReads,
    snap: Snapshot,
    stage: Stage,
    owner_us: bool,
    env_lo: Num,
    env_hi: Num,
    fallback: Num,
    now_ns: u64,
    setpoint: i64,
    solar: i64,
)
    requires
        read_phase(sub, next, r, snap, stage, owner_us, env_lo, env_hi, fallback, now_ns),
        ({
            let held = sub.dess.resolved(
                dess::observed_setpoint(r.dess_setpoint),
                dess::observed_feedin(r.dess_feedin),
                now_ns,
            ).target_override;
            if held is Some {
                held->0 == Num::Fin(setpoint)
            } else {
                r.sensors->0.target == Num::Fin(setpoint)
            }
        }),
        moderate(Num::Fin(setpoint)),
        if stage == Stage::Takeover && owner_us && r.inverters@.len() > 0 {
            next.pv.offset_ema == Num::Fin(solar)
        } else {
            solar == 0
        },
        moderate(Num::Fin(solar)),
    ensures
        snap.effective_target is Fin,
        snap.effective_target->Fin_0 == setpoint + (if solar > 0 {
            solar as int
        } else {
            0
        }),
        snap.effective_target->Fin_0 >= setpoint,
        stage != Stage::Takeover || !owner_us ==> snap.effective_target->Fin_0 == setpoint,
{
}

/// What the energy service says reaches the target: without a usable override the
/// configured setpoint is in force, and a setpoint that has just changed is.
#[verifier::spinoff_prover]
#[verifier::rlimit(30)]
pub proof fn service_setpoint_is_in_force(
    sub: Subsystems,
    next: Subsystems,
    r: TickReads,
    snap: Snapshot,
    owner_us: bool,
    env_lo: Num,
    env_hi: Num,
    fallback: Num,
    now_ns: u64,
    stage: Stage,
)
    requires
        read_phase(sub, next, r, snap, stage, owner_us, env_lo, env_hi, fallback, now_ns),
        stage != Stage::Takeover || !owner_us,
        moderate(r.sensors->0.target),
        r.dess_setpoint matches Some(Num::Fin(_)) ==> moderate(r.dess_setpoint->0),
    ensures
        !(r.dess_setpoint matches Some(Num::Fin(_))) ==> snap.effective_target
            == r.sensors->0.target,
        (r.dess_setpoint matches Some(Num::Fin(_))) && sub.dess.last_setpoint != r.dess_setpoint
            ==> snap.effective_target == r.dess_setpoint->0,
{
}

/// Feed-in learns of a forced charge in the same tick: it does not track the grid then,
/// and with the battery's charge managed, firmware that takes the setpoint as a feed-in
/// cap and no excess to feed in, that is what the firmware is told.
#[verifier::spinoff_prover]
#[verifier::rlimit(30)]
pub proof fn forced_charge_reaches_feed_in(
    sub: Subsystems,
    next: Subsystems,
    r: TickReads,
    snap: Snapshot,
    stage: Stage,
    owner_us: bool,
    env_lo: Num,
    env_hi: Num,
    fallback: Num,
    now_ns: u64,
)
    requires
        read_phase(sub, next, r, snap, stage, owner_us, env_lo, env_hi, fallback, now_ns),
        snap.sg.force_charge,
        r.feedin.multi_state is Some,
    ensures
        next.last_feed is Some,
        next.last_feed->0.mode != feedin::FeedInMode::Normal,
        r.feedin.dvcc == Some(true) && sub.feedin.has_tpimfi && r.dess_feedin is None
            && sub.dess.last_feedin == 0 && r.feedin.overvoltage_feedin != Some(true) ==> ({
            let o = next.last_feed->0;
            &&& o.mode == feedin::FeedInMode::Tpimfi
            &&& o.target_power_is_max_feedin == 1
            &&& o.disable_feedin == 0
            &&& o.do_not_feed_in_overvoltage == 0
            &&& !snap.feed_force_flat
        }),
        r.feedin.dvcc != Some(true) || !sub.feedin.has_tpimfi ==> next.last_feed->0.mode
            == feedin::FeedInMode::ForceFlat && snap.feed_force_flat,
{
}

/// What forces a charge in the snapshot: the energy manager's request, the battery's own,
/// a battery held charged, or a state of charge that calls for it.
#[verifier::spinoff_prover]
#[verifier::rlimit(30)]
pub proof fn forced_charge_has_these_causes(
    sub: Subsystems,
    next: Subsystems,
    r: TickReads,
    snap: Snapshot,
    stage: Stage,
    owner_us: bool,
    env_lo: Num,
    env_hi: Num,
    fallback: Num,
    now_ns: u64,
)
    requires
        read_phase(sub, next, r, snap, stage, owner_us, env_lo, env_hi, fallback, now_ns),
    ensures
        snap.sg.force_charge <==> (r.socguard.override_force_charge is Some
            && r.socguard.override_force_charge->0 != 0) || r.socguard.charge_request == Some(true)
            || r.socguard.bl_state == Some(9i32) || r.socguard.bl_state == Some(8i32)
            || r.socguard.bl_state == Some(12i32) || (r.socguard.min_soc is Some && (
        r.socguard.min_soc->0 is PosInf || (r.socguard.min_soc->0 is Fin
            && r.socguard.min_soc->0->Fin_0 > 99_000_000))),
{
}

/// Feed-in is disabled where the battery may give nothing: by its own limits, by the
/// guard, or in sustain; unless the setpoint is the feed-in cap.
#[verifier::spinoff_prover]
#[verifier::rlimit(30)]
pub proof fn blocked_discharge_reaches_feed_in(
    sub: Subsystems,
    next: Subsystems,
    r: TickReads,
    snap: Snapshot,
    stage: Stage,
    owner_us: bool,
    env_lo: Num,
    env_hi: Num,
    fallback: Num,
    now_ns: u64,
)
    requires
        read_phase(sub, next, r, snap, stage, owner_us, env_lo, env_hi, fallback, now_ns),
        r.feedin.multi_state is Some,
        sub.broker.result(r.battery).enforced.max_discharge_power == Num::Fin(0)
            || snap.sg.max_discharge_w == Num::Fin(0) || r.feedin.sustain == Some(true),
        sub.broker.result(r.battery).enforced.max_discharge_power matches Num::Fin(p) ==> p >= 0,
        snap.sg.max_discharge_w matches Num::Fin(p) ==> p >= 0,
    ensures
        next.last_feed is Some,
        next.last_feed->0.disable_feedin == 1 || next.last_feed->0.mode
            == feedin::FeedInMode::Tpimfi,
{
}

/// The service's feed-in policy reaches the flags: while it has just been set, 2 lets
/// excess be fed in and 1 does not, whatever the setting says; except towards a generator.
#[verifier::spinoff_prover]
#[verifier::rlimit(30)]
pub proof fn feed_in_policy_reaches_the_flags(
    sub: Subsystems,
    next: Subsystems,
    r: TickReads,
    snap: Snapshot,
    stage: Stage,
    owner_us: bool,
    env_lo: Num,
    env_hi: Num,
    fallback: Num,
    now_ns: u64,
)
    requires
        read_phase(sub, next, r, snap, stage, owner_us, env_lo, env_hi, fallback, now_ns),
        r.feedin.multi_state is Some,
        r.dess_feedin is Some,
        r.dess_feedin->0 != sub.dess.last_feedin,
        next.last_feed->0.mode != feedin::FeedInMode::Tpimfi,
        r.feedin.ac_source != Some(2i32),
    ensures
        r.dess_feedin == Some(2i32) ==> next.last_feed->0.do_not_feed_in_overvoltage == 0,
        r.dess_feedin == Some(1i32) ==> next.last_feed->0.do_not_feed_in_overvoltage == 1,
        r.dess_feedin == Some(0i32) ==> next.last_feed->0.do_not_feed_in_overvoltage == (
        if r.feedin.overvoltage_feedin == Some(true) {
            0int
        } else {
            1
        }),
{
}

/// The rest of the snapshot is what was read: the floor live where it can be read, the
/// bounds from battery and envelope, no exports towards a generator, no charging above a
/// square volt of overvoltage, and the meter guard's word.
#[verifier::spinoff_prover]
#[verifier::rlimit(30)]
pub proof fn snapshot_is_what_was_read(
    sub: Subsystems,
    next: Subsystems,
    r: TickReads,
    snap: Snapshot,
    stage: Stage,
    owner_us: bool,
    env_lo: Num,
    env_hi: Num,
    fallback: Num,
    now_ns: u64,
)
    requires
        read_phase(sub, next, r, snap, stage, owner_us, env_lo, env_hi, fallback, now_ns),
    ensures
        snap.s == r.sensors->0,
        snap.hub4_actual == r.hub4_actual,
        snap.hub4mode_live == r.hub4mode,
        snap.ac_out_w == (match r.ac_out {
            Some(w) => w,
            None => Num::Nan,
        }),
        snap.min_soc == (match r.min_soc {
            Some(Num::Fin(v)) => Num::Fin(v),
            _ => fallback,
        }),
        snap.gen_disable_export <==> r.generator.source == Some(2i32) || (r.generator.source is None
            && sub.generator.source == generator::AcSource::Genset),
        snap.gm_should_write == next.gm_cached.should_write_setpoint,
        next.last_feed is Some,
        snap.feed_block_charge <==> next.last_feed->0.ov_accum is PosInf || (
        next.last_feed->0.ov_accum is Fin && next.last_feed->0.ov_accum->Fin_0
            > 1_000_000_000_000),
        snap.feed_force_flat <==> next.last_feed->0.mode == feedin::FeedInMode::ForceFlat,
        (snap.lo, snap.hi) == clamp_bounds(
            sub.broker.result(r.battery).enforced,
            env_lo,
            env_hi,
        ),
        now_ns < sub.gm_next_ns ==> next.gm_cached == sub.gm_cached && next.gm_next_ns
            == sub.gm_next_ns,
        now_ns >= sub.gm_next_ns ==> next.gm_next_ns == now_ns + 2_500_000_000,
{
}

/// The AC-input limiter is handed what it needs: with a limit set and no usable meter it
/// releases while charge is forced, and below the floor unless it always shaves.
#[verifier::spinoff_prover]
#[verifier::rlimit(30)]
pub proof fn shore_limit_follows_the_guards(
    sub: Subsystems,
    next: Subsystems,
    r: TickReads,
    snap: Snapshot,
    stage: Stage,
    owner_us: bool,
    env_lo: Num,
    env_hi: Num,
    fallback: Num,
    now_ns: u64,
    soc: i64,
    floor: i64,
    limit: i64,
    amps: i64,
)
    requires
        read_phase(sub, next, r, snap, stage, owner_us, env_lo, env_hi, fallback, now_ns),
        sub.shore.wf(),
        r.sensors->0.soc == Num::Fin(soc),
        snap.min_soc == Num::Fin(floor),
        r.ac_input_limit == Some(Num::Fin(limit)),
        0 <= limit,
        r.multi_i@.len() > 0,
        r.multi_i@[0] == Some(Num::Fin(amps)),
        forall|n: int|
            0 <= n < 3 ==> ((#[trigger] sub.shore.filt@[n]) matches Some(Num::Fin(f)) ==> f >= 0)
                && !(sub.shore.filt@[n] == Some(Num::NegInf)),
    ensures
        snap.shore_out.writes@.len() > 0,
        next.gm_cached.usable ==> snap.shore_out.writes@[0] is None,
        !next.gm_cached.usable ==> (snap.shore_out.writes@[0] == Some(shore::ShoreWrite::Release)
            <==> snap.sg.force_charge || (r.always_peak_shave != Some(true) && soc <= floor)),
        !next.gm_cached.usable ==> snap.shore_out.writes@[0] is Some,
{
    assert(sub.shore.phases >= 1);
}

/// The envelope is the limit that was given where it is a positive one, the outermost
/// bound of 138 kW where it is not or exceeds it: discharge below, charge above.
pub proof fn envelope_is_exact(max_discharge: i64, max_charge: i64)
    ensures
        envelope(Num::Fin(max_discharge), Num::Fin(max_charge)) == (
            Num::Fin(
                if 0 < max_discharge < 138_000_000_000 {
                    (-max_discharge) as i64
                } else {
                    (-138_000_000_000) as i64
                },
            ),
            Num::Fin(
                if 0 < max_charge < 138_000_000_000 {
                    max_charge
                } else {
                    138_000_000_000
                },
            ),
        ),
{
}

/// The argument counts where it is positive, else the setting where that is, else the
/// default.
pub proof fn first_positive_limit_counts(arg: i64, setting: i64, default: Num)
    ensures
        arg > 0 ==> pick_limit(Num::Fin(arg), Some(Num::Fin(setting)), default) == Num::Fin(arg),
        arg <= 0 && setting > 0 ==> pick_limit(Num::Fin(arg), Some(Num::Fin(setting)), default)
            == Num::Fin(setting),
        arg <= 0 && setting <= 0 ==> pick_limit(Num::Fin(arg), Some(Num::Fin(setting)), default)
            == default,
        arg <= 0 ==> pick_limit(Num::Fin(arg), None, default) == default,
{
}

/// A tick has its readings exactly where all four quantities were read, each in its place.
pub proof fn readings_are_taken_as_they_are(
    grid: Num,
    reported: Num,
    target: Num,
    soc: Num,
    state: Option<i64>,
    other: Option<Num>,
)
    ensures
        ({
            let s = read_sensors(Some(grid), Some(reported), Some(target), Some(soc), state);
            &&& s is Some
            &&& s->0.grid == grid
            &&& s->0.reported == reported
            &&& s->0.target == target
            &&& s->0.soc == soc
            &&& s->0.state == (match state {
                Some(v) => v as int,
                None => -1int,
            })
        }),
        read_sensors(None, other, other, other, state) is None,
        read_sensors(other, None, other, other, state) is None,
        read_sensors(other, other, None, other, state) is None,
        read_sensors(other, other, other, None, state) is None,
{
}

/// The design power is the larger of the two limits where one is positive, and never
/// above 7030 W, which it is where neither is.
pub proof fn design_power_is_the_larger_limit(max_charge: i64, max_discharge: i64)
    ensures
        ({
            let p = design_power(Num::Fin(max_charge), Num::Fin(max_discharge));
            let larger = if max_charge < max_discharge {
                max_discharge
            } else {
                max_charge
            };
            &&& p is Fin
            &&& larger <= 0 || larger >= 7_030_000_000 ==> p->Fin_0 == 7_030_000_000
            &&& 0 < larger < 7_030_000_000 ==> p->Fin_0 == larger
        }),
{
}

/// The integrators see the time that passed, but no less than a millisecond and no more
/// than the bound; a time above the bound is reported as cut.
pub proof fn time_between_ticks_is_bounded(raw: i64, most: i64)
    requires
        1_000 <= most,
    ensures
        ({
            let (dt, cut) = bound_dt(Num::Fin(raw), Num::Fin(most));
            &&& dt is Fin
            &&& 1_000 <= dt->Fin_0 <= most
            &&& 1_000 <= raw <= most ==> dt->Fin_0 == raw
            &&& raw < 1_000 ==> dt->Fin_0 == 1_000
            &&& raw > most ==> dt->Fin_0 == most
            &&& cut <==> raw > most
        }),
{
}

/// A run is decided by its own settings and limits, with a dwell of 30 s, the flat write
/// average, and the recharge state.
pub proof fn run_goes_by_its_settings(
    stage: Stage,
    soc_hyst: Num,
    trim_ki: Num,
    orig_mode: i32,
    safety: SafetyLimits,
)
    ensures
        ({
            let cfg = run_config(stage, soc_hyst, trim_ki, orig_mode, &safety);
            &&& cfg.stage == stage
            &&& cfg.soc_hyst == soc_hyst
            &&& cfg.trim_ki == trim_ki
            &&& cfg.orig_mode == orig_mode
            &&& cfg.slew_w_per_s == safety.slew_w_per_s
            &&& cfg.sanity_band_w == safety.sanity_band_w
            &&& cfg.sanity_secs == safety.sanity_secs
            &&& cfg.min_dwell_s == Num::Fin(30_000_000)
            &&& cfg.state_recharge == 0x102
            &&& !cfg.ema_adaptive
        }),
{
}

/// A run begins owning nothing, with nothing remembered, and may take the loop over in
/// its very first tick.
pub proof fn run_begins_without_the_loop(
    kind: Kind,
    snap: Snapshot,
    stage: Stage,
    trim_ki: Num,
    orig_mode: i32,
    safety: SafetyLimits,
    g: Num,
    soc: i64,
    floor: i64,
    hyst: i64,
)
    requires
        snap.s.soc == Num::Fin(soc),
        snap.min_soc == Num::Fin(floor),
        moderate(Num::Fin(floor)),
        moderate(Num::Fin(hyst)),
    ensures
        ({
            let st = initial_state(kind);
            &&& !st.owner_us && !st.ceded_external && !st.prev_force_charge && st.sanity_trips == 0
            &&& st.last_out is None && st.trim_override is None && st.oob_since is None
            &&& st.ctrl == Controller::fresh(kind)
            &&& crate::loop_core::decided(
                snap,
                st,
                run_config(stage, Num::Fin(hyst), trim_ki, orig_mode, &safety),
                Num::Fin(0),
                g,
            ).owner_us <==> soc >= floor + hyst && snap.s.state != 0x102
        }),
{
    let st = initial_state(kind);
    let cfg = run_config(stage, Num::Fin(hyst), trim_ki, orig_mode, &safety);
    crate::loop_core::loop_is_taken_exactly_when(
        snap,
        st,
        cfg,
        g,
        soc,
        floor,
        hyst,
        30_000_000,
        (-60_000_000) as i64,
        0,
    );
    vstd::arithmetic::power2::lemma2_to64();
}

/// A stage that writes runs only with the flag and the environment's word; a stage that
/// does not always runs. A mode to hand back to is the one that was found, unless that is
/// the external one or was not read: then it is 1.
pub proof fn run_is_guarded_on_both_ends(stage: Stage, confirm: bool, env_ok: bool, found: i32)
    ensures
        may_run(stage, confirm, env_ok) <==> stage == Stage::Shadow || (confirm && env_ok),
        found != 3 ==> restore_mode(Some(found)) == found,
        restore_mode(Some(3i32)) == 1,
        restore_mode(None) == 1,
{
}

/// What a decision asks for is what is written: a finite setpoint unless the mode change
/// failed, a finite override in any case, and nothing else.
pub proof fn finite_writes_are_made(dec: Decision, mode_ok: bool, v: i64)
    ensures
        dec.write == Write::Setpoint(Num::Fin(v)) && mode_ok ==> actuate(&dec, mode_ok)
            == Action::WriteSetpoint(Num::Fin(v)),
        dec.write == Write::Override(Num::Fin(v)) ==> actuate(&dec, mode_ok)
            == Action::WriteOverride(Num::Fin(v)),
        (actuate(&dec, mode_ok) matches Action::WriteSetpoint(x) ==> mode_ok && dec.write
            == Write::Setpoint(x) && x is Fin),
        (actuate(&dec, mode_ok) matches Action::WriteOverride(x) ==> dec.write == Write::Override(x)
            && x is Fin),
        dec.write == Write::Nothing ==> actuate(&dec, mode_ok) == Action::Nothing,
{
}

/// The flags are captured in the tick that takes the loop over and put back in the tick
/// that hands it back, in takeover alone.
pub proof fn flags_are_captured_and_put_back_on_a_change(
    snap: Snapshot,
    st: LoopState,
    cfg: DecideCfg,
    t: Num,
    g: Num,
)
    ensures
        ({
            let d = crate::loop_core::decided(snap, st, cfg, t, g);
            &&& captures_flags(cfg.stage, &d) <==> cfg.stage == Stage::Takeover && !st.owner_us
                && d.owner_us
            &&& restores_flags(cfg.stage, &d) <==> cfg.stage == Stage::Takeover && st.owner_us
                && !d.owner_us
        }),
{
}

/// On the way out a takeover restores the mode that was found, a trim sets the override
/// to the stock loop's own setpoint (to nothing where it cannot be read), and a shadow
/// leaves everything alone.
pub proof fn run_hands_back_what_it_took(orig_mode: i32, setpoint: Num)
    ensures
        farewell(Stage::Takeover, orig_mode, Some(setpoint)) == Farewell::RestoreMode(orig_mode),
        farewell(Stage::Takeover, orig_mode, None) == Farewell::RestoreMode(orig_mode),
        farewell(Stage::Trim, orig_mode, Some(setpoint)) == Farewell::NeutraliseOverride(setpoint),
        farewell(Stage::Trim, orig_mode, None) == Farewell::NeutraliseOverride(Num::Fin(0)),
        farewell(Stage::Shadow, orig_mode, Some(setpoint)) == Farewell::Nothing,
        farewell(Stage::Shadow, orig_mode, None) == Farewell::Nothing,
{
}

/// A run with a duration is over once that many seconds have passed; one without never
/// is. A safety event is news where it is one and not the last.
pub proof fn run_lasts_its_seconds(seconds: u64, t: i64, now: Safety, last: Safety)
    requires
        seconds <= 9_000_000_000_000,
    ensures
        is_over(seconds, Num::Fin(t)) <==> seconds > 0 && t >= seconds * 1_000_000,
        is_news(&now, &last) <==> (now.sanity_tripped || now.slew_clamped || now.dt_clamped) && now
            != last,
{
}

/// The meter guard's word in the snapshot: an external mode stops the writes unless it is
/// a takeover's own, an inverter that cannot be read always does, and a takeover with a
/// usable meter and a readable inverter may write.
#[verifier::spinoff_prover]
#[verifier::rlimit(30)]
pub proof fn meter_guard_knows_our_own_mode(
    sub: Subsystems,
    next: Subsystems,
    r: TickReads,
    snap: Snapshot,
    stage: Stage,
    owner_us: bool,
    env_lo: Num,
    env_hi: Num,
    fallback: Num,
    now_ns: u64,
)
    requires
        read_phase(sub, next, r, snap, stage, owner_us, env_lo, env_hi, fallback, now_ns),
        now_ns >= sub.gm_next_ns,
    ensures
        stage != Stage::Takeover && r.gridmeter.hub4mode == Some(3i32) ==> !snap.gm_should_write,
        !(r.gridmeter.multi_input matches Some(Num::Fin(_))) ==> !snap.gm_should_write,
        stage == Stage::Takeover && (r.gridmeter.multi_input matches Some(Num::Fin(_)))
            && next.gm_cached.usable ==> snap.gm_should_write,
{
    gridmeter::regulation_is_exact(
        sub.gridmeter,
        r.gridmeter,
        gridmeter::meter_reading(r.meters@, r.gridmeter.system_grid),
        stage == Stage::Takeover,
    );
}

/// The solar limits of a tick go by the inverters that were read and the export cap, in a
/// takeover that owns the loop while the mode is read and not the external one; in any
/// other mode there are none.
#[verifier::spinoff_prover]
#[verifier::rlimit(30)]
pub proof fn solar_limits_go_by_the_export_cap(
    sub: Subsystems,
    next: Subsystems,
    r: TickReads,
    snap: Snapshot,
    env_lo: Num,
    env_hi: Num,
    fallback: Num,
    now_ns: u64,
)
    requires
        read_phase(sub, next, r, snap, Stage::Takeover, true, env_lo, env_hi, fallback, now_ns),
    ensures
        r.hub4mode is None || r.hub4mode == Some(3i32) ==> pv::named(next.pv.writes@)
            == Seq::<(Seq<char>, Num)>::empty(),
        r.hub4mode is Some && r.hub4mode != Some(3i32) && r.inverters@.len() > 0 ==> ({
            let open = pv::PvContext {
                charge_headroom_w: Num::Fin(0),
                battery_full: false,
                export_blocked: false,
                limiter_enabled: true,
            };
            pv::named(next.pv.writes@) == pv::limits_for(
                r.inverters@,
                open,
                pv::share_of(r.inverters@, open, r.max_feedin),
            )
        }),
{
    let open = pv::PvContext {
        charge_headroom_w: Num::Fin(0),
        battery_full: false,
        export_blocked: false,
        limiter_enabled: true,
    };
    let default = pv::PvContext { charge_headroom_w: Num::PosInf, ..open };
    let share = pv::share_of(r.inverters@, default, r.max_feedin);
    assert(share == pv::share_of(r.inverters@, open, r.max_feedin));
    headroom_matters_through_the_share(r.inverters@, default, open, share);
}

proof fn headroom_matters_through_the_share(
    invs: Seq<pv::PvInverter>,
    a: pv::PvContext,
    b: pv::PvContext,
    share: Num,
)
    requires
        a == (pv::PvContext { charge_headroom_w: a.charge_headroom_w, ..b }),
    ensures
        pv::limits_for(invs, a, share) == pv::limits_for(invs, b, share),
    decreases invs.len(),
{
    if invs.len() > 0 {
        headroom_matters_through_the_share(invs.drop_last(), a, b, share);
    }
}

/// The subsystems remember the tick: the watchdog the overrides that it saw, the broker
/// which limits were known, the generator gate its source, feed-in its mode, its
/// integrator and what it was told, and the meter guard the value that it went by.
#[verifier::spinoff_prover]
#[verifier::rlimit(30)]
pub proof fn subsystems_remember_the_tick(
    sub: Subsystems,
    next: Subsystems,
    r: TickReads,
    snap: Snapshot,
    stage: Stage,
    owner_us: bool,
    env_lo: Num,
    env_hi: Num,
    fallback: Num,
    now_ns: u64,
)
    requires
        read_phase(sub, next, r, snap, stage, owner_us, env_lo, env_hi, fallback, now_ns),
    ensures
        next.dess.last_setpoint == (match r.dess_setpoint {
            Some(Num::Fin(v)) => Some(Num::Fin(v)),
            _ => None,
        }),
        next.dess.last_feedin == (match r.dess_feedin {
            Some(v) => v,
            None => 0,
        }),
        next.broker.latched_dcl == (sub.broker.latched_dcl || (r.battery.bms_dcl is Some
            && r.battery.bms_dcl->0 is Fin)),
        next.broker.latched_ccl == (sub.broker.latched_ccl || (r.battery.bms_ccl is Some
            && r.battery.bms_ccl->0 is Fin)),
        next.broker.bms_service == sub.broker.bms_service,
        r.generator.source == Some(2i32) ==> next.generator.source == generator::AcSource::Genset,
        next.feedin.overrides.force_charge == snap.sg.force_charge,
        r.feedin.multi_state is Some ==> next.feedin.mode == next.last_feed->0.mode
            && next.feedin.ov_accum == next.last_feed->0.ov_accum,
        now_ns >= sub.gm_next_ns ==> next.gridmeter.last_meter_value == gridmeter::meter_reading(
            r.meters@,
            r.gridmeter.system_grid,
        ),
        now_ns < sub.gm_next_ns ==> next.gridmeter == sub.gridmeter,
        stage == Stage::Takeover && owner_us && r.inverters@.len() == 0 ==> next.pv.offset_ema
            == Num::Nan,
        stage != Stage::Takeover || !owner_us ==> next.pv == sub.pv,
{
}

/// A phase that the AC-input limiter imposes a limit on remembers the filtered value, and
/// one that it leaves untouched keeps its memory.
#[verifier::spinoff_prover]
#[verifier::rlimit(30)]
pub proof fn shore_memory_follows_its_writes(
    sub: Subsystems,
    next: Subsystems,
    r: TickReads,
    snap: Snapshot,
    stage: Stage,
    owner_us: bool,
    env_lo: Num,
    env_hi: Num,
    fallback: Num,
    now_ns: u64,
    n: int,
)
    requires
        read_phase(sub, next, r, snap, stage, owner_us, env_lo, env_hi, fallback, now_ns),
        sub.shore.wf(),
        0 <= n < sub.shore.phases,
    ensures
        next.shore.wf(),
        snap.shore_out.writes@[n] is None ==> next.shore.filt@[n] == sub.shore.filt@[n],
        snap.shore_out.writes@[n] is Some ==> next.shore.filt@[n] is Some,
        snap.shore_out.writes@[n] matches Some(shore::ShoreWrite::Impose(a)) ==> (
        next.shore.filt@[n] matches Some(Num::Fin(f)) ==> a == Num::Fin(
            if f < 0 {
                0
            } else {
                f
            },
        )),
{
}

} // verus!
