#![allow(dead_code)]

use multiplus_ess_controller::control;
use multiplus_ess_controller::control::FfMode;
use multiplus_ess_controller::loop_core;
use multiplus_ess_controller::loop_core::Safety;
use multiplus_ess_controller::num::Num;
use multiplus_ess_controller::socguard;
use multiplus_ess_controller::stage::Stage;
use multiplus_ess_controller::states::bl;
use multiplus_ess_controller::states::sysstate;

/// The quantity nearest to a floating-point number.
fn num(x: f64) -> Num {
    if x.is_nan() {
        Num::Nan
    } else if x == f64::INFINITY {
        Num::PosInf
    } else if x == f64::NEG_INFINITY {
        Num::NegInf
    } else {
        Num::Fin((x * 1e6).round() as i64)
    }
}

/// The floating-point number nearest to a quantity.
fn val(n: Num) -> f64 {
    match n {
        Num::Nan => f64::NAN,
        Num::NegInf => f64::NEG_INFINITY,
        Num::PosInf => f64::INFINITY,
        Num::Fin(m) => m as f64 / 1e6,
    }
}

fn nums(o: Option<f64>) -> Option<Num> {
    o.map(num)
}

fn vals(o: Option<Num>) -> Option<f64> {
    o.map(val)
}

#[derive(Clone, Copy, Debug)]
struct AdaptiveCfg {
    ki: f64,
    i_max: f64,
    a0: f64,
    b0: f64,
    seeded: bool,
    lambda: f64,
    conf_scale_w: f64,
    steady_band_w: f64,
    mode: FfMode,
}

impl AdaptiveCfg {
    fn tuned() -> Self {
        let c = control::AdaptiveCfg::tuned();
        AdaptiveCfg {
            ki: val(c.ki),
            i_max: val(c.i_max),
            a0: val(c.a0),
            b0: val(c.b0),
            seeded: c.seeded,
            lambda: val(c.lambda),
            conf_scale_w: val(c.conf_scale_w),
            steady_band_w: val(c.steady_band_w),
            mode: c.mode,
        }
    }
}

#[derive(Clone, Copy, Debug)]
enum Kind {
    Stock,
    TrueIntegral { ki: f64 },
    Pi { ki: f64, i_max: f64 },
    Adaptive(AdaptiveCfg),
}

fn plain_kind(k: Kind) -> control::Kind {
    match k {
        Kind::Stock => control::Kind::Stock,
        Kind::TrueIntegral { ki } => control::Kind::TrueIntegral { ki: num(ki) },
        Kind::Pi { ki, i_max } => control::Kind::Pi { ki: num(ki), i_max: num(i_max) },
        Kind::Adaptive(c) => control::Kind::Adaptive(control::AdaptiveCfg {
            ki: num(c.ki),
            i_max: num(c.i_max),
            a0: num(c.a0),
            b0: num(c.b0),
            seeded: c.seeded,
            lambda: num(c.lambda),
            conf_scale_w: num(c.conf_scale_w),
            steady_band_w: num(c.steady_band_w),
            mode: c.mode,
        }),
    }
}

struct FfSnapshot {
    a: f64,
    b: f64,
    conf: f64,
}

struct Controller {
    inner: control::Controller,
    i: f64,
}

impl Controller {
    fn new(kind: Kind) -> Self {
        Controller { inner: control::Controller::new(plain_kind(kind)), i: 0.0 }
    }
    fn reset(&mut self) {
        self.inner.reset();
        self.i = val(self.inner.i);
    }
    fn ff_snapshot(&self, throughput: f64) -> Option<FfSnapshot> {
        self.inner
            .ff_snapshot(num(throughput))
            .map(|f| FfSnapshot { a: val(f.a), b: val(f.b), conf: val(f.conf) })
    }
    fn update(
        &mut self,
        grid: f64,
        reported: f64,
        target: f64,
        dt: f64,
        lo: f64,
        hi: f64,
        learn: bool,
    ) -> f64 {
        let cmd = self.inner.update(
            num(grid),
            num(reported),
            num(target),
            num(dt),
            num(lo),
            num(hi),
            learn,
        );
        self.i = val(self.inner.i);
        val(cmd)
    }
}

/// A quarter of the natural logarithm of a tenth of the step.
fn log_gain(step: Num) -> Num {
    num(0.25 * (val(step) / 10.0).ln())
}

fn stock_write_ema(prev: Option<f64>, cmd: f64, adaptive: bool) -> f64 {
    let g = match prev {
        Some(p) => log_gain(num((cmd - p).abs())),
        None => Num::Nan,
    };
    val(loop_core::stock_write_ema(nums(prev), num(cmd), adaptive, g))
}

#[derive(Clone, Copy, Debug)]
struct Inputs {
    bl_state: i32,
    min_soc: f64,
    charge_request: bool,
    dc_voltage: f64,
    eff_max_charge_w: f64,
    multi_supports_tpimf: bool,
    override_force_charge: bool,
    ovr_max_discharge_w: f64,
}

#[derive(Clone, Copy, Debug, PartialEq)]
struct SocGuardOut {
    force_charge: bool,
    max_discharge_w: f64,
    cmd_override: Option<f64>,
    tpimf: bool,
    charge_floor_w: f64,
}

impl SocGuardOut {
    fn of(o: socguard::SocGuardOut) -> SocGuardOut {
        SocGuardOut {
            force_charge: o.force_charge,
            max_discharge_w: val(o.max_discharge_w),
            cmd_override: vals(o.cmd_override),
            tpimf: o.tpimf,
            charge_floor_w: val(o.charge_floor_w),
        }
    }
    fn plain(&self) -> socguard::SocGuardOut {
        socguard::SocGuardOut {
            force_charge: self.force_charge,
            max_discharge_w: num(self.max_discharge_w),
            cmd_override: nums(self.cmd_override),
            tpimf: self.tpimf,
            charge_floor_w: num(self.charge_floor_w),
        }
    }
}

fn enact(i: &Inputs) -> SocGuardOut {
    SocGuardOut::of(socguard::enact(&socguard::Inputs {
        bl_state: i.bl_state,
        min_soc: num(i.min_soc),
        charge_request: i.charge_request,
        dc_voltage: num(i.dc_voltage),
        eff_max_charge_w: num(i.eff_max_charge_w),
        multi_supports_tpimf: i.multi_supports_tpimf,
        override_force_charge: i.override_force_charge,
        ovr_max_discharge_w: num(i.ovr_max_discharge_w),
    }))
}

const HARD_CLAMP_W: f64 = loop_core::HARD_CLAMP_W as f64 / 1e6;
const SLEW_TRAVERSE_S: f64 = loop_core::SLEW_TRAVERSE_S as f64 / 1e6;
const SANITY_FRACTION: f64 = loop_core::SANITY_FRACTION as f64 / 1e6;
const MIN_DT_CLAMP_S: f64 = loop_core::MIN_DT_CLAMP_S as f64 / 1e6;
const FORCE_CHARGE_SENTINEL_W: f64 = socguard::FORCE_CHARGE_SENTINEL_W as f64 / 1e6;

struct SafetyLimits {
    design_w: f64,
    slew_w_per_s: f64,
    sanity_band_w: f64,
    sanity_secs: f64,
    max_dt_s: f64,
}

impl SafetyLimits {
    fn derive(design_w: f64, interval_s: f64, slew: Option<f64>, band: Option<f64>) -> Self {
        let l = loop_core::SafetyLimits::derive(num(design_w), num(interval_s), nums(slew), nums(band));
        SafetyLimits {
            design_w: val(l.design_w),
            slew_w_per_s: val(l.slew_w_per_s),
            sanity_band_w: val(l.sanity_band_w),
            sanity_secs: val(l.sanity_secs),
            max_dt_s: val(l.max_dt_s),
        }
    }
}

#[derive(Clone, Copy, Debug)]
struct Sensors {
    grid: f64,
    reported: f64,
    target: f64,
    soc: f64,
    state: i64,
}

#[derive(Default)]
struct ShoreOut {}

struct Snapshot {
    s: Sensors,
    dt: f64,
    dt_clamped: bool,
    min_soc: f64,
    lo: f64,
    hi: f64,
    effective_target: f64,
    sg: SocGuardOut,
    feed_block_charge: bool,
    feed_force_flat: bool,
    gen_disable_export: bool,
    gm_should_write: bool,
    shore_out: ShoreOut,
    hub4_actual: Option<f64>,
    ac_out_w: f64,
    hub4mode_live: Option<i32>,
}

impl Snapshot {
    fn plain(&self) -> loop_core::Snapshot {
        loop_core::Snapshot {
            s: loop_core::Sensors {
                grid: num(self.s.grid),
                reported: num(self.s.reported),
                target: num(self.s.target),
                soc: num(self.s.soc),
                state: self.s.state,
            },
            dt: num(self.dt),
            dt_clamped: self.dt_clamped,
            min_soc: num(self.min_soc),
            lo: num(self.lo),
            hi: num(self.hi),
            effective_target: num(self.effective_target),
            sg: self.sg.plain(),
            feed_block_charge: self.feed_block_charge,
            feed_force_flat: self.feed_force_flat,
            gen_disable_export: self.gen_disable_export,
            gm_should_write: self.gm_should_write,
            shore_out: multiplus_ess_controller::shore::ShoreOut::default(),
            hub4_actual: nums(self.hub4_actual),
            ac_out_w: num(self.ac_out_w),
            hub4mode_live: self.hub4mode_live,
        }
    }
}

struct LoopState {
    ctrl: Controller,
    owner_us: bool,
    last_flip_t: f64,
    trim_override: Option<f64>,
    last_out: Option<f64>,
    oob_since: Option<f64>,
    prev_force_charge: bool,
    ceded_external: bool,
    sanity_trips: u32,
}

struct DecideCfg {
    stage: Stage,
    soc_hyst: f64,
    min_dwell_s: f64,
    trim_ki: f64,
    orig_mode: i32,
    state_recharge: i64,
    slew_w_per_s: f64,
    sanity_band_w: f64,
    sanity_secs: f64,
    ema_adaptive: bool,
}

impl DecideCfg {
    fn plain(&self) -> loop_core::DecideCfg {
        loop_core::DecideCfg {
            stage: self.stage,
            soc_hyst: num(self.soc_hyst),
            min_dwell_s: num(self.min_dwell_s),
            trim_ki: num(self.trim_ki),
            orig_mode: self.orig_mode,
            state_recharge: self.state_recharge,
            slew_w_per_s: num(self.slew_w_per_s),
            sanity_band_w: num(self.sanity_band_w),
            sanity_secs: num(self.sanity_secs),
            ema_adaptive: self.ema_adaptive,
        }
    }
}

#[derive(Clone, Copy, Debug, PartialEq)]
enum Write {
    Nothing,
    Setpoint(f64),
    Override(f64),
}

#[derive(Clone, Debug)]
struct Decision {
    command: f64,
    write: Write,
    hub4mode: Option<i32>,
    feed_shore_write: bool,
    owner_us: bool,
    display_cmd: f64,
    owner_str: &'static str,
    note: &'static str,
    flipped: bool,
    safety: Safety,
}

fn composed_command(snap: &Snapshot, ctrl: &mut Controller, actuating: bool) -> f64 {
    let cmd = loop_core::composed_command(&snap.plain(), &mut ctrl.inner, actuating);
    ctrl.i = val(ctrl.inner.i);
    val(cmd)
}

fn decide(snap: &Snapshot, st: &mut LoopState, cfg: &DecideCfg, t: f64) -> Decision {
    let mut plain = loop_core::LoopState {
        ctrl: st.ctrl.inner,
        owner_us: st.owner_us,
        last_flip_t: num(st.last_flip_t),
        trim_override: nums(st.trim_override),
        last_out: nums(st.last_out),
        oob_since: nums(st.oob_since),
        prev_force_charge: st.prev_force_charge,
        ceded_external: st.ceded_external,
        sanity_trips: st.sanity_trips,
    };
    let g = match loop_core::gain_step(&snap.plain(), &plain, &cfg.plain(), num(t)) {
        Some(step) => log_gain(step),
        None => Num::Nan,
    };
    let d = loop_core::decide(&snap.plain(), &mut plain, &cfg.plain(), num(t), g);
    st.ctrl.inner = plain.ctrl;
    st.ctrl.i = val(st.ctrl.inner.i);
    st.owner_us = plain.owner_us;
    st.last_flip_t = val(plain.last_flip_t);
    st.trim_override = vals(plain.trim_override);
    st.last_out = vals(plain.last_out);
    st.oob_since = vals(plain.oob_since);
    st.prev_force_charge = plain.prev_force_charge;
    st.ceded_external = plain.ceded_external;
    st.sanity_trips = plain.sanity_trips;
    Decision {
        command: val(d.command),
        write: match d.write {
            loop_core::Write::Nothing => Write::Nothing,
            loop_core::Write::Setpoint(v) => Write::Setpoint(val(v)),
            loop_core::Write::Override(v) => Write::Override(val(v)),
        },
        hub4mode: d.hub4mode,
        feed_shore_write: d.feed_shore_write,
        owner_us: d.owner_us,
        display_cmd: val(d.display_cmd),
        owner_str: d.owner_str,
        note: d.note,
        flipped: d.flipped,
        safety: d.safety,
    }
}

fn sg_free() -> SocGuardOut {
    SocGuardOut {
        force_charge: false,
        max_discharge_w: f64::INFINITY,
        cmd_override: None,
        tpimf: false,
        charge_floor_w: 0.0,
    }
}

fn snap(stage_gm: bool) -> Snapshot {
    Snapshot {
        s: Sensors { grid: 100.0, reported: 0.0, target: 20.0, soc: 60.0, state: sysstate::DISCHARGING },
        dt: 1.0,
        dt_clamped: false,
        min_soc: 15.0,
        lo: -HARD_CLAMP_W,
        hi: HARD_CLAMP_W,
        effective_target: 20.0,
        sg: sg_free(),
        feed_block_charge: false,
        feed_force_flat: false,
        gen_disable_export: false,
        gm_should_write: stage_gm,
        shore_out: ShoreOut::default(),
        hub4_actual: None,
            ac_out_w: f64::NAN,
            hub4mode_live: None,
    }
}

fn state(stage_kind: Kind) -> LoopState {
    LoopState {
        ctrl: Controller::new(stage_kind),
        owner_us: false,
        last_flip_t: -1000.0,
        trim_override: None,
        last_out: None,
        oob_since: None,
        prev_force_charge: false,
        ceded_external: false,
        sanity_trips: 0,
    }
}

fn cfg(stage: Stage) -> DecideCfg {

    let sl = SafetyLimits::derive(HARD_CLAMP_W, 1.0, None, None);
    DecideCfg {
        stage,
        soc_hyst: 3.0,
        min_dwell_s: 30.0,
        trim_ki: 0.02,
        orig_mode: 1,
        state_recharge: sysstate::RECHARGE,
        slew_w_per_s: sl.slew_w_per_s,
        sanity_band_w: sl.sanity_band_w,
        sanity_secs: sl.sanity_secs,
        ema_adaptive: false,
    }
}

#[test]
fn goldens_golden_schedule_window_edges_dual_override_and_hold_gap() {
    let rows: &[(f64, f64, f64, f64, i64, bool, f64)] = &[
        (35575.0,   83.0,  -372.0, 58.0, 256, false, f64::NAN),
        (35577.0,   80.0,  -387.0, 58.0, 256, true,  1.0),
        (35578.0,   75.0,  -400.0, 58.0, 259, true,  1.0),
        (35580.0,   57.0,   419.0, 58.0, 259, true,  1.0),
        (35582.0, 1240.0,  2712.0, 58.0, 259, true,  f64::NAN),
        (54388.0, 2352.0,  2129.0, 90.0, 259, true,  f64::NAN),
        (54389.0, 2340.0,  2131.0, 90.0, 259, false, f64::NAN),
        (54390.0, 2329.0,  2133.0, 90.0, 259, false, f64::NAN),
        (54391.0, 2346.0,   770.0, 90.0, 259, false, f64::NAN),
        (54393.0, 2352.0,   240.0, 90.0, 259, false, f64::NAN),
        (54394.0,  263.0,    70.0, 90.0, 259, false, f64::NAN),
        (54395.0,  212.0,   -25.0, 90.0, 259, false, 1.0),
        (54396.0,  198.0,   -37.0, 90.0, 259, false, 1.0),
        (54398.0,  185.0,   -45.0, 90.0, 259, false, 1.0),
    ];
    let sl = SafetyLimits::derive(7030.0, 1.0, None, None);
    let c = DecideCfg {
        stage: Stage::Takeover,
        soc_hyst: 3.0,
        min_dwell_s: 30.0,
        trim_ki: 0.02,
        orig_mode: 1,
        state_recharge: sysstate::RECHARGE,
        slew_w_per_s: sl.slew_w_per_s,
        sanity_band_w: sl.sanity_band_w,
        sanity_secs: sl.sanity_secs,
        ema_adaptive: false,
    };
    let mut st = state(Kind::Stock);
    st.owner_us = true;
    st.last_flip_t = 35000.0;

    for &(t, grid, reported, soc, sysstate, ovr_fc, ovr_maxdis) in rows {
        let sg = enact(&Inputs {
            bl_state: bl::SOCG_DEFAULT,
            min_soc: 10.0,
            charge_request: false,
            dc_voltage: 52.0,
            eff_max_charge_w: f64::NAN,
            multi_supports_tpimf: true,
            override_force_charge: ovr_fc,
            ovr_max_discharge_w: ovr_maxdis,
        });
        let snap = Snapshot {
            s: Sensors { grid, reported, target: 5.0, soc, state: sysstate },
            dt: 1.0,
            dt_clamped: false,
            min_soc: 10.0,
            lo: -7030.0,
            hi: 7030.0,
            effective_target: 5.0,
            sg,
            feed_block_charge: false,
            feed_force_flat: false,
            gen_disable_export: false,
            gm_should_write: true,
            shore_out: ShoreOut::default(),
            hub4_actual: None,
            ac_out_w: f64::NAN,
            hub4mode_live: None,
        };
        let d = decide(&snap, &mut st, &c, t);

        assert!(d.owner_us && !d.flipped, "t={t}: the window must not disturb ownership");
        assert_eq!(d.hub4mode, None, "t={t}: no mode writes mid-window");
        assert!(matches!(d.write, Write::Setpoint(_)), "t={t}: takeover keeps writing");

        match t as i64 {
            35575 => {
                assert!(!sg.force_charge, "t={t}: pre-window");
                assert!((d.command - (-450.0)).abs() < 3.0, "t={t}: normal law, got {}", d.command);
            }
            35577 | 35578 => {

                assert!(sg.force_charge && sg.tpimf, "t={t}: force-charge regime");
                assert_eq!(sg.max_discharge_w, 1.0, "t={t}: entry cap present");
                assert!((d.command - (-1.0)).abs() < 1e-9,
                    "t={t}: law −462 must clamp to the 1 W cap, got {}", d.command);
            }
            35580 => {
                assert!((d.command - 367.0).abs() < 3.0,
                    "t={t}: positive law passes the discharge cap, got {}", d.command);
            }
            35582 => {
                assert!(sg.max_discharge_w.is_infinite(), "t={t}: entry cap cleared");
                assert!((d.command - 1477.0).abs() < 3.0,
                    "t={t}: TPIMF raw-law passthrough, got {}", d.command);
            }
            54388 => {
                assert!(sg.force_charge, "t={t}: still force-charging at target SOC");
                assert!((d.command - (-218.0)).abs() < 3.0, "t={t}: got {}", d.command);
            }
            54391 => {

                assert!(!sg.force_charge && sg.max_discharge_w.is_infinite(), "t={t}");
                assert!((d.command - (-1571.0)).abs() < 3.0,
                    "t={t}: pinned known transient, got {}", d.command);
            }
            54393 => {
                assert!((d.command - (-2107.0)).abs() < 3.0,
                    "t={t}: pinned known transient, got {}", d.command);

                if let Write::Setpoint(v) = d.write {
                    assert!(v >= -7030.0, "t={t}: inside envelope");
                }
            }
            54395..=54398 => {
                assert_eq!(sg.max_discharge_w, 1.0, "t={t}: hold active");

                assert!((d.command - (-1.0)).abs() < 1e-9,
                    "t={t}: hold pins the command at −1 W (bare cap), got {}", d.command);
            }
            _ => {}
        }
    }
    assert_eq!(st.sanity_trips, 0, "window edges must not trip sanity");
    assert!(st.owner_us, "still owning after the window");
}

#[test]
fn goldens_golden_window_tail_ema_replay_is_tick_exact() {

    type TailRow = (f64, f64, f64, f64, bool, f64, f64, f64);
    let rows: &[TailRow] = &[
        (71647.0, 1569.7,  925.0, 89.0, true,  f64::NAN, 79.0, -624.0),
        (71648.0, 1566.4,  926.0, 89.0, true,  f64::NAN, 72.0, -630.0),
        (71649.0, 1569.9,  927.0, 89.0, true,  f64::NAN, 61.0, -634.0),
        (71650.0, 1572.3,  929.0, 90.0, false, f64::NAN, 63.0, -636.0),
        (71651.0, 1574.3,  929.0, 90.0, false, f64::NAN, 66.0, -638.0),
        (71652.0, 1573.4,  406.0, 90.0, false, f64::NAN, 22.0, -900.0),
        (71653.0,  257.5, -349.0, 90.0, false, f64::NAN, 31.0, -751.0),
        (71654.0, -976.8, -996.0, 90.0, false, 1.0,      13.0, -370.0),
        (71655.0, -657.2, -864.0, 90.0, false, 1.0,       1.0, -185.0),
        (71657.0, -616.7, -657.0, 90.0, false, 1.0,      35.0,  -76.0),
        (71658.0, -348.0, -500.0, 90.0, false, 1.0,      35.0,  -21.0),
        (71659.0, -285.4, -422.0, 90.0, false, 1.0,      27.0,    3.0),
        (71660.0, -261.2, -335.0, 90.0, false, 1.0,      37.0,   20.0),
        (71661.0,  -70.9, -298.0, 90.0, false, 1.0,      11.0,   15.0),
        (71662.0,  -88.2, -196.0, 90.0, false, 1.0,       9.0,   12.0),
        (71663.0,   19.8, -188.0, 90.0, false, 1.0,       8.0,   10.0),
        (71664.0,  513.1, -179.0, 90.0, false, 1.0,     -16.0,   -4.0),
        (71665.0,  546.0, -134.0, 90.0, false, 1.0,     -20.0,  -13.0),
        (71666.0,  583.9,  -89.0, 90.0, false, 1.0,       6.0,   -4.0),
        (71667.0,  592.4,  -60.0, 90.0, false, 1.0,      27.0,   11.0),
        (71669.0,  593.9,  -49.0, 90.0, false, 1.0,      32.0,   21.0),
        (71670.0,  606.2,  -23.0, 90.0, false, 1.0,      43.0,   32.0),
        (71671.0,  613.4,  -50.0, 90.0, false, 1.0,      32.0,   32.0),
        (71672.0,  610.5,  -22.0, 90.0, false, 1.0,      43.0,   37.0),
    ];
    let sl = SafetyLimits::derive(7030.0, 1.0, None, None);
    let c = DecideCfg {
        stage: Stage::Shadow,
        soc_hyst: 3.0,
        min_dwell_s: 30.0,
        trim_ki: 0.02,
        orig_mode: 1,
        state_recharge: sysstate::RECHARGE,
        slew_w_per_s: sl.slew_w_per_s,
        sanity_band_w: sl.sanity_band_w,
        sanity_secs: sl.sanity_secs,
        ema_adaptive: false,
    };
    let mut st = state(Kind::Stock);
    st.owner_us = true;
    st.last_flip_t = 71000.0;
    st.last_out = Some(-608.0);

    for &(t, grid, reported, soc, ovr_fc, ovr_maxdis, acout, expect) in rows {
        let sg = enact(&Inputs {
            bl_state: bl::SOCG_DEFAULT,
            min_soc: 10.0,
            charge_request: false,
            dc_voltage: 52.0,
            eff_max_charge_w: f64::NAN,
            multi_supports_tpimf: true,
            override_force_charge: ovr_fc,
            ovr_max_discharge_w: ovr_maxdis,
        });
        let snap = Snapshot {
            s: Sensors { grid, reported, target: 5.0, soc, state: sysstate::SCHEDULED_CHARGE },
            dt: 1.0,
            dt_clamped: false,
            min_soc: 10.0,
            lo: -7030.0,
            hi: 7030.0,
            effective_target: 5.0,
            sg,
            feed_block_charge: false,
            feed_force_flat: false,
            gen_disable_export: false,
            gm_should_write: true,
            shore_out: ShoreOut::default(),
            hub4_actual: None,
            ac_out_w: acout,
            hub4mode_live: None,
        };
        let d = decide(&snap, &mut st, &c, t);
        assert_eq!(d.write, Write::Nothing, "t={t}: shadow never writes");
        assert!(
            (d.display_cmd - expect).abs() < 0.6,
            "t={t}: replay must be tick-exact, expected {expect}, got {}",
            d.display_cmd
        );
    }
    assert_eq!(st.sanity_trips, 0);
}

#[test]
fn goldens_adaptive_gate_shadow_and_trim_never_learn_e2e() {
    for stage in [Stage::Shadow, Stage::Trim] {
        let mut st = state(Kind::Adaptive(AdaptiveCfg::tuned()));
        st.owner_us = true;
        let c = cfg(stage);
        for i in 0..500 {
            let mut sp = snap(true);
            sp.s.grid = sp.s.target - 10.0;
            sp.s.reported = -800.0;
            decide(&sp, &mut st, &c, i as f64);
        }
        let ff = st.ctrl.ff_snapshot(800.0).unwrap();
        assert_eq!((ff.a, ff.b), (0.0, 0.0), "{} must not learn", stage.name());
    }
}

#[test]
fn goldens_adaptive_gate_takeover_learns_e2e() {
    let mut st = state(Kind::Adaptive(AdaptiveCfg::tuned()));
    st.owner_us = true;
    let c = cfg(Stage::Takeover);
    for i in 0..500 {
        let mut sp = snap(true);
        sp.s.grid = sp.s.target - 10.0;
        sp.s.reported = -800.0;
        decide(&sp, &mut st, &c, i as f64);
    }
    let ff = st.ctrl.ff_snapshot(800.0).unwrap();
    assert!(
        ff.a != 0.0 || ff.b != 0.0,
        "takeover + owning + usable meter must learn, got a={} b={}",
        ff.a,
        ff.b
    );
}
