#![allow(dead_code)]

use multiplus_ess_controller::bus::as_bool;
use multiplus_ess_controller::bus::as_i32;
use multiplus_ess_controller::num::Num;
use multiplus_ess_controller::gridmeter;
use multiplus_ess_controller::gridmeter::GridMeterGuardOut;
use multiplus_ess_controller::gridmeter::Presence;
use multiplus_ess_controller::gridmeter::Regulation;
use multiplus_ess_controller::gridmeter::ACTIVEIN_DISCONNECTED;
use multiplus_ess_controller::gridmeter::HUB4MODE_EXTERNAL;
use multiplus_ess_controller::gridmeter::SOURCE_GENERATOR;
use multiplus_ess_controller::gridmeter::STALE_TICKS;
use std::collections::HashMap;

const SYS: &str = "com.victronenergy.system";
const SETTINGS: &str = "com.victronenergy.settings";
const VEBUS: &str = "com.victronenergy.vebus.ttyS3";
const HUB4: &str = "com.victronenergy.hub4";

/// The quantity nearest to a floating-point number.
fn num(x: f64) -> Num {
    if x.is_nan() {
        Num::Nan
    } else if x == f64::INFINITY {
        Num::PosInf
    } else if x == f64::NEG_INFINITY {
        Num::NegInf
    } else {
        Num::Fin((x * 1e6).round() as i64)
    }
}

/// The floating-point number nearest to a quantity.
fn val(n: Num) -> f64 {
    match n {
        Num::Nan => f64::NAN,
        Num::NegInf => f64::NEG_INFINITY,
        Num::PosInf => f64::INFINITY,
        Num::Fin(m) => m as f64 / 1e6,
    }
}

fn nums(o: Option<f64>) -> Option<Num> {
    o.map(num)
}

fn vals(o: Option<Num>) -> Option<f64> {
    o.map(val)
}

trait Bus {
    fn get_f64(&self, service: &str, path: &str) -> Option<f64>;
    fn get_str(&self, service: &str, path: &str) -> Option<String>;
    fn list_services(&self, prefix: &str) -> Vec<String>;
    fn set_i32(&self, service: &str, path: &str, value: i32) -> Result<(), String>;
    fn set_f64(&self, service: &str, path: &str, value: f64) -> Result<(), String>;
    fn get_num(&self, service: &str, path: &str) -> Option<Num> {
        nums(self.get_f64(service, path))
    }
    fn get_bool(&self, service: &str, path: &str) -> Option<bool> {
        self.get_num(service, path).map(as_bool)
    }
    fn get_i32(&self, service: &str, path: &str) -> Option<i32> {
        self.get_num(service, path).map(as_i32)
    }
}

/// A bus held in memory.
struct MockBus {
    f: HashMap<(String, String), f64>,
    s: HashMap<(String, String), String>,
    services: Vec<String>,
}

impl MockBus {
    fn new() -> Self {
        MockBus { f: HashMap::new(), s: HashMap::new(), services: Vec::new() }
    }
    fn set(&mut self, svc: &str, path: &str, v: f64) {
        self.f.insert((svc.into(), path.into()), v);
    }
    fn set_str(&mut self, svc: &str, path: &str, v: &str) {
        self.s.insert((svc.into(), path.into()), v.into());
    }
    fn clear(&mut self, svc: &str, path: &str) {
        self.f.remove(&(svc.into(), path.into()));
    }
    fn add_service(&mut self, name: &str) {
        self.services.push(name.into());
    }
}

impl Bus for MockBus {
    fn get_f64(&self, svc: &str, path: &str) -> Option<f64> {
        self.f.get(&(svc.into(), path.into())).copied()
    }
    fn get_str(&self, svc: &str, path: &str) -> Option<String> {
        self.s.get(&(svc.into(), path.into())).cloned()
    }
    fn list_services(&self, prefix: &str) -> Vec<String> {
        multiplus_ess_controller::text::select_prefix(&self.services, prefix)
    }
    fn set_i32(&self, _: &str, _: &str, _: i32) -> Result<(), String> {
        Ok(())
    }
    fn set_f64(&self, _: &str, _: &str, _: f64) -> Result<(), String> {
        Ok(())
    }
}

const P_GRID: &str = "/Ac/Grid/L1/Power";
const P_HUB4MODE: &str = "/Settings/CGwacs/Hub4Mode";
const P_ACTIVEIN: &str = "/Ac/ActiveIn/L1/P";
const GRID_PREFIX: &str = "com.victronenergy.grid.";
const P_METER_POWER: &str = "/Ac/Power";
const P_METER_L1_POWER: &str = "/Ac/L1/Power";
const P_RUN_WITHOUT_METER: &str = "/Settings/CGwacs/RunWithoutGridMeter";
const P_GRID_METER_REQUIRED: &str = "/Settings/CGwacs/GridMeterRequired";
const P_SOURCE: &str = "/Ac/ActiveIn/Source";
const P_ACTIVE_INPUT: &str = "/Ac/ActiveIn/ActiveInput";

struct GridMeterGuard {
    inner: gridmeter::GridMeterGuard,
}

impl GridMeterGuard {
    fn new() -> Self {
        GridMeterGuard { inner: gridmeter::GridMeterGuard::new() }
    }
    fn with_frozen_guard(self, on: bool) -> Self {
        GridMeterGuard { inner: self.inner.with_frozen_guard(on) }
    }
    fn meter_service(&self) -> Option<&str> {
        self.inner.meter_service()
    }
    fn tick(&mut self, bus: &dyn Bus) -> GridMeterGuardOut {
        let meters: Vec<gridmeter::Meter> = bus
            .list_services(GRID_PREFIX)
            .into_iter()
            .map(|s| gridmeter::Meter {
                power: bus.get_num(&s, P_METER_POWER),
                l1_power: bus.get_num(&s, P_METER_L1_POWER),
                service: s,
            })
            .collect();
        let reads = gridmeter::Reads {
            hub4mode: bus.get_i32(SETTINGS, P_HUB4MODE),
            multi_input: bus.get_num(VEBUS, P_ACTIVEIN),
            run_without_meter: bus.get_bool(SETTINGS, P_RUN_WITHOUT_METER),
            grid_meter_required: bus.get_bool(SETTINGS, P_GRID_METER_REQUIRED),
            source: bus.get_i32(SYS, P_SOURCE),
            active_input: bus.get_i32(VEBUS, P_ACTIVE_INPUT),
            system_grid: bus.get_num(SYS, P_GRID),
        };
        self.inner.tick(&meters, &reads, false)
    }
}

const GRID_SVC: &str = "com.victronenergy.grid.ttyUSB0";

fn grid_present(power: f64) -> MockBus {
    let mut b = MockBus::new();
    b.set(SETTINGS, P_HUB4MODE, 1.0);
    b.set(SETTINGS, P_RUN_WITHOUT_METER, 0.0);
    b.set(SETTINGS, P_GRID_METER_REQUIRED, 1.0);
    b.set(SYS, P_SOURCE, 1.0);
    b.set(VEBUS, P_ACTIVE_INPUT, 0.0);
    b.set(VEBUS, P_ACTIVEIN, -50.0);
    b.add_service(GRID_SVC);
    b.set(GRID_SVC, P_METER_POWER, power);
    b
}

fn make_absent(b: &mut MockBus) {
    b.services.clear();
    b.clear(GRID_SVC, P_METER_POWER);
    b.clear(SYS, P_GRID);
}

#[test]
fn gridmeter_meter_present_regulates_on_grid_meter() {
    let bus = grid_present(230.0);
    let mut g = GridMeterGuard::new();
    let out = g.tick(&bus);
    assert!(out.usable);
    assert!(out.should_write_setpoint);
    assert_eq!(out.regulate, Regulation::OnGridMeter);
    assert_eq!(out.presence, Presence::Present);
    assert!(!out.alarm_no_grid_meter);
    assert_eq!(g.meter_service(), Some(GRID_SVC));
}

#[test]
fn gridmeter_meter_present_then_absent_stops_writing() {
    let mut bus = grid_present(230.0);
    let mut g = GridMeterGuard::new();
    assert!(g.tick(&bus).should_write_setpoint);
    make_absent(&mut bus);
    let out = g.tick(&bus);
    assert!(!out.usable);
    assert!(!out.should_write_setpoint);
    assert_eq!(out.regulate, Regulation::Skip);
    assert_eq!(out.presence, Presence::Grace);
    assert!(!out.alarm_no_grid_meter);
}

#[test]
fn gridmeter_alarm_fires_after_exactly_48_ticks() {
    let mut bus = grid_present(230.0);
    let mut g = GridMeterGuard::new();
    g.tick(&bus);
    make_absent(&mut bus);

    for k in 1..=47 {
        let out = g.tick(&bus);
        assert_eq!(out.presence, Presence::Grace, "tick {k}");
        assert!(!out.alarm_no_grid_meter, "tick {k}");
    }

    let out = g.tick(&bus);
    assert_eq!(out.presence, Presence::Missing);
    assert!(out.alarm_no_grid_meter);
    assert!(g.tick(&bus).alarm_no_grid_meter, "alarm stays latched while absent");
}

#[test]
fn gridmeter_returning_meter_clears_the_alarm_next_tick() {
    let mut bus = grid_present(230.0);
    let mut g = GridMeterGuard::new();
    g.tick(&bus);
    make_absent(&mut bus);
    for _ in 0..48 {
        g.tick(&bus);
    }
    assert!(g.tick(&bus).alarm_no_grid_meter);

    let bus = grid_present(180.0);
    let out = g.tick(&bus);
    assert!(!out.alarm_no_grid_meter);
    assert_eq!(out.presence, Presence::Present);
    assert!(out.should_write_setpoint);
}

#[test]
fn gridmeter_no_ac_input_never_alarms() {
    let mut bus = grid_present(230.0);
    make_absent(&mut bus);
    bus.set(VEBUS, P_ACTIVE_INPUT, ACTIVEIN_DISCONNECTED as f64);
    let mut g = GridMeterGuard::new();
    for _ in 0..60 {
        let out = g.tick(&bus);
        assert_eq!(out.presence, Presence::NotApplicable);
        assert!(!out.alarm_no_grid_meter);
    }
}

#[test]
fn gridmeter_frozen_meter_detected_as_stale_and_stops_writing() {

    let bus = grid_present(500.0);
    let mut g = GridMeterGuard::new();

    for _ in 0..STALE_TICKS {
        let out = g.tick(&bus);
        assert!(out.usable, "not yet declared stale");
        assert!(!out.stale);
    }

    let out = g.tick(&bus);
    assert!(out.stale, "frozen meter must be flagged");
    assert!(!out.usable);
    assert!(!out.should_write_setpoint);
    assert_eq!(out.regulate, Regulation::Skip);
}

#[test]
fn gridmeter_moving_meter_never_flagged_stale() {
    let mut g = GridMeterGuard::new();
    for k in 0..30 {
        let bus = grid_present(200.0 + k as f64);
        let out = g.tick(&bus);
        assert!(out.usable && !out.stale, "tick {k}");
        assert_eq!(out.regulate, Regulation::OnGridMeter);
    }
}

#[test]
fn gridmeter_frozen_guard_disabled_reproduces_stock_blindness() {

    let bus = grid_present(500.0);
    let mut g = GridMeterGuard::new().with_frozen_guard(false);
    for _ in 0..(STALE_TICKS + 20) {
        let out = g.tick(&bus);
        assert!(out.usable && !out.stale);
        assert_eq!(out.regulate, Regulation::OnGridMeter);
    }
}

#[test]
fn gridmeter_rwgm1_gmr1_absent_runs_on_multi_and_never_alarms() {
    let mut bus = grid_present(230.0);
    make_absent(&mut bus);
    bus.set(SETTINGS, P_RUN_WITHOUT_METER, 1.0);
    let mut g = GridMeterGuard::new();
    for _ in 0..60 {
        let out = g.tick(&bus);
        assert_eq!(out.regulate, Regulation::OnMultiInput);
        assert!(out.should_write_setpoint);
        assert_eq!(out.presence, Presence::NotApplicable);
        assert!(!out.alarm_no_grid_meter);
        assert!(out.run_without_meter);
    }
}

#[test]
fn gridmeter_rwgm0_gmr0_absent_runs_on_multi_but_still_alarms() {

    let mut bus = grid_present(230.0);
    make_absent(&mut bus);
    bus.set(SETTINGS, P_GRID_METER_REQUIRED, 0.0);
    let mut g = GridMeterGuard::new();
    for _ in 0..48 {
        let out = g.tick(&bus);
        assert_eq!(out.regulate, Regulation::OnMultiInput);
        assert!(out.should_write_setpoint);
    }
    let out = g.tick(&bus);
    assert!(out.alarm_no_grid_meter, "alarm fires even when meter optional");
    assert_eq!(out.regulate, Regulation::OnMultiInput);
}

#[test]
fn gridmeter_rwgm0_gmr1_absent_skips_and_alarms() {
    let mut bus = grid_present(230.0);
    make_absent(&mut bus);
    let mut g = GridMeterGuard::new();
    for _ in 0..48 {
        assert_eq!(g.tick(&bus).regulate, Regulation::Skip);
    }
    assert!(g.tick(&bus).alarm_no_grid_meter);
}

#[test]
fn gridmeter_genset_regulates_without_meter_and_never_alarms() {
    let mut bus = grid_present(230.0);
    make_absent(&mut bus);
    bus.set(SYS, P_SOURCE, SOURCE_GENERATOR as f64);
    let mut g = GridMeterGuard::new();
    for _ in 0..60 {
        let out = g.tick(&bus);
        assert_eq!(out.regulate, Regulation::OnMultiInput);
        assert!(out.should_write_setpoint);
        assert!(!out.alarm_no_grid_meter);
    }
}

#[test]
fn gridmeter_hub4mode_external_is_inert() {
    let mut bus = grid_present(230.0);
    bus.set(SETTINGS, P_HUB4MODE, HUB4MODE_EXTERNAL as f64);
    let mut g = GridMeterGuard::new();
    let out = g.tick(&bus);
    assert_eq!(out.regulate, Regulation::Skip);
    assert_eq!(out.presence, Presence::NotApplicable);
    assert!(!out.alarm_no_grid_meter);
}

#[test]
fn gridmeter_unreadable_multi_ac_in_skips() {
    let mut bus = grid_present(230.0);
    bus.clear(VEBUS, P_ACTIVEIN);
    let mut g = GridMeterGuard::new();
    let out = g.tick(&bus);
    assert!(!out.should_write_setpoint);
    assert_eq!(out.regulate, Regulation::Skip);
}

#[test]
fn gridmeter_unreadable_settings_default_to_safe_skip() {

    let mut bus = MockBus::new();
    bus.set(VEBUS, P_ACTIVEIN, -50.0);
    let mut g = GridMeterGuard::new();
    let out = g.tick(&bus);
    assert!(!out.should_write_setpoint);
    assert!(!out.usable);
}

#[test]
fn gridmeter_system_grid_fallback_counts_as_present() {

    let mut bus = grid_present(230.0);
    bus.services.clear();
    bus.clear(GRID_SVC, P_METER_POWER);
    bus.set(SYS, P_GRID, 210.0);
    let mut g = GridMeterGuard::new();
    let out = g.tick(&bus);
    assert!(out.usable);
    assert_eq!(out.regulate, Regulation::OnGridMeter);
    assert_eq!(g.meter_service(), None);
}
