#![allow(dead_code)]

use multiplus_ess_controller::bus::as_bool;
use multiplus_ess_controller::bus::as_i32;
use multiplus_ess_controller::num::Num;
use multiplus_ess_controller::shore;
use multiplus_ess_controller::shore::p_active_in_i;
use multiplus_ess_controller::shore::p_overruled;
use multiplus_ess_controller::shore::should_release;
use std::cell::RefCell;
use std::collections::HashMap;

const SYS: &str = "com.victronenergy.system";
const SETTINGS: &str = "com.victronenergy.settings";
const VEBUS: &str = "com.victronenergy.vebus.ttyS3";
const HUB4: &str = "com.victronenergy.hub4";

/// The quantity nearest to a floating-point number.
fn num(x: f64) -> Num {
    if x.is_nan() {
        Num::Nan
    } else if x == f64::INFINITY {
        Num::PosInf
    } else if x == f64::NEG_INFINITY {
        Num::NegInf
    } else {
        Num::Fin((x * 1e6).round() as i64)
    }
}

/// The floating-point number nearest to a quantity.
fn val(n: Num) -> f64 {
    match n {
        Num::Nan => f64::NAN,
        Num::NegInf => f64::NEG_INFINITY,
        Num::PosInf => f64::INFINITY,
        Num::Fin(m) => m as f64 / 1e6,
    }
}

fn nums(o: Option<f64>) -> Option<Num> {
    o.map(num)
}

fn vals(o: Option<Num>) -> Option<f64> {
    o.map(val)
}

trait Bus {
    fn get_f64(&self, service: &str, path: &str) -> Option<f64>;
    fn get_str(&self, service: &str, path: &str) -> Option<String>;
    fn list_services(&self, prefix: &str) -> Vec<String>;
    fn set_i32(&self, service: &str, path: &str, value: i32) -> Result<(), String>;
    fn set_f64(&self, service: &str, path: &str, value: f64) -> Result<(), String>;
    fn get_num(&self, service: &str, path: &str) -> Option<Num> {
        nums(self.get_f64(service, path))
    }
    fn get_bool(&self, service: &str, path: &str) -> Option<bool> {
        self.get_num(service, path).map(as_bool)
    }
    fn get_i32(&self, service: &str, path: &str) -> Option<i32> {
        self.get_num(service, path).map(as_i32)
    }
}

/// A bus held in memory.
struct MockBus {
    f: HashMap<(String, String), f64>,
    s: HashMap<(String, String), String>,
    services: Vec<String>,
}

impl MockBus {
    fn new() -> Self {
        MockBus { f: HashMap::new(), s: HashMap::new(), services: Vec::new() }
    }
    fn set(&mut self, svc: &str, path: &str, v: f64) {
        self.f.insert((svc.into(), path.into()), v);
    }
    fn set_str(&mut self, svc: &str, path: &str, v: &str) {
        self.s.insert((svc.into(), path.into()), v.into());
    }
    fn clear(&mut self, svc: &str, path: &str) {
        self.f.remove(&(svc.into(), path.into()));
    }
    fn add_service(&mut self, name: &str) {
        self.services.push(name.into());
    }
}

impl Bus for MockBus {
    fn get_f64(&self, svc: &str, path: &str) -> Option<f64> {
        self.f.get(&(svc.into(), path.into())).copied()
    }
    fn get_str(&self, svc: &str, path: &str) -> Option<String> {
        self.s.get(&(svc.into(), path.into())).cloned()
    }
    fn list_services(&self, prefix: &str) -> Vec<String> {
        multiplus_ess_controller::text::select_prefix(&self.services, prefix)
    }
    fn set_i32(&self, _: &str, _: &str, _: i32) -> Result<(), String> {
        Ok(())
    }
    fn set_f64(&self, _: &str, _: &str, _: f64) -> Result<(), String> {
        Ok(())
    }
}

const P_AC_INPUT_LIMIT: &str = "/Settings/CGwacs/AcInputLimit";
const SHORE_UNLIMITED: f64 = shore::SHORE_UNLIMITED as f64 / 1e6;

#[derive(Clone, Copy, Debug, PartialEq)]
enum ShoreWrite {
    Impose(f64),
    Release,
}

impl ShoreWrite {
    fn value(&self) -> f64 {
        match self {
            ShoreWrite::Impose(a) => val(shore::ShoreWrite::Impose(num(*a)).value()),
            ShoreWrite::Release => val(shore::ShoreWrite::Release.value()),
        }
    }
}

struct ShoreOut {
    overruled_shore_limit_a: f64,
    active: bool,
    writes: Vec<Option<ShoreWrite>>,
    raw: shore::ShoreOut,
}

struct ShoreLimiter {
    inner: shore::ShoreLimiter,
}

impl ShoreLimiter {
    fn new(phases: u8) -> Self {
        ShoreLimiter { inner: shore::ShoreLimiter::new(phases) }
    }
    fn any_phase_negative(&self) -> bool {
        self.inner.any_phase_negative()
    }
    fn outcome(raw: shore::ShoreOut) -> ShoreOut {
        let writes = raw
            .writes
            .iter()
            .map(|w| {
                w.map(|w| match w {
                    shore::ShoreWrite::Impose(a) => ShoreWrite::Impose(val(a)),
                    shore::ShoreWrite::Release => ShoreWrite::Release,
                })
            })
            .collect();
        ShoreOut {
            overruled_shore_limit_a: val(raw.overruled_shore_limit_a),
            active: raw.active,
            writes,
            raw,
        }
    }
    fn tick(
        &mut self,
        limit: Option<f64>,
        meter_present: bool,
        meter_i: &[Option<f64>],
        multi_i: &[Option<f64>],
        release: bool,
    ) -> ShoreOut {
        let meter: Vec<Option<Num>> = meter_i.iter().map(|o| nums(*o)).collect();
        let multi: Vec<Option<Num>> = multi_i.iter().map(|o| nums(*o)).collect();
        Self::outcome(self.inner.tick(nums(limit), meter_present, &meter, &multi, release))
    }
    fn write(&self, bus: &dyn Bus, out: &ShoreOut) -> Result<(), String> {
        for (phase, v) in self.inner.write(&out.raw) {
            bus.set_f64(VEBUS, &p_overruled(phase), val(v))?;
        }
        Ok(())
    }
    fn tick_from_bus(
        &mut self,
        bus: &dyn Bus,
        limit: Option<f64>,
        meter_present: bool,
        always_peak_shave: bool,
        above_min_soc: bool,
        force_charging: bool,
    ) -> ShoreOut {
        let multi: Vec<Option<Num>> = (0..self.inner.phases)
            .map(|n| bus.get_num(VEBUS, &p_active_in_i(n + 1)))
            .collect();
        Self::outcome(self.inner.tick_from_bus(
            &multi,
            nums(limit),
            meter_present,
            always_peak_shave,
            above_min_soc,
            force_charging,
        ))
    }
}

fn read_ac_input_limit(bus: &dyn Bus) -> Option<f64> {
    vals(shore::read_ac_input_limit(bus.get_num(SETTINGS, P_AC_INPUT_LIMIT)))
}

struct RecordingBus {
    f: HashMap<(String, String), f64>,
    writes: RefCell<Vec<(String, String, f64)>>,
}

impl RecordingBus {
    fn new() -> Self {
        RecordingBus { f: HashMap::new(), writes: RefCell::new(Vec::new()) }
    }
    fn set(&mut self, svc: &str, path: &str, v: f64) {
        self.f.insert((svc.into(), path.into()), v);
    }
    fn last(&self, svc: &str, path: &str) -> Option<f64> {
        self.writes
            .borrow()
            .iter()
            .rev()
            .find(|(s, p, _)| s == svc && p == path)
            .map(|(_, _, v)| *v)
    }
    fn write_count(&self) -> usize {
        self.writes.borrow().len()
    }
}

impl Bus for RecordingBus {
    fn get_f64(&self, svc: &str, path: &str) -> Option<f64> {
        self.f.get(&(svc.into(), path.into())).copied()
    }
    fn get_str(&self, _: &str, _: &str) -> Option<String> {
        None
    }
    fn list_services(&self, _: &str) -> Vec<String> {
        Vec::new()
    }
    fn set_i32(&self, _: &str, _: &str, _: i32) -> Result<(), String> {
        Ok(())
    }
    fn set_f64(&self, svc: &str, path: &str, v: f64) -> Result<(), String> {
        self.writes.borrow_mut().push((svc.into(), path.into(), v));
        Ok(())
    }
}

#[test]
fn shore_dormant_minus_one_setting_reads_as_none() {
    let mut bus = MockBus::new();
    bus.set(SETTINGS, P_AC_INPUT_LIMIT, -1.0);
    assert_eq!(read_ac_input_limit(&bus), None);
}

#[test]
fn shore_dormant_leaves_every_phase_untouched() {
    let mut sh = ShoreLimiter::new(1);

    let out = sh.tick(None, false, &[Some(10.0)], &[Some(10.0)], false);
    assert!(!out.active);
    assert_eq!(out.writes, vec![None]);
    assert!(out.overruled_shore_limit_a.is_nan());
}

#[test]
fn shore_dormant_write_touches_nothing() {
    let bus = RecordingBus::new();
    let mut sh = ShoreLimiter::new(1);
    let out = sh.tick(None, false, &[Some(10.0)], &[Some(10.0)], false);
    sh.write(&bus, &out).unwrap();
    assert_eq!(bus.write_count(), 0);
}

#[test]
fn shore_nan_limit_is_dormant_not_a_zero_clamp() {

    let mut sh = ShoreLimiter::new(1);
    let out = sh.tick(Some(f64::NAN), false, &[Some(30.0)], &[Some(30.0)], false);
    assert!(!out.active);
    assert_eq!(out.writes, vec![None]);
}

#[test]
fn shore_active_iir_converges_to_configured_amps() {

    let limit = 16.0;
    let load = 10.0;
    let mut sh = ShoreLimiter::new(1);
    let mut last = 0.0;
    for _ in 0..40 {
        let out = sh.tick(Some(limit), false, &[Some(load)], &[Some(load)], false);
        assert!(out.active);
        match out.writes[0] {
            Some(ShoreWrite::Impose(a)) => last = a,
            other => panic!("expected Impose, got {other:?}"),
        }
    }
    assert!((last - limit).abs() < 0.05, "converged to {last}, want {limit}");

    let out = sh.tick(Some(limit), false, &[Some(load)], &[Some(load)], false);
    assert!((out.overruled_shore_limit_a - limit).abs() < 0.05);
}

fn imposed(w: Option<ShoreWrite>) -> f64 {
    match w {
        Some(ShoreWrite::Impose(a)) => a,
        other => panic!("expected Impose, got {other:?}"),
    }
}

#[test]
fn shore_active_first_step_is_the_expected_iir_fraction() {

    let mut sh = ShoreLimiter::new(1);
    let out = sh.tick(Some(16.0), false, &[Some(10.0)], &[Some(10.0)], false);
    assert!((imposed(out.writes[0]) - 3.2).abs() < 1e-9);
}

#[test]
fn shore_state_persists_across_ticks() {

    let mut sh = ShoreLimiter::new(1);
    let a = sh.tick(Some(16.0), false, &[Some(10.0)], &[Some(10.0)], false);
    let b = sh.tick(Some(16.0), false, &[Some(10.0)], &[Some(10.0)], false);
    assert_ne!(a.writes[0], b.writes[0]);
}

#[test]
fn shore_missing_phase_data_leaves_that_phase_untouched() {
    let mut sh = ShoreLimiter::new(1);
    let out = sh.tick(Some(16.0), false, &[None], &[Some(10.0)], false);
    assert!(out.active);
    assert_eq!(out.writes, vec![None]);
}

#[test]
fn shore_active_writes_amps_to_vebus_l1() {
    let mut bus = RecordingBus::new();
    bus.set(VEBUS, &p_active_in_i(1), 10.0);
    let mut sh = ShoreLimiter::new(1);
    let out = sh.tick_from_bus(&bus, Some(16.0), false, false, true, false);
    sh.write(&bus, &out).unwrap();

    let written = bus.last(VEBUS, &p_overruled(1)).expect("L1 written");
    assert!((written - 3.2).abs() < 1e-9, "wrote {written}");
}

#[test]
fn shore_external_meter_present_skips_write_loop() {
    let mut sh = ShoreLimiter::new(1);
    let out = sh.tick(Some(16.0), true, &[Some(10.0)], &[Some(10.0)], false);
    assert!(!out.active);
    assert_eq!(out.writes, vec![None]);
}

#[test]
fn shore_release_writes_the_sentinel() {
    let mut sh = ShoreLimiter::new(1);
    let out = sh.tick(Some(16.0), false, &[Some(10.0)], &[Some(10.0)], true);
    assert_eq!(out.writes[0], Some(ShoreWrite::Release));
    assert_eq!(out.writes[0].unwrap().value(), SHORE_UNLIMITED);
    assert_eq!(out.overruled_shore_limit_a, SHORE_UNLIMITED);
}

#[test]
fn shore_release_still_advances_the_filter() {

    let mut sh = ShoreLimiter::new(1);
    let _ = sh.tick(Some(16.0), false, &[Some(10.0)], &[Some(10.0)], true);
    let out = sh.tick(Some(16.0), false, &[Some(10.0)], &[Some(10.0)], false);

    assert!((imposed(out.writes[0]) - 5.76).abs() < 1e-9);
}

#[test]
fn shore_force_charge_releases() {
    assert!(should_release(false, true, true, false));
    assert!(should_release(true, true, true, false));
}

#[test]
fn shore_below_min_soc_non_always_releases_but_always_holds() {
    assert!(should_release(false, false, false, false));
    assert!(!should_release(true, false, false, false));
}

#[test]
fn shore_above_min_soc_imposes() {
    assert!(!should_release(false, true, false, false));
}

#[test]
fn shore_negative_state_forces_release() {
    assert!(should_release(true, true, false, true));
    assert!(!should_release(true, true, false, false));
}

#[test]
fn shore_any_phase_negative_tracks_filter_state() {
    let mut sh = ShoreLimiter::new(1);

    let _ = sh.tick(Some(0.0), false, &[Some(50.0)], &[Some(0.0)], false);
    assert!(sh.any_phase_negative());
}

#[test]
fn shore_impose_value_never_negative() {

    let mut sh = ShoreLimiter::new(1);
    let out = sh.tick(Some(0.0), false, &[Some(50.0)], &[Some(0.0)], false);
    match out.writes[0] {
        Some(ShoreWrite::Impose(a)) => assert!(a >= 0.0, "imposed {a}"),
        other => panic!("expected Impose, got {other:?}"),
    }
}

#[test]
fn shore_three_phase_writes_all_three() {
    let mut sh = ShoreLimiter::new(3);
    let out = sh.tick(
        Some(16.0),
        false,
        &[Some(10.0), Some(11.0), Some(12.0)],
        &[Some(10.0), Some(11.0), Some(12.0)],
        false,
    );
    assert_eq!(out.writes.len(), 3);
    assert!(out.writes.iter().all(|w| matches!(w, Some(ShoreWrite::Impose(_)))));
}
