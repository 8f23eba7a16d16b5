#![allow(dead_code)]

use multiplus_ess_controller::bus::as_bool;
use multiplus_ess_controller::bus::as_i32;
use multiplus_ess_controller::num::Num;
use multiplus_ess_controller::dess;
use multiplus_ess_controller::dess::FeedInExcess;
use std::time::Duration;
use std::time::Instant;
use std::collections::HashMap;

const SYS: &str = "com.victronenergy.system";
const SETTINGS: &str = "com.victronenergy.settings";
const VEBUS: &str = "com.victronenergy.vebus.ttyS3";
const HUB4: &str = "com.victronenergy.hub4";

/// The quantity nearest to a floating-point number.
fn num(x: f64) -> Num {
    if x.is_nan() {
        Num::Nan
    } else if x == f64::INFINITY {
        Num::PosInf
    } else if x == f64::NEG_INFINITY {
        Num::NegInf
    } else {
        Num::Fin((x * 1e6).round() as i64)
    }
}

/// The floating-point number nearest to a quantity.
fn val(n: Num) -> f64 {
    match n {
        Num::Nan => f64::NAN,
        Num::NegInf => f64::NEG_INFINITY,
        Num::PosInf => f64::INFINITY,
        Num::Fin(m) => m as f64 / 1e6,
    }
}

fn nums(o: Option<f64>) -> Option<Num> {
    o.map(num)
}

fn vals(o: Option<Num>) -> Option<f64> {
    o.map(val)
}

trait Bus {
    fn get_f64(&self, service: &str, path: &str) -> Option<f64>;
    fn get_str(&self, service: &str, path: &str) -> Option<String>;
    fn list_services(&self, prefix: &str) -> Vec<String>;
    fn set_i32(&self, service: &str, path: &str, value: i32) -> Result<(), String>;
    fn set_f64(&self, service: &str, path: &str, value: f64) -> Result<(), String>;
    fn get_num(&self, service: &str, path: &str) -> Option<Num> {
        nums(self.get_f64(service, path))
    }
    fn get_bool(&self, service: &str, path: &str) -> Option<bool> {
        self.get_num(service, path).map(as_bool)
    }
    fn get_i32(&self, service: &str, path: &str) -> Option<i32> {
        self.get_num(service, path).map(as_i32)
    }
}

/// A bus held in memory.
struct MockBus {
    f: HashMap<(String, String), f64>,
    s: HashMap<(String, String), String>,
    services: Vec<String>,
}

impl MockBus {
    fn new() -> Self {
        MockBus { f: HashMap::new(), s: HashMap::new(), services: Vec::new() }
    }
    fn set(&mut self, svc: &str, path: &str, v: f64) {
        self.f.insert((svc.into(), path.into()), v);
    }
    fn set_str(&mut self, svc: &str, path: &str, v: &str) {
        self.s.insert((svc.into(), path.into()), v.into());
    }
    fn clear(&mut self, svc: &str, path: &str) {
        self.f.remove(&(svc.into(), path.into()));
    }
    fn add_service(&mut self, name: &str) {
        self.services.push(name.into());
    }
}

impl Bus for MockBus {
    fn get_f64(&self, svc: &str, path: &str) -> Option<f64> {
        self.f.get(&(svc.into(), path.into())).copied()
    }
    fn get_str(&self, svc: &str, path: &str) -> Option<String> {
        self.s.get(&(svc.into(), path.into())).cloned()
    }
    fn list_services(&self, prefix: &str) -> Vec<String> {
        multiplus_ess_controller::text::select_prefix(&self.services, prefix)
    }
    fn set_i32(&self, _: &str, _: &str, _: i32) -> Result<(), String> {
        Ok(())
    }
    fn set_f64(&self, _: &str, _: &str, _: f64) -> Result<(), String> {
        Ok(())
    }
}

const P_OVR_SETPOINT: &str = "/Overrides/Setpoint";
const P_OVR_FEEDIN: &str = "/Overrides/FeedInExcess";

#[derive(Clone, Copy, Debug, PartialEq)]
struct DessOut {
    target_override: Option<f64>,
    feed_in_excess: i32,
}

impl DessOut {
    fn plain(&self) -> dess::DessOut {
        dess::DessOut {
            target_override: nums(self.target_override),
            feed_in_excess: self.feed_in_excess,
        }
    }
    fn target(&self, configured: f64) -> f64 {
        val(self.plain().target(num(configured)))
    }
    fn feedin(&self) -> FeedInExcess {
        self.plain().feedin()
    }
}

struct Dess {
    inner: dess::Dess,
    origin: Instant,
}

impl Dess {
    fn new(_bus: &dyn Bus) -> Self {
        Dess { inner: dess::Dess::new(0), origin: Instant::now() }
    }
    fn tick(&mut self, bus: &dyn Bus) -> DessOut {
        self.tick_at(bus, Instant::now())
    }
    fn tick_at(&mut self, bus: &dyn Bus, now: Instant) -> DessOut {
        let o = self.inner.tick(
            bus.get_num(HUB4, P_OVR_SETPOINT),
            bus.get_i32(HUB4, P_OVR_FEEDIN),
            now.duration_since(self.origin).as_nanos() as u64,
        );
        DessOut { target_override: vals(o.target_override), feed_in_excess: o.feed_in_excess }
    }
}

const CONFIGURED: f64 = 20.0;

#[test]
fn dess_finite_override_swaps_the_target() {
    let mut bus = MockBus::new();
    bus.set(HUB4, P_OVR_SETPOINT, -2000.0);
    let mut d = Dess::new(&bus);
    let out = d.tick(&bus);
    assert_eq!(out.target_override, Some(-2000.0));
    assert_eq!(out.target(CONFIGURED), -2000.0);
}

#[test]
fn dess_zero_override_is_finite_and_overrides_not_fallback() {

    let mut bus = MockBus::new();
    bus.set(HUB4, P_OVR_SETPOINT, 0.0);
    let mut d = Dess::new(&bus);
    let out = d.tick(&bus);
    assert_eq!(out.target_override, Some(0.0));
    assert_eq!(out.target(CONFIGURED), 0.0);
}

#[test]
fn dess_absent_override_falls_back_to_configured() {

    let bus = MockBus::new();
    let mut d = Dess::new(&bus);
    let out = d.tick(&bus);
    assert_eq!(out.target_override, None);
    assert_eq!(out.target(CONFIGURED), CONFIGURED);
    assert_eq!(out.feed_in_excess, 0);
}

#[test]
fn dess_nan_override_falls_back_to_configured() {

    let mut bus = MockBus::new();
    bus.set(HUB4, P_OVR_SETPOINT, f64::NAN);
    let mut d = Dess::new(&bus);
    let out = d.tick(&bus);
    assert_eq!(out.target_override, None);
    assert_eq!(out.target(CONFIGURED), CONFIGURED);
}

#[test]
fn dess_feedin_excess_mapping() {
    assert_eq!(FeedInExcess::from_i32(0), FeedInExcess::Follow);
    assert_eq!(FeedInExcess::from_i32(1), FeedInExcess::Disable);
    assert_eq!(FeedInExcess::from_i32(2), FeedInExcess::Enable);
    assert_eq!(FeedInExcess::from_i32(99), FeedInExcess::Follow);

    for (raw, expect) in [(0, FeedInExcess::Follow), (1, FeedInExcess::Disable), (2, FeedInExcess::Enable)] {
        let mut bus = MockBus::new();
        bus.set(HUB4, P_OVR_FEEDIN, raw as f64);
        let mut d = Dess::new(&bus);
        let out = d.tick(&bus);
        assert_eq!(out.feed_in_excess, raw);
        assert_eq!(out.feedin(), expect);
    }
}

#[test]
fn dess_watchdog_reverts_stale_override_to_normal() {
    let mut bus = MockBus::new();
    bus.set(HUB4, P_OVR_SETPOINT, -3000.0);
    bus.set(HUB4, P_OVR_FEEDIN, 2.0);
    let mut d = Dess::new(&bus);
    let t0 = Instant::now();

    let fresh = d.tick_at(&bus, t0);
    assert_eq!(fresh.target_override, Some(-3000.0));
    assert_eq!(fresh.feed_in_excess, 2);

    let mid = d.tick_at(&bus, t0 + Duration::from_secs(299));
    assert_eq!(mid.target_override, Some(-3000.0));

    let stale = d.tick_at(&bus, t0 + Duration::from_secs(301));
    assert_eq!(stale.target_override, None);
    assert_eq!(stale.target(CONFIGURED), CONFIGURED);
    assert_eq!(stale.feed_in_excess, 0);
}

#[test]
fn dess_watchdog_rearms_when_override_changes() {

    let mut bus = MockBus::new();
    bus.set(HUB4, P_OVR_SETPOINT, -1000.0);
    let mut d = Dess::new(&bus);
    let t0 = Instant::now();
    assert_eq!(d.tick_at(&bus, t0).target_override, Some(-1000.0));

    bus.set(HUB4, P_OVR_SETPOINT, -1500.0);
    assert_eq!(d.tick_at(&bus, t0 + Duration::from_secs(290)).target_override, Some(-1500.0));

    let out = d.tick_at(&bus, t0 + Duration::from_secs(580));
    assert_eq!(out.target_override, Some(-1500.0));
}

#[test]
fn dess_watchdog_ignores_absent_override() {

    let bus = MockBus::new();
    let mut d = Dess::new(&bus);
    let t0 = Instant::now();
    let a = d.tick_at(&bus, t0);
    let b = d.tick_at(&bus, t0 + Duration::from_secs(10_000));
    assert_eq!(a, b);
    assert_eq!(b.target_override, None);
    assert_eq!(b.feed_in_excess, 0);
}
