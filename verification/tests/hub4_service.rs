#![allow(dead_code)]

use multiplus_ess_controller::hub4_service;
use multiplus_ess_controller::num::Num;
use std::time::Duration;
use std::time::Instant;

/// The quantity nearest to a floating-point number.
fn num(x: f64) -> Num {
    if x.is_nan() {
        Num::Nan
    } else if x == f64::INFINITY {
        Num::PosInf
    } else if x == f64::NEG_INFINITY {
        Num::NegInf
    } else {
        Num::Fin((x * 1e6).round() as i64)
    }
}

/// The floating-point number nearest to a quantity.
fn val(n: Num) -> f64 {
    match n {
        Num::Nan => f64::NAN,
        Num::NegInf => f64::NEG_INFINITY,
        Num::PosInf => f64::INFINITY,
        Num::Fin(m) => m as f64 / 1e6,
    }
}

fn nums(o: Option<f64>) -> Option<Num> {
    o.map(num)
}

fn vals(o: Option<Num>) -> Option<f64> {
    o.map(val)
}

#[derive(Clone, Default, PartialEq)]
struct Published {
    max_charge_power: Option<f64>,
    max_discharge_power: Option<f64>,
    alarms_no_grid_meter: i32,
}

/// The store, with the clock readings that stand for its instants.
struct OverrideStore {
    inner: hub4_service::OverrideStore,
    origin: Instant,
    setpoint: Option<f64>,
    feed_in_excess: i32,
    force_charge: bool,
}

impl OverrideStore {
    fn new(ttl: Duration) -> Self {
        let inner = hub4_service::OverrideStore::new(ttl.as_nanos() as u64);
        OverrideStore {
            inner,
            origin: Instant::now(),
            setpoint: None,
            feed_in_excess: 0,
            force_charge: false,
        }
    }
    fn at(&self, now: Instant) -> u64 {
        now.duration_since(self.origin).as_nanos() as u64
    }
    fn mirror(&mut self) {
        self.setpoint = vals(self.inner.setpoint);
        self.feed_in_excess = self.inner.feed_in_excess;
        self.force_charge = self.inner.force_charge;
    }
    fn set_setpoint(&mut self, v: Option<f64>, now: Instant) {
        let t = self.at(now);
        self.inner.set_setpoint(nums(v), t);
        self.mirror();
    }
    fn set_feed_in_excess(&mut self, v: i32, now: Instant) {
        let t = self.at(now);
        self.inner.set_feed_in_excess(v, t);
        self.mirror();
    }
    fn expire(&mut self, now: Instant) {
        let t = self.at(now);
        self.inner.expire(t);
        self.mirror();
    }
    fn active(&self) -> bool {
        self.inner.active()
    }
}

struct Hub4Service {
    inner: hub4_service::Hub4Service,
}

impl Hub4Service {
    fn new() -> Self {
        Hub4Service { inner: hub4_service::Hub4Service::new() }
    }
    fn publish(&mut self, p: Published) {
        self.inner.publish(hub4_service::Published {
            max_charge_power: nums(p.max_charge_power),
            max_discharge_power: nums(p.max_discharge_power),
            alarms_no_grid_meter: p.alarms_no_grid_meter,
            ..hub4_service::Published::default()
        });
    }
    fn read_back(&self) -> Published {
        let p = self.inner.published_handle();
        Published {
            max_charge_power: vals(p.max_charge_power),
            max_discharge_power: vals(p.max_discharge_power),
            alarms_no_grid_meter: p.alarms_no_grid_meter,
        }
    }
}

#[test]
fn override_setpoint_finite_only() {
    let mut o = OverrideStore::new(Duration::from_secs(300));
    let t = Instant::now();
    o.set_setpoint(Some(-500.0), t);
    assert_eq!(o.setpoint, Some(-500.0));
    o.set_setpoint(Some(f64::NAN), t);
    assert_eq!(o.setpoint, None);
    o.set_setpoint(None, t);
    assert_eq!(o.setpoint, None);
}

#[test]
fn feed_in_excess_clamped() {
    let mut o = OverrideStore::new(Duration::from_secs(300));
    let t = Instant::now();
    o.set_feed_in_excess(5, t);
    assert_eq!(o.feed_in_excess, 2);
    o.set_feed_in_excess(-3, t);
    assert_eq!(o.feed_in_excess, 0);
}

#[test]
fn watchdog_expires_overrides() {
    let ttl = Duration::from_millis(50);
    let mut o = OverrideStore::new(ttl);
    let t0 = Instant::now();
    o.set_setpoint(Some(100.0), t0);
    o.set_feed_in_excess(2, t0);
    assert!(o.active());
    o.expire(t0 + Duration::from_millis(10));
    assert_eq!(o.setpoint, Some(100.0));
    o.expire(t0 + Duration::from_millis(60));
    assert_eq!(o.setpoint, None);
    assert_eq!(o.feed_in_excess, 0);
    assert!(!o.active());
}

#[test]
fn watchdog_rearms_on_write() {
    let ttl = Duration::from_millis(50);
    let mut o = OverrideStore::new(ttl);
    let t0 = Instant::now();
    o.set_setpoint(Some(100.0), t0);

    o.set_setpoint(Some(200.0), t0 + Duration::from_millis(40));
    o.expire(t0 + Duration::from_millis(60));
    assert_eq!(o.setpoint, Some(200.0));
}

#[test]
fn publish_and_read_back() {
    let mut svc = Hub4Service::new();
    svc.publish(Published {
        max_discharge_power: Some(13214.9),
        max_charge_power: None,
        alarms_no_grid_meter: 0,
        ..Default::default()
    });
    let g = svc.read_back();
    assert_eq!(g.max_discharge_power, Some(13214.9));
    assert_eq!(g.max_charge_power, None);
}
