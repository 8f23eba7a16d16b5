use multiplus_ess_controller::battery_limits::clamp_bounds;
use multiplus_ess_controller::battery_limits::BatteryBroker;
use multiplus_ess_controller::battery_limits::Inputs;
use multiplus_ess_controller::battery_limits::Limits;
use multiplus_ess_controller::battery_limits::Mode;
use multiplus_ess_controller::battery_limits::Reads;
use multiplus_ess_controller::num::Num;
use multiplus_ess_controller::states::bl;

fn n(x: i64) -> Num {
    Num::of(x)
}

fn healthy() -> Reads {
    Reads {
        dvcc: Some(true),
        firmware: Some(0x560),
        dc_voltage: Some(Num::Fin(52_440_000)),
        bms_ccl: Some(n(280)),
        bms_dcl: Some(n(280)),
        pv_current: Some(n(0)),
        multi_max_charge_current: Some(n(140)),
        sustain: Some(false),
        max_charge_power: Some(n(-1)),
        max_discharge_power: Some(n(-1)),
        charge_pct: Some(n(100)),
        discharge_pct: Some(n(100)),
        bl_state: Some(bl::SOCG_DEFAULT),
        bl_min_soc: Some(n(10)),
    }
}

fn legacy() -> Reads {
    Reads { dvcc: Some(false), ..healthy() }
}

fn managed() -> BatteryBroker {
    let name = "com.victronenergy.battery.socketcan".to_string();
    BatteryBroker::new(Some(true), Some(0x560), Some(name), &Vec::new())
}

fn unmanaged() -> BatteryBroker {
    BatteryBroker::new(Some(false), Some(0x560), None, &Vec::new())
}

#[test]
fn discharge_power_is_current_times_voltage_times_efficiency() {
    let t = managed().tick(&healthy());
    assert_eq!(t.enforced.max_discharge_power, Num::Fin(13_214_880_000));
    assert_eq!(t.published, t.enforced);
    assert_eq!(t.enforced.max_charge_power, Num::Nan);
}

#[test]
fn the_efficiency_drops_at_the_knee() {
    let mut r = healthy();
    r.dc_voltage = Some(n(50));
    r.bms_dcl = Some(n(14));
    assert_eq!(managed().tick(&r).enforced.max_discharge_power, n(420));
    r.bms_dcl = Some(n(15));
    assert_eq!(managed().tick(&r).enforced.max_discharge_power, n(675));
    r.pv_current = Some(n(5));
    r.bms_dcl = Some(n(10));
    assert_eq!(managed().tick(&r).enforced.max_discharge_power, n(675));
}

#[test]
fn legacy_mode_holds_an_offset_back_or_halves() {
    let mut r = legacy();
    r.dc_voltage = Some(n(50));
    r.bms_dcl = Some(n(27));
    assert_eq!(managed().tick(&r).enforced.max_discharge_power, n(900));
    r.bms_dcl = Some(n(10));
    assert_eq!(managed().tick(&r).enforced.max_discharge_power, n(225));
}

#[test]
fn legacy_charge_power_follows_the_battery_and_the_setting() {
    let mut r = legacy();
    r.dc_voltage = Some(n(97));
    r.bms_ccl = Some(n(10));
    assert_eq!(managed().tick(&r).enforced.max_charge_power, n(1000));
    r.charge_pct = Some(n(50));
    assert_eq!(managed().tick(&r).enforced.max_charge_power, n(500));
    r.max_charge_power = Some(n(300));
    assert_eq!(managed().tick(&r).enforced.max_charge_power, n(300));
    r.bms_ccl = None;
    r.max_charge_power = None;
    assert_eq!(managed().tick(&r).enforced.max_charge_power, n(6790));
    r.charge_pct = Some(n(100));
    assert_eq!(managed().tick(&r).enforced.max_charge_power, Num::Nan);
}

#[test]
fn discharge_follows_the_battery_down_to_nothing() {
    let mut b = managed();
    let mut last = b.tick(&healthy()).enforced.max_discharge_power;
    for amps in [200, 100, 40, 15, 14, 5, 1, 0] {
        let mut r = healthy();
        r.bms_dcl = Some(n(amps));
        let now = b.tick(&r).enforced.max_discharge_power;
        assert!(now.le(last));
        last = now;
    }
    assert_eq!(last, n(0));
}

#[test]
fn a_limit_that_is_unknown_or_lost_blocks_discharge() {
    let mut b = managed();
    let mut r = healthy();
    r.bms_dcl = None;
    assert_eq!(b.tick(&r).enforced.max_discharge_power, n(0));
    assert!(n(0).lt(b.tick(&healthy()).enforced.max_discharge_power));
    assert_eq!(b.tick(&r).enforced.max_discharge_power, n(0));
    r.bms_dcl = Some(Num::Nan);
    assert_eq!(b.tick(&r).enforced.max_discharge_power, n(0));
}

#[test]
fn a_recomputation_needs_a_known_limit() {
    let i = |dcl: Option<Num>| Inputs {
        dc_voltage: n(50),
        bms_ccl: Some(n(100)),
        bms_dcl: dcl,
        pv_current: n(0),
        multi_max_charge_current: n(140),
        sustain: false,
        s_max_charge_power: Num::Nan,
        s_max_discharge_power: Num::Nan,
        s_charge_pct: n(100),
        s_discharge_pct: n(100),
        bl_state: bl::SOCG_DEFAULT,
        bl_min_soc: n(10),
    };
    let unknown = [None, Some(Num::Nan), Some(Num::PosInf), Some(n(0)), Some(n(-5))];
    for dcl in unknown {
        assert_eq!(managed().recompute(&i(dcl)).max_discharge_power, n(0));
    }
    let mut b = unmanaged();
    assert_eq!(b.recompute(&i(None)).max_discharge_power, Num::Nan);
    assert!(n(0).lt(b.recompute(&i(Some(n(100)))).max_discharge_power));
    for dcl in unknown {
        assert_eq!(b.recompute(&i(dcl)).max_discharge_power, n(0));
    }
    let mut held = i(Some(n(100)));
    held.sustain = true;
    assert_eq!(b.recompute(&held).max_discharge_power, n(0));
    held.sustain = false;
    held.bl_state = bl::SUSTAIN;
    assert_eq!(b.recompute(&held).max_discharge_power, n(0));
}

#[test]
fn without_a_manager_discharge_is_on_or_off() {
    let mut r = legacy();
    r.bms_dcl = None;
    assert_eq!(unmanaged().tick(&r).enforced.max_discharge_power, Num::Nan);
    r.discharge_pct = Some(n(49));
    assert_eq!(unmanaged().tick(&r).enforced.max_discharge_power, n(0));
}

#[test]
fn states_that_forbid_discharge_block_it() {
    let mut r = healthy();
    r.sustain = Some(true);
    assert_eq!(managed().tick(&r).enforced.max_discharge_power, n(0));
    for s in [bl::SUSTAIN, bl::DISCHARGED, bl::FORCE_CHARGE, bl::LOW_SOC_CHARGE] {
        let mut r = healthy();
        r.bl_state = Some(s);
        assert_eq!(managed().tick(&r).enforced.max_discharge_power, n(0), "state {s}");
    }
}

#[test]
fn the_configured_limit_caps_discharge() {
    let mut r = healthy();
    r.max_discharge_power = Some(n(2500));
    assert_eq!(managed().tick(&r).enforced.max_discharge_power, n(2500));
    r.discharge_pct = Some(n(10));
    assert_eq!(managed().tick(&r).enforced.max_discharge_power, Num::Fin(1_321_488_000));
}

#[test]
fn a_dropped_read_keeps_the_mode() {
    let mut b = managed();
    assert_eq!(b.mode, Mode::Regular);
    let mut r = healthy();
    r.firmware = None;
    r.dvcc = Some(false);
    b.tick(&r);
    assert_eq!(b.mode, Mode::Regular);
    b.tick(&legacy());
    assert_eq!(b.mode, Mode::Legacy);
    assert_eq!(BatteryBroker::new(None, None, None, &Vec::new()).mode, Mode::Legacy);
    assert_eq!(BatteryBroker::new(Some(true), Some(0x414), None, &Vec::new()).mode, Mode::Legacy);
}

#[test]
fn no_limit_is_negative() {
    let mut r = legacy();
    r.dc_voltage = Some(n(-50));
    let t = managed().tick(&r);
    assert_eq!(t.enforced.max_charge_power, n(0));
    assert_eq!(t.enforced.max_discharge_power, n(0));
}

#[test]
fn the_battery_service_is_found_once() {
    let found = |b: &BatteryBroker| b.bms_service.clone();
    let services = vec!["com.victronenergy.battery.b".to_string()];
    let mut b = unmanaged();
    assert_eq!(found(&b), None);
    b.resolve(None, &services);
    assert_eq!(found(&b), Some("com.victronenergy.battery.b".to_string()));
    b.resolve(Some("com.victronenergy.battery.a".to_string()), &services);
    assert_eq!(found(&b), Some("com.victronenergy.battery.b".to_string()));
}

#[test]
fn bounds_respect_battery_and_envelope_and_admit_idling() {
    let l = Limits { max_charge_power: n(3000), max_discharge_power: n(1000) };
    assert_eq!(clamp_bounds(l, n(-7030), n(7030)), (n(-1000), n(3000)));
    assert_eq!(clamp_bounds(l, n(-500), n(700)), (n(-500), n(700)));
    let free = Limits { max_charge_power: Num::Nan, max_discharge_power: Num::Nan };
    assert_eq!(clamp_bounds(free, n(-7030), n(7030)), (n(-7030), n(7030)));
    assert_eq!(free.charge_bound(), Num::PosInf);
    assert_eq!(free.discharge_bound(), Num::PosInf);
    let none = Limits { max_charge_power: n(0), max_discharge_power: n(0) };
    assert_eq!(clamp_bounds(none, n(-7030), n(7030)), (n(0), n(0)));
}
