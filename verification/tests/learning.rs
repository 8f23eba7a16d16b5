use multiplus_ess_controller::control::clamp;
use multiplus_ess_controller::control::AdaptiveCfg;
use multiplus_ess_controller::control::Controller;
use multiplus_ess_controller::control::FfMode;
use multiplus_ess_controller::control::Kind;
use multiplus_ess_controller::fine::Fine;
use multiplus_ess_controller::fine::LIMIT;
use multiplus_ess_controller::fine::ONE;
use multiplus_ess_controller::num::Num;
use multiplus_ess_controller::rls::is_variance;
use multiplus_ess_controller::rls::RlsModel;
use multiplus_ess_controller::rls::A_ABS_MAX;
use multiplus_ess_controller::rls::B_ABS_MAX;
use multiplus_ess_controller::rls::PRIOR_A_VAR_SEED;
use multiplus_ess_controller::rls::PRIOR_A_VAR_WIDE;
use multiplus_ess_controller::rls::PRIOR_B_VAR_SEED;
use multiplus_ess_controller::rls::PRIOR_B_VAR_WIDE;

fn n(x: i64) -> Num {
    Num::of(x)
}

fn lo() -> Num {
    n(-7030)
}

fn hi() -> Num {
    n(7030)
}

fn cold() -> RlsModel {
    RlsModel::new(n(0), n(0), false, Num::Fin(999_000))
}

fn units(f: Fine) -> i128 {
    match f {
        Fine::Fin(v) => v,
        Fine::Out => panic!("out of range"),
    }
}

#[test]
fn fine_numbers_carry_fifteen_digits() {
    assert_eq!(Fine::of(n(2)), Fine::Fin(2 * ONE));
    assert_eq!(Fine::of(Num::Nan), Fine::Out);
    assert_eq!(Fine::Fin(2 * ONE).plus(Fine::Fin(1)), Fine::Fin(2 * ONE + 1));
    assert_eq!(Fine::Fin(1).minus(Fine::Fin(3)), Fine::Fin(-2));
    assert_eq!(Fine::Fin(ONE / 2).times(Fine::Fin(3 * ONE)), Fine::Fin(3 * ONE / 2));
    assert_eq!(Fine::Fin(ONE).over(Fine::Fin(4 * ONE)), Fine::Fin(ONE / 4));
    assert_eq!(Fine::Fin(8).scaled(Num::Fin(1_500_000)), Fine::Fin(12));
    assert_eq!(Fine::Fin(9).shared(Num::Fin(900_000)), Fine::Fin(10));
    assert_eq!(Fine::Fin(1_499_999_999).to_num(), Num::Fin(1));
    assert_eq!(Fine::Fin(1_500_000_000).to_num(), Num::Fin(2));
}

#[test]
fn fine_numbers_that_cannot_be_held_stay_out() {
    assert_eq!(Fine::Fin(LIMIT).plus(Fine::Fin(1)), Fine::Out);
    assert_eq!(Fine::Fin(LIMIT).times(Fine::Fin(2 * ONE)), Fine::Out);
    assert_eq!(Fine::Fin(ONE).over(Fine::Fin(0)), Fine::Out);
    assert_eq!(Fine::Fin(ONE).over(Fine::Fin(-1)), Fine::Out);
    assert_eq!(Fine::Fin(ONE).shared(n(0)), Fine::Out);
    assert_eq!(Fine::Fin(ONE).scaled(Num::PosInf), Fine::Out);
    assert_eq!(Fine::Out.plus(Fine::Fin(1)), Fine::Out);
    assert_eq!(Fine::Out.to_num(), Num::Nan);
    assert_eq!(Fine::Fin(i128::MAX).to_num(), Num::Fin(i64::MAX));
    assert_eq!(Fine::Fin(i128::MIN).to_num(), Num::Fin(i64::MIN));
    assert!(!Fine::Out.is_above(Fine::Fin(0)) && Fine::Fin(1).is_above(Fine::Fin(0)));
}

#[test]
fn roots_are_taken_down_to_the_millionth() {
    assert_eq!(Fine::Fin(4 * ONE).root(), n(2));
    assert_eq!(Fine::Fin(2 * ONE).root(), Num::Fin(1_414_213));
    assert_eq!(Fine::Fin(0).root(), n(0));
    assert_eq!(Fine::Fin(-5).root(), n(0));
    assert_eq!(Fine::Out.root(), Num::PosInf);
    assert_eq!(Fine::Fin(999).root(), n(0));
    assert_eq!(Fine::Fin(1_000).root(), Num::Fin(1));
}

#[test]
fn a_prior_is_wide_or_seeded() {
    let wide = cold();
    assert_eq!(wide.p00, Fine::Fin(PRIOR_A_VAR_WIDE));
    assert_eq!(wide.p11, Fine::Fin(PRIOR_B_VAR_WIDE));
    assert_eq!(wide.deviation(n(0)), n(500));
    let seeded = RlsModel::new(n(25), Num::Fin(40_000), true, Num::Fin(999_000));
    assert_eq!(seeded.p00, Fine::Fin(PRIOR_A_VAR_SEED));
    assert_eq!(seeded.p11, Fine::Fin(PRIOR_B_VAR_SEED));
    assert_eq!(seeded.deviation(n(0)), n(50));
    assert_eq!(seeded.predict(n(1500)), n(85));
    assert_eq!(RlsModel::new(n(0), n(0), false, Num::Fin(5)).lambda, Num::Fin(900_000));
    assert_eq!(RlsModel::new(n(0), n(0), false, n(7)).lambda, n(1));
}

#[test]
fn the_variance_is_that_of_both_parameters() {
    assert_eq!(cold().pred_var(n(0)), Fine::Fin(250_000 * ONE));
    assert_eq!(cold().pred_var(n(1000)), Fine::Fin(500_000 * ONE));
    assert_eq!(cold().pred_var(Num::Nan), Fine::Out);
    assert_eq!(cold().deviation(Num::PosInf), Num::PosInf);
}

#[test]
fn one_sample_moves_the_prediction_by_the_gain() {
    let mut m = cold();
    m.update(n(0), n(100));
    let a = units(m.a);
    let exact = 100.0 * 250_000.0 / 250_000.999;
    assert!((a as f64 / 1e15 - exact).abs() < 1e-9);
    assert_eq!(m.b, Fine::Fin(0));
    let v = units(m.p00);
    assert!(0 < v && v < 2 * ONE);
}

#[test]
fn the_fit_finds_a_line() {
    let mut m = RlsModel::new(n(0), n(0), false, n(1));
    for k in 0..400i64 {
        let x = 100 + 13 * (k % 50);
        m.update(n(x), Num::Fin(25_000_000 + 40_000 * x));
    }
    assert!((units(m.a) - 25 * ONE).abs() < ONE / 1_000);
    assert!((units(m.b) - ONE / 25).abs() < ONE / 1_000_000);
    assert_eq!(m.predict(n(3000)).round(), n(145));
}

#[test]
fn bad_samples_teach_the_fit_nothing() {
    let mut m = cold();
    m.update(n(300), n(20));
    let before = m;
    m.update(Num::Nan, n(20));
    m.update(n(300), Num::PosInf);
    m.update(Num::NegInf, Num::Nan);
    assert_eq!(m, before);
}

#[test]
fn the_fit_stays_on_its_rails() {
    let mut m = cold();
    for _ in 0..50 {
        m.update(n(0), n(1_000_000));
        m.update(n(7000), n(-1_000_000));
        assert!(units(m.a).abs() <= A_ABS_MAX);
        assert!(units(m.b).abs() <= B_ABS_MAX);
    }
    assert_eq!(m.b, Fine::Fin(-B_ABS_MAX));
}

#[test]
fn the_covariance_stays_within_the_prior() {
    let mut m = RlsModel::new(n(0), n(0), false, Num::Fin(900_000));
    for _ in 0..20_000 {
        m.update(n(800), n(30));
        assert!(is_variance(m.p00) && is_variance(m.p11));
        assert!(units(m.p00) + units(m.p11) <= PRIOR_A_VAR_WIDE + PRIOR_B_VAR_WIDE + 1_000_000);
    }
}

#[test]
fn a_clamp_idles_on_what_is_not_finite() {
    assert_eq!(clamp(n(9000), lo(), hi()), hi());
    assert_eq!(clamp(n(-9000), lo(), hi()), lo());
    assert_eq!(clamp(n(12), lo(), hi()), n(12));
    assert_eq!(clamp(Num::Nan, lo(), hi()), n(0));
    assert_eq!(clamp(Num::PosInf, lo(), hi()), n(0));
    assert_eq!(clamp(n(5), n(10), n(-10)), n(10));
}

#[test]
fn commands_stay_in_range_for_every_law() {
    let kinds = [
        Kind::Stock,
        Kind::TrueIntegral { ki: n(1) },
        Kind::Pi { ki: Num::Fin(50_000), i_max: n(300) },
        Kind::Adaptive(AdaptiveCfg::tuned()),
    ];
    let readings = [n(0), n(100_000), n(-100_000), Num::Nan, Num::PosInf];
    for kind in kinds {
        let mut c = Controller::new(kind);
        for g in readings {
            for r in readings {
                let cmd = c.update(g, r, n(20), n(1), lo(), hi(), true);
                assert!(cmd.is_finite() && lo().le(cmd) && cmd.le(hi()));
            }
        }
    }
}

#[test]
fn the_stock_law_is_target_less_grid_plus_reported() {
    let mut c = Controller::new(Kind::Stock);
    assert_eq!(c.update(n(83), n(-1600), n(20), n(1), lo(), hi(), false), n(-1663));
    assert_eq!(c.name(), "stock");
}

#[test]
fn true_integral_accumulates_its_own_command() {
    let mut c = Controller::new(Kind::TrueIntegral { ki: n(1) });
    assert_eq!(c.update(n(100), n(-500), n(20), n(1), lo(), hi(), false), n(-660));
    assert_eq!(c.update(n(30), n(-640), n(20), n(1), lo(), hi(), false), n(-670));
    assert_eq!(c.update(Num::Nan, n(-640), n(20), n(1), lo(), hi(), false), n(0));
    assert_eq!(c.update(n(20), n(-640), n(20), n(1), lo(), hi(), false), n(-670));
    assert_eq!(c.name(), "true-integral");
}

#[test]
fn the_integral_counts_error_times_time_up_to_its_rail() {
    let mut c = Controller::new(Kind::Pi { ki: Num::Fin(50_000), i_max: n(300) });
    assert_eq!(c.update(n(120), n(0), n(20), n(2), lo(), hi(), false), n(-110));
    assert_eq!(c.i, n(-10));
    for _ in 0..100 {
        c.update(n(1000), n(0), n(20), n(1), lo(), hi(), false);
    }
    assert_eq!(c.i, n(-300));
    c.update(Num::Nan, n(0), n(20), n(1), lo(), hi(), false);
    c.update(n(20), n(0), n(20), n(0), lo(), hi(), false);
    assert_eq!(c.i, n(-300));
    c.update(n(20), n(0), n(20), n(1), lo(), hi(), false);
    assert_eq!(c.i, n(-300));
    assert_eq!(c.name(), "pi");
}

#[test]
fn learn_only_commands_what_pi_commands() {
    let mut cfg = AdaptiveCfg::tuned();
    cfg.mode = FfMode::Observe;
    let mut a = Controller::new(Kind::Adaptive(cfg));
    let mut p = Controller::new(Kind::Pi { ki: cfg.ki, i_max: cfg.i_max });
    for k in 0..600i64 {
        let g = if k % 50 == 49 { Num::Nan } else { n(20 + (k % 7) - 3) };
        let r = if k % 70 == 69 { Num::Nan } else { n(-500 - (k % 5)) };
        assert_eq!(
            a.update(g, r, n(20), n(1), lo(), hi(), true),
            p.update(g, r, n(20), n(1), lo(), hi(), true)
        );
    }
    assert_ne!(a.ff, cold());
}

#[test]
fn a_cold_start_commands_what_pi_commands() {
    let cfg = AdaptiveCfg::tuned();
    let mut a = Controller::new(Kind::Adaptive(cfg));
    let mut p = Controller::new(Kind::Pi { ki: cfg.ki, i_max: cfg.i_max });
    assert_eq!(
        a.update(n(150), n(-900), n(20), n(1), lo(), hi(), true),
        p.update(n(150), n(-900), n(20), n(1), lo(), hi(), true)
    );
}

#[test]
fn confidence_is_a_fraction_of_one() {
    let c = Controller::new(Kind::Adaptive(AdaptiveCfg::tuned()));
    let s = c.ff_snapshot(n(0)).unwrap();
    assert_eq!(s.conf, Num::Fin(38_462));
    assert_eq!((s.a, s.b), (n(0), n(0)));
    assert_eq!(c.ff_snapshot(Num::Nan).unwrap().conf, n(0));
    assert!(Controller::new(Kind::Stock).ff_snapshot(n(0)).is_none());
}

#[test]
fn handing_over_to_the_model_leaves_the_command_alone() {
    let cfg = AdaptiveCfg::tuned();
    let mut c = Controller::new(Kind::Adaptive(cfg));
    c.i = n(-40);
    c.update(n(20), n(-800), n(20), n(1), lo(), hi(), true);
    let before = c;
    let first = c.update(n(20), n(-800), n(20), n(1), lo(), hi(), true);
    assert_ne!(c.ff, before.ff);
    assert_ne!(c.i, before.i);
    let conf_before = before.ff_snapshot(n(800)).unwrap().conf;
    let carried = conf_before.times(c.ff.predict(n(800))).plus(c.i);
    let applied = conf_before.times(before.ff.predict(n(800))).plus(before.i);
    assert!(carried.minus(applied).abs().le(Num::Fin(2)));
    assert!(first.is_finite());
}

#[test]
fn nothing_is_learned_without_actuation_or_while_charging_or_frozen() {
    let cfg = AdaptiveCfg::tuned();
    let mut frozen_cfg = cfg;
    frozen_cfg.mode = FfMode::Frozen;
    let cases = [(cfg, -800, false), (cfg, 800, true), (frozen_cfg, -800, true)];
    for (c, reported, learn) in cases {
        let mut k = Controller::new(Kind::Adaptive(c));
        let start = k.ff;
        for _ in 0..100 {
            k.update(n(25), n(reported), n(20), n(1), lo(), hi(), learn);
        }
        assert_eq!(k.ff, start);
    }
}

#[test]
fn an_unsteady_tick_leaves_what_the_model_says() {
    let cfg = AdaptiveCfg::tuned();
    let mut taught = Controller::new(Kind::Adaptive(cfg));
    for _ in 0..50 {
        taught.update(n(25), n(-800), n(20), n(1), lo(), hi(), true);
    }
    let cases = [
        (n(46), n(-800), n(1)),
        (n(-6), n(-800), n(1)),
        (n(25), n(-800), n(0)),
        (n(25), n(-800), n(-1)),
        (n(25), n(-900), n(1)),
        (Num::Nan, n(-800), n(1)),
        (n(25), Num::NegInf, n(1)),
    ];
    for (grid, reported, dt) in cases {
        let mut k = taught;
        k.update_adaptive(cfg, grid, reported, n(20), dt, lo(), hi(), true);
        for x in [0, 300, 800, 5000] {
            assert_eq!(k.ff_snapshot(n(x)), taught.ff_snapshot(n(x)));
        }
    }
    let mut k = taught;
    k.update_adaptive(cfg, n(45), n(-800), n(20), n(1), lo(), hi(), true);
    assert_ne!(k.ff_snapshot(n(800)), taught.ff_snapshot(n(800)));
}

#[test]
fn a_reading_beyond_the_range_drives_to_the_bound() {
    let far = Num::Fin(i64::MAX);
    for kind in [Kind::Stock, Kind::Pi { ki: Num::Fin(50_000), i_max: n(300) }] {
        let mut c = Controller::new(kind);
        assert_eq!(c.update(far, n(-500), n(-20), n(1), lo(), hi(), false), lo());
        assert_eq!(c.update(far.neg(), n(500), n(20), n(1), lo(), hi(), false), hi());
    }
}

#[test]
fn a_reset_keeps_what_was_learned() {
    let mut c = Controller::new(Kind::Adaptive(AdaptiveCfg::tuned()));
    for _ in 0..100 {
        c.update(n(25), n(-800), n(20), n(1), lo(), hi(), true);
    }
    let learned = c.ff;
    c.reset();
    assert_eq!(c.ff, learned);
    assert_eq!((c.i, c.cmd, c.prev_x), (n(0), None, None));
}

#[test]
fn a_sample_draws_the_prediction_and_does_not_drive_it_past() {
    let mut m = cold();
    let samples = [(300, 40), (800, -20), (0, 15), (2500, 100), (800, 33)];
    for (x, y) in samples {
        let before = units(Fine::of(m.predict(n(x))));
        let sample = units(Fine::of(n(y)));
        m.update(n(x), n(y));
        let after = units(Fine::of(m.predict(n(x))));
        let slack = 2_001_000_000_000;
        assert!(before.min(sample) - slack <= after && after <= before.max(sample) + slack);
        assert!((sample - after).abs() < (sample - before).abs());
    }
}
