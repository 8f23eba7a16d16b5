//! Control laws for the AC-in power loop.
//!
//! Each controller outputs the inverter command directly: negative discharges,
//! positive charges. The inputs are the measured grid power (import positive), the
//! inverter's reported AC-in power (discharge negative), the grid setpoint, and the
//! seconds since the previous tick.
//!
//! The adaptive controller adds a learned feed-forward, `a + b * |reported|`, to the
//! residual integral. The model is taught by the integral which bias each load needs,
//! and earns authority only as its confidence grows; without data it does nothing, and
//! the law is that of `Pi`. What is learned lives in memory alone.

use crate::num::moderate;
use crate::num::near;
use crate::num::products_are_rounded;
use crate::num::quotients_are_rounded;
use crate::num::sums_are_exact;
use crate::num::Num;
use crate::rls::RlsModel;
use vstd::prelude::*;

verus! {

pub open spec fn spec_clamp(x: Num, lo: Num, hi: Num) -> Num {
    if !x.is_finite() {
        Num::Fin(0)
    } else if x.lt(lo) {
        lo
    } else if hi.max(lo).lt(x) {
        hi.max(lo)
    } else {
        x
    }
}

/// `x` held between `lo` and `hi`. A value that is not finite becomes idle (0), and
/// bounds that are the wrong way round collapse onto `lo`.
#[verifier::when_used_as_spec(spec_clamp)]
pub fn clamp(x: Num, lo: Num, hi: Num) -> (r: Num)
    ensures
        r == clamp(x, lo, hi),
{
    if !x.is_finite() {
        return Num::Fin(0);
    }
    let hi = hi.max(lo);
    if x.lt(lo) {
        lo
    } else if hi.lt(x) {
        hi
    } else {
        x
    }
}

/// A clamped value is idle, or lies within the bounds: nothing that is not finite
/// gets through, and the range is never widened.
pub proof fn clamp_stays_in_range(x: Num, lo: Num, hi: Num)
    requires
        lo.is_finite(),
        hi.is_finite(),
        lo.le(hi),
    ensures
        clamp(x, lo, hi).is_finite(),
        x.is_finite() ==> lo.le(clamp(x, lo, hi)) && clamp(x, lo, hi).le(hi),
        !x.is_finite() ==> clamp(x, lo, hi) == Num::Fin(0),
        x.is_finite() && lo.le(x) && x.le(hi) ==> clamp(x, lo, hi) == x,
{
}

/// How the adaptive feed-forward model is used.
#[derive(Clone, Copy, Debug, PartialEq, Eq, Structural)]
pub enum FfMode {
    /// Learn the model and apply it, weighted by its confidence.
    Apply,
    /// Learn only: keep updating the model, but act on the integral alone.
    Observe,
    /// Do not learn: apply the seeded model as a fixed feed-forward.
    Frozen,
}

/// Static configuration of the adaptive controller.
#[derive(Clone, Copy, Debug, PartialEq, Eq, Structural)]
pub struct AdaptiveCfg {
    pub ki: Num,
    pub i_max: Num,
    /// Seed offset (W) and slope (W per W of throughput); both 0 for a cold start.
    pub a0: Num,
    pub b0: Num,
    /// The caller supplied a seed: start with more trust in it.
    pub seeded: bool,
    /// Forgetting factor of the fit, above 0 and at most 1.
    pub lambda: Num,
    /// Standard deviation of the forecast (W) at which the model has half authority.
    pub conf_scale_w: Num,
    /// Learn only while the grid error and the change of throughput since the last
    /// tick both stay within this band (W).
    pub steady_band_w: Num,
    pub mode: FfMode,
}

impl AdaptiveCfg {
    /// The default tuning.
    pub fn tuned() -> (c: Self)
        ensures
            c == (AdaptiveCfg {
                ki: Num::Fin(50_000),
                i_max: Num::Fin(300_000_000),
                a0: Num::Fin(0),
                b0: Num::Fin(0),
                seeded: false,
                lambda: Num::Fin(999_000),
                conf_scale_w: Num::Fin(20_000_000),
                steady_band_w: Num::Fin(25_000_000),
                mode: FfMode::Apply,
            }),
    {
        AdaptiveCfg {
            ki: Num::Fin(50_000),
            i_max: Num::Fin(300_000_000),
            a0: Num::Fin(0),
            b0: Num::Fin(0),
            seeded: false,
            lambda: Num::Fin(999_000),
            conf_scale_w: Num::Fin(20_000_000),
            steady_band_w: Num::Fin(25_000_000),
            mode: FfMode::Apply,
        }
    }
}

/// The control law to run.
#[derive(Clone, Copy, Debug, PartialEq, Eq, Structural)]
pub enum Kind {
    /// The stock law, `target - grid + reported`: no integral.
    Stock,
    /// Integrate on our own previous command instead of the reported power.
    TrueIntegral { ki: Num },
    /// The stock law plus a slow integral on the residual.
    Pi { ki: Num, i_max: Num },
    /// As `Pi`, plus the learned feed-forward.
    Adaptive(AdaptiveCfg),
}

/// A controller with its state.
#[derive(Clone, Copy, Debug, PartialEq, Eq, Structural)]
pub struct Controller {
    pub kind: Kind,
    /// The accumulated command of `TrueIntegral`.
    pub cmd: Option<Num>,
    /// The residual integral of `Pi` and `Adaptive`.
    pub i: Num,
    /// The learned model of `Adaptive`; the other laws do not use it.
    pub ff: RlsModel,
    /// The throughput of the previous tick.
    pub prev_x: Option<Num>,
}

/// The learned model, for the log: its parameters and its confidence.
#[derive(Clone, Copy, Debug, PartialEq, Eq, Structural)]
pub struct FfSnapshot {
    pub a: Num,
    pub b: Num,
    pub conf: Num,
}

/// The stock law: the command that would put the grid on the target.
pub open spec fn stock_law(grid: Num, reported: Num, target: Num) -> Num {
    target.minus(grid).plus(reported)
}

/// The residual integral after a tick. It is held through a reading that is not
/// finite and through a tick that took no time.
pub open spec fn integral_after(i: Num, ki: Num, i_max: Num, err: Num, dt: Num) -> Num {
    if err.is_finite() && Num::Fin(0).lt(dt) {
        clamp(i.plus(ki.times(err).times(dt)), i_max.neg(), i_max)
    } else {
        i
    }
}

fn integrate(i: Num, ki: Num, i_max: Num, err: Num, dt: Num) -> (r: Num)
    ensures
        r == integral_after(i, ki, i_max, err, dt),
{
    if err.is_finite() && Num::Fin(0).lt(dt) {
        clamp(i.plus(ki.times(err).times(dt)), i_max.neg(), i_max)
    } else {
        i
    }
}

/// How sure the model is of its prediction at throughput `x`: `scale / (scale + sigma)`.
pub open spec fn confidence(c: AdaptiveCfg, ff: RlsModel, x: Num) -> Num {
    c.conf_scale_w.over(c.conf_scale_w.plus(ff.deviation(x)))
}

/// The weight of the model at throughput `x`: none at an unknown throughput.
pub open spec fn authority(c: AdaptiveCfg, ff: RlsModel, x: Num) -> Num {
    if !x.is_finite() {
        Num::Fin(0)
    } else {
        match c.mode {
            FfMode::Apply => confidence(c, ff, x),
            FfMode::Observe => Num::Fin(0),
            FfMode::Frozen => Num::Fin(1_000_000),
        }
    }
}

fn weigh(c: AdaptiveCfg, ff: RlsModel, x: Num) -> (r: Num)
    ensures
        r == authority(c, ff, x),
{
    if !x.is_finite() {
        Num::Fin(0)
    } else {
        match c.mode {
            FfMode::Apply => c.conf_scale_w.over(c.conf_scale_w.plus(ff.deviation(x))),
            FfMode::Observe => Num::Fin(0),
            FfMode::Frozen => Num::Fin(1_000_000),
        }
    }
}

/// The bias applied beyond the stock law: the weighted prediction plus the integral.
pub open spec fn bias(c: AdaptiveCfg, ff: RlsModel, i: Num, x: Num) -> Num {
    (if x.is_finite() {
        authority(c, ff, x).times(ff.predict(x))
    } else {
        Num::Fin(0)
    }).plus(i)
}

/// Is this tick fit to learn from? Only while our command drives the plant, the grid
/// error and the throughput have settled, time has passed, and the inverter does not
/// charge.
pub open spec fn steady(
    c: AdaptiveCfg,
    prev_x: Option<Num>,
    grid: Num,
    reported: Num,
    target: Num,
    dt: Num,
    learn: bool,
) -> bool {
    &&& learn
    &&& target.minus(grid).abs().le(c.steady_band_w)
    &&& prev_x is Some
    &&& reported.abs().minus(prev_x->0).abs().le(c.steady_band_w)
    &&& Num::Fin(0).lt(dt)
    &&& grid.is_finite()
    &&& reported.is_finite()
    &&& reported.le(Num::Fin(0))
}

impl Controller {
    /// The state of a controller that has just been made.
    pub open spec fn fresh(kind: Kind) -> Controller {
        Controller {
            kind,
            cmd: None,
            i: Num::Fin(0),
            ff: match kind {
                Kind::Adaptive(c) => RlsModel::prior(c.a0, c.b0, c.seeded, c.lambda),
                _ => RlsModel::prior(Num::Fin(0), Num::Fin(0), false, Num::Fin(999_000)),
            },
            prev_x: None,
        }
    }

    pub fn new(kind: Kind) -> (c: Self)
        ensures
            c == Controller::fresh(kind),
            c.ff.wf(),
    {
        let ff = match kind {
            Kind::Adaptive(c) => RlsModel::new(c.a0, c.b0, c.seeded, c.lambda),
            _ => RlsModel::new(Num::Fin(0), Num::Fin(0), false, Num::Fin(999_000)),
        };
        Controller { kind, cmd: None, i: Num::Fin(0), ff, prev_x: None }
    }

    /// The short name of the control law.
    pub fn name(&self) -> (s: &'static str)
        ensures
            s@ == (match self.kind {
                Kind::Stock => "stock"@,
                Kind::TrueIntegral { .. } => "true-integral"@,
                Kind::Pi { .. } => "pi"@,
                Kind::Adaptive(_) => "adaptive"@,
            }),
    {
        match self.kind {
            Kind::Stock => "stock",
            Kind::TrueIntegral { .. } => "true-integral",
            Kind::Pi { .. } => "pi",
            Kind::Adaptive(_) => "adaptive",
        }
    }

    /// The controller without its transient state; what was learned stays.
    pub open spec fn cleared(self) -> Controller {
        Controller { cmd: None, i: Num::Fin(0), prev_x: None, ..self }
    }

    /// Forget the transient state, so that nothing winds up while someone else drives.
    /// The learned model is knowledge about the plant and is kept.
    pub fn reset(&mut self)
        ensures
            *final(self) == old(self).cleared(),
    {
        self.cmd = None;
        self.i = Num::Fin(0);
        self.prev_x = None;
    }

    pub open spec fn spec_ff_snapshot(&self, throughput: Num) -> Option<FfSnapshot> {
        match self.kind {
            Kind::Adaptive(c) => Some(
                FfSnapshot {
                    a: self.ff.a.to_num(),
                    b: self.ff.b.to_num(),
                    conf: if self.ff.deviation(throughput.abs()).is_finite() {
                        confidence(c, self.ff, throughput.abs())
                    } else {
                        Num::Fin(0)
                    },
                },
            ),
            _ => None,
        }
    }

    /// The learned model, where the law has one, with its confidence at a throughput.
    #[verifier::when_used_as_spec(spec_ff_snapshot)]
    pub fn ff_snapshot(&self, throughput: Num) -> (r: Option<FfSnapshot>)
        ensures
            r == self.ff_snapshot(throughput),
    {
        match self.kind {
            Kind::Adaptive(c) => {
                let sigma = self.ff.deviation(throughput.abs());
                let conf = if sigma.is_finite() {
                    c.conf_scale_w.over(c.conf_scale_w.plus(sigma))
                } else {
                    Num::Fin(0)
                };
                Some(FfSnapshot { a: self.ff.a.to_num(), b: self.ff.b.to_num(), conf })
            },
            _ => None,
        }
    }

    /// The residual integral once this tick's error has been added.
    pub open spec fn integral(self, grid: Num, target: Num, dt: Num) -> Num {
        match self.kind {
            Kind::Pi { ki, i_max } => integral_after(self.i, ki, i_max, target.minus(grid), dt),
            Kind::Adaptive(c) => integral_after(self.i, c.ki, c.i_max, target.minus(grid), dt),
            _ => self.i,
        }
    }

    /// The command of this tick.
    pub open spec fn command(
        self,
        grid: Num,
        reported: Num,
        target: Num,
        dt: Num,
        lo: Num,
        hi: Num,
    ) -> Num {
        match self.kind {
            Kind::Stock => clamp(stock_law(grid, reported, target), lo, hi),
            Kind::TrueIntegral { ki } => if grid.is_finite() {
                let c = match self.cmd {
                    Some(c) => c,
                    None => stock_law(grid, reported, target),
                };
                clamp(c.minus(ki.times(grid.minus(target))), lo, hi)
            } else {
                Num::Fin(0)
            },
            Kind::Pi { .. } => clamp(
                stock_law(grid, reported, target).plus(self.integral(grid, target, dt)),
                lo,
                hi,
            ),
            Kind::Adaptive(c) => clamp(
                stock_law(grid, reported, target).plus(
                    bias(c, self.ff, self.integral(grid, target, dt), reported.abs()),
                ),
                lo,
                hi,
            ),
        }
    }

    /// Does the model learn from this tick?
    pub open spec fn learns(
        self,
        grid: Num,
        reported: Num,
        target: Num,
        dt: Num,
        learn: bool,
    ) -> bool {
        match self.kind {
            Kind::Adaptive(c) => c.mode != FfMode::Frozen && steady(
                c,
                self.prev_x,
                grid,
                reported,
                target,
                dt,
                learn,
            ),
            _ => false,
        }
    }

    /// The model after this tick: where it learns, it learns the bias that the loop
    /// holds at the present throughput.
    pub open spec fn model_after(
        self,
        grid: Num,
        reported: Num,
        target: Num,
        dt: Num,
        learn: bool,
    ) -> RlsModel {
        match self.kind {
            Kind::Adaptive(c) => if self.learns(grid, reported, target, dt, learn) {
                self.ff.taught(
                    reported.abs(),
                    bias(c, self.ff, self.integral(grid, target, dt), reported.abs()),
                )
            } else {
                self.ff
            },
            _ => self.ff,
        }
    }

    /// The integral after this tick: what the model gained in authority by learning,
    /// the integral gives up.
    pub open spec fn integral_left(
        self,
        grid: Num,
        reported: Num,
        target: Num,
        dt: Num,
        learn: bool,
    ) -> Num {
        let i = self.integral(grid, target, dt);
        match self.kind {
            Kind::Adaptive(c) => if c.mode == FfMode::Apply && self.learns(
                grid,
                reported,
                target,
                dt,
                learn,
            ) {
                let x = reported.abs();
                let gained = self.model_after(grid, reported, target, dt, learn).predict(x).minus(
                    self.ff.predict(x),
                );
                clamp(i.minus(authority(c, self.ff, x).times(gained)), c.i_max.neg(), c.i_max)
            } else {
                i
            },
            _ => i,
        }
    }

    /// The state after this tick.
    pub open spec fn after(
        self,
        grid: Num,
        reported: Num,
        target: Num,
        dt: Num,
        lo: Num,
        hi: Num,
        learn: bool,
    ) -> Controller {
        Controller {
            kind: self.kind,
            cmd: match self.kind {
                Kind::TrueIntegral { .. } => if grid.is_finite() {
                    Some(self.command(grid, reported, target, dt, lo, hi))
                } else {
                    self.cmd
                },
                _ => self.cmd,
            },
            i: self.integral_left(grid, reported, target, dt, learn),
            ff: self.model_after(grid, reported, target, dt, learn),
            prev_x: match self.kind {
                Kind::Adaptive(_) => if reported.abs().is_finite() {
                    Some(reported.abs())
                } else {
                    None
                },
                _ => self.prev_x,
            },
        }
    }

    /// One tick of the control law. `learn` must be true only when this controller's
    /// command drives the plant; it matters to the adaptive law alone.
    pub fn update(
        &mut self,
        grid: Num,
        reported: Num,
        target: Num,
        dt: Num,
        lo: Num,
        hi: Num,
        learn: bool,
    ) -> (r: Num)
        ensures
            r == old(self).command(grid, reported, target, dt, lo, hi),
            *final(self) == old(self).after(grid, reported, target, dt, lo, hi, learn),
    {
        match self.kind {
            Kind::Stock => clamp(target.minus(grid).plus(reported), lo, hi),
            Kind::TrueIntegral { ki } => {
                if !grid.is_finite() {
                    return Num::Fin(0);
                }
                let c = match self.cmd {
                    Some(c) => c,
                    None => target.minus(grid).plus(reported),
                };
                let c = clamp(c.minus(ki.times(grid.minus(target))), lo, hi);
                self.cmd = Some(c);
                c
            },
            Kind::Pi { ki, i_max } => {
                self.i = integrate(self.i, ki, i_max, target.minus(grid), dt);
                clamp(target.minus(grid).plus(reported).plus(self.i), lo, hi)
            },
            Kind::Adaptive(c) => self.update_adaptive(
                c,
                grid,
                reported,
                target,
                dt,
                lo,
                hi,
                learn,
            ),
        }
    }

    /// One tick of the adaptive law: as `Pi`, plus the model's prediction by its weight;
    /// where the tick is fit for it, the model learns.
    pub fn update_adaptive(
        &mut self,
        c: AdaptiveCfg,
        grid: Num,
        reported: Num,
        target: Num,
        dt: Num,
        lo: Num,
        hi: Num,
        learn: bool,
    ) -> (r: Num)
        requires
            old(self).kind == Kind::Adaptive(c),
        ensures
            r == old(self).command(grid, reported, target, dt, lo, hi),
            *final(self) == old(self).after(grid, reported, target, dt, lo, hi, learn),
    {
        let x = reported.abs();
        let err = target.minus(grid);
        self.i = integrate(self.i, c.ki, c.i_max, err, dt);
        let m = self.ff.predict(x);
        let conf = weigh(c, self.ff, x);
        let term = if x.is_finite() {
            conf.times(m)
        } else {
            Num::Fin(0)
        };
        let applied = term.plus(self.i);
        let settled = match self.prev_x {
            Some(px) => x.minus(px).abs().le(c.steady_band_w),
            None => false,
        };
        let steady = learn && err.abs().le(c.steady_band_w) && settled && Num::Fin(0).lt(dt)
            && grid.is_finite() && reported.is_finite() && reported.le(Num::Fin(0));
        if c.mode != FfMode::Frozen && steady {
            self.ff.update(x, applied);
            if c.mode == FfMode::Apply {
                let gained = self.ff.predict(x).minus(m);
                self.i = clamp(self.i.minus(conf.times(gained)), c.i_max.neg(), c.i_max);
            }
        }
        self.prev_x = if x.is_finite() {
            Some(x)
        } else {
            None
        };
        clamp(target.minus(grid).plus(reported).plus(applied), lo, hi)
    }
}

/// Every command lies within the bounds or is idle, whatever was read, whatever was
/// learned and whichever law runs.
pub proof fn command_stays_in_range(
    ctrl: Controller,
    grid: Num,
    reported: Num,
    target: Num,
    dt: Num,
    lo: Num,
    hi: Num,
)
    requires
        lo.is_finite(),
        hi.is_finite(),
        lo.le(Num::Fin(0)),
        Num::Fin(0).le(hi),
    ensures
        ({
            let r = ctrl.command(grid, reported, target, dt, lo, hi);
            r.is_finite() && lo.le(r) && r.le(hi)
        }),
{
}

/// The residual integral never leaves its rails: neither the error nor what it hands
/// over to the model takes it outside.
pub proof fn integral_stays_on_its_rails(
    ctrl: Controller,
    i_max: Num,
    grid: Num,
    reported: Num,
    target: Num,
    dt: Num,
    lo: Num,
    hi: Num,
    learn: bool,
)
    requires
        i_max.is_finite(),
        Num::Fin(0).le(i_max),
        match ctrl.kind {
            Kind::Pi { i_max: m, .. } => m == i_max,
            Kind::Adaptive(c) => c.i_max == i_max,
            _ => false,
        },
        ctrl.i.is_finite(),
        ctrl.i.abs().le(i_max),
    ensures
        ({
            let i = ctrl.after(grid, reported, target, dt, lo, hi, learn).i;
            i.is_finite() && i.abs().le(i_max)
        }),
{
}

/// The integral stands still only on the target: off its rails it rests exactly where
/// the error is too small to count.
pub proof fn integral_rests_only_on_target(i: Num, ki: Num, i_max: Num, err: Num, dt: Num)
    requires
        i.is_finite(),
        i_max.is_finite(),
        i.abs().lt(i_max),
        err.is_finite(),
        Num::Fin(0).lt(dt),
        ki.times(err).times(dt).is_finite(),
    ensures
        integral_after(i, ki, i_max, err, dt) == i <==> ki.times(err).times(dt) == Num::Fin(0),
{
}

/// A bad reading changes no accumulated state: the integral, the model and the command
/// that `TrueIntegral` accumulates are held through a grid reading that is not finite,
/// and the inverter idles.
pub proof fn bad_reading_is_safe(
    ctrl: Controller,
    grid: Num,
    reported: Num,
    target: Num,
    dt: Num,
    lo: Num,
    hi: Num,
    learn: bool,
)
    requires
        !grid.is_finite(),
    ensures
        ctrl.after(grid, reported, target, dt, lo, hi, learn).i == ctrl.i,
        ctrl.after(grid, reported, target, dt, lo, hi, learn).ff == ctrl.ff,
        ctrl.after(grid, reported, target, dt, lo, hi, learn).cmd == ctrl.cmd,
        ctrl.command(grid, reported, target, dt, lo, hi) == Num::Fin(0),
{
}

/// Nothing is learned unless the command drives the plant, the model is not frozen, the
/// inverter idles or discharges, both powers are numbers, the grid error and the change
/// of throughput lie within the band, and time has passed.
pub proof fn learning_needs_actuation(
    ctrl: Controller,
    grid: Num,
    reported: Num,
    target: Num,
    dt: Num,
    lo: Num,
    hi: Num,
    learn: bool,
)
    ensures
        ctrl.after(grid, reported, target, dt, lo, hi, learn).ff != ctrl.ff ==> ({
            &&& learn
            &&& reported.is_finite()
            &&& reported.le(Num::Fin(0))
            &&& grid.is_finite()
            &&& Num::Fin(0).lt(dt)
            &&& ctrl.kind is Adaptive
            &&& ctrl.kind->Adaptive_0.mode != FfMode::Frozen
            &&& target.minus(grid).abs().le(ctrl.kind->Adaptive_0.steady_band_w)
            &&& ctrl.prev_x is Some
            &&& reported.abs().minus(ctrl.prev_x->0).abs().le(
                ctrl.kind->Adaptive_0.steady_band_w,
            )
        }),
{
}

/// A tick that is unfit to learn from leaves what the model says untouched: its offset,
/// its slope, and its confidence at every throughput.
pub proof fn unfit_tick_leaves_the_model(
    ctrl: Controller,
    c: AdaptiveCfg,
    grid: Num,
    reported: Num,
    target: Num,
    dt: Num,
    lo: Num,
    hi: Num,
    learn: bool,
    throughput: Num,
)
    requires
        ctrl.kind == Kind::Adaptive(c),
        !learn || c.mode == FfMode::Frozen || Num::Fin(0).lt(reported) || !reported.is_finite()
            || !grid.is_finite() || c.steady_band_w.lt(target.minus(grid).abs()) || dt.le(
            Num::Fin(0),
        ),
    ensures
        ctrl.after(grid, reported, target, dt, lo, hi, learn).ff == ctrl.ff,
        ctrl.after(grid, reported, target, dt, lo, hi, learn).ff_snapshot(throughput)
            == ctrl.ff_snapshot(throughput),
{
}

/// The covariance of the model stays bounded through every tick.
pub proof fn model_stays_bounded(
    ctrl: Controller,
    grid: Num,
    reported: Num,
    target: Num,
    dt: Num,
    lo: Num,
    hi: Num,
    learn: bool,
)
    requires
        ctrl.ff.wf(),
    ensures
        ctrl.after(grid, reported, target, dt, lo, hi, learn).ff.wf(),
{
    if let Kind::Adaptive(c) = ctrl.kind {
        crate::rls::covariance_stays_bounded(
            ctrl.ff,
            reported.abs(),
            bias(c, ctrl.ff, ctrl.integral(grid, target, dt), reported.abs()),
        );
    }
}

/// The weight that confidence gives the model lies between nothing and all of it.
pub proof fn authority_is_a_fraction(c: AdaptiveCfg, ff: RlsModel, x: Num)
    requires
        c.conf_scale_w.is_finite(),
        Num::Fin(0).lt(c.conf_scale_w),
    ensures
        Num::Fin(0).le(authority(c, ff, x)),
        authority(c, ff, x).le(Num::Fin(1_000_000)),
{
    let k = c.conf_scale_w;
    let sigma = ff.deviation(x);
    let sum = k.plus(sigma);
    crate::fine::root_is_not_negative(ff.pred_var(x));
    if sum.is_finite() {
        let n = k.micros();
        let d = sum.micros();
        crate::num::round_div_is_monotone(0, n * 1_000_000, d);
        crate::num::round_div_is_monotone(n * 1_000_000, d * 1_000_000, d);
        vstd::arithmetic::div_mod::lemma_div_pos_is_pos(d / 2, d);
        crate::fine::quotient_is_no_larger(0, d);
        crate::num::round_div_error(d * 1_000_000, d);
        let q = crate::num::round_div(d * 1_000_000, d);
        assert(q <= 1_000_000) by (nonlinear_arith)
            requires
                2 * (q * d - d * 1_000_000) <= d,
                d >= 1,
        ;
    }
}

/// What one tick hands to the control law.
pub struct Tick {
    pub grid: Num,
    pub reported: Num,
    pub target: Num,
    pub dt: Num,
    pub lo: Num,
    pub hi: Num,
    pub learn: bool,
}

impl Controller {
    /// The command of a tick.
    pub open spec fn commands(self, k: Tick) -> Num {
        self.command(k.grid, k.reported, k.target, k.dt, k.lo, k.hi)
    }

    /// The state after each of the ticks in turn.
    pub open spec fn after_all(self, ticks: Seq<Tick>) -> Controller
        decreases ticks.len(),
    {
        if ticks.len() == 0 {
            self
        } else {
            let k = ticks.last();
            self.after_all(ticks.drop_last()).after(
                k.grid,
                k.reported,
                k.target,
                k.dt,
                k.lo,
                k.hi,
                k.learn,
            )
        }
    }
}

/// While it only learns, the adaptive law commands what `Pi` with the same gain, rail
/// and integral would, whatever number the model predicts.
pub proof fn learn_only_acts_as_pi(
    ctrl: Controller,
    c: AdaptiveCfg,
    grid: Num,
    reported: Num,
    target: Num,
    dt: Num,
    lo: Num,
    hi: Num,
)
    requires
        ctrl.kind == Kind::Adaptive(c),
        c.mode == FfMode::Observe,
        reported.is_finite() ==> ctrl.ff.predict(reported.abs()).is_finite(),
    ensures
        ctrl.command(grid, reported, target, dt, lo, hi) == (Controller {
            kind: Kind::Pi { ki: c.ki, i_max: c.i_max },
            ..ctrl
        }).command(grid, reported, target, dt, lo, hi),
{
    assert(0 * ctrl.ff.predict(reported.abs()).micros() == 0) by (nonlinear_arith);
}

/// The largest slope whose product with every throughput can be held: 9000.
pub const SLOPE_MAX: i64 = 9_000_000_000;

/// Does the model predict a number at every throughput? A fresh one does whose seed has
/// a slope that can be held, and a taught one, whose parameters are on their rails.
pub open spec fn predicts_numbers(ff: RlsModel) -> bool {
    &&& ff.a is Fin && -0x1_0000_0000_0000_0000_0000_0000 <= ff.a.count()
        <= 0x1_0000_0000_0000_0000_0000_0000
    &&& ff.b is Fin && -SLOPE_MAX * 1_000_000_000 <= ff.b.count() <= SLOPE_MAX * 1_000_000_000
}

proof fn prediction_is_a_number(ff: RlsModel, x: Num)
    requires
        predicts_numbers(ff),
        x.is_finite(),
    ensures
        ff.predict(x).is_finite(),
{
    let b = ff.b.count();
    let m = x.micros();
    let most = 9_000_000_000_000_000_000 * 0x8000_0000_0000_0000;
    assert(-most <= b * m <= most) by (nonlinear_arith)
        requires
            -9_000_000_000_000_000_000 <= b <= 9_000_000_000_000_000_000,
            -0x8000_0000_0000_0000 <= m <= 0x8000_0000_0000_0000,
            most == 9_000_000_000_000_000_000 * 0x8000_0000_0000_0000,
    ;
    crate::fine::quotient_is_no_larger(b * m, 1_000_000);
    crate::num::round_div_error(b * m, 1_000_000);
}

/// A whole run that only learns is a run of `Pi`: from fresh controllers, with any seed
/// whose slope can be held, the two give the same command in every tick, whatever is read
/// and whatever the model learns meanwhile.
pub proof fn learn_only_runs_as_pi(c: AdaptiveCfg, ticks: Seq<Tick>, k: Tick)
    requires
        c.mode == FfMode::Observe,
        c.a0.is_finite(),
        c.b0.is_finite(),
        c.b0.abs().le(Num::Fin(SLOPE_MAX)),
    ensures
        ({
            let adaptive = Controller::fresh(Kind::Adaptive(c)).after_all(ticks);
            let pi = Controller::fresh(Kind::Pi { ki: c.ki, i_max: c.i_max }).after_all(ticks);
            adaptive.commands(k) == pi.commands(k)
        }),
{
    observing_run_keeps_step(c, ticks);
    let adaptive = Controller::fresh(Kind::Adaptive(c)).after_all(ticks);
    if k.reported.is_finite() {
        prediction_is_a_number(adaptive.ff, k.reported.abs());
    }
    learn_only_acts_as_pi(adaptive, c, k.grid, k.reported, k.target, k.dt, k.lo, k.hi);
}

/// Through such a run the integrals stay equal, and the model goes on predicting numbers.
proof fn observing_run_keeps_step(c: AdaptiveCfg, ticks: Seq<Tick>)
    requires
        c.mode == FfMode::Observe,
        c.a0.is_finite(),
        c.b0.is_finite(),
        c.b0.abs().le(Num::Fin(SLOPE_MAX)),
    ensures
        ({
            let adaptive = Controller::fresh(Kind::Adaptive(c)).after_all(ticks);
            let pi = Controller::fresh(Kind::Pi { ki: c.ki, i_max: c.i_max }).after_all(ticks);
            &&& adaptive.kind == Kind::Adaptive(c)
            &&& pi.kind == Kind::Pi { ki: c.ki, i_max: c.i_max }
            &&& adaptive.i == pi.i
            &&& predicts_numbers(adaptive.ff)
        }),
    decreases ticks.len(),
{
    if ticks.len() > 0 {
        observing_run_keeps_step(c, ticks.drop_last());
        let adaptive = Controller::fresh(Kind::Adaptive(c)).after_all(ticks.drop_last());
        let k = ticks.last();
        let x = k.reported.abs();
        let y = bias(c, adaptive.ff, adaptive.integral(k.grid, k.target, k.dt), x);
        if adaptive.ff.takes(x, y) {
            crate::rls::parameters_stay_on_rails(adaptive.ff, x, y);
        }
    }
}

/// A model that starts without a seed is empty: the first command is that of `Pi`.
pub proof fn cold_start_acts_as_pi(
    c: AdaptiveCfg,
    grid: Num,
    reported: Num,
    target: Num,
    dt: Num,
    lo: Num,
    hi: Num,
)
    requires
        c.a0 == Num::Fin(0),
        c.b0 == Num::Fin(0),
        c.conf_scale_w.is_finite(),
        Num::Fin(0).lt(c.conf_scale_w),
    ensures
        Controller::fresh(Kind::Adaptive(c)).command(grid, reported, target, dt, lo, hi)
            == Controller::fresh(Kind::Pi { ki: c.ki, i_max: c.i_max }).command(
            grid,
            reported,
            target,
            dt,
            lo,
            hi,
        ),
{
    let ff = Controller::fresh(Kind::Adaptive(c)).ff;
    let x = reported.abs();
    authority_is_a_fraction(c, ff, x);
    if x.is_finite() {
        assert(0 * x.micros() == 0) by (nonlinear_arith);
        let k = authority(c, ff, x).micros();
        assert(k * 0 == 0) by (nonlinear_arith);
    }
}

/// Handing authority from the integral to the model leaves the applied bias where it
/// was, up to two millionths of rounding, as long as the integral does not hit a rail.
pub proof fn hand_over_keeps_the_bias(
    ctrl: Controller,
    c: AdaptiveCfg,
    grid: Num,
    reported: Num,
    target: Num,
    dt: Num,
)
    requires
        ctrl.kind == Kind::Adaptive(c),
        c.mode == FfMode::Apply,
        ctrl.learns(grid, reported, target, dt, true),
        ctrl.integral(grid, target, dt).is_finite(),
        ({
            let x = reported.abs();
            let k = authority(c, ctrl.ff, x);
            let m = ctrl.ff.predict(x);
            let m_new = ctrl.model_after(grid, reported, target, dt, true).predict(x);
            let i = ctrl.integral(grid, target, dt).minus(k.times(m_new.minus(m)));
            &&& k.times(m).is_inside()
            &&& k.times(m_new).is_inside()
            &&& m_new.minus(m).is_inside()
            &&& k.times(m_new.minus(m)).is_inside()
            &&& i.is_inside()
            &&& c.i_max.neg().le(i)
            &&& i.le(c.i_max)
        }),
    ensures
        ({
            let x = reported.abs();
            let k = authority(c, ctrl.ff, x);
            let m = ctrl.ff.predict(x);
            let m_new = ctrl.model_after(grid, reported, target, dt, true).predict(x);
            let before = k.times(m).micros() + ctrl.integral(grid, target, dt).micros();
            let after = k.times(m_new).micros() + ctrl.integral_left(
                grid,
                reported,
                target,
                dt,
                true,
            ).micros();
            -2 <= after - before <= 2
        }),
{
    let x = reported.abs();
    let k = authority(c, ctrl.ff, x).micros();
    let a = ctrl.ff.predict(x).micros();
    let b = ctrl.model_after(grid, reported, target, dt, true).predict(x).micros();
    crate::num::round_div_error(k * a, 1_000_000);
    crate::num::round_div_error(k * b, 1_000_000);
    crate::num::round_div_error(k * (b - a), 1_000_000);
    assert(k * (b - a) == k * b - k * a) by (nonlinear_arith);
}

/// The bound that a value is held to, in counts.
pub open spec fn held_between(x: int, lo: int, hi: int) -> int {
    if x < lo {
        lo
    } else if x > hi {
        hi
    } else {
        x
    }
}

/// The stock law closes the whole error at once: the command differs from the reported
/// power by what the grid is short of its target, as far as the bounds allow.
pub proof fn stock_command_closes_the_error(
    ctrl: Controller,
    grid: i64,
    reported: i64,
    target: i64,
    dt: Num,
    lo: i64,
    hi: i64,
)
    requires
        ctrl.kind is Stock,
        moderate(Num::Fin(grid)),
        moderate(Num::Fin(reported)),
        moderate(Num::Fin(target)),
        lo <= hi,
    ensures
        ({
            let cmd = ctrl.command(
                Num::Fin(grid),
                Num::Fin(reported),
                Num::Fin(target),
                dt,
                Num::Fin(lo),
                Num::Fin(hi),
            );
            &&& cmd is Fin
            &&& lo <= cmd->Fin_0 <= hi
            &&& lo < cmd->Fin_0 < hi ==> grid + (cmd->Fin_0 - reported) == target
            &&& cmd->Fin_0 == lo && lo < hi ==> grid + (lo - reported) >= target
            &&& cmd->Fin_0 == hi && lo < hi ==> grid + (hi - reported) <= target
        }),
{
}

/// The true integral steps by its gain: inside the bounds the command differs from the
/// one held before (at first, from the stock law's) by the gain times the grid error,
/// against the error, and becomes the one that is held.
#[verifier::spinoff_prover]
#[verifier::rlimit(40)]
pub proof fn true_integral_steps_by_its_gain(
    ctrl: Controller,
    ki: i64,
    held: i64,
    grid: i64,
    reported: i64,
    target: i64,
    dt: Num,
    lo: i64,
    hi: i64,
    learn: bool,
)
    requires
        ctrl.kind == (Kind::TrueIntegral { ki: Num::Fin(ki) }),
        moderate(Num::Fin(grid)),
        moderate(Num::Fin(reported)),
        moderate(Num::Fin(target)),
        moderate(Num::Fin(held)),
        ctrl.cmd == Some(Num::Fin(held)) || (ctrl.cmd is None && held == target - grid + reported),
        -1_000_000_000_000_000_000_000_000 <= ki * (grid - target)
            <= 1_000_000_000_000_000_000_000_000,
        lo <= hi,
    ensures
        ({
            let (g, r, t, l, h) = (
                Num::Fin(grid),
                Num::Fin(reported),
                Num::Fin(target),
                Num::Fin(lo),
                Num::Fin(hi),
            );
            let cmd = ctrl.command(g, r, t, dt, l, h);
            let step = ki * (grid - target);
            &&& cmd is Fin
            &&& lo <= cmd->Fin_0 <= hi
            &&& ctrl.after(g, r, t, dt, l, h, learn).cmd == Some(cmd)
            &&& lo < cmd->Fin_0 < hi ==> near(
                2_000_000 * (held - cmd->Fin_0),
                2 * step,
                1_000_000,
            )
            &&& cmd->Fin_0 == lo && lo < hi ==> 2_000_000 * (held - lo) <= 2 * step + 1_000_000
            &&& cmd->Fin_0 == hi && lo < hi ==> 2_000_000 * (held - hi) >= 2 * step - 1_000_000
        }),
{
    let e = (grid - target) as i64;
    products_are_rounded(ki, e);
    sums_are_exact(grid, target);
}

/// What a law with a residual integral has: its gain and its rail.
pub open spec fn has_integral(kind: Kind, ki: i64, i_max: i64) -> bool {
    match kind {
        Kind::Pi { ki: k, i_max: m } => k == Num::Fin(ki) && m == Num::Fin(i_max),
        Kind::Adaptive(c) => c.ki == Num::Fin(ki) && c.i_max == Num::Fin(i_max),
        _ => false,
    }
}

/// The residual integral gains the error times its gain times the time that passed, and
/// stops at its rails.
#[verifier::spinoff_prover]
#[verifier::rlimit(40)]
pub proof fn integral_gains_error_times_time(
    ctrl: Controller,
    ki: i64,
    i_max: i64,
    i: i64,
    grid: i64,
    target: i64,
    dt: i64,
)
    requires
        has_integral(ctrl.kind, ki, i_max),
        0 <= i_max <= 1_000_000_000_000_000_000,
        ctrl.i == Num::Fin(i),
        moderate(Num::Fin(i)),
        moderate(Num::Fin(grid)),
        moderate(Num::Fin(target)),
        0 < dt <= 1_000_000_000_000,
        -1_000_000_000_000_000_000 <= ki * (target - grid) <= 1_000_000_000_000_000_000,
    ensures
        ({
            let next = ctrl.integral(Num::Fin(grid), Num::Fin(target), Num::Fin(dt));
            let gain = (ki * (target - grid)) * dt;
            let slack = 1_000_000_000_000 + 1_000_000 * dt;
            &&& next is Fin
            &&& -i_max <= next->Fin_0 <= i_max
            &&& -i_max < next->Fin_0 < i_max ==> near(
                2_000_000_000_000 * (next->Fin_0 - i),
                2 * gain,
                slack,
            )
            &&& next->Fin_0 == i_max && i_max > 0 ==> 2_000_000_000_000 * (i_max - i) <= 2 * gain
                + slack
            &&& next->Fin_0 == -i_max && i_max > 0 ==> 2_000_000_000_000 * (-i_max - i) >= 2 * gain
                - slack
        }),
{
    let e = (target - grid) as i64;
    let p = ki * (target - grid);
    sums_are_exact(target, grid);
    products_are_rounded(ki, e);
    let q = Num::Fin(ki).times(Num::Fin(e))->Fin_0;
    let err = 2_000_000 * q - 2 * p;
    assert(-1_000_000_000_001 <= q <= 1_000_000_000_001);
    let n = q * dt;
    assert(-1_000_000_000_001_000_000_000_000 <= n <= 1_000_000_000_001_000_000_000_000)
        by (nonlinear_arith)
        requires
            n == q * dt,
            -1_000_000_000_001 <= q <= 1_000_000_000_001,
            0 < dt <= 1_000_000_000_000,
    ;
    products_are_rounded(q, dt);
    let r = Num::Fin(q).times(Num::Fin(dt))->Fin_0;
    let x = err * dt;
    assert(-(1_000_000 * dt) <= x <= 1_000_000 * dt) by (nonlinear_arith)
        requires
            x == err * dt,
            -1_000_000 <= err <= 1_000_000,
            dt > 0,
    ;
    assert(2_000_000 * n == 2 * (p * dt) + x) by (nonlinear_arith)
        requires
            n == q * dt,
            err == 2_000_000 * q - 2 * p,
            x == err * dt,
    ;
    assert(near(2_000_000_000_000 * r, 2 * (p * dt), 1_000_000_000_000 + 1_000_000 * dt));
}

/// The integral is held through a tick that took no time, and through an error that is
/// no number.
pub proof fn integral_is_held_without_time_or_error(ctrl: Controller, grid: Num, target: Num, dt: Num)
    requires
        dt.le(Num::Fin(0)) || dt.is_nan() || !grid.is_finite() || !target.is_finite(),
    ensures
        ctrl.integral(grid, target, dt) == ctrl.i,
{
}

/// `Pi` commands the stock law's value plus its integral, the present error counted in.
pub proof fn pi_adds_its_integral(
    ctrl: Controller,
    i: i64,
    grid: i64,
    reported: i64,
    target: i64,
    dt: Num,
    lo: i64,
    hi: i64,
    learn: bool,
)
    requires
        ctrl.kind is Pi,
        moderate(Num::Fin(grid)),
        moderate(Num::Fin(reported)),
        moderate(Num::Fin(target)),
        moderate(Num::Fin(i)),
        ctrl.integral(Num::Fin(grid), Num::Fin(target), dt) == Num::Fin(i),
        lo <= hi,
    ensures
        ({
            let (g, r, t, l, h) = (
                Num::Fin(grid),
                Num::Fin(reported),
                Num::Fin(target),
                Num::Fin(lo),
                Num::Fin(hi),
            );
            &&& ctrl.command(g, r, t, dt, l, h) == Num::Fin(
                held_between(target - grid + reported + i, lo as int, hi as int) as i64,
            )
            &&& ctrl.after(g, r, t, dt, l, h, learn).i == Num::Fin(i)
        }),
{
}

/// The adaptive law commands the stock law's value plus its integral plus the model's
/// prediction by its weight: all of it where it is frozen, none where it only learns, and
/// else the share that its confidence gives, `scale / (scale + sigma)`.
#[verifier::spinoff_prover]
#[verifier::rlimit(40)]
pub proof fn adaptive_command_carries_the_model(
    ctrl: Controller,
    c: AdaptiveCfg,
    i: i64,
    m: i64,
    scale: i64,
    sigma: i64,
    grid: i64,
    reported: i64,
    target: i64,
    dt: Num,
    lo: i64,
    hi: i64,
)
    requires
        ctrl.kind == Kind::Adaptive(c),
        moderate(Num::Fin(grid)),
        moderate(Num::Fin(reported)),
        moderate(Num::Fin(target)),
        moderate(Num::Fin(i)),
        moderate(Num::Fin(m)),
        ctrl.integral(Num::Fin(grid), Num::Fin(target), dt) == Num::Fin(i),
        ctrl.ff.predict(
            Num::Fin(
                if reported < 0 {
                    (-reported) as i64
                } else {
                    reported
                },
            ),
        ) == Num::Fin(m),
        ctrl.ff.deviation(
            Num::Fin(
                if reported < 0 {
                    (-reported) as i64
                } else {
                    reported
                },
            ),
        ) == Num::Fin(sigma),
        c.conf_scale_w == Num::Fin(scale),
        0 < scale <= 1_000_000_000_000_000_000,
        0 <= sigma <= 1_000_000_000_000_000_000,
    ensures
        ({
            let cmd = ctrl.command(
                Num::Fin(grid),
                Num::Fin(reported),
                Num::Fin(target),
                dt,
                Num::Fin(lo),
                Num::Fin(hi),
            );
            let extra = cmd->Fin_0 - (target - grid + reported) - i;
            lo < cmd->Fin_0 < hi ==> ({
                &&& cmd is Fin
                &&& c.mode == FfMode::Frozen ==> extra == m
                &&& c.mode == FfMode::Observe ==> extra == 0
                &&& c.mode == FfMode::Apply ==> exists|w: int|
                    0 <= w <= 1_000_000 && near(
                        2 * (w * (scale + sigma)),
                        2_000_000 * scale,
                        scale + sigma,
                    ) && near(2_000_000 * extra, 2 * #[trigger] (w * m), 1_000_000)
            })
        }),
{
    let x = Num::Fin(reported).abs();
    sums_are_exact(reported, 0);
    sums_are_exact(scale, sigma);
    let sum = (scale + sigma) as i64;
    authority_is_a_fraction(c, ctrl.ff, x);
    let w = authority(c, ctrl.ff, x)->Fin_0;
    assert(authority(c, ctrl.ff, x) is Fin);
    let n = w * m;
    assert(-1_000_000_000_000_000_000_000_000 <= n <= 1_000_000_000_000_000_000_000_000)
        by (nonlinear_arith)
        requires
            n == w * m,
            0 <= w <= 1_000_000,
            -1_000_000_000_000_000_000 <= m <= 1_000_000_000_000_000_000,
    ;
    products_are_rounded(w, m);
    if c.mode == FfMode::Apply {
        assert(scale * 1_000_000 <= 9_000_000_000_000_000_000 * sum) by (nonlinear_arith)
            requires
                0 < scale <= sum,
        ;
        assert(scale * 1_000_000 >= -9_000_000_000_000_000_000 * sum) by (nonlinear_arith)
            requires
                0 < scale <= sum,
        ;
        quotients_are_rounded(scale, sum);
        assert(near(2 * (w * (scale + sigma)), 2_000_000 * scale, scale + sigma));
    }
    if c.mode == FfMode::Frozen {
        assert(crate::num::round_div(1_000_000 * m, 1_000_000) == m);
    }
    if c.mode == FfMode::Observe {
        assert(w * m == 0) by (nonlinear_arith)
            requires
                w == 0,
        ;
    }
    let k = w as int;
    assert(near(2_000_000 * (Num::Fin(w).times(Num::Fin(m))->Fin_0), 2 * (k * m), 1_000_000));
}

/// The model learns what the loop applies: a tick that is fit for it (driven by us, not
/// frozen, settled, not charging, time passed) teaches it, at the present throughput, the
/// bias by which the command exceeded the stock law. Any other tick teaches it nothing.
#[verifier::spinoff_prover]
#[verifier::rlimit(40)]
pub proof fn model_learns_the_applied_bias(
    ctrl: Controller,
    c: AdaptiveCfg,
    band: i64,
    prev: i64,
    grid: i64,
    reported: i64,
    target: i64,
    dt: i64,
    lo: i64,
    hi: i64,
    learn: bool,
)
    requires
        ctrl.kind == Kind::Adaptive(c),
        c.steady_band_w == Num::Fin(band),
        ctrl.prev_x == Some(Num::Fin(prev)),
        moderate(Num::Fin(grid)),
        moderate(Num::Fin(reported)),
        moderate(Num::Fin(target)),
        moderate(Num::Fin(prev)),
        lo <= hi,
    ensures
        ({
            let (g, r, t, d, l, h) = (
                Num::Fin(grid),
                Num::Fin(reported),
                Num::Fin(target),
                Num::Fin(dt),
                Num::Fin(lo),
                Num::Fin(hi),
            );
            let x: int = if reported < 0 {
                -reported
            } else {
                reported as int
            };
            let cmd = ctrl.command(g, r, t, d, l, h);
            let next = ctrl.after(g, r, t, d, l, h, learn);
            let fit = learn && c.mode != FfMode::Frozen && reported <= 0 && dt > 0 && near(
                target as int,
                grid as int,
                band as int,
            ) && near(x, prev as int, band as int);
            &&& !fit ==> next.ff == ctrl.ff
            &&& fit && lo < cmd->Fin_0 < hi && moderate(
                ctrl.integral(g, t, d),
            ) && moderate(ctrl.ff.predict(Num::Fin(x as i64))) && (c.mode == FfMode::Observe || (
            moderate(c.conf_scale_w) && Num::Fin(0).lt(c.conf_scale_w))) ==> next.ff
                == ctrl.ff.taught(
                Num::Fin(x as i64),
                Num::Fin((cmd->Fin_0 - (target - grid + reported)) as i64),
            )
            &&& next.prev_x == Some(Num::Fin(x as i64))
        }),
{
    let x = Num::Fin(reported).abs();
    sums_are_exact(reported, 0);
    sums_are_exact(target, grid);
    let xx: i64 = x->Fin_0;
    sums_are_exact(xx, prev);
    let m = ctrl.ff.predict(x);
    let w = authority(c, ctrl.ff, x);
    if moderate(m) && (c.mode == FfMode::Observe || (moderate(c.conf_scale_w) && Num::Fin(0).lt(
        c.conf_scale_w,
    ))) {
        if c.mode != FfMode::Observe {
            authority_is_a_fraction(c, ctrl.ff, x);
        }
        let a = w->Fin_0;
        let b = m->Fin_0;
        let n = a * b;
        assert(-1_000_000_000_000_000_000_000_000 <= n <= 1_000_000_000_000_000_000_000_000)
            by (nonlinear_arith)
            requires
                n == a * b,
                0 <= a <= 1_000_000,
                -1_000_000_000_000_000_000 <= b <= 1_000_000_000_000_000_000,
        ;
        products_are_rounded(a, b);
    }
}

/// A reset forgets what winds up and keeps what was learned.
pub proof fn reset_keeps_only_the_law_and_the_model(ctrl: Controller)
    ensures
        ctrl.cleared().kind == ctrl.kind,
        ctrl.cleared().ff == ctrl.ff,
        ctrl.cleared().cmd is None,
        ctrl.cleared().prev_x is None,
        ctrl.cleared().i == Num::Fin(0),
{
}

/// What is shown of the model: its offset and its slope as they are, and the share of
/// authority that its confidence gives at the throughput, `scale / (scale + sigma)`;
/// other laws show nothing.
pub proof fn snapshot_shows_the_model(
    ctrl: Controller,
    c: AdaptiveCfg,
    a: i64,
    b: i64,
    scale: i64,
    sigma: i64,
    x: i64,
)
    requires
        ctrl.kind == Kind::Adaptive(c),
        ctrl.ff.a == crate::fine::Fine::of(Num::Fin(a)),
        ctrl.ff.b == crate::fine::Fine::of(Num::Fin(b)),
        c.conf_scale_w == Num::Fin(scale),
        0 < scale <= 1_000_000_000_000_000_000,
        0 <= sigma <= 1_000_000_000_000_000_000,
        x >= 0,
        ctrl.ff.deviation(Num::Fin(x)) == Num::Fin(sigma),
    ensures
        ({
            let s = ctrl.ff_snapshot(Num::Fin(x));
            &&& s is Some
            &&& s->0.a == Num::Fin(a)
            &&& s->0.b == Num::Fin(b)
            &&& s->0.conf is Fin
            &&& near(2 * (s->0.conf->Fin_0 * (scale + sigma)), 2_000_000 * scale, scale + sigma)
            &&& x > 0 ==> ctrl.ff_snapshot(Num::Fin((-x) as i64)) == s
        }),
        (Controller { kind: Kind::Stock, ..ctrl }).ff_snapshot(Num::Fin(x)) is None,
{
    crate::fine::units_and_quantities_agree(a, 0);
    crate::fine::units_and_quantities_agree(b, 0);
    sums_are_exact(scale, sigma);
    let sum = (scale + sigma) as i64;
    assert(scale * 1_000_000 <= 9_000_000_000_000_000_000 * sum) by (nonlinear_arith)
        requires
            0 < scale <= sum,
    ;
    assert(scale * 1_000_000 >= -9_000_000_000_000_000_000 * sum) by (nonlinear_arith)
        requires
            0 < scale <= sum,
    ;
    quotients_are_rounded(scale, sum);
}

} // verus!
